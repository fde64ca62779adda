//! Core of a lightweight host agent: each configured shell command runs on
//! its own schedule, its captured output is packed into a result record,
//! serialized as JSON and posted to a collector endpoint. This library holds
//! the verified logic: command-line splitting, record serialization, URL
//! construction, configuration validation and the per-command scheduling
//! state machine. Process I/O (spawning commands, HTTP delivery, timers)
//! lives outside the library and is driven by the actions the state machine
//! hands out.

pub mod command;
pub mod config;
pub mod json;
pub mod report;
pub mod scheduler;
pub mod text;
