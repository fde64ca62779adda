//! The per-command scheduling loop as a state machine. Each configured
//! command owns one loop that cycles through three phases: executing the
//! command, reporting its output, and sleeping out the configured interval.
//! The machine is pure: it consumes the outcome of the last action (an
//! event) and hands out the next action. The caller performs the actions —
//! spawning the process, issuing the HTTP POST, sleeping — and feeds the
//! outcomes back. Loops share nothing mutable: a step depends only on the
//! loop's own state, the event, and the read-only agent context, so no loop
//! can disturb another.

use vstd::prelude::*;
use crate::config::CommandSpec;
use crate::config::EndpointConfig;
use crate::report::build_record;
use crate::report::endpoint_url;
use crate::report::lossy_of;
use crate::report::record_json;
use crate::report::serialize_record;
use crate::report::url_of;

verus! {

/// Read-only data shared by every loop: the device identity resolved once at
/// startup and the collector endpoint.
pub struct AgentContext {
    pub device_id: String,
    pub endpoint: EndpointConfig,
}

/// Where a loop stands in its cycle.
#[derive(Clone, Copy, Debug, PartialEq, Eq, Structural)]
pub enum Phase {
    /// The command is being executed.
    Executing,
    /// The result is being delivered.
    Reporting,
    /// The interval sleep is running.
    Sleeping,
}

/// Why a cycle's execution produced no output.
#[derive(Clone, Copy, Debug, PartialEq, Eq, Structural)]
pub enum ExecError {
    /// The command line holds no tokens, so there is no program to run.
    EmptyCommand,
    /// The program could not be spawned or waited for.
    SpawnFailed,
}

/// Why a cycle's delivery failed before a status code came back.
#[derive(Clone, Copy, Debug, PartialEq, Eq, Structural)]
pub enum DeliveryError {
    /// The request could not be built or sent.
    SendFailed,
}

/// The outcome of the action a loop last handed out.
pub enum Event {
    /// Execution finished: the captured standard output, or why there is
    /// none.
    ExecDone(Result<Vec<u8>, ExecError>),
    /// Delivery finished: the response status code, or why none came back.
    ReportDone(Result<u16, DeliveryError>),
    /// The interval sleep ran to completion.
    SleepDone,
}

/// What a loop asks its caller to do next.
pub enum Action {
    /// Run this command line and report how it went.
    Run(String),
    /// POST this body to this URL and report how it went.
    Post { url: String, body: String },
    /// Sleep this many seconds and report completion.
    Sleep(u64),
}

/// One command's loop: the command entry it owns and where it stands in its
/// cycle.
pub struct LoopState {
    pub cmd: CommandSpec,
    pub phase: Phase,
}

/// Whether an event is the outcome of the action that the phase is waiting
/// on.
pub open spec fn event_fits(phase: Phase, ev: Event) -> bool {
    match (phase, ev) {
        (Phase::Executing, Event::ExecDone(_)) => true,
        (Phase::Reporting, Event::ReportDone(_)) => true,
        (Phase::Sleeping, Event::SleepDone) => true,
        _ => false,
    }
}

/// Runtime test for `event_fits`, for callers outside verified code.
pub fn event_matches(phase: Phase, ev: &Event) -> (r: bool)
    ensures
        r == event_fits(phase, *ev),
{
    match (phase, ev) {
        (Phase::Executing, Event::ExecDone(_)) => true,
        (Phase::Reporting, Event::ReportDone(_)) => true,
        (Phase::Sleeping, Event::SleepDone) => true,
        _ => false,
    }
}

/// An event that makes a cycle count as failed: the command could not run,
/// or delivery got no status back.
pub open spec fn is_failure(ev: Event) -> bool {
    match ev {
        Event::ExecDone(r) => r is Err,
        Event::ReportDone(r) => r is Err,
        Event::SleepDone => false,
    }
}

/// The phase a loop moves to on an event: a successful execution is
/// reported; a failed one skips its report and sleeps; any delivery outcome,
/// success or failure, sleeps; a completed sleep starts the next cycle.
pub open spec fn next_phase(phase: Phase, ev: Event) -> Phase {
    match (phase, ev) {
        (Phase::Executing, Event::ExecDone(Ok(_))) => Phase::Reporting,
        (Phase::Executing, Event::ExecDone(Err(_))) => Phase::Sleeping,
        (Phase::Reporting, Event::ReportDone(_)) => Phase::Sleeping,
        (Phase::Sleeping, Event::SleepDone) => Phase::Executing,
        _ => phase,
    }
}

/// What the action handed out on an event must be: after a successful
/// execution, the POST of the serialized record to the collector URL; after
/// a failed execution or any delivery outcome, the full interval sleep;
/// after a completed sleep, running the owned command again.
pub open spec fn action_for(ctx: &AgentContext, st: &LoopState, ev: Event, a: Action) -> bool {
    match (st.phase, ev) {
        (Phase::Executing, Event::ExecDone(Ok(out))) => a matches Action::Post { url, body }
            && url@ == url_of(ctx.endpoint.host@, ctx.endpoint.port) && body@ == record_json(
            st.cmd.command@,
            lossy_of(out@),
            ctx.device_id@,
        ),
        (Phase::Executing, Event::ExecDone(Err(_))) => a matches Action::Sleep(d) && d
            == st.cmd.interval_seconds,
        (Phase::Reporting, Event::ReportDone(_)) => a matches Action::Sleep(d) && d
            == st.cmd.interval_seconds,
        (Phase::Sleeping, Event::SleepDone) => a matches Action::Run(c) && c@ == st.cmd.command@,
        _ => false,
    }
}

/// Consumes the outcome of the last action and hands out the next one. The
/// command entry never changes hands: the loop keeps it for life.
pub fn step(ctx: &AgentContext, st: LoopState, ev: Event) -> (r: (LoopState, Action))
    requires
        event_fits(st.phase, ev),
    ensures
        r.0.cmd == st.cmd,
        r.0.phase == next_phase(st.phase, ev),
        action_for(ctx, &st, ev, r.1),
{
    match ev {
        Event::ExecDone(outcome) => match outcome {
            Ok(stdout) => {
                let record = build_record(
                    st.cmd.command.as_str(),
                    &stdout,
                    ctx.device_id.as_str(),
                );
                let body = serialize_record(&record);
                let url = endpoint_url(&ctx.endpoint);
                (LoopState { cmd: st.cmd, phase: Phase::Reporting }, Action::Post { url, body })
            },
            Err(_) => {
                let interval = st.cmd.interval_seconds;
                (LoopState { cmd: st.cmd, phase: Phase::Sleeping }, Action::Sleep(interval))
            },
        },
        Event::ReportDone(_) => {
            let interval = st.cmd.interval_seconds;
            (LoopState { cmd: st.cmd, phase: Phase::Sleeping }, Action::Sleep(interval))
        },
        Event::SleepDone => {
            let command = clone_string(&st.cmd.command);
            (LoopState { cmd: st.cmd, phase: Phase::Executing }, Action::Run(command))
        },
    }
}

/// A copy of `s` with the same characters.
fn clone_string(s: &String) -> (r: String)
    ensures
        r@ == s@,
{
    s.clone()
}

/// The action that starts a loop's first cycle: running its command.
pub fn start_action(st: &LoopState) -> (a: Action)
    requires
        st.phase is Executing,
    ensures
        a matches Action::Run(c) && c@ == st.cmd.command@,
{
    Action::Run(clone_string(&st.cmd.command))
}

/// One loop per configured command: the loop at each position owns exactly
/// the command entry at that position and starts in the executing phase.
pub fn init_loops(commands: Vec<CommandSpec>) -> (r: Vec<LoopState>)
    ensures
        r@.len() == commands@.len(),
        forall|i: int|
            0 <= i < r@.len() ==> (#[trigger] r@[i]).cmd == commands@[i] && r@[i].phase
                is Executing,
{
    let ghost all = commands@;
    let mut rest = commands;
    let mut r: Vec<LoopState> = Vec::new();
    proof {
        assert(rest@ =~= all.skip(0));
    }
    while rest.len() > 0
        invariant
            r@.len() + rest@.len() == all.len(),
            rest@ == all.skip(r@.len() as int),
            forall|i: int|
                0 <= i < r@.len() ==> (#[trigger] r@[i]).cmd == all[i] && r@[i].phase
                    is Executing,
        decreases rest@.len(),
    {
        let c = rest.remove(0);
        proof {
            assert(rest@ =~= all.skip(r@.len() as int + 1));
        }
        r.push(LoopState { cmd: c, phase: Phase::Executing });
    }
    r
}

/// Law: a failed execution or delivery never stops a loop. Any failure event
/// a phase can receive moves the loop to the sleeping phase, the only action
/// that can accompany it is the full interval sleep, and once that sleep
/// completes the loop is executing again and the only action it can hand out
/// runs its own command. A step depends only on the loop's own state, so one
/// loop's failure cannot reach any other loop.
pub proof fn lemma_failure_never_stops_loop(
    ctx: &AgentContext,
    st: &LoopState,
    ev: Event,
    a: Action,
)
    requires
        event_fits(st.phase, ev),
        is_failure(ev),
        action_for(ctx, st, ev, a),
    ensures
        next_phase(st.phase, ev) is Sleeping,
        a matches Action::Sleep(d) && d == st.cmd.interval_seconds,
        next_phase(Phase::Sleeping, Event::SleepDone) is Executing,
        forall|a2: Action|
            action_for(
                ctx,
                &(LoopState { cmd: st.cmd, phase: Phase::Sleeping }),
                Event::SleepDone,
                a2,
            ) ==> (a2 matches Action::Run(c) && c@ == st.cmd.command@),
{
}

/// Law: the configured interval is a lower bound on the cycle period. A run
/// action is handed out only for a completed sleep; under fitting events the
/// executing phase is entered only from the sleeping phase through a
/// completed sleep; and whenever a loop enters the sleeping phase, the
/// action it hands out sleeps for exactly its own configured interval. So
/// between one run of a command and the next lies a full interval sleep,
/// whatever time execution and delivery took on top of it.
pub proof fn lemma_run_only_after_full_sleep(
    ctx: &AgentContext,
    st: &LoopState,
    ev: Event,
    a: Action,
)
    requires
        event_fits(st.phase, ev),
        action_for(ctx, st, ev, a),
    ensures
        a matches Action::Run(_) ==> st.phase is Sleeping && ev is SleepDone,
        next_phase(st.phase, ev) is Executing ==> st.phase is Sleeping && ev is SleepDone,
        next_phase(st.phase, ev) is Sleeping ==> (a matches Action::Sleep(d) && d
            == st.cmd.interval_seconds),
{
}

/// The phase a loop is in after a sequence of events.
pub open spec fn phase_after(phase: Phase, evs: Seq<Event>) -> Phase
    decreases evs.len(),
{
    if evs.len() == 0 {
        phase
    } else {
        phase_after(next_phase(phase, evs[0]), evs.skip(1))
    }
}

/// Whether each event in the sequence fits the phase the loop is in when it
/// arrives.
pub open spec fn events_fit(phase: Phase, evs: Seq<Event>) -> bool
    decreases evs.len(),
{
    evs.len() == 0 || (event_fits(phase, evs[0]) && events_fit(
        next_phase(phase, evs[0]),
        evs.skip(1),
    ))
}

/// Law: no history of outcomes — failures included — can strand a loop:
/// after any fitting sequence of events, some event still fits the phase the
/// loop is in, so a next step always exists and the loop keeps cycling.
pub proof fn lemma_loop_never_stuck(phase: Phase, evs: Seq<Event>)
    requires
        events_fit(phase, evs),
    ensures
        exists|ev: Event| event_fits(phase_after(phase, evs), ev),
{
    let p = phase_after(phase, evs);
    match p {
        Phase::Executing => {
            assert(event_fits(p, Event::ExecDone(Err(ExecError::SpawnFailed))));
        },
        Phase::Reporting => {
            assert(event_fits(p, Event::ReportDone(Err(DeliveryError::SendFailed))));
        },
        Phase::Sleeping => {
            assert(event_fits(p, Event::SleepDone));
        },
    }
}

} // verus!
