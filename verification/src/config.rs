//! Configuration data for the agent: the collector endpoint, the list of
//! commands with their intervals, and the validation that every interval is
//! positive.

use vstd::prelude::*;

verus! {

/// One command to run periodically: the shell command line and the number of
/// seconds to sleep between the end of one cycle and the start of the next.
pub struct CommandSpec {
    pub command: String,
    pub interval_seconds: u64,
}

/// Where results are delivered: plain HTTP host and port.
pub struct EndpointConfig {
    pub host: String,
    pub port: u16,
}

/// The whole agent configuration: one endpoint shared by all loops and one
/// entry per command.
pub struct AgentConfig {
    pub endpoint: EndpointConfig,
    pub commands: Vec<CommandSpec>,
}

/// Why a configuration was rejected.
#[derive(Clone, Copy, Debug, PartialEq, Eq)]
pub enum ConfigError {
    /// The command at this position has a zero interval.
    ZeroInterval { index: usize },
}

impl CommandSpec {
    /// A command entry is well formed when its interval is positive.
    pub open spec fn wf(&self) -> bool {
        self.interval_seconds > 0
    }
}

impl AgentConfig {
    /// A configuration is well formed when every command entry is.
    pub open spec fn wf(&self) -> bool {
        forall|i: int| 0 <= i < self.commands@.len() ==> (#[trigger] self.commands@[i]).wf()
    }
}

/// Checks that every configured command has a positive interval, reporting
/// the first entry that does not.
pub fn validate_config(config: &AgentConfig) -> (r: Result<(), ConfigError>)
    ensures
        r is Ok <==> config.wf(),
        r matches Err(ConfigError::ZeroInterval { index }) ==> {
            &&& index < config.commands@.len()
            &&& config.commands@[index as int].interval_seconds == 0
            &&& forall|j: int| 0 <= j < index ==> (#[trigger] config.commands@[j]).wf()
        },
{
    let mut i: usize = 0;
    while i < config.commands.len()
        invariant
            i <= config.commands@.len(),
            forall|j: int| 0 <= j < i ==> (#[trigger] config.commands@[j]).wf(),
        decreases config.commands@.len() - i,
    {
        if config.commands[i].interval_seconds == 0 {
            return Err(ConfigError::ZeroInterval { index: i });
        }
        i += 1;
    }
    Ok(())
}

} // verus!
