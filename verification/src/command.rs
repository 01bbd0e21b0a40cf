//! Requests the panel sends to the runtime shell, and the wire wrappers
//! around request arguments and published events.

use vstd::prelude::*;

verus! {

/// The three requests the panel can make.
#[derive(Debug, Clone, Copy, PartialEq, Eq, Structural)]
pub enum UiBackendCommand {
    StartAgentServer,
    StopAgentServer,
    LoadAgentServerConifugration,
}

impl UiBackendCommand {
    /// The request name on the wire.
    pub open spec fn name_spec(self) -> Seq<char> {
        match self {
            UiBackendCommand::StartAgentServer => "start_agent_server"@,
            UiBackendCommand::StopAgentServer => "stop_agent_server"@,
            UiBackendCommand::LoadAgentServerConifugration => "load_agent_server_configuration"@,
        }
    }

    pub fn name(&self) -> (r: &str)
        ensures
            r@ == self.name_spec(),
    {
        match self {
            UiBackendCommand::StartAgentServer => "start_agent_server",
            UiBackendCommand::StopAgentServer => "stop_agent_server",
            UiBackendCommand::LoadAgentServerConifugration => "load_agent_server_configuration",
        }
    }
}

/// Argument wrapper of a request sent to the runtime shell.
#[derive(Debug, Clone, PartialEq, Eq)]
pub struct UiBackendCommandArgWrapper<T> {
    pub arg: T,
}

/// Payload wrapper of an event published to the panel.
#[derive(Debug, Clone, PartialEq, Eq)]
pub struct UiBackendEventWrapper<T> {
    pub payload: T,
}

/// Argument wrapper as the runtime shell receives it.
#[derive(Debug, Clone, PartialEq, Eq)]
pub struct UiArgument<T> {
    pub arg: T,
}

/// Argument wrapper as the panel sends it.
#[derive(Debug, Clone, PartialEq, Eq)]
pub struct FrontendArgument<T> {
    pub arg: T,
}

/// Event envelope as the panel receives it.
#[derive(Debug, Clone, PartialEq, Eq)]
pub struct BackendEvent<T> {
    pub payload: T,
}

} // verus!
