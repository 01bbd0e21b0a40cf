//! Error taxonomy of the control core.
//!
//! Everything here is local and non-fatal: a failed start leaves the system
//! restartable, a rejected call is surfaced to the caller and nothing more.

use vstd::prelude::*;
use vstd::string::*;

verus! {

/// Error surfaced to the panel by the command layer.
#[derive(Debug, Clone, PartialEq, Eq)]
pub enum PpaassAgentUiError {
    /// The agent collaborator reported a failure.
    Agent(String),
    /// Anything else, such as a malformed input value.
    Other(String),
}

impl PpaassAgentUiError {
    /// The text the panel shows for this error.
    pub fn message(&self) -> (r: String)
        ensures
            r@ == match *self {
                PpaassAgentUiError::Agent(s) => "Agent error happen: "@ + s@,
                PpaassAgentUiError::Other(s) => "Other error happen: "@ + s@,
            },
    {
        match self {
            PpaassAgentUiError::Agent(s) => {
                let mut m = String::from_str("Agent error happen: ");
                m.append(s.as_str());
                m
            },
            PpaassAgentUiError::Other(s) => {
                let mut m = String::from_str("Other error happen: ");
                m.append(s.as_str());
                m
            },
        }
    }
}

/// Why a start request was not carried out.
#[derive(Debug, Clone, PartialEq, Eq)]
pub enum StartError {
    /// An agent instance is already starting, running or stopping; no second
    /// instance is ever spawned.
    AlreadyActive,
    /// The agent instance could not be constructed from the configuration.
    Construction(String),
}

/// Why a stop request was not carried out.
#[derive(Debug, Clone, Copy, PartialEq, Eq, Structural)]
pub enum StopError {
    /// No stoppable agent instance exists (or a stop is already in flight).
    NotRunning,
}

} // verus!
