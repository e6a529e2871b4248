//! Errors of the command layer.

use vstd::prelude::*;

verus! {

/// Outcome of a command.
pub type CommandResult<T> = Result<T, AgentrixError>;

/// What can go wrong while executing a command.
#[derive(Debug, Clone, Copy, PartialEq, Eq, Structural)]
pub enum AgentrixError {
    /// The greeting could not be produced.
    GreetingUnavailable,
}

impl AgentrixError {
    /// The message of the error.
    pub open spec fn message_spec(&self) -> Seq<char> {
        match self {
            AgentrixError::GreetingUnavailable => "greeting is currently unavailable"@,
        }
    }

    /// Renders the error for the caller.
    pub fn message(&self) -> (r: String)
        ensures
            r@ == self.message_spec(),
    {
        match self {
            AgentrixError::GreetingUnavailable => "greeting is currently unavailable".to_owned(),
        }
    }
}

} // verus!
