//! The failure taxonomy of a run.
//!
//! Every failure is surfaced, never retried: a selection that found no
//! eligible task leaves the loop waiting for a manual reroll, while a failed
//! tracker call or a failed interactive program terminates the run.

use vstd::prelude::*;

verus! {

/// What went wrong during a run.
#[derive(Clone, Copy, Debug, PartialEq, Eq, Structural)]
pub enum RunError {
    /// No eligible candidate: the candidate set was empty, every weight was
    /// zero, or the weights could not be summed.
    SelectionFailure,
    /// A tracker invocation failed.
    ExternalCallFailure,
    /// A staged interactive program exited with a failure status.
    InteractiveProgramFailure,
}

impl RunError {
    /// A short description for display.
    pub fn message(&self) -> (m: &'static str)
        ensures
            *self is SelectionFailure ==> m@ == "could not choose a task"@,
            *self is ExternalCallFailure ==> m@ == "external tracker call failed"@,
            *self is InteractiveProgramFailure ==> m@ == "interactive command failed"@,
    {
        match self {
            RunError::SelectionFailure => "could not choose a task",
            RunError::ExternalCallFailure => "external tracker call failed",
            RunError::InteractiveProgramFailure => "interactive command failed",
        }
    }
}

} // verus!
