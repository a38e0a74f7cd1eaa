//! The decision that the guard around a program's entry point takes once the
//! guarded body has ended.

use vstd::prelude::*;
use crate::marker::ErrataPanic;

verus! {

/// How the guarded body ended.
#[derive(Debug)]
pub enum Outcome {
    /// It ran to its end.
    Completed,
    /// It stopped with a termination marker.
    Failed(ErrataPanic),
    /// It stopped abnormally with anything else.
    Foreign,
}

/// What the guard does next.
#[derive(Debug)]
pub enum Action {
    /// Return to the caller as if nothing had been guarded.
    Return,
    /// Print `line` to the error stream and end the process with `status`.
    Exit { line: String, status: i32 },
    /// Hand the abnormal termination on, untouched.
    Propagate,
}

/// The status with which a clean failure ends the process.
pub const FAILURE_STATUS: i32 = 1;

/// Decides what follows an outcome: a completed body returns, a marker is
/// printed as it is and ends the process with `FAILURE_STATUS`, and any other
/// abnormal termination is handed on. A clean failure never ends the process
/// with status zero.
pub fn settle(outcome: Outcome) -> (action: Action)
    ensures
        match outcome {
            Outcome::Completed => action is Return,
            Outcome::Failed(marker) => action matches Action::Exit { line, status }
                && line@ == marker@ && status == FAILURE_STATUS && status != 0,
            Outcome::Foreign => action is Propagate,
        },
{
    match outcome {
        Outcome::Completed => Action::Return,
        Outcome::Failed(marker) => Action::Exit { line: marker.0, status: FAILURE_STATUS },
        Outcome::Foreign => Action::Propagate,
    }
}

} // verus!
