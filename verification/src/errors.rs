//! Failure taxonomy of the runtime.
//!
//! A poisoned lock is local to the cell whose guarded value was left torn by
//! an abnormally terminated exclusive access; other cells stay usable.
//! Terminal setup and teardown failures are fatal to the whole loop: it
//! cannot safely continue without a known terminal mode.

use vstd::prelude::*;

verus! {

/// A failure reported by the runtime.
#[derive(Clone, Copy, Debug, PartialEq, Eq, Structural)]
pub enum Error {
    /// A state cell's guarded value was left inconsistent by an abnormally
    /// terminated exclusive access. Scoped to that cell.
    LockPoisoned,
    /// The terminal could not be switched into the runtime's mode. Fatal.
    TerminalSetupFailure,
    /// The terminal could not be restored to its original mode. Fatal.
    TerminalTeardownFailure,
}

impl Error {
    /// Whether the failure is fatal to the whole loop, rather than scoped to
    /// one cell.
    pub fn is_fatal(&self) -> (r: bool)
        ensures
            r == (*self != Error::LockPoisoned),
    {
        match self {
            Error::LockPoisoned => false,
            Error::TerminalSetupFailure => true,
            Error::TerminalTeardownFailure => true,
        }
    }

    /// A short description of the failure.
    pub fn describe(&self) -> &'static str {
        match self {
            Error::LockPoisoned => "a state cell was poisoned by an aborted exclusive access",
            Error::TerminalSetupFailure => "the terminal could not be set up",
            Error::TerminalTeardownFailure => "the terminal could not be restored",
        }
    }
}

} // verus!
