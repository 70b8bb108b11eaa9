//! The failure taxonomy of the engine.  Everything that can go wrong inside
//! a completion cycle is recovered locally — the loop never terminates for
//! one cycle's failure, and the user sees at most an absent or unchanged
//! suggestion.  Only a setup failure (the event source or another required
//! resource cannot be installed) is fatal, since the assistant cannot work
//! at all without it.

use vstd::prelude::*;

verus! {

/// What went wrong, and with which collaborator.
#[derive(Clone, Copy, Debug, PartialEq, Eq, Structural)]
pub enum FailureKind {
    /// No focused context could be captured: substitute empty text and
    /// continue.
    RecoverableCaptureFailure,
    /// The backend timed out, failed or answered without success: keep the
    /// prior suggestion and continue.
    RecoverableBackendFailure,
    /// The synthetic-input target accepted only part of an injection and a
    /// retry stalled too: abandon the remaining chunks rather than hang.
    RecoverableInjectionFailure,
    /// The event source or another required resource could not be
    /// installed: the assistant is non-functional.
    FatalSetupFailure,
}

impl FailureKind {
    /// All failures but a setup failure are absorbed where they occur.
    pub fn is_recoverable(&self) -> (r: bool)
        ensures
            r == !(*self is FatalSetupFailure),
    {
        match self {
            FailureKind::FatalSetupFailure => false,
            _ => true,
        }
    }
}

} // verus!
