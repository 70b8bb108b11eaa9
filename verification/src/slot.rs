//! The suggestion slot: the one shared string + lifecycle stage that crosses
//! the privileged input path and the orchestrator.

use vstd::prelude::*;

verus! {

/// Lifecycle stage of the shared suggestion slot.
#[derive(Clone, Copy, Debug, PartialEq, Eq, Structural)]
pub enum Stage {
    /// No suggestion is being produced or shown.
    Idle,
    /// A completion cycle has started but no text has arrived yet.
    Pending,
    /// Fragments of a streaming completion are being appended.
    Streaming,
    /// A finished suggestion is on display.
    Ready,
    /// The suggestion was accepted and injected.
    Consumed,
}

/// The single shared suggestion: ghost text plus its lifecycle stage.
///
/// One instance lives for the whole process; callers mutate it only under a
/// short-held lock, which the surrounding application supplies.
pub struct SuggestionSlot {
    pub text: String,
    pub stage: Stage,
}

impl SuggestionSlot {
    /// An idle slot never carries text.
    pub open spec fn wf(self) -> bool {
        self.stage is Idle ==> self.text@.len() == 0
    }

    /// Whether any ghost text is held (and so could be accepted or redrawn).
    pub open spec fn has_text(self) -> bool {
        self.text@.len() > 0
    }

    pub fn new() -> (s: Self)
        ensures
            s.wf(),
            s.stage is Idle,
            s.text@.len() == 0,
    {
        SuggestionSlot { text: String::new(), stage: Stage::Idle }
    }

    /// Reset to idle and empty, as on accept, dismiss, or supersede.
    pub fn clear(&mut self)
        ensures
            final(self).wf(),
            final(self).stage is Idle,
            final(self).text@.len() == 0,
    {
        self.text = String::new();
        self.stage = Stage::Idle;
    }
}

} // verus!
