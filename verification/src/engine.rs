//! The shared core of the assistant: the suggestion slot paired with the
//! active cancellation token.  These two values are the only state crossing
//! the privileged input path and the orchestrator; the application guards one
//! instance with a short-held lock and calls the transitions below under it.
//!
//! Every transition is described by a relation between the state before and
//! after the call, so that ordering facts — a dismissed or superseded cycle
//! can never resurrect stale text — are stated and proved once, over the
//! relations, independent of any particular interleaving.

use vstd::prelude::*;

use crate::cancel::CancelToken;
use crate::slot::{Stage, SuggestionSlot};

verus! {

/// The slot holds nothing and is idle.
pub open spec fn cleared_slot(s: SuggestionSlot) -> bool {
    s.stage is Idle && s.text@.len() == 0
}

/// Suggestion slot and active cancellation token, mutated together.
pub struct EngineState {
    pub slot: SuggestionSlot,
    pub token: CancelToken,
}

/// What `dismiss` does: the slot is cleared, the active generation is
/// cancelled (keeping its number), and a redraw is requested only when ghost
/// text was actually showing.
pub open spec fn dismiss_rel(pre: EngineState, post: EngineState, redraw: bool) -> bool {
    &&& cleared_slot(post.slot)
    &&& post.token.generation == pre.token.generation
    &&& post.token.cancelled
    &&& redraw == pre.slot.has_text()
}

/// What `accept` does: with text showing, the text is taken, the slot is
/// cleared and the active generation cancelled before injection; with an
/// empty slot nothing changes, so the keystroke can pass through.
pub open spec fn accept_rel(pre: EngineState, post: EngineState, taken: Option<String>) -> bool {
    if pre.slot.has_text() {
        &&& taken is Some
        &&& taken->0@ == pre.slot.text@
        &&& cleared_slot(post.slot)
        &&& post.token.generation == pre.token.generation
        &&& post.token.cancelled
    } else {
        &&& taken is None
        &&& post == pre
    }
}

/// What `apply_fragment` does: a streamed accumulator lands in the slot only
/// while the writing cycle's generation is still current and not cancelled;
/// otherwise the state is left exactly as it was.
pub open spec fn fragment_rel(
    pre: EngineState,
    post: EngineState,
    generation: u64,
    accumulated: Seq<char>,
    applied: bool,
) -> bool {
    &&& applied == pre.token.admits(generation)
    &&& applied ==> {
        &&& post.slot.text@ == accumulated
        &&& post.slot.stage is Streaming
        &&& post.token == pre.token
    }
    &&& !applied ==> post == pre
}

/// What `finish_stream` does: when the finishing cycle is still current, the
/// streamed text is kept and marked ready; a stale or cancelled cycle changes
/// nothing.
pub open spec fn finish_rel(
    pre: EngineState,
    post: EngineState,
    generation: u64,
    marked: bool,
) -> bool {
    &&& marked == pre.token.admits(generation)
    &&& marked ==> {
        &&& post.slot.text@ == pre.slot.text@
        &&& post.slot.stage is Ready
        &&& post.token == pre.token
    }
    &&& !marked ==> post == pre
}

/// What `install_suggestion` does: a non-empty result replaces the slot's
/// contents and is marked ready; an empty result leaves the state untouched,
/// so a prior suggestion is never cleared by a fruitless cycle.
pub open spec fn install_rel(
    pre: EngineState,
    post: EngineState,
    text: Seq<char>,
    redraw: bool,
) -> bool {
    if text.len() > 0 {
        &&& post.slot.text@ == text
        &&& post.slot.stage is Ready
        &&& post.token == pre.token
        &&& redraw
    } else {
        &&& post == pre
        &&& !redraw
    }
}

impl EngineState {
    pub open spec fn wf(self) -> bool {
        self.slot.wf()
    }

    pub fn new() -> (e: Self)
        ensures
            e.wf(),
            cleared_slot(e.slot),
            e.token.generation == 0,
            !e.token.cancelled,
    {
        EngineState { slot: SuggestionSlot::new(), token: CancelToken::new() }
    }

    /// Retire the active cycle before a new one begins any I/O.
    pub fn retire(&mut self)
        requires
            old(self).wf(),
        ensures
            final(self).wf(),
            final(self).slot == old(self).slot,
            final(self).token.generation == old(self).token.generation,
            final(self).token.cancelled,
    {
        self.token.retire();
    }

    /// Mint the next cycle's token; the new generation is strictly larger.
    pub fn mint(&mut self) -> (g: u64)
        requires
            old(self).wf(),
            old(self).token.generation < u64::MAX,
        ensures
            final(self).wf(),
            final(self).slot == old(self).slot,
            g == old(self).token.generation + 1,
            final(self).token.admits(g),
    {
        self.token.mint()
    }

    /// A freshly minted cycle has claimed the slot: record that it started
    /// and no text has arrived yet.  The shown text stays — a prior
    /// suggestion persists until a new one lands.
    pub fn mark_pending(&mut self)
        requires
            old(self).wf(),
        ensures
            final(self).wf(),
            final(self).slot.text@ == old(self).slot.text@,
            final(self).slot.stage is Pending,
            final(self).token == old(self).token,
    {
        self.slot.stage = Stage::Pending;
    }

    /// Accept the suggestion on the privileged path: take the text, clear the
    /// slot and cancel the active cycle, all before any injection starts, so a
    /// re-entrant accept sees nothing to act on.
    pub fn accept(&mut self) -> (taken: Option<String>)
        requires
            old(self).wf(),
        ensures
            final(self).wf(),
            accept_rel(*old(self), *final(self), taken),
    {
        if !self.slot.text.as_str().is_empty() {
            let text = self.slot.text.clone();
            self.slot.clear();
            self.token.retire();
            Some(text)
        } else {
            None
        }
    }

    /// Dismiss the suggestion on the privileged path.
    pub fn dismiss(&mut self) -> (redraw: bool)
        requires
            old(self).wf(),
        ensures
            final(self).wf(),
            dismiss_rel(*old(self), *final(self), redraw),
    {
        let redraw = !self.slot.text.as_str().is_empty();
        self.slot.clear();
        self.token.retire();
        redraw
    }

    /// Write a streaming cycle's accumulator into the slot, but only while
    /// that cycle's generation is still the one admitted by the token.
    pub fn apply_fragment(&mut self, generation: u64, accumulated: &String) -> (applied: bool)
        requires
            old(self).wf(),
        ensures
            final(self).wf(),
            fragment_rel(*old(self), *final(self), generation, accumulated@, applied),
    {
        if self.token.generation == generation && !self.token.cancelled {
            self.slot.text = accumulated.clone();
            self.slot.stage = Stage::Streaming;
            true
        } else {
            false
        }
    }

    /// Mark a successfully finished stream ready, if its cycle still stands.
    pub fn finish_stream(&mut self, generation: u64) -> (marked: bool)
        requires
            old(self).wf(),
        ensures
            final(self).wf(),
            finish_rel(*old(self), *final(self), generation, marked),
    {
        if self.token.generation == generation && !self.token.cancelled {
            self.slot.stage = Stage::Ready;
            true
        } else {
            false
        }
    }

    /// Install a finished, non-streamed result (the inline-command path): a
    /// non-empty result is shown, an empty one leaves the slot untouched.
    pub fn install_suggestion(&mut self, text: &String) -> (redraw: bool)
        requires
            old(self).wf(),
        ensures
            final(self).wf(),
            install_rel(*old(self), *final(self), text@, redraw),
    {
        if !text.as_str().is_empty() {
            self.slot.text = text.clone();
            self.slot.stage = Stage::Ready;
            true
        } else {
            false
        }
    }
}

/// A fragment that arrives after a dismiss is never observed in the slot:
/// the dismissal cancelled the generation the stream writes under, so the
/// write is refused and the slot stays cleared.
pub proof fn lemma_fragment_after_dismiss_discarded(
    e0: EngineState,
    e1: EngineState,
    e2: EngineState,
    redraw: bool,
    generation: u64,
    accumulated: Seq<char>,
    applied: bool,
)
    requires
        generation == e0.token.generation,
        dismiss_rel(e0, e1, redraw),
        fragment_rel(e1, e2, generation, accumulated, applied),
    ensures
        !applied,
        e2 == e1,
        cleared_slot(e2.slot),
{
}

/// A fragment that arrives after an effective accept is never observed in
/// the slot.  (An accept of an empty slot takes nothing, cancels nothing and
/// lets the keystroke pass through, so it is out of scope here.)
pub proof fn lemma_fragment_after_accept_discarded(
    e0: EngineState,
    e1: EngineState,
    e2: EngineState,
    taken: Option<String>,
    generation: u64,
    accumulated: Seq<char>,
    applied: bool,
)
    requires
        generation == e0.token.generation,
        e0.slot.has_text(),
        accept_rel(e0, e1, taken),
        fragment_rel(e1, e2, generation, accumulated, applied),
    ensures
        !applied,
        cleared_slot(e2.slot),
{
}

/// A cancelled cycle cannot clobber a slot a newer cycle owns: once the next
/// token is minted, fragments tagged with any earlier generation are refused.
pub proof fn lemma_fragment_of_superseded_cycle_discarded(
    e0: EngineState,
    e1: EngineState,
    e2: EngineState,
    generation: u64,
    accumulated: Seq<char>,
    applied: bool,
)
    requires
        e0.token.generation < u64::MAX,
        generation <= e0.token.generation,
        // the next cycle minted its token from e0
        e1.token.generation == e0.token.generation + 1,
        fragment_rel(e1, e2, generation, accumulated, applied),
    ensures
        !applied,
        e2 == e1,
{
}

/// Dismissing an already-empty slot is a no-op: no redraw is requested and
/// the slot is left exactly as it was.
pub proof fn lemma_dismiss_empty_is_noop(
    e0: EngineState,
    e1: EngineState,
    redraw: bool,
)
    requires
        dismiss_rel(e0, e1, redraw),
        !e0.slot.has_text(),
        e0.slot.stage is Idle,
    ensures
        !redraw,
        e1.slot.stage == e0.slot.stage,
        e1.slot.text@ == e0.slot.text@,
{
    assert(e1.slot.text@ =~= e0.slot.text@);
}

} // verus!
