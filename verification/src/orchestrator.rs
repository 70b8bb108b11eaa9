//! The completion orchestrator: the single always-running cycle that waits
//! for a debounce "ready" signal, retires the previous generation, captures
//! context, mints a fresh token, streams backend fragments into the slot and
//! settles.  The waiting, the capture and the backend call are the
//! application's asynchronous work; each decision in between is a transition
//! here, taking the shared engine state under its lock.

use vstd::prelude::*;
use vstd::string::StringExecFns;

use crate::engine::{finish_rel, fragment_rel, EngineState};
use crate::prompt::{build_suggestion_request, CompletionRequest, PROMPT_TAIL_CHARS};
use crate::text::{spec_tail, spec_trimmed};

verus! {

/// Where the orchestrator stands in its cycle.
#[derive(Clone, Copy, Debug, PartialEq, Eq, Structural)]
pub enum OrchPhase {
    /// Blocked on the debounce "ready" signal.
    WaitingForReady,
    /// Retired the previous cycle; waiting for the captured context.
    Capturing,
    /// Backend call in flight; fragments may arrive.
    Streaming,
    /// Stream ended; about to loop.
    Settled,
}

/// The orchestrator's own state: its phase, the generation it minted for the
/// running cycle, and the accumulator the stream appends to.
pub struct Orchestrator {
    pub phase: OrchPhase,
    pub generation: u64,
    pub accumulator: String,
}

impl Orchestrator {
    pub fn new() -> (o: Self)
        ensures
            o.phase is WaitingForReady,
            o.generation == 0,
            o.accumulator@.len() == 0,
    {
        Orchestrator { phase: OrchPhase::WaitingForReady, generation: 0, accumulator: String::new() }
    }

    /// The debounce "ready" signal arrived: retire the previous cycle's
    /// token — visibly, before any new I/O — and go capture context.  The
    /// slot is not cleared: the prior suggestion persists until a new one
    /// arrives.
    pub fn on_ready(&mut self, eng: &mut EngineState)
        requires
            old(self).phase is WaitingForReady,
            old(eng).wf(),
        ensures
            final(eng).wf(),
            final(eng).slot == old(eng).slot,
            final(eng).token.generation == old(eng).token.generation,
            final(eng).token.cancelled,
            final(self).phase is Capturing,
            final(self).generation == old(self).generation,
    {
        eng.retire();
        self.phase = OrchPhase::Capturing;
    }

    /// The captured context arrived (empty when capture failed — a capture
    /// failure never aborts the cycle loop).  Mint the new cycle's token and
    /// build its completion request; the slot's stage records the pending
    /// cycle while its text — the prior suggestion — stays shown.  A context
    /// that is blank after trimming owes no backend call, and the
    /// orchestrator goes straight back to waiting, the slot untouched.
    pub fn on_captured(&mut self, eng: &mut EngineState, context: &str) -> (req: Option<
        CompletionRequest,
    >)
        requires
            old(self).phase is Capturing,
            old(eng).wf(),
            old(eng).token.generation < u64::MAX,
        ensures
            final(eng).wf(),
            final(eng).slot.text@ == old(eng).slot.text@,
            final(eng).token.generation == old(eng).token.generation + 1,
            final(self).generation == final(eng).token.generation,
            final(self).accumulator@.len() == 0,
            req is Some <==> spec_trimmed(context@).len() > 0,
            req is None ==> final(self).phase is WaitingForReady
                && final(eng).slot == old(eng).slot,
            req is Some ==> {
                &&& final(self).phase is Streaming
                &&& final(eng).slot.stage is Pending
                &&& final(eng).token.admits(final(self).generation)
                &&& req->0.prompt@
                    == "Continue the user's writing with 2\u{2013}3 complete sentences.\nCorrect minor grammar/spelling mistakes if present, but preserve tone and meaning.\nOnly output the continuation (no prefaces).\nText tail to continue:\n"@
                    + spec_tail(spec_trimmed(context@), PROMPT_TAIL_CHARS as int)
                &&& req->0.context_before@ == context@
            },
    {
        let g = eng.mint();
        self.generation = g;
        self.accumulator = String::new();
        let req = build_suggestion_request(context);
        if req.is_some() {
            eng.mark_pending();
            self.phase = OrchPhase::Streaming;
        } else {
            self.phase = OrchPhase::WaitingForReady;
        }
        req
    }

    /// A stream fragment arrived: append it to the accumulator and write the
    /// accumulator into the slot — unless this cycle has been cancelled or
    /// superseded, in which case nothing is written and the caller must stop
    /// the stream and discard the remainder.
    pub fn on_fragment(&mut self, eng: &mut EngineState, fragment: &str) -> (applied: bool)
        requires
            old(self).phase is Streaming,
            old(eng).wf(),
        ensures
            final(eng).wf(),
            final(self).phase is Streaming,
            final(self).generation == old(self).generation,
            final(self).accumulator@ == old(self).accumulator@ + fragment@,
            fragment_rel(
                *old(eng),
                *final(eng),
                old(self).generation,
                old(self).accumulator@ + fragment@,
                applied,
            ),
    {
        self.accumulator.append(fragment);
        eng.apply_fragment(self.generation, &self.accumulator)
    }

    /// The stream ended.  On success the streamed text is marked ready if
    /// the cycle still stands; on error — a timeout, a network failure, a
    /// non-success status — the engine state is left exactly as it was, so
    /// the prior suggestion stays displayed and the loop simply resumes.
    pub fn on_stream_end(&mut self, eng: &mut EngineState, success: bool) -> (marked: bool)
        requires
            old(self).phase is Streaming,
            old(eng).wf(),
        ensures
            final(eng).wf(),
            final(self).phase is Settled,
            final(self).generation == old(self).generation,
            success ==> finish_rel(*old(eng), *final(eng), old(self).generation, marked),
            !success ==> *final(eng) == *old(eng) && !marked,
    {
        self.phase = OrchPhase::Settled;
        if success {
            eng.finish_stream(self.generation)
        } else {
            false
        }
    }

    /// Loop back: a settled cycle waits for the next "ready" signal.  No
    /// single cycle's failure ever terminates the loop.
    pub fn rearm(&mut self)
        requires
            old(self).phase is Settled,
        ensures
            final(self).phase is WaitingForReady,
            final(self).generation == old(self).generation,
            final(self).accumulator@ == old(self).accumulator@,
    {
        self.phase = OrchPhase::WaitingForReady;
    }
}

} // verus!
