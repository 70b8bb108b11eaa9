//! Suggestion concurrency engine for an inline text-completion assistant.
//!
//! The engine turns a stream of raw key events into a correctly sequenced,
//! cancelable, debounced request/response cycle: a bounded pattern buffer and
//! trigger detector watch typed characters for an inline-command marker, a
//! debounce scheduler coalesces bursts of activity into one completion request
//! after a quiet gap, a cancellation broker retires stale generations before a
//! new cycle starts I/O, a single orchestrator streams backend fragments into
//! the shared suggestion slot, and an accept/dismiss handler reads and clears
//! that slot on the privileged input path.  The slow collaborators (event
//! source, renderer, context provider, text-generation backend, synthetic
//! input target) stay outside; the engine's transitions are plain functions
//! from state and event to state and action.

pub mod backend;
pub mod cancel;
pub mod chat;
pub mod context;
pub mod debounce;
pub mod engine;
pub mod failure;
pub mod hook;
pub mod inject;
pub mod json;
pub mod orchestrator;
pub mod pattern;
pub mod prompt;
pub mod slot;
pub mod text;
