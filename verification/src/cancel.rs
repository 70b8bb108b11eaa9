//! Cancellation tokens: an explicit generation counter plus a cancelled flag,
//! minted fresh for every completion cycle.

use vstd::prelude::*;

verus! {

/// The staleness check for asynchronous results: a result tagged with a
/// generation is only honoured while that generation is current and not
/// cancelled.  Exactly one token is active at a time; retiring it precedes
/// any I/O of the next cycle.
#[derive(Clone, Copy, Debug, PartialEq, Eq, Structural)]
pub struct CancelToken {
    pub generation: u64,
    pub cancelled: bool,
}

impl CancelToken {
    /// A result tagged `generation` may still reach the slot.
    pub open spec fn admits(self, generation: u64) -> bool {
        self.generation == generation && !self.cancelled
    }

    pub fn new() -> (t: Self)
        ensures
            t.generation == 0,
            !t.cancelled,
    {
        CancelToken { generation: 0, cancelled: false }
    }

    /// Mark the current cycle cancelled; its generation keeps its number, so
    /// late results tagged with it are still recognised (and refused).
    pub fn retire(&mut self)
        ensures
            final(self).generation == old(self).generation,
            final(self).cancelled,
    {
        self.cancelled = true;
    }

    /// Start the next cycle: a strictly larger generation, not cancelled.
    pub fn mint(&mut self) -> (g: u64)
        requires
            old(self).generation < u64::MAX,
        ensures
            g == old(self).generation + 1,
            final(self).generation == g,
            !final(self).cancelled,
    {
        self.generation = self.generation + 1;
        self.cancelled = false;
        self.generation
    }
}

} // verus!
