//! The debounce scheduler: coalesces bursts of activity signals into one
//! completion request after a quiet gap, with a periodic fallback so help is
//! still offered when nothing is typed.
//!
//! Time is handled explicitly: the caller passes the current time in
//! milliseconds to every call, so the scheduler is a pure state machine and
//! its coalescing behaviour can be stated and proved for whole bursts.

use vstd::prelude::*;

verus! {

/// The two intervals are configuration: how long typing must pause before a
/// request is owed (the quiet window), and how long without any activity the
/// fallback waits before offering help anyway.
#[derive(Clone, Copy, Debug, PartialEq, Eq, Structural)]
pub struct DebounceConfig {
    pub quiet_ms: u64,
    pub periodic_ms: u64,
}

/// Debounce state: the single instant at or after which the next "ready"
/// signal may be emitted.  Activity pulls the deadline to `now + quiet`;
/// emitting "ready" rearms it to the periodic fallback.
#[derive(Clone, Copy, Debug, PartialEq, Eq, Structural)]
pub struct DebounceScheduler {
    pub cfg: DebounceConfig,
    pub deadline: u64,
}

/// State after an activity signal at `now`: the quiet window restarts.
pub open spec fn after_activity(s: DebounceScheduler, now: u64) -> DebounceScheduler {
    DebounceScheduler { cfg: s.cfg, deadline: (now + s.cfg.quiet_ms) as u64 }
}

/// State after every signal of `ts`, in order.
pub open spec fn after_activities(s: DebounceScheduler, ts: Seq<u64>) -> DebounceScheduler
    decreases ts.len(),
{
    if ts.len() == 0 {
        s
    } else {
        after_activities(after_activity(s, ts[0]), ts.skip(1))
    }
}

/// A poll at `now` emits "ready" exactly when the deadline has passed.
pub open spec fn poll_fires(s: DebounceScheduler, now: u64) -> bool {
    now >= s.deadline
}

/// State after a poll at `now`: a fired scheduler waits for the periodic
/// fallback plus one quiet window; otherwise nothing changes.
pub open spec fn after_poll(s: DebounceScheduler, now: u64) -> DebounceScheduler {
    if poll_fires(s, now) {
        DebounceScheduler { cfg: s.cfg, deadline: (now + s.cfg.periodic_ms + s.cfg.quiet_ms) as u64 }
    } else {
        s
    }
}

impl DebounceScheduler {
    /// No activity signal handed to the scheduler may push a deadline past
    /// the clock's range; with millisecond ticks this bounds nothing real.
    pub open spec fn time_ok(self, now: u64) -> bool {
        now + self.cfg.periodic_ms + self.cfg.quiet_ms <= u64::MAX
    }

    pub fn new(cfg: DebounceConfig, now: u64) -> (s: Self)
        requires
            now + cfg.periodic_ms + cfg.quiet_ms <= u64::MAX,
        ensures
            s.cfg == cfg,
            s.deadline == now + cfg.periodic_ms + cfg.quiet_ms,
    {
        DebounceScheduler { cfg, deadline: now + cfg.periodic_ms + cfg.quiet_ms }
    }

    /// An activity signal at `now`: restart the quiet window.
    pub fn note_activity(&mut self, now: u64)
        requires
            now + old(self).cfg.quiet_ms <= u64::MAX,
        ensures
            *final(self) == after_activity(*old(self), now),
    {
        self.deadline = now + self.cfg.quiet_ms;
    }

    /// A poll at `now`: report whether a completion request is owed, and if
    /// so rearm for the periodic fallback.
    pub fn poll(&mut self, now: u64) -> (ready: bool)
        requires
            old(self).time_ok(now),
        ensures
            ready == poll_fires(*old(self), now),
            *final(self) == after_poll(*old(self), now),
    {
        if now >= self.deadline {
            self.deadline = now + self.cfg.periodic_ms + self.cfg.quiet_ms;
            true
        } else {
            false
        }
    }
}

/// After a burst of activity the deadline sits one quiet window past the
/// final signal, whatever it was before.
pub proof fn lemma_burst_deadline(s: DebounceScheduler, ts: Seq<u64>)
    requires
        ts.len() > 0,
        forall|i: int| 0 <= i < ts.len() ==> (#[trigger] ts[i]) + s.cfg.quiet_ms <= u64::MAX,
    ensures
        after_activities(s, ts).cfg == s.cfg,
        after_activities(s, ts).deadline == ts.last() + s.cfg.quiet_ms,
    decreases ts.len(),
{
    if ts.len() == 1 {
        reveal_with_fuel(after_activities, 2);
        assert(ts.skip(1).len() == 0);
    } else {
        let s1 = after_activity(s, ts[0]);
        let tail = ts.skip(1);
        assert forall|i: int| 0 <= i < tail.len() implies (#[trigger] tail[i]) + s1.cfg.quiet_ms
            <= u64::MAX by {
            assert(tail[i] == ts[i + 1]);
        }
        lemma_burst_deadline(s1, tail);
        assert(tail.last() == ts.last());
    }
}

/// Coalescing law for a burst of activity signals spaced less than one quiet
/// window apart:
/// - a poll taken between two signals of the burst does not emit "ready";
/// - a poll after the last signal emits "ready" exactly when the last signal
///   has been quiet for the full window; and
/// - once that single "ready" fires, no further poll emits another before
///   the periodic fallback interval, absent new activity.
/// So exactly one completion request fires for the whole burst, only after
/// the final signal has been quiet for the full window.
pub proof fn lemma_burst_fires_exactly_once(
    s: DebounceScheduler,
    ts: Seq<u64>,
    i: int,
    t_mid: u64,
    t_end: u64,
    t_next: u64,
)
    requires
        ts.len() > 0,
        forall|i: int| 0 <= i < ts.len() ==> (#[trigger] ts[i]) + s.cfg.quiet_ms <= u64::MAX,
        // consecutive signals arrive less than one quiet window apart
        forall|j: int|
            0 <= j < ts.len() - 1 ==> ts[j + 1] < (#[trigger] ts[j]) + s.cfg.quiet_ms,
        s.time_ok(t_end),
    ensures
        // no "ready" between signal i and signal i + 1
        0 <= i < ts.len() - 1 && ts[i] <= t_mid < ts[i + 1] ==> !poll_fires(
            after_activities(s, ts.take(i + 1)),
            t_mid,
        ),
        // after the last signal, "ready" fires exactly once the quiet window
        // has elapsed uninterrupted
        poll_fires(after_activities(s, ts), t_end) <==> t_end >= ts.last() + s.cfg.quiet_ms,
        // and after that fire, nothing fires again before the periodic fallback
        poll_fires(after_activities(s, ts), t_end) && t_next < t_end + s.cfg.periodic_ms
            + s.cfg.quiet_ms ==> !poll_fires(after_poll(after_activities(s, ts), t_end), t_next),
{
    lemma_burst_deadline(s, ts);
    if 0 <= i < ts.len() - 1 && ts[i] <= t_mid < ts[i + 1] {
        let prefix = ts.take(i + 1);
        assert(prefix.len() == i + 1);
        assert(forall|k: int| 0 <= k < prefix.len() ==> prefix[k] == ts[k]);
        lemma_burst_deadline(s, prefix);
        assert(prefix.last() == ts[i]);
        assert(t_mid < ts[i] + s.cfg.quiet_ms);
    }
}

} // verus!
