//! The bounded pattern buffer and the trigger detector that watches it for
//! the inline-command marker.  Both are owned exclusively by the privileged
//! input thread, so no lock is involved.

use vstd::prelude::*;

verus! {

/// Upper bound on the characters the pattern buffer retains.
pub const PATTERN_CAPACITY: usize = 200;

/// How many of the oldest characters an overflow trim drops at once, rather
/// than shifting one character at a time on every keystroke.
pub const PATTERN_TRIM: usize = 100;

/// Contents of the buffer after appending `c`: a full buffer first drops its
/// oldest half, so at least the most recent `PATTERN_TRIM` characters survive.
pub open spec fn pushed_contents(b: Seq<char>, c: char) -> Seq<char> {
    if b.len() < PATTERN_CAPACITY {
        b.push(c)
    } else {
        b.skip(PATTERN_TRIM as int).push(c)
    }
}

/// `b` ends with `m`.
pub open spec fn ends_with(b: Seq<char>, m: Seq<char>) -> bool {
    b.len() >= m.len() && b.skip(b.len() - m.len()) == m
}

/// Bounded FIFO of recently typed characters.
pub struct PatternBuffer {
    chars: Vec<char>,
}

impl PatternBuffer {
    pub closed spec fn view(self) -> Seq<char> {
        self.chars@
    }

    /// The buffer never exceeds its capacity.
    pub closed spec fn wf(self) -> bool {
        self.chars@.len() <= PATTERN_CAPACITY
    }

    pub fn new() -> (b: Self)
        ensures
            b.wf(),
            b.view() == Seq::<char>::empty(),
    {
        PatternBuffer { chars: Vec::new() }
    }

    /// Append one character, dropping the oldest half first when full.
    pub fn push(&mut self, c: char)
        requires
            old(self).wf(),
        ensures
            final(self).wf(),
            final(self).view() == pushed_contents(old(self).view(), c),
    {
        if self.chars.len() == PATTERN_CAPACITY {
            let mut kept: Vec<char> = Vec::new();
            let mut i: usize = PATTERN_TRIM;
            while i < PATTERN_CAPACITY
                invariant
                    PATTERN_TRIM <= i <= PATTERN_CAPACITY,
                    self.chars@.len() == PATTERN_CAPACITY,
                    kept@ == self.chars@.subrange(PATTERN_TRIM as int, i as int),
                decreases PATTERN_CAPACITY - i,
            {
                kept.push(self.chars[i]);
                i = i + 1;
            }
            assert(kept@ =~= self.chars@.skip(PATTERN_TRIM as int));
            self.chars = kept;
        }
        self.chars.push(c);
    }

    pub fn clear(&mut self)
        ensures
            final(self).wf(),
            final(self).view() == Seq::<char>::empty(),
    {
        self.chars.clear();
    }

    pub fn len(&self) -> (n: usize)
        ensures
            n == self.view().len(),
    {
        self.chars.len()
    }

    /// Whether the buffer's tail equals `marker`.
    pub fn tail_matches(&self, marker: &Vec<char>) -> (r: bool)
        ensures
            r == ends_with(self.view(), marker@),
    {
        let n = self.chars.len();
        let m = marker.len();
        if n < m {
            return false;
        }
        let start = n - m;
        let mut j: usize = 0;
        while j < m
            invariant
                0 <= j <= m,
                m <= n == self.chars@.len(),
                start == n - m,
                marker@.len() == m,
                forall|k: int| 0 <= k < j ==> self.chars@[start + k] == marker@[k],
            decreases m - j,
        {
            if self.chars[start + j] != marker[j] {
                assert(self.view().skip(start as int)[j as int] != marker@[j as int]);
                return false;
            }
            j = j + 1;
        }
        assert(self.view().skip(start as int) =~= marker@);
        true
    }
}

/// What the trigger detector hands on when the marker is seen: the number of
/// synchronous erase events owed — one per marker character, sized to remove
/// the whole typed marker from the focused control — and the command text of
/// the inline-command job (empty when the user typed the bare marker).
pub struct TriggerEvent {
    pub erase_count: usize,
    pub command_text: String,
}

/// Scans the typed-character stream for the inline-command marker.  The
/// marker sequence is configuration, fixed at construction.
pub struct TriggerDetector {
    buffer: PatternBuffer,
    marker: Vec<char>,
}

impl TriggerDetector {
    pub closed spec fn wf(self) -> bool {
        &&& self.buffer.wf()
        &&& 0 < self.marker@.len()
    }

    pub closed spec fn buffered(self) -> Seq<char> {
        self.buffer.view()
    }

    pub closed spec fn marker_view(self) -> Seq<char> {
        self.marker@
    }

    pub fn new(marker: Vec<char>) -> (d: Self)
        requires
            0 < marker@.len(),
        ensures
            d.wf(),
            d.buffered() == Seq::<char>::empty(),
            d.marker_view() == marker@,
    {
        TriggerDetector { buffer: PatternBuffer::new(), marker }
    }

    /// Track one typed character.  When the buffer's tail completes the
    /// marker, the buffer is cleared and the detector emits the erase count
    /// and an (empty) command for the asynchronous inline-command job.
    pub fn on_char(&mut self, c: char) -> (fired: Option<TriggerEvent>)
        requires
            old(self).wf(),
        ensures
            final(self).wf(),
            final(self).marker_view() == old(self).marker_view(),
            ({
                let pushed = pushed_contents(old(self).buffered(), c);
                if ends_with(pushed, old(self).marker_view()) {
                    &&& fired is Some
                    &&& fired->0.erase_count == old(self).marker_view().len()
                    &&& fired->0.command_text@ == Seq::<char>::empty()
                    &&& final(self).buffered() == Seq::<char>::empty()
                } else {
                    &&& fired is None
                    &&& final(self).buffered() == pushed
                }
            }),
    {
        self.buffer.push(c);
        if self.buffer.tail_matches(&self.marker) {
            self.buffer.clear();
            Some(TriggerEvent { erase_count: self.marker.len(), command_text: String::new() })
        } else {
            None
        }
    }
}

/// The pattern buffer never exceeds its capacity, and an overflow trim
/// preserves the most recent `PATTERN_TRIM` characters exactly, in order,
/// ahead of the newly typed one.
pub proof fn lemma_push_bounded_and_preserves_recent(b: Seq<char>, c: char)
    requires
        b.len() <= PATTERN_CAPACITY,
    ensures
        pushed_contents(b, c).len() <= PATTERN_CAPACITY,
        b.len() == PATTERN_CAPACITY ==> {
            let kept = pushed_contents(b, c);
            &&& kept.len() == PATTERN_CAPACITY - PATTERN_TRIM + 1
            &&& forall|i: int|
                0 <= i < PATTERN_CAPACITY - PATTERN_TRIM ==> kept[i] == b[PATTERN_TRIM + i]
            &&& kept[kept.len() - 1] == c
        },
{
}

} // verus!
