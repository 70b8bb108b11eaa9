//! The text injector: turns an accepted suggestion into a plan of synthetic
//! input.  Short texts become one key-down/key-up pulse per encoded unit,
//! sent in bounded batches with a single retry per stalled batch; long texts
//! go to the shared clipboard followed by one paste chord, which is faster
//! and more reliable for bulk text.  The synthetic-input target itself is an
//! external collaborator; this module only decides what to send and how to
//! react to how much of it was accepted.

use vstd::prelude::*;

verus! {

/// One synthetic input event: an encoded unit (a UTF-16 code unit for typed
/// text, a virtual-key code for the paste chord) going down or up.
#[derive(Clone, Copy, Debug, PartialEq, Eq, Structural)]
pub struct SynthKey {
    pub unit: u16,
    pub down: bool,
}

/// Virtual-key code of the paste chord's modifier key (Control).
pub const PASTE_MODIFIER_UNIT: u16 = 0x11;

/// Virtual-key code of the paste chord's letter key (V).
pub const PASTE_KEY_UNIT: u16 = 0x56;

/// How many synthetic events one batch carries.
pub const INJECTION_BATCH: usize = 64;

/// The UTF-16 encoding of one character: one unit for the basic plane, a
/// surrogate pair above it.
pub open spec fn utf16_units_of_char(c: char) -> Seq<u16> {
    if (c as u32) < 0x10000 {
        seq![(c as u32) as u16]
    } else {
        let v = (c as u32) - 0x10000;
        seq![(0xD800 + v / 0x400) as u16, (0xDC00 + v % 0x400) as u16]
    }
}

/// The UTF-16 encoding of a character sequence.
pub open spec fn utf16_units(s: Seq<char>) -> Seq<u16>
    decreases s.len(),
{
    if s.len() == 0 {
        Seq::empty()
    } else {
        utf16_units_of_char(s[0]) + utf16_units(s.skip(1))
    }
}

/// One down/up pulse per unit, in the units' order.
pub open spec fn key_pulses(units: Seq<u16>) -> Seq<SynthKey>
    decreases units.len(),
{
    if units.len() == 0 {
        Seq::empty()
    } else {
        seq![
            SynthKey { unit: units[0], down: true },
            SynthKey { unit: units[0], down: false },
        ] + key_pulses(units.skip(1))
    }
}

/// The four events of the paste chord: modifier down, key down, key up,
/// modifier up.
pub open spec fn spec_paste_chord() -> Seq<SynthKey> {
    seq![
        SynthKey { unit: PASTE_MODIFIER_UNIT, down: true },
        SynthKey { unit: PASTE_KEY_UNIT, down: true },
        SynthKey { unit: PASTE_KEY_UNIT, down: false },
        SynthKey { unit: PASTE_MODIFIER_UNIT, down: false },
    ]
}

proof fn lemma_utf16_units_snoc(s: Seq<char>, i: int)
    requires
        0 <= i < s.len(),
    ensures
        utf16_units(s.take(i + 1)) == utf16_units(s.take(i)) + utf16_units_of_char(s[i]),
    decreases i,
{
    let a = s.take(i + 1);
    let b = s.take(i);
    if i == 0 {
        reveal_with_fuel(utf16_units, 2);
        assert(a =~= seq![s[0]]);
        assert(a.skip(1) =~= Seq::<char>::empty());
        assert(b =~= Seq::<char>::empty());
        assert(utf16_units(a) =~= utf16_units_of_char(s[0]));
        assert(utf16_units(b) + utf16_units_of_char(s[0]) =~= utf16_units_of_char(s[0]));
    } else {
        lemma_utf16_units_snoc(s.skip(1), i - 1);
        assert(a.skip(1) =~= s.skip(1).take(i));
        assert(b.skip(1) =~= s.skip(1).take(i - 1));
        assert(a[0] == s[0] && b[0] == s[0]);
        assert(s.skip(1)[i - 1] == s[i]);
        assert(utf16_units(a) == utf16_units_of_char(s[0]) + utf16_units(s.skip(1).take(i)));
        assert(utf16_units(b) == utf16_units_of_char(s[0]) + utf16_units(s.skip(1).take(i - 1)));
        assert(utf16_units(b) + utf16_units_of_char(s[i]) =~= utf16_units_of_char(s[0]) + (
        utf16_units(s.skip(1).take(i - 1)) + utf16_units_of_char(s.skip(1)[i - 1])));
    }
}

proof fn lemma_key_pulses_snoc(units: Seq<u16>, i: int)
    requires
        0 <= i < units.len(),
    ensures
        key_pulses(units.take(i + 1)) == key_pulses(units.take(i)) + seq![
            SynthKey { unit: units[i], down: true },
            SynthKey { unit: units[i], down: false },
        ],
    decreases i,
{
    let a = units.take(i + 1);
    let b = units.take(i);
    let pair = seq![
        SynthKey { unit: units[i], down: true },
        SynthKey { unit: units[i], down: false },
    ];
    if i == 0 {
        reveal_with_fuel(key_pulses, 2);
        assert(a =~= seq![units[0]]);
        assert(a.skip(1) =~= Seq::<u16>::empty());
        assert(b =~= Seq::<u16>::empty());
        assert(key_pulses(a) =~= pair);
        assert(key_pulses(b) + pair =~= pair);
    } else {
        lemma_key_pulses_snoc(units.skip(1), i - 1);
        assert(a.skip(1) =~= units.skip(1).take(i));
        assert(b.skip(1) =~= units.skip(1).take(i - 1));
        assert(units.skip(1)[i - 1] == units[i]);
        let head = seq![
            SynthKey { unit: units[0], down: true },
            SynthKey { unit: units[0], down: false },
        ];
        assert(a[0] == units[0] && b[0] == units[0]);
        assert(key_pulses(a) == head + key_pulses(units.skip(1).take(i)));
        assert(key_pulses(b) == head + key_pulses(units.skip(1).take(i - 1)));
        assert(key_pulses(b) + pair =~= head + (key_pulses(units.skip(1).take(i - 1)) + pair));
    }
}

/// The UTF-16 units of `text`, in order.
pub fn encode_utf16_units(text: &str) -> (units: Vec<u16>)
    ensures
        units@ == utf16_units(text@),
{
    let n = text.unicode_len();
    let mut units: Vec<u16> = Vec::new();
    let mut i: usize = 0;
    while i < n
        invariant
            i <= n,
            n == text@.len(),
            units@ == utf16_units(text@.take(i as int)),
        decreases n - i,
    {
        let c = text.get_char(i);
        proof {
            vstd::utf8::char_is_scalar(c);
            lemma_utf16_units_snoc(text@, i as int);
        }
        let u = c as u32;
        if u < 0x10000 {
            units.push(u as u16);
        } else {
            let v = u - 0x10000;
            units.push((0xD800 + v / 0x400) as u16);
            units.push((0xDC00 + v % 0x400) as u16);
            proof {
                assert(units@ =~= utf16_units(text@.take(i as int)) + utf16_units_of_char(
                    text@[i as int],
                ));
            }
        }
        i = i + 1;
    }
    proof {
        assert(text@.take(n as int) =~= text@);
    }
    units
}

/// One down/up pulse per unit, built in order.
pub fn build_key_pulses(units: &Vec<u16>) -> (events: Vec<SynthKey>)
    ensures
        events@ == key_pulses(units@),
{
    let mut events: Vec<SynthKey> = Vec::new();
    let mut i: usize = 0;
    while i < units.len()
        invariant
            i <= units@.len(),
            events@ == key_pulses(units@.take(i as int)),
        decreases units@.len() - i,
    {
        proof {
            lemma_key_pulses_snoc(units@, i as int);
        }
        let u = units[i];
        events.push(SynthKey { unit: u, down: true });
        events.push(SynthKey { unit: u, down: false });
        proof {
            assert(events@ =~= key_pulses(units@.take(i as int)) + seq![
                SynthKey { unit: units@[i as int], down: true },
                SynthKey { unit: units@[i as int], down: false },
            ]);
        }
        i = i + 1;
    }
    proof {
        assert(units@.take(units@.len() as int) =~= units@);
    }
    events
}

/// The paste chord, as sent after placing a long text on the clipboard.
pub fn paste_chord() -> (chord: Vec<SynthKey>)
    ensures
        chord@ == spec_paste_chord(),
{
    let mut chord: Vec<SynthKey> = Vec::new();
    chord.push(SynthKey { unit: PASTE_MODIFIER_UNIT, down: true });
    chord.push(SynthKey { unit: PASTE_KEY_UNIT, down: true });
    chord.push(SynthKey { unit: PASTE_KEY_UNIT, down: false });
    chord.push(SynthKey { unit: PASTE_MODIFIER_UNIT, down: false });
    proof {
        assert(chord@ =~= spec_paste_chord());
    }
    chord
}

/// How one accepted text is to reach the target application.
pub enum InjectionPlan {
    /// Synthesize the text unit by unit.
    Keystrokes(Vec<SynthKey>),
    /// Place the text on the clipboard verbatim, then send one paste chord.
    ClipboardPaste(String),
}

/// The per-unit synthesis of `text`: what the keystroke path sends, and
/// what injection falls back to when the clipboard cannot be taken before
/// the paste chord went out.
pub fn keystroke_plan(text: &String) -> (events: Vec<SynthKey>)
    ensures
        events@ == key_pulses(utf16_units(text@)),
{
    let units = encode_utf16_units(text.as_str());
    build_key_pulses(&units)
}

/// Decide the injection path for `text`.  A text of fewer encoded units
/// than the clipboard threshold becomes one down/up pulse per unit, in
/// order; at or above the threshold it is pasted verbatim.  The threshold
/// counts encoded units, the currency everything sent to the target is
/// measured in.
pub fn plan_injection(text: &String, clipboard_threshold: usize) -> (plan: InjectionPlan)
    ensures
        utf16_units(text@).len() < clipboard_threshold ==> (plan
            matches InjectionPlan::Keystrokes(events) && events@ == key_pulses(
            utf16_units(text@),
        )),
        utf16_units(text@).len() >= clipboard_threshold ==> (plan
            matches InjectionPlan::ClipboardPaste(payload) && payload@ == text@),
{
    let units = encode_utf16_units(text.as_str());
    if units.len() < clipboard_threshold {
        InjectionPlan::Keystrokes(build_key_pulses(&units))
    } else {
        InjectionPlan::ClipboardPaste(text.clone())
    }
}

/// The keystroke path synthesizes exactly one pulse pair per encoded unit,
/// in order: event `2 i` presses unit `i` and event `2 i + 1` releases it.
pub proof fn lemma_key_pulses_shape(units: Seq<u16>)
    ensures
        key_pulses(units).len() == 2 * units.len(),
        forall|i: int|
            0 <= i < units.len() ==> key_pulses(units)[2 * i] == (SynthKey {
                unit: units[i],
                down: true,
            }),
        forall|i: int|
            0 <= i < units.len() ==> key_pulses(units)[2 * i + 1] == (SynthKey {
                unit: units[i],
                down: false,
            }),
    decreases units.len(),
{
    if units.len() > 0 {
        lemma_key_pulses_shape(units.skip(1));
        assert forall|i: int| 0 <= i < units.len() implies key_pulses(units)[2 * i] == (SynthKey {
            unit: units[i],
            down: true,
        }) && key_pulses(units)[2 * i + 1] == (SynthKey { unit: units[i], down: false }) by {
            if i > 0 {
                assert(units.skip(1)[i - 1] == units[i]);
                assert(key_pulses(units)[2 * i] == key_pulses(units.skip(1))[2 * (i - 1)]);
                assert(key_pulses(units)[2 * i + 1] == key_pulses(units.skip(1))[2 * (i - 1) + 1]);
            }
        }
    }
}

/// For text within the basic multilingual plane the encoding is one unit
/// per character, so together with the pulse shape above, injecting such a
/// text of length L synthesizes exactly L down/up pairs, in the text's
/// order.  (A character above the plane becomes a surrogate pair: two
/// units, two pulses.)
pub proof fn lemma_bmp_text_one_unit_per_char(s: Seq<char>)
    requires
        forall|i: int| 0 <= i < s.len() ==> (#[trigger] (s[i] as u32)) < 0x10000,
    ensures
        utf16_units(s).len() == s.len(),
        forall|i: int| 0 <= i < s.len() ==> utf16_units(s)[i] == (s[i] as u32) as u16,
    decreases s.len(),
{
    if s.len() > 0 {
        assert((s[0] as u32) < 0x10000);
        assert forall|i: int| 0 <= i < s.skip(1).len() implies (#[trigger] (s.skip(1)[i] as u32))
            < 0x10000 by {
            assert(s.skip(1)[i] == s[i + 1]);
        }
        lemma_bmp_text_one_unit_per_char(s.skip(1));
        assert forall|i: int| 0 <= i < s.len() implies utf16_units(s)[i] == (s[i] as u32) as u16 by {
            if i > 0 {
                assert(s.skip(1)[i - 1] == s[i]);
                assert(utf16_units(s)[i] == utf16_units(s.skip(1))[i - 1]);
            }
        }
    }
}

/// What the injector decides after a batch is reported back.
#[derive(Clone, Copy, Debug, PartialEq, Eq, Structural)]
pub enum SendStep {
    /// The batch made progress; go on with the next one.
    Proceed,
    /// The batch was not accepted at all; pause briefly and retry it once.
    Retry,
    /// The retry failed too; abandon the remaining batches rather than hang.
    Abandon,
}

/// Driver state for the batched keystroke path: which prefix of the events
/// has been handed to the target, whether the current batch already used its
/// one retry, and whether the injection was abandoned.
pub struct BatchInjector {
    pub events: Vec<SynthKey>,
    pub offset: usize,
    pub retried: bool,
    pub abandoned: bool,
}

impl BatchInjector {
    pub open spec fn wf(self) -> bool {
        self.offset <= self.events@.len()
    }

    /// Injection ends by completion or by explicit abandonment.
    pub open spec fn finished(self) -> bool {
        self.abandoned || self.offset == self.events@.len()
    }

    pub fn new(events: Vec<SynthKey>) -> (b: Self)
        ensures
            b.wf(),
            b.events@ == events@,
            b.offset == 0,
            !b.retried,
            !b.abandoned,
    {
        BatchInjector { events, offset: 0, retried: false, abandoned: false }
    }

    pub fn is_finished(&self) -> (r: bool)
        ensures
            r == self.finished(),
    {
        self.abandoned || self.offset == self.events.len()
    }

    /// The events of the current batch: the next `INJECTION_BATCH` pending
    /// events, or all that remain if fewer.
    pub fn current_batch(&self) -> (batch: Vec<SynthKey>)
        requires
            self.wf(),
            !self.finished(),
        ensures
            batch@ == self.events@.subrange(
                self.offset as int,
                if self.offset + INJECTION_BATCH <= self.events@.len() {
                    self.offset + INJECTION_BATCH
                } else {
                    self.events@.len() as int
                },
            ),
            batch@.len() > 0,
    {
        let remaining = self.events.len() - self.offset;
        let end = if remaining <= INJECTION_BATCH {
            self.events.len()
        } else {
            self.offset + INJECTION_BATCH
        };
        let mut batch: Vec<SynthKey> = Vec::new();
        let mut i: usize = self.offset;
        while i < end
            invariant
                self.offset <= i <= end <= self.events@.len(),
                batch@ == self.events@.subrange(self.offset as int, i as int),
            decreases end - i,
        {
            batch.push(self.events[i]);
            i = i + 1;
        }
        batch
    }

    /// React to the target's report of how many events of the current batch
    /// it accepted: progress advances past the accepted prefix, a stalled
    /// batch is retried exactly once, and a stalled retry abandons the rest.
    pub fn report(&mut self, accepted: usize) -> (step: SendStep)
        requires
            old(self).wf(),
            !old(self).finished(),
        ensures
            final(self).wf(),
            final(self).events@ == old(self).events@,
            accepted > 0 ==> {
                &&& step == SendStep::Proceed
                &&& final(self).offset == if old(self).offset + accepted <= old(
                    self,
                ).events@.len() {
                    old(self).offset + accepted
                } else {
                    old(self).events@.len() as int
                }
                &&& !final(self).retried
                &&& final(self).abandoned == old(self).abandoned
            },
            accepted == 0 && !old(self).retried ==> {
                &&& step == SendStep::Retry
                &&& final(self).offset == old(self).offset
                &&& final(self).retried
                &&& final(self).abandoned == old(self).abandoned
            },
            accepted == 0 && old(self).retried ==> {
                &&& step == SendStep::Abandon
                &&& final(self).offset == old(self).offset
                &&& final(self).abandoned
            },
    {
        if accepted > 0 {
            let remaining = self.events.len() - self.offset;
            if accepted <= remaining {
                self.offset = self.offset + accepted;
            } else {
                self.offset = self.events.len();
            }
            self.retried = false;
            SendStep::Proceed
        } else if !self.retried {
            self.retried = true;
            SendStep::Retry
        } else {
            self.abandoned = true;
            SendStep::Abandon
        }
    }
}

} // verus!
