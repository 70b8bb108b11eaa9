//! Caret-context bookkeeping: converting the UTF-16 caret offset an edit
//! control reports into a character index, and splitting the control's text
//! into the parts before and after the caret.  Reading the control itself is
//! the context provider's job, outside this crate.

use vstd::prelude::*;

verus! {

/// Text around the input caret: what stands before it and what after.
pub struct TextContext {
    pub before: String,
    pub after: String,
}

/// A UTF-16 high surrogate, the first half of a two-unit character.
pub open spec fn spec_is_high_surrogate(u: u16) -> bool {
    0xD800 <= u && u <= 0xDBFF
}

/// The character index reached by walking `offset` UTF-16 code units from
/// the start of `units`: a high surrogate advances two units, anything else
/// one, and each step is one character.
pub open spec fn spec_utf16_offset_to_char_index(units: Seq<u16>, offset: int) -> int
    decreases units.len(),
{
    if offset <= 0 || units.len() == 0 {
        0
    } else if spec_is_high_surrogate(units[0]) {
        if units.len() >= 2 {
            1 + spec_utf16_offset_to_char_index(units.skip(2), offset - 2)
        } else {
            1
        }
    } else {
        1 + spec_utf16_offset_to_char_index(units.skip(1), offset - 1)
    }
}

/// Convert a UTF-16 code-unit offset (as an edit control reports the caret)
/// to a character index, stepping over surrogate pairs.
pub fn utf16_offset_to_char_index(units: &Vec<u16>, offset: usize) -> (idx: usize)
    ensures
        idx == spec_utf16_offset_to_char_index(units@, offset as int),
        idx <= units@.len(),
{
    let mut pos: usize = 0;
    let mut idx: usize = 0;
    proof {
        assert(units@.skip(0) =~= units@);
    }
    while pos < offset && pos < units.len()
        invariant
            0 <= pos,
            idx <= pos,
            pos <= units@.len(),
            idx + spec_utf16_offset_to_char_index(units@.skip(pos as int), offset - pos)
                == spec_utf16_offset_to_char_index(units@, offset as int),
        decreases units@.len() - pos,
    {
        let u = units[pos];
        proof {
            assert(units@.skip(pos as int)[0] == units@[pos as int]);
        }
        if 0xD800 <= u && u <= 0xDBFF {
            proof {
                if pos + 2 <= units@.len() {
                    assert(units@.skip(pos as int).skip(2) =~= units@.skip(pos as int + 2));
                } else {
                    assert(units@.skip(pos as int).len() == 1);
                }
            }
            if units.len() - pos >= 2 {
                pos = pos + 2;
            } else {
                pos = units.len();
                proof {
                    assert(units@.skip(pos as int) =~= Seq::<u16>::empty());
                }
            }
        } else {
            proof {
                assert(units@.skip(pos as int).skip(1) =~= units@.skip(pos as int + 1));
            }
            pos = pos + 1;
        }
        idx = idx + 1;
    }
    proof {
        if pos >= offset {
            assert(spec_utf16_offset_to_char_index(units@.skip(pos as int), offset - pos) == 0);
        } else {
            assert(units@.skip(pos as int) =~= Seq::<u16>::empty());
        }
    }
    idx
}

/// Split `text` at a character index into the before/after pair; an index
/// beyond the end (the control may report one past a lossy conversion) is
/// clamped to it.
pub fn split_at_char_index(text: &str, char_index: usize) -> (tc: TextContext)
    ensures
        ({
            let i = if char_index <= text@.len() {
                char_index as int
            } else {
                text@.len() as int
            };
            &&& tc.before@ == text@.take(i)
            &&& tc.after@ == text@.skip(i)
        }),
{
    let n = text.unicode_len();
    let i = if char_index <= n {
        char_index
    } else {
        n
    };
    let before = text.substring_char(0, i);
    let after = text.substring_char(i, n);
    proof {
        assert(text@.subrange(0, i as int) =~= text@.take(i as int));
        assert(text@.subrange(i as int, n as int) =~= text@.skip(i as int));
    }
    TextContext { before: before.to_owned(), after: after.to_owned() }
}

} // verus!
