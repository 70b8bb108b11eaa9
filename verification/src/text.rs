//! Character-level text helpers shared by the prompt builder, the chat
//! history and the response handling: whitespace trimming and tail
//! extraction, specified over character sequences.

use vstd::prelude::*;

verus! {

/// The Unicode white-space characters, as `char::is_whitespace` documents
/// them (the `White_Space` property).
pub open spec fn spec_is_space(c: char) -> bool {
    let u = c as u32;
    ||| u == 0x20
    ||| (0x09 <= u && u <= 0x0D)
    ||| u == 0x85
    ||| u == 0xA0
    ||| u == 0x1680
    ||| (0x2000 <= u && u <= 0x200A)
    ||| u == 0x2028
    ||| u == 0x2029
    ||| u == 0x202F
    ||| u == 0x205F
    ||| u == 0x3000
}

pub fn is_space_char(c: char) -> (r: bool)
    ensures
        r == spec_is_space(c),
{
    let u = c as u32;
    u == 0x20 || (0x09 <= u && u <= 0x0D) || u == 0x85 || u == 0xA0 || u == 0x1680 || (0x2000 <= u
        && u <= 0x200A) || u == 0x2028 || u == 0x2029 || u == 0x202F || u == 0x205F || u == 0x3000
}

/// `s` without its leading white space.
pub open spec fn trim_front(s: Seq<char>) -> Seq<char>
    decreases s.len(),
{
    if s.len() > 0 && spec_is_space(s[0]) {
        trim_front(s.skip(1))
    } else {
        s
    }
}

/// `s` without its trailing white space.
pub open spec fn trim_back(s: Seq<char>) -> Seq<char>
    decreases s.len(),
{
    if s.len() > 0 && spec_is_space(s.last()) {
        trim_back(s.drop_last())
    } else {
        s
    }
}

/// `s` without leading and trailing white space.
pub open spec fn spec_trimmed(s: Seq<char>) -> Seq<char> {
    trim_back(trim_front(s))
}

/// The last `n` characters of `s`, or all of `s` if it is shorter.
pub open spec fn spec_tail(s: Seq<char>, n: int) -> Seq<char> {
    if s.len() <= n {
        s
    } else {
        s.skip(s.len() - n)
    }
}

proof fn lemma_trim_front_skips_spaces(s: Seq<char>, a: int)
    requires
        0 <= a < s.len(),
        spec_is_space(s[a]),
        trim_front(s) == trim_front(s.skip(a)),
    ensures
        trim_front(s) == trim_front(s.skip(a + 1)),
{
    assert(s.skip(a)[0] == s[a]);
    assert(s.skip(a).skip(1) =~= s.skip(a + 1));
}

proof fn lemma_trim_front_stops(s: Seq<char>, a: int)
    requires
        0 <= a < s.len(),
        !spec_is_space(s[a]),
        trim_front(s) == trim_front(s.skip(a)),
    ensures
        trim_front(s) == s.skip(a),
{
    assert(s.skip(a)[0] == s[a]);
}

proof fn lemma_trim_back_drops_spaces(s: Seq<char>, a: int, b: int)
    requires
        0 <= a < b <= s.len(),
        spec_is_space(s[b - 1]),
        trim_back(s.subrange(a, s.len() as int)) == trim_back(s.subrange(a, b)),
    ensures
        trim_back(s.subrange(a, s.len() as int)) == trim_back(s.subrange(a, b - 1)),
{
    let cur = s.subrange(a, b);
    assert(cur.last() == s[b - 1]);
    assert(cur.drop_last() =~= s.subrange(a, b - 1));
}

/// `s` with leading and trailing white space removed.
pub fn trimmed(s: &str) -> (t: String)
    ensures
        t@ == spec_trimmed(s@),
{
    let n = s.unicode_len();
    let mut a: usize = 0;
    proof {
        assert(s@.skip(0) =~= s@);
    }
    while a < n && is_space_char(s.get_char(a))
        invariant
            0 <= a <= n,
            n == s@.len(),
            trim_front(s@) == trim_front(s@.skip(a as int)),
        decreases n - a,
    {
        proof {
            lemma_trim_front_skips_spaces(s@, a as int);
        }
        a = a + 1;
    }
    proof {
        if a == n {
            assert(s@.skip(a as int) =~= Seq::<char>::empty());
            assert(trim_front(s@).len() == 0);
        } else {
            lemma_trim_front_stops(s@, a as int);
        }
        assert(s@.skip(a as int) =~= s@.subrange(a as int, n as int));
    }
    let mut b: usize = n;
    while b > a && is_space_char(s.get_char(b - 1))
        invariant
            a <= b <= n,
            n == s@.len(),
            a < n ==> trim_front(s@) == s@.skip(a as int),
            a == n ==> trim_front(s@).len() == 0,
            trim_back(s@.subrange(a as int, n as int)) == trim_back(s@.subrange(a as int, b as int)),
        decreases b,
    {
        proof {
            lemma_trim_back_drops_spaces(s@, a as int, b as int);
        }
        b = b - 1;
    }
    proof {
        let cur = s@.subrange(a as int, b as int);
        if b == a {
            assert(cur =~= Seq::<char>::empty());
        } else {
            assert(cur.last() == s@[b - 1]);
        }
        if a == n {
            assert(s@.subrange(a as int, n as int) =~= Seq::<char>::empty());
            assert(spec_trimmed(s@) =~= trim_back(s@.subrange(a as int, n as int)));
        } else {
            assert(spec_trimmed(s@) == trim_back(s@.subrange(a as int, n as int)));
        }
    }
    let piece = s.substring_char(a, b);
    piece.to_owned()
}

/// The last `n` characters of `s`.
pub fn tail_chars(s: &str, n: usize) -> (t: String)
    ensures
        t@ == spec_tail(s@, n as int),
{
    let len = s.unicode_len();
    if len <= n {
        s.to_owned()
    } else {
        let piece = s.substring_char(len - n, len);
        piece.to_owned()
    }
}

} // verus!
