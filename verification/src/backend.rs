//! Interpretation of what the text-generation backend sends back.  The HTTP
//! transport lives outside; this module decodes the bodies it hands over:
//! the `response` field of a generate reply, and the newline-delimited
//! stream of reply objects a streaming call produces.

use vstd::prelude::*;

use crate::json::push_char;
use crate::text::{spec_trimmed, trimmed};

verus! {

/// The string held by the `response` field of the JSON document `body`, if
/// `body` parses as JSON and has a string there.  A pure function of the
/// document text; its value is fixed by the trusted extraction below.
pub uninterp spec fn response_text_of(body: Seq<char>) -> Option<Seq<char>>;

/// Relies on serde_json::from_str, Value::get and Value::as_str: parsing a
/// JSON document and reading its "response" string field depend on the
/// document alone; a body that does not parse, or has no string there,
/// yields nothing.
#[verifier::external_body]
fn extract_response_field(body: &str) -> (r: Option<String>)
    ensures
        r is Some <==> response_text_of(body@) is Some,
        r is Some ==> r->0@ == response_text_of(body@)->0,
{
    match serde_json::from_str::<serde_json::Value>(body) {
        Ok(value) => match value.get("response").and_then(|v| v.as_str()) {
            Some(text) => Some(text.to_owned()),
            None => None,
        },
        Err(_) => None,
    }
}

/// The `response` text of a reply body, exactly as the backend returned it:
/// what the inline-command and summarize paths install into the slot on
/// success.  `None` when the body does not parse or has no string there.
pub fn extract_response_text(body: &str) -> (r: Option<String>)
    ensures
        r is Some <==> response_text_of(body@) is Some,
        r is Some ==> r->0@ == response_text_of(body@)->0,
{
    extract_response_field(body)
}

/// The usable suggestion in a debounced completion reply: its `response`
/// text, trimmed, when that leaves anything.  A body without a usable
/// suggestion (it does not parse, lacks the field, or is blank) yields
/// `None`, and the caller keeps whatever suggestion was showing.
pub fn extract_suggestion(body: &str) -> (r: Option<String>)
    ensures
        r is Some <==> (response_text_of(body@) is Some && spec_trimmed(
            response_text_of(body@)->0,
        ).len() > 0),
        r is Some ==> r->0@ == spec_trimmed(response_text_of(body@)->0),
{
    match extract_response_field(body) {
        Some(text) => {
            let t = trimmed(text.as_str());
            if !t.as_str().is_empty() {
                Some(t)
            } else {
                None
            }
        },
        None => None,
    }
}

/// One line, with the terminator's optional carriage return dropped.
pub open spec fn strip_cr(l: Seq<char>) -> Seq<char> {
    if l.len() > 0 && l.last() == '\r' {
        l.drop_last()
    } else {
        l
    }
}

pub open spec fn lines_acc(s: Seq<char>, cur: Seq<char>) -> Seq<Seq<char>>
    decreases s.len(),
{
    if s.len() == 0 {
        if cur.len() == 0 {
            Seq::empty()
        } else {
            seq![cur]
        }
    } else if s[0] == '\n' {
        seq![strip_cr(cur)] + lines_acc(s.skip(1), Seq::empty())
    } else {
        lines_acc(s.skip(1), cur.push(s[0]))
    }
}

/// The lines of `s`: split at newlines, a carriage return before a newline
/// dropped, a final line ending optional.
pub open spec fn spec_lines(s: Seq<char>) -> Seq<Seq<char>> {
    lines_acc(s, Seq::empty())
}

/// The lines of `s`, in order.
pub fn split_lines(s: &str) -> (r: Vec<String>)
    ensures
        r@.map_values(|l: String| l@) == spec_lines(s@),
{
    let n = s.unicode_len();
    let mut r: Vec<String> = Vec::new();
    let mut cur: String = String::new();
    let mut i: usize = 0;
    proof {
        assert(s@.skip(0) =~= s@);
        assert(r@.map_values(|l: String| l@) =~= Seq::<Seq<char>>::empty());
    }
    while i < n
        invariant
            i <= n,
            n == s@.len(),
            spec_lines(s@) == r@.map_values(|l: String| l@) + lines_acc(s@.skip(i as int), cur@),
        decreases n - i,
    {
        let c = s.get_char(i);
        let ghost prev_views = r@.map_values(|l: String| l@);
        let ghost prev_cur = cur@;
        proof {
            assert(s@.skip(i as int)[0] == s@[i as int]);
            assert(s@.skip(i as int).skip(1) =~= s@.skip(i as int + 1));
        }
        if c == '\n' {
            let m = cur.as_str().unicode_len();
            let line = if m > 0 && cur.as_str().get_char(m - 1) == '\r' {
                let p = cur.as_str().substring_char(0, m - 1);
                p.to_owned()
            } else {
                cur
            };
            proof {
                if prev_cur.len() > 0 && prev_cur.last() == '\r' {
                    assert(prev_cur.subrange(0, prev_cur.len() - 1) =~= prev_cur.drop_last());
                }
                assert(line@ == strip_cr(prev_cur));
            }
            r.push(line);
            cur = String::new();
            proof {
                assert(r@.map_values(|l: String| l@) =~= prev_views.push(strip_cr(prev_cur)));
                assert(prev_views + (seq![strip_cr(prev_cur)] + lines_acc(
                    s@.skip(i as int + 1),
                    Seq::empty(),
                )) =~= prev_views.push(strip_cr(prev_cur)) + lines_acc(
                    s@.skip(i as int + 1),
                    Seq::empty(),
                ));
            }
        } else {
            push_char(&mut cur, c);
            proof {
                assert(cur@ =~= prev_cur.push(c));
            }
        }
        i = i + 1;
    }
    proof {
        assert(s@.skip(n as int) =~= Seq::<char>::empty());
    }
    if !cur.as_str().is_empty() {
        let ghost prev_views = r@.map_values(|l: String| l@);
        let ghost cur_view = cur@;
        r.push(cur);
        proof {
            assert(r@.map_values(|l: String| l@) =~= prev_views.push(cur_view));
            assert(prev_views + seq![cur_view] =~= prev_views.push(cur_view));
        }
    }
    r
}

/// The fragments carried by a sequence of reply lines: the `response` text
/// of every line that has one, in order.
pub open spec fn spec_fragments(ls: Seq<Seq<char>>) -> Seq<Seq<char>>
    decreases ls.len(),
{
    if ls.len() == 0 {
        Seq::empty()
    } else {
        let rest = spec_fragments(ls.skip(1));
        if response_text_of(ls[0]) is Some {
            seq![response_text_of(ls[0])->0] + rest
        } else {
            rest
        }
    }
}

/// Decode one chunk of a streaming reply: each of its lines is one JSON
/// reply object, and every `response` field found becomes one fragment, in
/// order.  Lines that carry no fragment (partial objects, keep-alives) are
/// passed over.
pub fn decode_stream_chunk(chunk: &str) -> (frags: Vec<String>)
    ensures
        frags@.map_values(|f: String| f@) == spec_fragments(spec_lines(chunk@)),
{
    let lines = split_lines(chunk);
    let ghost lv = lines@.map_values(|l: String| l@);
    let mut frags: Vec<String> = Vec::new();
    let mut i: usize = 0;
    proof {
        assert(lv.skip(0) =~= lv);
        assert(frags@.map_values(|f: String| f@) =~= Seq::<Seq<char>>::empty());
    }
    while i < lines.len()
        invariant
            i <= lines@.len(),
            lv == lines@.map_values(|l: String| l@),
            lv == spec_lines(chunk@),
            spec_fragments(lv) == frags@.map_values(|f: String| f@) + spec_fragments(
                lv.skip(i as int),
            ),
        decreases lines@.len() - i,
    {
        proof {
            assert(lv.skip(i as int)[0] == lv[i as int]);
            assert(lv[i as int] == lines@[i as int]@);
            assert(lv.skip(i as int).skip(1) =~= lv.skip(i as int + 1));
        }
        let ghost prev_views = frags@.map_values(|f: String| f@);
        match extract_response_field(lines[i].as_str()) {
            Some(f) => {
                proof {
                    assert(f@ == response_text_of(lv[i as int])->0);
                }
                frags.push(f);
                proof {
                    assert(frags@.map_values(|f: String| f@) =~= prev_views.push(
                        response_text_of(lv[i as int])->0,
                    ));
                    assert(prev_views + (seq![response_text_of(lv[i as int])->0]
                        + spec_fragments(lv.skip(i as int + 1))) =~= prev_views.push(
                        response_text_of(lv[i as int])->0,
                    ) + spec_fragments(lv.skip(i as int + 1)));
                }
            },
            None => {},
        }
        i = i + 1;
    }
    proof {
        assert(lv.skip(lines@.len() as int) =~= Seq::<Seq<char>>::empty());
        assert(frags@.map_values(|f: String| f@) + Seq::<Seq<char>>::empty() =~= frags@.map_values(
            |f: String| f@,
        ));
    }
    frags
}

} // verus!
