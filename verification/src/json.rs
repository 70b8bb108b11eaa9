//! Encoding of the backend's request body: JSON string escaping and the
//! fixed generate-request object, specified character by character.

use vstd::prelude::*;
use vstd::string::StringExecFns;

verus! {

/// The hexadecimal digit for a value below sixteen, lower case.
pub open spec fn spec_hex_digit(d: int) -> char {
    if d == 0 {
        '0'
    } else if d == 1 {
        '1'
    } else if d == 2 {
        '2'
    } else if d == 3 {
        '3'
    } else if d == 4 {
        '4'
    } else if d == 5 {
        '5'
    } else if d == 6 {
        '6'
    } else if d == 7 {
        '7'
    } else if d == 8 {
        '8'
    } else if d == 9 {
        '9'
    } else if d == 10 {
        'a'
    } else if d == 11 {
        'b'
    } else if d == 12 {
        'c'
    } else if d == 13 {
        'd'
    } else if d == 14 {
        'e'
    } else {
        'f'
    }
}

/// The decimal digit for a value below ten.
pub open spec fn spec_decimal_digit(d: int) -> char {
    spec_hex_digit(if 0 <= d < 10 {
        d
    } else {
        0
    })
}

/// How one character appears inside a JSON string literal: quote and
/// backslash are escaped, the common control characters get their short
/// escapes, the remaining control characters a `\u00..` escape, and
/// everything else stands as itself.
pub open spec fn json_escaped_char(c: char) -> Seq<char> {
    if c == '"' {
        seq!['\\', '"']
    } else if c == '\\' {
        seq!['\\', '\\']
    } else if c == '\n' {
        seq!['\\', 'n']
    } else if c == '\r' {
        seq!['\\', 'r']
    } else if c == '\t' {
        seq!['\\', 't']
    } else if c as u32 == 0x08 {
        seq!['\\', 'b']
    } else if c as u32 == 0x0C {
        seq!['\\', 'f']
    } else if (c as u32) < 0x20 {
        seq!['\\', 'u', '0', '0', spec_hex_digit((c as int) / 16), spec_hex_digit((c as int) % 16)]
    } else {
        seq![c]
    }
}

/// The body of the JSON string literal that encodes `s`.
pub open spec fn json_escaped(s: Seq<char>) -> Seq<char>
    decreases s.len(),
{
    if s.len() == 0 {
        Seq::empty()
    } else {
        json_escaped_char(s[0]) + json_escaped(s.skip(1))
    }
}

/// Relies on String::push: appends exactly the one character to the string.
#[verifier::external_body]
pub fn push_char(s: &mut String, c: char)
    ensures
        final(s)@ == old(s)@ + seq![c],
{
    s.push(c);
}

fn hex_digit_str(d: u32) -> (r: &'static str)
    requires
        d < 16,
    ensures
        r@ == seq![spec_hex_digit(d as int)],
{
    let r = match d {
        0 => "0",
        1 => "1",
        2 => "2",
        3 => "3",
        4 => "4",
        5 => "5",
        6 => "6",
        7 => "7",
        8 => "8",
        9 => "9",
        10 => "a",
        11 => "b",
        12 => "c",
        13 => "d",
        14 => "e",
        _ => "f",
    };
    proof {
        reveal_strlit("0");
        reveal_strlit("1");
        reveal_strlit("2");
        reveal_strlit("3");
        reveal_strlit("4");
        reveal_strlit("5");
        reveal_strlit("6");
        reveal_strlit("7");
        reveal_strlit("8");
        reveal_strlit("9");
        reveal_strlit("a");
        reveal_strlit("b");
        reveal_strlit("c");
        reveal_strlit("d");
        reveal_strlit("e");
        reveal_strlit("f");
        assert(r@ =~= seq![spec_hex_digit(d as int)]);
    }
    r
}

proof fn lemma_json_escaped_snoc(s: Seq<char>, i: int)
    requires
        0 <= i < s.len(),
    ensures
        json_escaped(s.take(i + 1)) == json_escaped(s.take(i)) + json_escaped_char(s[i]),
    decreases i,
{
    let a = s.take(i + 1);
    let b = s.take(i);
    if i == 0 {
        reveal_with_fuel(json_escaped, 2);
        assert(a =~= seq![s[0]]);
        assert(a.skip(1) =~= Seq::<char>::empty());
        assert(b =~= Seq::<char>::empty());
        assert(json_escaped(a) =~= json_escaped_char(s[0]));
        assert(json_escaped(b) + json_escaped_char(s[0]) =~= json_escaped_char(s[0]));
    } else {
        lemma_json_escaped_snoc(s.skip(1), i - 1);
        assert(a.skip(1) =~= s.skip(1).take(i));
        assert(b.skip(1) =~= s.skip(1).take(i - 1));
        assert(a[0] == s[0] && b[0] == s[0]);
        assert(s.skip(1)[i - 1] == s[i]);
        assert(json_escaped(a) == json_escaped_char(s[0]) + json_escaped(s.skip(1).take(i)));
        assert(json_escaped(b) == json_escaped_char(s[0]) + json_escaped(s.skip(1).take(i - 1)));
        assert(json_escaped(b) + json_escaped_char(s[i]) =~= json_escaped_char(s[0]) + (
        json_escaped(s.skip(1).take(i - 1)) + json_escaped_char(s[i])));
    }
}

/// Append the JSON-escaped form of `piece` to `out`.
pub fn append_json_escaped(out: &mut String, piece: &str)
    ensures
        final(out)@ == old(out)@ + json_escaped(piece@),
{
    let n = piece.unicode_len();
    let mut i: usize = 0;
    proof {
        assert(piece@.take(0) =~= Seq::<char>::empty());
        assert(old(out)@ + json_escaped(piece@.take(0)) =~= old(out)@);
    }
    while i < n
        invariant
            i <= n,
            n == piece@.len(),
            out@ == old(out)@ + json_escaped(piece@.take(i as int)),
        decreases n - i,
    {
        let c = piece.get_char(i);
        proof {
            lemma_json_escaped_snoc(piece@, i as int);
        }
        let u = c as u32;
        if c == '"' {
            out.append("\\\"");
            proof {
                reveal_strlit("\\\"");
                assert("\\\""@ =~= json_escaped_char(c));
            }
        } else if c == '\\' {
            out.append("\\\\");
            proof {
                reveal_strlit("\\\\");
                assert("\\\\"@ =~= json_escaped_char(c));
            }
        } else if c == '\n' {
            out.append("\\n");
            proof {
                reveal_strlit("\\n");
                assert("\\n"@ =~= json_escaped_char(c));
            }
        } else if c == '\r' {
            out.append("\\r");
            proof {
                reveal_strlit("\\r");
                assert("\\r"@ =~= json_escaped_char(c));
            }
        } else if c == '\t' {
            out.append("\\t");
            proof {
                reveal_strlit("\\t");
                assert("\\t"@ =~= json_escaped_char(c));
            }
        } else if u == 0x08 {
            out.append("\\b");
            proof {
                reveal_strlit("\\b");
                assert("\\b"@ =~= json_escaped_char(c));
            }
        } else if u == 0x0C {
            out.append("\\f");
            proof {
                reveal_strlit("\\f");
                assert("\\f"@ =~= json_escaped_char(c));
            }
        } else if u < 0x20 {
            out.append("\\u00");
            out.append(hex_digit_str(u / 16));
            out.append(hex_digit_str(u % 16));
            proof {
                reveal_strlit("\\u00");
                assert("\\u00"@ + seq![spec_hex_digit((u as int) / 16)] + seq![spec_hex_digit((u as int) % 16)] =~= json_escaped_char(c));
            }
        } else {
            push_char(out, c);
            proof {
                assert(seq![c] =~= json_escaped_char(c));
            }
        }
        proof {
            assert(out@ =~= old(out)@ + (json_escaped(piece@.take(i as int)) + json_escaped_char(
                piece@[i as int],
            )));
        }
        i = i + 1;
    }
    proof {
        assert(piece@.take(n as int) =~= piece@);
    }
}

/// Encode the backend's generate-request body.  The temperature is carried
/// in tenths, rendered as the decimal `0.<digit>`.
pub fn encode_generate_body(
    model: &str,
    prompt: &str,
    stream: bool,
    temperature_tenths: u8,
) -> (body: String)
    requires
        temperature_tenths < 10,
    ensures
        body@ == "{\"model\":\""@ + json_escaped(model@) + "\",\"prompt\":\""@ + json_escaped(
            prompt@,
        ) + "\",\"stream\":"@ + (if stream {
            "true"@
        } else {
            "false"@
        }) + ",\"temperature\":0."@ + seq![spec_decimal_digit(temperature_tenths as int)] + "}"@,
{
    let mut body: String = "{\"model\":\"".to_owned();
    append_json_escaped(&mut body, model);
    body.append("\",\"prompt\":\"");
    append_json_escaped(&mut body, prompt);
    body.append("\",\"stream\":");
    if stream {
        body.append("true");
    } else {
        body.append("false");
    }
    body.append(",\"temperature\":0.");
    body.append(hex_digit_str(temperature_tenths as u32));
    body.append("}");
    body
}

} // verus!
