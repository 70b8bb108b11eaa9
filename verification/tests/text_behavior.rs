use suggestion_engine::context::{split_at_char_index, utf16_offset_to_char_index};
use suggestion_engine::text::{tail_chars, trimmed};

#[test]
fn trimming_matches_the_standard_notion() {
    assert_eq!(trimmed("  hello  "), "hello");
    assert_eq!(trimmed("\t\r\nword\n"), "word");
    assert_eq!(trimmed("no-trim"), "no-trim");
    assert_eq!(trimmed("   "), "");
    assert_eq!(trimmed(""), "");
    assert_eq!(trimmed("a b"), "a b");
    // non-ASCII white space is recognised too
    assert_eq!(trimmed("\u{2003}x\u{00A0}"), "x");
    assert_eq!(trimmed("  hello  "), "  hello  ".trim());
}

#[test]
fn tail_keeps_the_most_recent_characters() {
    assert_eq!(tail_chars("abcdef", 3), "def");
    assert_eq!(tail_chars("ab", 3), "ab");
    assert_eq!(tail_chars("", 3), "");
    assert_eq!(tail_chars("abcdef", 0), "");
    // counted in characters, not bytes
    assert_eq!(tail_chars("éèêë", 2), "êë");
}

#[test]
fn utf16_offsets_step_over_surrogate_pairs() {
    // "a𝄞b": 'a' is one unit, the clef is a surrogate pair, 'b' one unit
    let units: Vec<u16> = "a\u{1D11E}b".encode_utf16().collect();
    assert_eq!(units.len(), 4);
    assert_eq!(utf16_offset_to_char_index(&units, 0), 0);
    assert_eq!(utf16_offset_to_char_index(&units, 1), 1);
    // an offset inside or after the pair lands after the one character
    assert_eq!(utf16_offset_to_char_index(&units, 3), 2);
    assert_eq!(utf16_offset_to_char_index(&units, 4), 3);
    // offsets beyond the text saturate at its end
    assert_eq!(utf16_offset_to_char_index(&units, 10), 3);
}

#[test]
fn split_divides_before_and_after_the_caret() {
    let tc = split_at_char_index("Hello world", 5);
    assert_eq!(tc.before, "Hello");
    assert_eq!(tc.after, " world");

    let tc = split_at_char_index("a\u{1D11E}b", 2);
    assert_eq!(tc.before, "a\u{1D11E}");
    assert_eq!(tc.after, "b");

    // an index past the end is clamped
    let tc = split_at_char_index("ab", 9);
    assert_eq!(tc.before, "ab");
    assert_eq!(tc.after, "");
}
