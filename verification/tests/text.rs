use prompt_mixer::text::{
    append_str, char_is_whitespace, chars_of, decimal_chars, find_from, matches_at,
    padded_decimal_chars, push_range, push_str_chars, skip_whitespace, str_eq, string_of,
    trimmed_end_len,
};

fn text(chars: Vec<char>) -> String {
    chars.into_iter().collect()
}

#[test]
fn strings_and_characters_round_trip() {
    let chars = chars_of("héllo…");
    assert_eq!(chars, vec!['h', 'é', 'l', 'l', 'o', '…']);
    assert_eq!(string_of(&chars), "héllo…");
    assert_eq!(string_of(&Vec::new()), "");
}

#[test]
fn appending_keeps_what_was_there() {
    let mut out = "ab".to_string();
    append_str(&mut out, "cd");
    append_str(&mut out, "");
    assert_eq!(out, "abcd");
    let mut chars = vec!['x'];
    push_str_chars(&mut chars, "yz");
    push_range(&mut chars, &vec!['0', '1', '2', '3'], 1, 3);
    assert_eq!(chars, vec!['x', 'y', 'z', '1', '2']);
}

#[test]
fn equality_is_by_characters() {
    assert!(str_eq("", ""));
    assert!(str_eq("slow", "slow"));
    assert!(!str_eq("slow", "slot"));
    assert!(!str_eq("slow", "slo"));
    assert!(!str_eq("", "a"));
}

#[test]
fn numerals() {
    assert_eq!(text(decimal_chars(0)), "0");
    assert_eq!(text(decimal_chars(7)), "7");
    assert_eq!(text(decimal_chars(10)), "10");
    assert_eq!(text(decimal_chars(1234567890)), "1234567890");
    assert_eq!(text(decimal_chars(u64::MAX)), "18446744073709551615");
}

#[test]
fn zero_filled_numerals() {
    assert_eq!(text(padded_decimal_chars(0, 2)), "00");
    assert_eq!(text(padded_decimal_chars(7, 2)), "07");
    assert_eq!(text(padded_decimal_chars(12, 2)), "12");
    assert_eq!(text(padded_decimal_chars(123, 2)), "123");
    assert_eq!(text(padded_decimal_chars(33, 4)), "0033");
    assert_eq!(text(padded_decimal_chars(5, 0)), "5");
}

#[test]
fn white_space_is_what_the_standard_library_trims() {
    for code in 0..=0x10FFFFu32 {
        if let Some(c) = char::from_u32(code) {
            assert_eq!(char_is_whitespace(c), c.is_whitespace(), "U+{:04X}", code);
        }
    }
}

#[test]
fn skipping_white_space_stops_at_the_first_other_character() {
    let chars = chars_of(" \t\na b ");
    assert_eq!(skip_whitespace(&chars, 0, chars.len()), 3);
    assert_eq!(skip_whitespace(&chars, 3, chars.len()), 3);
    assert_eq!(skip_whitespace(&chars, 4, chars.len()), 5);
    assert_eq!(skip_whitespace(&chars, 0, 2), 2);
    assert_eq!(skip_whitespace(&chars, 6, 7), 7);
}

#[test]
fn trimming_the_end_counts_what_is_left() {
    assert_eq!(trimmed_end_len(&chars_of("a/b//"), '/'), 3);
    assert_eq!(trimmed_end_len(&chars_of("a/b"), '/'), 3);
    assert_eq!(trimmed_end_len(&chars_of("///"), '/'), 0);
    assert_eq!(trimmed_end_len(&chars_of(""), '/'), 0);
}

#[test]
fn search_finds_the_leftmost_place() {
    let hay = chars_of("abcabcab");
    let needle = chars_of("cab");
    assert_eq!(find_from(&hay, &needle, 0), Some(2));
    assert_eq!(find_from(&hay, &needle, 2), Some(2));
    assert_eq!(find_from(&hay, &needle, 3), Some(5));
    assert_eq!(find_from(&hay, &needle, 6), None);
    assert_eq!(find_from(&hay, &needle, 8), None);
    assert_eq!(find_from(&hay, &chars_of("abcabcabc"), 0), None);
    assert_eq!(find_from(&hay, &Vec::new(), 4), Some(4));
    assert_eq!(find_from(&hay, &Vec::new(), 8), Some(8));
    assert!(matches_at(&hay, &needle, 5));
    assert!(!matches_at(&hay, &needle, 6));
    assert!(!matches_at(&hay, &needle, 100));
}
