use colored_logcat::text::{
    chars_of, decimal_text, find_char_from, is_digit_char, is_space_char, join_text, read_decimal,
    same_text, skip_digits_from, skip_spaces_from, slice_text, trim_end_from,
};

#[test]
fn whitespace_is_what_the_standard_library_calls_whitespace() {
    for code in 0..=0x11_0000u32 {
        if let Some(c) = char::from_u32(code) {
            assert_eq!(is_space_char(c), c.is_whitespace(), "U+{code:04X}");
        }
    }
}

#[test]
fn digits_are_the_ten_ascii_digits() {
    for code in 0..=0x11_0000u32 {
        if let Some(c) = char::from_u32(code) {
            assert_eq!(is_digit_char(c), c.is_ascii_digit(), "U+{code:04X}");
        }
    }
}

#[test]
fn chars_of_gives_the_characters_in_order() {
    assert_eq!(chars_of("héllo"), vec!['h', 'é', 'l', 'l', 'o']);
    assert!(chars_of("").is_empty());
}

#[test]
fn scanning_stops_at_the_first_character_of_another_kind() {
    let text = chars_of("  \t12ab: x  ");
    assert_eq!(skip_spaces_from(&text, 0), 3);
    assert_eq!(skip_spaces_from(&text, 3), 3);
    assert_eq!(skip_digits_from(&text, 3), 5);
    assert_eq!(skip_digits_from(&text, 5), 5);
    assert_eq!(find_char_from(&text, ':', 0), 7);
    assert_eq!(find_char_from(&text, ':', 8), text.len());
    assert_eq!(skip_spaces_from(&text, 10), text.len());
    assert_eq!(skip_spaces_from(&text, text.len()), text.len());
    assert_eq!(trim_end_from(&text, 0, text.len()), 10);
    assert_eq!(trim_end_from(&text, 10, text.len()), 10);
    assert_eq!(trim_end_from(&text, 0, 3), 0);
}

#[test]
fn reads_decimal_numbers_that_fit() {
    let text = chars_of("x004294967295y");
    assert_eq!(read_decimal(&text, 1, 13), Some(4294967295));
    assert_eq!(read_decimal(&text, 1, 4), Some(4));
    assert_eq!(read_decimal(&text, 3, 3), Some(0));
    let big = chars_of("4294967296");
    assert_eq!(read_decimal(&big, 0, 10), None);
    assert_eq!(read_decimal(&big, 0, 9), Some(429496729));
}

#[test]
fn writes_numbers_in_decimal() {
    assert_eq!(decimal_text(0), "0");
    assert_eq!(decimal_text(7), "7");
    assert_eq!(decimal_text(10), "10");
    assert_eq!(decimal_text(1234567890), "1234567890");
    assert_eq!(decimal_text(u32::MAX as u64), "4294967295");
    assert_eq!(decimal_text(u64::MAX), "18446744073709551615");
}

#[test]
fn slices_and_joins_by_characters() {
    assert_eq!(slice_text("héllo wörld", 1, 5), "éllo");
    assert_eq!(slice_text("héllo", 0, 0), "");
    assert_eq!(slice_text("héllo", 5, 5), "");
    assert_eq!(slice_text("héllo", 0, 5), "héllo");
    assert_eq!(join_text("Saved to ", "/tmp/x"), "Saved to /tmp/x");
    assert_eq!(join_text("", ""), "");
}

#[test]
fn compares_texts_by_their_characters() {
    assert!(same_text("", ""));
    assert!(same_text("héllo", "héllo"));
    assert!(!same_text("hello", "hellO"));
    assert!(!same_text("hello", "hell"));
    assert!(!same_text("", " "));
}
