use rustshell::text::{
    chars_of, contains, eq_ignore_ascii_case, integer_text, is_blank, is_white_space, joined, joined3, joined4,
    number_text, parse_integer, text_eq, text_of, to_lower, trimmed,
};

#[test]
fn white_space_is_what_the_standard_library_says() {
    for code in 0..=0x10FFFFu32 {
        if let Some(c) = char::from_u32(code) {
            assert_eq!(is_white_space(c), c.is_whitespace(), "{code:x}");
        }
    }
}

#[test]
fn integers_parse_as_in_the_standard_library() {
    let samples = [
        "", "+", "-", "0", "-0", "+0", "007", "7", "-7", "+7", "--7", "+-7", "7 ", " 7", "7a", "2147483647",
        "2147483648", "-2147483648", "-2147483649", "99999999999999999999999", "-99999999999999999999999", "٣",
    ];
    for sample in samples {
        let chars = chars_of(sample);
        let expected = sample.parse::<i32>().ok().map(i64::from);
        assert_eq!(parse_integer(&chars, i64::from(i32::MIN), i64::from(i32::MAX)), expected, "{sample:?}");
        let expected = sample.parse::<u16>().ok().map(i64::from);
        assert_eq!(parse_integer(&chars, 0, i64::from(u16::MAX)), expected, "{sample:?}");
    }
    assert_eq!(parse_integer(&chars_of("65535"), 0, 65535), Some(65535));
    assert_eq!(parse_integer(&chars_of("65536"), 0, 65535), None);
}

#[test]
fn numbers_read_back() {
    for n in [0, 1, 9, 10, 12, -1, -10, i32::MAX, i32::MIN] {
        assert_eq!(integer_text(n), n.to_string());
        let chars = chars_of(&integer_text(n));
        assert_eq!(parse_integer(&chars, i64::from(i32::MIN), i64::from(i32::MAX)), Some(i64::from(n)));
    }
    assert_eq!(number_text(u64::MAX), "18446744073709551615");
}

#[test]
fn texts_are_trimmed_at_both_ends() {
    for sample in ["", "  ", "a", " a ", "\u{3000}a b\n", "\t[1, 2]\r\n", "\u{200b}x"] {
        assert_eq!(trimmed(sample), sample.trim());
        assert_eq!(is_blank(sample), sample.trim().is_empty());
    }
}

#[test]
fn ascii_case_is_ignored_and_no_other() {
    assert!(eq_ignore_ascii_case("Windows", "wINDOWS"));
    assert!(!eq_ignore_ascii_case("É", "é"));
    assert!(!eq_ignore_ascii_case("a", "ab"));
    assert_eq!(to_lower('Q'), 'q');
    assert_eq!(to_lower('É'), 'É');
}

#[test]
fn texts_are_compared_searched_and_joined() {
    assert!(text_eq("é", "é"));
    assert!(!text_eq("é", "e"));
    assert!(contains(&chars_of("microsoft windows 11"), &chars_of("windows")));
    assert!(!contains(&chars_of("darwin"), &chars_of("windows")));
    assert_eq!(text_of(&chars_of("añb"), 1, 3), "ñb");
    assert_eq!(joined("a", "b"), "ab");
    assert_eq!(joined3("a", "", "c"), "ac");
    assert_eq!(joined4("a", "b", "c", "d"), "abcd");
}
