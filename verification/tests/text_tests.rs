use ai_vs_ai::decimal::{decimal_string, parse_decimal_chars};
use ai_vs_ai::text::{
    char_is_ascii_punctuation, char_is_ascii_whitespace, char_is_whitespace,
    equals_ignoring_ascii_case, from_chars, same_char_ignoring_ascii_case, to_chars, trim,
};

#[test]
fn character_classes_agree_with_the_standard_library() {
    for code in 0..=0x10FFFFu32 {
        if let Some(c) = char::from_u32(code) {
            assert_eq!(char_is_ascii_punctuation(c), c.is_ascii_punctuation(), "{code:x}");
            assert_eq!(char_is_ascii_whitespace(c), c.is_ascii_whitespace(), "{code:x}");
            assert_eq!(char_is_whitespace(c), c.is_whitespace(), "{code:x}");
        }
    }
}

#[test]
fn same_char_ignoring_case_agrees_with_the_standard_library() {
    for a in 0..=0x250u32 {
        for b in 0..=0x250u32 {
            let x = char::from_u32(a).unwrap();
            let y = char::from_u32(b).unwrap();
            assert_eq!(same_char_ignoring_ascii_case(x, y), x.eq_ignore_ascii_case(&y));
        }
    }
}

#[test]
fn trim_removes_whitespace_at_both_ends_only() {
    assert_eq!(trim("  hello world \t\n"), "hello world");
    assert_eq!(trim("\u{3000}a b\u{a0}"), "a b");
    assert_eq!(trim(""), "");
    assert_eq!(trim(" \r\n\t "), "");
    assert_eq!(trim("x"), "x");
    assert_eq!(trim("\u{200b}x"), "\u{200b}x");
}

#[test]
fn trim_agrees_with_the_standard_library() {
    for s in ["", " ", "a", " a", "a ", " a b ", "\n\n", "\u{2028}z\u{2029}", "你 好 ", "\u{85}\u{1680}q"] {
        assert_eq!(trim(s), s.trim());
    }
}

#[test]
fn equals_ignoring_ascii_case_examples() {
    assert!(equals_ignoring_ascii_case("EXIT", "exit"));
    assert!(equals_ignoring_ascii_case("eXiT", "ExIt"));
    assert!(equals_ignoring_ascii_case("", ""));
    assert!(!equals_ignoring_ascii_case("exit", "exit "));
    assert!(!equals_ignoring_ascii_case("exit", "exif"));
    assert!(!equals_ignoring_ascii_case("é", "É"));
    assert!(!equals_ignoring_ascii_case("@", "`"));
    assert!(!equals_ignoring_ascii_case("[", "{"));
}

#[test]
fn chars_round_trip() {
    let v = to_chars("a你b");
    assert_eq!(v, vec!['a', '你', 'b']);
    assert_eq!(from_chars(&v, 0, 3), "a你b");
    assert_eq!(from_chars(&v, 1, 2), "你");
    assert_eq!(from_chars(&v, 2, 2), "");
}

#[test]
fn decimal_string_examples() {
    assert_eq!(decimal_string(0), "0");
    assert_eq!(decimal_string(7), "7");
    assert_eq!(decimal_string(10), "10");
    assert_eq!(decimal_string(1234567890), "1234567890");
    assert_eq!(decimal_string(usize::MAX), usize::MAX.to_string());
}

#[test]
fn parse_decimal_reads_back_what_decimal_string_writes() {
    for n in [0usize, 1, 9, 10, 99, 100, 12345, usize::MAX - 1, usize::MAX] {
        let v = to_chars(&decimal_string(n));
        assert_eq!(parse_decimal_chars(&v, 0, v.len()), Some(n));
    }
}

#[test]
fn parse_decimal_rejects_other_text() {
    let parse = |s: &str| {
        let v = to_chars(s);
        parse_decimal_chars(&v, 0, v.len())
    };
    assert_eq!(parse(""), None);
    assert_eq!(parse("+1"), None);
    assert_eq!(parse("-1"), None);
    assert_eq!(parse("1 "), None);
    assert_eq!(parse("12a"), None);
    assert_eq!(parse("007"), Some(7));
    assert_eq!(parse("18446744073709551616"), None);
    assert_eq!(parse("99999999999999999999999"), None);
}
