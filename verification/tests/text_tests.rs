use tigerbot::text::{i64_text, join_from, parse_u16, split_words, starts_with_char, text_eq, u64_text};

#[test]
fn decimal_writing_of_unsigned_numbers() {
    assert_eq!(u64_text(0), "0");
    assert_eq!(u64_text(7), "7");
    assert_eq!(u64_text(10), "10");
    assert_eq!(u64_text(1087968824), "1087968824");
    assert_eq!(u64_text(u64::MAX), "18446744073709551615");
}

#[test]
fn decimal_writing_of_signed_numbers() {
    assert_eq!(i64_text(0), "0");
    assert_eq!(i64_text(42), "42");
    assert_eq!(i64_text(-5), "-5");
    assert_eq!(i64_text(i64::MIN), "-9223372036854775808");
    assert_eq!(i64_text(i64::MAX), "9223372036854775807");
}

#[test]
fn reading_ports_like_str_parse() {
    for s in ["", "+", "-1", " 80", "80 ", "8o", "65536", "99999999999", "-0"] {
        assert_eq!(parse_u16(s), s.parse::<u16>().ok(), "{s:?}");
        assert_eq!(parse_u16(s), None, "{s:?}");
    }
    for s in ["0", "80", "+80", "080", "3000", "5432", "65535", "+0"] {
        assert_eq!(parse_u16(s), s.parse::<u16>().ok(), "{s:?}");
    }
    assert_eq!(parse_u16("65535"), Some(65535));
    assert_eq!(parse_u16("+443"), Some(443));
}

#[test]
fn a_written_port_reads_back() {
    for n in [0u16, 1, 9, 10, 99, 100, 3000, 5432, 65535] {
        assert_eq!(parse_u16(&u64_text(n as u64)), Some(n));
    }
}

#[test]
fn words_are_split_on_unicode_whitespace() {
    assert_eq!(split_words(""), Vec::<String>::new());
    assert_eq!(split_words("   "), Vec::<String>::new());
    assert_eq!(split_words("/searchquote"), vec!["/searchquote"]);
    assert_eq!(split_words("  a  b\tc\nd "), vec!["a", "b", "c", "d"]);
    assert_eq!(split_words("x\u{a0}y\u{3000}z"), vec!["x", "y", "z"]);
    let s = "/search  cats\u{2003}and   dogs ";
    let expected: Vec<String> = s.split_whitespace().map(String::from).collect();
    assert_eq!(split_words(s), expected);
}

#[test]
fn joining_from_an_index() {
    let parts: Vec<String> = vec!["a".into(), "b".into(), "c".into()];
    assert_eq!(join_from(&parts, 0, " & "), "a & b & c");
    assert_eq!(join_from(&parts, 1, " & "), "b & c");
    assert_eq!(join_from(&parts, 2, " & "), "c");
    assert_eq!(join_from(&parts, 3, " & "), "");
}

#[test]
fn comparing_texts() {
    assert!(text_eq("quote_type", "quote_type"));
    assert!(!text_eq("quote_type", "quote_types"));
    assert!(!text_eq("abc", "abd"));
    assert!(text_eq("", ""));
    assert!(starts_with_char("@bob", '@'));
    assert!(!starts_with_char("bob@", '@'));
    assert!(!starts_with_char("", '@'));
}

#[test]
fn whitespace_is_the_unicode_white_space_set() {
    let white: Vec<char> = vec![
        '\u{9}', '\u{a}', '\u{b}', '\u{c}', '\u{d}', ' ', '\u{85}', '\u{a0}', '\u{1680}',
        '\u{2000}', '\u{2005}', '\u{200a}', '\u{2028}', '\u{2029}', '\u{202f}', '\u{205f}',
        '\u{3000}',
    ];
    for c in white {
        assert_eq!(split_words(&format!("a{c}b")), vec!["a", "b"], "{:?}", c);
    }
    for c in ['\u{200b}', '\u{180e}', '\u{feff}', 'x', '\u{8}', '\u{e}'] {
        assert_eq!(split_words(&format!("a{c}b")).len(), 1, "{:?}", c);
    }
}
