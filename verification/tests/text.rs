use rusty_app::text::{is_blank_str, parse_u16, parse_unsigned, starts_with_str, strip_prefix_str, trim_str, usize_to_decimal, str_eq, find_char, starts_with_up_str};

#[test]
fn decimal_rendering() {
    assert_eq!(usize_to_decimal(0), "0");
    assert_eq!(usize_to_decimal(7), "7");
    assert_eq!(usize_to_decimal(1234), "1234");
    assert_eq!(usize_to_decimal(usize::MAX), usize::MAX.to_string());
}

#[test]
fn u16_parsing_matches_std() {
    for s in ["", "0", "1", "+7", "65535", "65536", "99999999999999999999", "-1", " 1", "1 ", "12a", "+", "007"] {
        assert_eq!(parse_u16(s), s.parse::<u16>().ok(), "input {:?}", s);
    }
}

#[test]
fn unsigned_parsing_respects_limit() {
    assert_eq!(parse_unsigned("255", 255), Some(255));
    assert_eq!(parse_unsigned("256", 255), None);
    assert_eq!(parse_unsigned("18446744073709551615", u64::MAX), Some(u64::MAX));
    assert_eq!(parse_unsigned("18446744073709551616", u64::MAX), None);
}

#[test]
fn trimming_and_blanks() {
    assert_eq!(trim_str("  a b \t\n"), "a b");
    assert_eq!(trim_str(""), "");
    assert!(is_blank_str(" \t\r\n"));
    assert!(!is_blank_str(" x "));
    assert!(is_blank_str("\u{3000}"));
}

#[test]
fn prefixes_and_search() {
    assert!(starts_with_str("local-pg", "local-"));
    assert!(!starts_with_str("loc", "local-"));
    assert_eq!(strip_prefix_str("icitadel-dev-mysql", "icitadel-dev-"), Some("mysql"));
    assert_eq!(strip_prefix_str("other", "icitadel-dev-"), None);
    assert!(str_eq("abc", "abc"));
    assert!(!str_eq("abc", "abd"));
    assert_eq!(find_char("a\tb", '\t'), Some(1));
    assert_eq!(find_char("ab", '\t'), None);
    assert!(starts_with_up_str("uP since"));
    assert!(!starts_with_up_str("u"));
}
