use rbgn::text::{is_space_char, parse_seconds, split_space, str_eq, trim, trim_end};

#[test]
fn trim_strips_both_ends() {
    assert_eq!(trim("  a b \t\n"), "a b");
    assert_eq!(trim("a"), "a");
    assert_eq!(trim(""), "");
    assert_eq!(trim(" \t\r\n"), "");
}

#[test]
fn trim_knows_unicode_whitespace() {
    assert_eq!(trim("\u{a0}\u{2003}x\u{3000}\u{85}"), "x");
    assert_eq!(trim("\u{200b}x"), "\u{200b}x");
    assert_eq!(trim("é \u{1680}"), "é");
}

#[test]
fn trim_agrees_with_std() {
    for s in [" x ", "\u{2028}a\u{2029}", "\u{b}\u{c}q", "a\u{205f}b\u{202f}", "\u{1f}x\u{1c}"] {
        assert_eq!(trim(s), s.trim());
        assert_eq!(trim_end(s), s.trim_end());
    }
}

#[test]
fn trim_end_keeps_the_front() {
    assert_eq!(trim_end("  a b \r\n"), "  a b");
    assert_eq!(trim_end("\n"), "");
    assert_eq!(trim_end("x"), "x");
}

#[test]
fn whitespace_is_what_std_says() {
    for u in 0u32..0x3100 {
        if let Some(c) = char::from_u32(u) {
            assert_eq!(is_space_char(c), c.is_whitespace(), "U+{:04X}", u);
        }
    }
}

#[test]
fn split_space_cuts_at_the_first_space() {
    assert_eq!(split_space("a b c"), ("a", Some("b c")));
    assert_eq!(split_space("abc"), ("abc", None));
    assert_eq!(split_space(" x"), ("", Some("x")));
    assert_eq!(split_space("x "), ("x", Some("")));
    assert_eq!(split_space(""), ("", None));
    assert_eq!(split_space("é\tb ü"), ("é\tb", Some("ü")));
}

#[test]
fn str_eq_compares_contents() {
    assert!(str_eq("DONE", "DONE"));
    assert!(!str_eq("DONE", "DONE "));
    assert!(!str_eq("DONE", "done"));
    assert!(str_eq("", ""));
    assert!(!str_eq("é", "e"));
}

#[test]
fn parse_seconds_reads_decimal_numbers() {
    assert_eq!(parse_seconds("0"), Some(0));
    assert_eq!(parse_seconds("42"), Some(42));
    assert_eq!(parse_seconds("007"), Some(7));
    assert_eq!(parse_seconds("+5"), Some(5));
    assert_eq!(parse_seconds("18446744073709551615"), Some(u64::MAX));
}

#[test]
fn parse_seconds_refuses_what_is_no_number() {
    assert_eq!(parse_seconds(""), None);
    assert_eq!(parse_seconds("+"), None);
    assert_eq!(parse_seconds("-1"), None);
    assert_eq!(parse_seconds("++1"), None);
    assert_eq!(parse_seconds("1+"), None);
    assert_eq!(parse_seconds("1a"), None);
    assert_eq!(parse_seconds(" 1"), None);
    assert_eq!(parse_seconds("1.5"), None);
    assert_eq!(parse_seconds("٣"), None);
    assert_eq!(parse_seconds("18446744073709551616"), None);
    assert_eq!(parse_seconds("99999999999999999999999"), None);
}

#[test]
fn parse_seconds_agrees_with_std() {
    for s in ["", "+", "-", "+0", "-0", "00", "1", "+18446744073709551615", "18446744073709551620", "12x", "x12"] {
        assert_eq!(parse_seconds(s), s.parse::<u64>().ok(), "{:?}", s);
    }
}
