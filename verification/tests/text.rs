use circus::text::{int_to_string, parse_bool, parse_i64, parse_usize, trimmed};

#[test]
fn trim_removes_unicode_white_space() {
    assert_eq!(trimmed("  a b \t\n"), "a b");
    assert_eq!(trimmed("\u{3000}x\u{a0}"), "x");
    assert_eq!(trimmed("   "), "");
    assert_eq!(trimmed(""), "");
    assert_eq!(trimmed("\u{200b}x"), "\u{200b}x");
}

#[test]
fn integers_parse_like_from_str() {
    assert_eq!(parse_i64("42"), Some(42));
    assert_eq!(parse_i64("+7"), Some(7));
    assert_eq!(parse_i64("-9223372036854775808"), Some(i64::MIN));
    assert_eq!(parse_i64("9223372036854775807"), Some(i64::MAX));
    assert_eq!(parse_i64("9223372036854775808"), None);
    assert_eq!(parse_i64("-"), None);
    assert_eq!(parse_i64(""), None);
    assert_eq!(parse_i64(" 1"), None);
    assert_eq!(parse_i64("1a"), None);
    assert_eq!(parse_i64("000123"), Some(123));
    assert_eq!(parse_usize("25"), Some(25));
    assert_eq!(parse_usize("-0"), None);
    assert_eq!(parse_usize("+3"), Some(3));
    for s in ["0", "17", "-5", "99999999999999999999", "+", "x"] {
        assert_eq!(parse_i64(s), s.parse::<i64>().ok());
    }
}

#[test]
fn integers_print_and_read_back() {
    for n in [0i64, 7, -7, 10, 1234567890, i64::MIN, i64::MAX] {
        let s = int_to_string(n);
        assert_eq!(s, n.to_string());
        assert_eq!(parse_i64(&s), Some(n));
    }
}

#[test]
fn booleans_parse_exactly() {
    assert_eq!(parse_bool("true"), Some(true));
    assert_eq!(parse_bool("false"), Some(false));
    assert_eq!(parse_bool("True"), None);
    assert_eq!(parse_bool("1"), None);
}
