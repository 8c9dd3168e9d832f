use guildbot::text::{
    append_str, byte_len, chars_of, is_whitespace, owned, parse_id, parse_u64, split_whitespace,
    text_eq, u64_to_string, write_i64, write_u64,
};

#[test]
fn decimal_of_zero_and_large_numbers() {
    assert_eq!(u64_to_string(0), "0");
    assert_eq!(u64_to_string(7), "7");
    assert_eq!(u64_to_string(12345), "12345");
    assert_eq!(u64_to_string(u64::MAX), "18446744073709551615");
}

#[test]
fn write_u64_appends_digits() {
    let mut s = String::from("n=");
    write_u64(&mut s, 1002);
    assert_eq!(s, "n=1002");
}

#[test]
fn write_i64_writes_sign() {
    let mut s = String::new();
    write_i64(&mut s, -42);
    assert_eq!(s, "-42");
    let mut t = String::new();
    write_i64(&mut t, i64::MIN);
    assert_eq!(t, "-9223372036854775808");
    let mut u = String::new();
    write_i64(&mut u, i64::MAX);
    assert_eq!(u, "9223372036854775807");
}

#[test]
fn split_whitespace_drops_all_blanks() {
    let ws = split_whitespace("  a b\tc\n\u{3000}d  ");
    assert_eq!(ws, vec!["a", "b", "c", "d"]);
    assert!(split_whitespace("   ").is_empty());
    assert!(split_whitespace("").is_empty());
}

#[test]
fn whitespace_matches_std() {
    for c in [' ', '\t', '\n', '\u{85}', '\u{a0}', '\u{2028}', '\u{3000}', 'a', '_', '\u{200b}'] {
        assert_eq!(is_whitespace(c), c.is_whitespace(), "{:?}", c);
    }
}

#[test]
fn parse_u64_follows_from_str() {
    assert_eq!(parse_u64("12"), Some(12));
    assert_eq!(parse_u64("+12"), Some(12));
    assert_eq!(parse_u64("007"), Some(7));
    assert_eq!(parse_u64("18446744073709551615"), Some(u64::MAX));
    assert_eq!(parse_u64("18446744073709551616"), None);
    assert_eq!(parse_u64(""), None);
    assert_eq!(parse_u64("+"), None);
    assert_eq!(parse_u64("-1"), None);
    assert_eq!(parse_u64("12a"), None);
    assert_eq!(parse_u64(" 12"), None);
}

#[test]
fn parse_id_refuses_zero() {
    assert_eq!(parse_id("0"), None);
    assert_eq!(parse_id("887046293669707797"), Some(887046293669707797));
}

#[test]
fn text_helpers() {
    assert!(text_eq("abc", "abc"));
    assert!(!text_eq("abc", "abd"));
    assert_eq!(byte_len(&String::from("é")), 2);
    assert_eq!(chars_of("hé"), vec!['h', 'é']);
    let mut s = owned("a");
    append_str(&mut s, "bc");
    assert_eq!(s, "abc");
}
