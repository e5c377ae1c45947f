use rbxsync::text::{bytes_to_hex, eq_exact, eq_ignore_case, parse_u64, u64_to_string};

#[test]
fn parse_u64_reads_digits() {
    assert_eq!(parse_u64("0"), Some(0));
    assert_eq!(parse_u64("42"), Some(42));
    assert_eq!(parse_u64("007"), Some(7));
    assert_eq!(parse_u64("18446744073709551615"), Some(u64::MAX));
}

#[test]
fn parse_u64_rejects_non_numbers() {
    assert_eq!(parse_u64(""), None);
    assert_eq!(parse_u64("12a"), None);
    assert_eq!(parse_u64("-3"), None);
    assert_eq!(parse_u64(" 1"), None);
    assert_eq!(parse_u64("18446744073709551616"), None);
}

#[test]
fn u64_to_string_formats_decimal() {
    assert_eq!(u64_to_string(0), "0");
    assert_eq!(u64_to_string(7), "7");
    assert_eq!(u64_to_string(1234567890), "1234567890");
    assert_eq!(u64_to_string(u64::MAX), "18446744073709551615");
}

#[test]
fn decimal_round_trip() {
    for n in [0u64, 1, 9, 10, 99, 100, 4096, u64::MAX] {
        assert_eq!(parse_u64(&u64_to_string(n)), Some(n));
    }
}

#[test]
fn case_insensitive_equality() {
    assert!(eq_ignore_case("Explorer", "explorer"));
    assert!(eq_ignore_case("EXPLORER", "explorer"));
    assert!(eq_ignore_case("abc123", "ABC123"));
    assert!(!eq_ignore_case("explorer", "explorers"));
    assert!(!eq_ignore_case("explorer", "explorer "));
    // the comparison folds Unicode case, not only ASCII
    assert!(eq_ignore_case("caf\u{e9}", "CAF\u{c9}"));
    assert!(eq_ignore_case("stra\u{df}e", "STRA\u{df}E"));
    assert!(!eq_ignore_case("caf\u{e9}", "cafe"));
}

#[test]
fn exact_equality() {
    assert!(eq_exact("abc", "abc"));
    assert!(!eq_exact("abc", "Abc"));
    assert!(!eq_exact("abc", "abcd"));
    assert!(eq_exact("", ""));
}

#[test]
fn hex_encoding() {
    assert_eq!(bytes_to_hex(&vec![]), "");
    assert_eq!(bytes_to_hex(&vec![0x00]), "00");
    assert_eq!(bytes_to_hex(&vec![0xff, 0x01, 0xa5]), "ff01a5");
    assert_eq!(bytes_to_hex(&vec![0x12, 0x34]), "1234");
}
