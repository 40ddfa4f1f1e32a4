use spotify_control::text::{decimal_string, is_blank, parse_u64, str_contains};

#[test]
fn decimal_of_numbers() {
    assert_eq!(decimal_string(0), "0");
    assert_eq!(decimal_string(7), "7");
    assert_eq!(decimal_string(50), "50");
    assert_eq!(decimal_string(u64::MAX), "18446744073709551615");
}

#[test]
fn blank_texts() {
    assert!(is_blank(""));
    assert!(is_blank(" \n\t\r "));
    assert!(is_blank("\u{a0}\u{3000}\u{2028}"));
    assert!(!is_blank(" {} "));
    assert!(!is_blank("\u{200b}"));
}

#[test]
fn contains_texts() {
    assert!(str_contains("abcNO_ACTIVE_DEVICEx", "NO_ACTIVE_DEVICE"));
    assert!(str_contains("abc", ""));
    assert!(!str_contains("NO_ACTIVE_DEVIC", "NO_ACTIVE_DEVICE"));
    assert!(str_contains("çağrı", "ğr"));
}

#[test]
fn parse_numbers() {
    assert_eq!(parse_u64(b"0"), Some(0));
    assert_eq!(parse_u64(b"120"), Some(120));
    assert_eq!(parse_u64(b"1a"), None);
    assert_eq!(parse_u64(b""), None);
}
