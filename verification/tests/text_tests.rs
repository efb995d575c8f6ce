use jugar_web::text::{decimal_string, parse_unsigned_decimal, starts_with, str_equals};

#[test]
fn decimal_formatting() {
    assert_eq!(decimal_string(0), "0");
    assert_eq!(decimal_string(7), "7");
    assert_eq!(decimal_string(491), "491");
    assert_eq!(decimal_string(u64::MAX), u64::MAX.to_string());
}

#[test]
fn unsigned_parsing_like_std() {
    for text in ["0", "42", "+42", "255", "256", "", "+", "-1", "4x", "00012", " 1"] {
        assert_eq!(parse_unsigned_decimal(text, 255), text.parse::<u8>().ok().map(u64::from));
    }
    assert_eq!(parse_unsigned_decimal("18446744073709551615", u64::MAX), Some(u64::MAX));
    assert_eq!(parse_unsigned_decimal("18446744073709551616", u64::MAX), None);
}

#[test]
fn decimal_roundtrip() {
    for n in [0u64, 1, 9, 10, 99, 100, 12345, 4_294_967_295] {
        assert_eq!(parse_unsigned_decimal(&decimal_string(n), u64::MAX), Some(n));
    }
}

#[test]
fn string_comparisons() {
    assert!(str_equals("abc", "abc"));
    assert!(!str_equals("abc", "abd"));
    assert!(!str_equals("abc", "ab"));
    assert!(starts_with("KeyW", "Key"));
    assert!(!starts_with("Ke", "Key"));
    assert!(starts_with("x", ""));
}
