use ttl_pulse::text::{parse_positive_u32, str_eq, u64_to_dec};

#[test]
fn parses_ordinary_rates() {
    assert_eq!(parse_positive_u32("9600"), Some(9600));
    assert_eq!(parse_positive_u32("115200"), Some(115200));
    assert_eq!(parse_positive_u32("1"), Some(1));
}

#[test]
fn accepts_leading_zeros() {
    assert_eq!(parse_positive_u32("0115200"), Some(115200));
}

#[test]
fn rejects_zero_and_empty() {
    assert_eq!(parse_positive_u32("0"), None);
    assert_eq!(parse_positive_u32("000"), None);
    assert_eq!(parse_positive_u32(""), None);
}

#[test]
fn rejects_non_digits() {
    assert_eq!(parse_positive_u32("abc"), None);
    assert_eq!(parse_positive_u32("96k"), None);
    assert_eq!(parse_positive_u32("-9600"), None);
    assert_eq!(parse_positive_u32("+9600"), None);
    assert_eq!(parse_positive_u32("9 600"), None);
}

#[test]
fn boundary_at_u32_max() {
    assert_eq!(parse_positive_u32("4294967295"), Some(u32::MAX));
    assert_eq!(parse_positive_u32("4294967296"), None);
    assert_eq!(parse_positive_u32("99999999999999999999"), None);
}

#[test]
fn renders_decimals() {
    assert_eq!(u64_to_dec(0), "0");
    assert_eq!(u64_to_dec(7), "7");
    assert_eq!(u64_to_dec(9600), "9600");
    assert_eq!(u64_to_dec(18446744073709551615), "18446744073709551615");
}

#[test]
fn rendering_then_parsing_returns_the_value() {
    for n in [1u32, 9, 10, 9600, 115200, u32::MAX] {
        let s = u64_to_dec(n as u64);
        assert_eq!(parse_positive_u32(&s), Some(n));
    }
}

#[test]
fn string_equality_is_character_exact() {
    assert!(str_eq("COM3", "COM3"));
    assert!(!str_eq("COM3", "com3"));
    assert!(!str_eq("COM3", "COM33"));
    assert!(!str_eq("", "x"));
    assert!(str_eq("", ""));
}
