use icbm_firmware::decimal::{format_u32, parse_i32, trim};

#[test]
fn formatting_writes_plain_decimal_digits() {
    assert_eq!(format_u32(0), b"0".to_vec());
    assert_eq!(format_u32(8192), b"8192".to_vec());
    assert_eq!(format_u32(500), b"500".to_vec());
    assert_eq!(format_u32(u32::MAX), b"4294967295".to_vec());
}

#[test]
fn formatted_values_parse_back() {
    for n in [0u32, 1, 9, 10, 500, 8192, 65_535, 2_000_000_000] {
        let digits = format_u32(n);
        assert_eq!(parse_i32(&digits), Some(n as i32));
    }
}

#[test]
fn parse_accepts_signs_and_leading_zeros() {
    assert_eq!(parse_i32(b"0"), Some(0));
    assert_eq!(parse_i32(b"007"), Some(7));
    assert_eq!(parse_i32(b"+42"), Some(42));
    assert_eq!(parse_i32(b"-42"), Some(-42));
    assert_eq!(parse_i32(b"2147483647"), Some(i32::MAX));
    assert_eq!(parse_i32(b"-2147483648"), Some(i32::MIN));
}

#[test]
fn parse_rejects_malformed_and_out_of_range_texts() {
    assert_eq!(parse_i32(b""), None);
    assert_eq!(parse_i32(b"-"), None);
    assert_eq!(parse_i32(b"+"), None);
    assert_eq!(parse_i32(b"4x2"), None);
    assert_eq!(parse_i32(b" 42"), None);
    assert_eq!(parse_i32(b"2147483648"), None);
    assert_eq!(parse_i32(b"-2147483649"), None);
    assert_eq!(parse_i32(b"99999999999999999999"), None);
}

#[test]
fn trim_strips_ascii_whitespace_from_both_ends() {
    assert_eq!(trim(b"  00500 \r\n"), b"00500".to_vec());
    assert_eq!(trim(b"a b"), b"a b".to_vec());
    assert_eq!(trim(b" \t\r\n "), Vec::<u8>::new());
    assert_eq!(trim(b""), Vec::<u8>::new());
}
