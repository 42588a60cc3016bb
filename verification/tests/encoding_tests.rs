use icbm_firmware::encoding::is_valid_utf8;

#[test]
fn ascii_and_empty_are_valid() {
    assert!(is_valid_utf8(b""));
    assert!(is_valid_utf8(b" 01234 serial"));
}

#[test]
fn well_formed_multi_byte_sequences_are_valid() {
    // Two-, three- and four-byte scalars.
    assert!(is_valid_utf8(&[0xC3, 0xA9]));
    assert!(is_valid_utf8(&[0xE2, 0x82, 0xAC]));
    assert!(is_valid_utf8(&[0xF0, 0x9F, 0x92, 0xA7]));
    assert!(is_valid_utf8(&[0x61, 0xC3, 0xA9, 0x62, 0xE2, 0x82, 0xAC, 0x63]));
}

#[test]
fn stray_and_truncated_sequences_are_invalid() {
    assert!(!is_valid_utf8(&[0x80]));
    assert!(!is_valid_utf8(&[0xC3]));
    assert!(!is_valid_utf8(&[0xE2, 0x82]));
    assert!(!is_valid_utf8(&[0xF0, 0x9F, 0x92]));
    assert!(!is_valid_utf8(&[0xC3, 0x20]));
}

#[test]
fn overlong_encodings_are_invalid() {
    assert!(!is_valid_utf8(&[0xC0, 0x80]));
    assert!(!is_valid_utf8(&[0xE0, 0x80, 0x80]));
    assert!(!is_valid_utf8(&[0xF0, 0x80, 0x80, 0x80]));
}

#[test]
fn surrogates_and_out_of_range_values_are_invalid() {
    // The surrogate range starts at U+D800.
    assert!(!is_valid_utf8(&[0xED, 0xA0, 0x80]));
    // Beyond U+10FFFF.
    assert!(!is_valid_utf8(&[0xF4, 0x90, 0x80, 0x80]));
    // Bytes no encoding uses.
    assert!(!is_valid_utf8(&[0xF8, 0x80, 0x80, 0x80, 0x80]));
    assert!(!is_valid_utf8(&[0xFF]));
}
