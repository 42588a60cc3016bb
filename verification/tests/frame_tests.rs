use icbm_firmware::checksum::crc8;
use icbm_firmware::i2c_frame::{
    build_command_frame, decode_word, validate_group, validate_response,
};

#[test]
fn command_frame_is_opcode_payload_checksum() {
    let frame = build_command_frame(&[0x24, 0x27], &[0x01, 0x2C]).unwrap();
    assert_eq!(frame, vec![0x24, 0x27, 0x01, 0x2C, 0x8E]);
    assert_eq!(frame[4], crc8(&[0x01, 0x2C]));
}

#[test]
fn opcode_only_frame_carries_checksum_of_empty_payload() {
    let frame = build_command_frame(&[0x36, 0x39], &[]).unwrap();
    assert_eq!(frame, vec![0x36, 0x39, 0xFF]);
}

#[test]
fn overlong_frame_is_refused() {
    assert!(build_command_frame(&[0x24, 0x27], &[0x01, 0x2C, 0x00]).is_none());
    assert!(build_command_frame(&[0x24, 0x27, 0x00], &[0x01, 0x2C]).is_none());
}

#[test]
fn word_decoding_is_big_endian() {
    assert_eq!(decode_word(0x01, 0xF4), 500);
    assert_eq!(decode_word(0xFF, 0xFF), 65535);
    assert_eq!(decode_word(0x00, 0x00), 0);
}

#[test]
fn group_validates_iff_checksum_matches() {
    assert!(validate_group(0xBE, 0xEF, 0x92));
    assert!(!validate_group(0xBE, 0xEF, 0x93));
}

#[test]
fn corrupting_any_byte_of_a_valid_group_fails_validation() {
    let group = [0xBE, 0xEF, 0x92];
    assert!(validate_response(&group));
    for byte in 0..3 {
        for bit in 0..8 {
            let mut corrupted = group;
            corrupted[byte] ^= 1u8 << bit;
            assert!(
                !validate_response(&corrupted),
                "corruption of byte {} bit {} went undetected",
                byte,
                bit
            );
        }
    }
}

#[test]
fn response_of_three_groups_validates_groupwise() {
    let valid = [0x01, 0xF4, 0x33, 0x66, 0x66, 0x93, 0x80, 0x00, 0xA2];
    assert!(validate_response(&valid));
    let mut broken = valid;
    broken[5] ^= 0x01;
    assert!(!validate_response(&broken));
}

#[test]
fn empty_response_validates() {
    assert!(validate_response(&[]));
}
