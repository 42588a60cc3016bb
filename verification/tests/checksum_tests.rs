use icbm_firmware::checksum::crc8;

#[test]
fn crc8_of_documented_word() {
    // The sensor's datasheet example: CRC-8 of 0xBE 0xEF is 0x92.
    assert_eq!(crc8(&[0xBE, 0xEF]), 0x92);
}

#[test]
fn crc8_of_zero_word() {
    // The disable-self-calibration payload.
    assert_eq!(crc8(&[0x00, 0x00]), 0x81);
}

#[test]
fn crc8_of_empty_input_is_init_value() {
    assert_eq!(crc8(&[]), 0xFF);
}

#[test]
fn crc8_is_deterministic() {
    let data = [0x21, 0xB1, 0x3F, 0x86, 0xEC, 0x05];
    assert_eq!(crc8(&data), crc8(&data));
    let copy = data;
    assert_eq!(crc8(&data), crc8(&copy));
}

#[test]
fn crc8_distinguishes_single_bit_flips() {
    let base = [0xBE, 0xEF];
    let reference = crc8(&base);
    for byte in 0..2 {
        for bit in 0..8 {
            let mut flipped = base;
            flipped[byte] ^= 1u8 << bit;
            assert_ne!(
                crc8(&flipped),
                reference,
                "flip of byte {} bit {} went undetected",
                byte,
                bit
            );
        }
    }
}

#[test]
fn crc8_of_command_payloads() {
    // Payloads the drivers actually send: altitude 300 m, pressure
    // word 1013 hPa, offset word for 4 degrees.
    assert_eq!(crc8(&[0x01, 0x2C]), 0x8E);
    assert_eq!(crc8(&[0x03, 0xF5]), 0xDB);
    assert_eq!(crc8(&[0x05, 0xD9]), 0x7A);
}
