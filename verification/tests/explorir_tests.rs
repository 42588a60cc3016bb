use icbm_firmware::explorir::{
    altitude_compensation, parse_response, response_error_message, ExplorIrME100, Mode,
    RangeError, ResponseError, ValueError,
};

#[test]
fn documented_response_parses_to_its_payload() {
    let r = parse_response(b" Z01234\r\n", b'Z', 10);
    assert_eq!(r.unwrap(), b"01234".to_vec());
}

#[test]
fn missing_leading_space_is_its_own_error() {
    let r = parse_response(b"Z01234\r\n\r\n", b'Z', 10);
    assert_eq!(r.unwrap_err(), ResponseError::MissingSpace);
}

#[test]
fn wrong_command_echo_is_its_own_error() {
    let r = parse_response(b" z01234\r\n", b'Z', 10);
    assert_eq!(r.unwrap_err(), ResponseError::WrongCommand);
}

#[test]
fn bad_termination_is_its_own_error() {
    let r = parse_response(b" Z01234\r ", b'Z', 10);
    assert_eq!(r.unwrap_err(), ResponseError::InvalidTermination);
}

#[test]
fn short_response_is_its_own_error() {
    let r = parse_response(b" Z\r", b'Z', 10);
    assert_eq!(r.unwrap_err(), ResponseError::TooShort);
}

#[test]
fn multi_byte_utf8_payload_is_accepted() {
    // 0xC3 0xA9 is a valid two-byte UTF-8 sequence.
    let r = parse_response(&[0x20, 0x5A, 0xC3, 0xA9, 0x0D, 0x0A], b'Z', 10);
    assert_eq!(r.unwrap(), vec![0xC3, 0xA9]);
}

#[test]
fn invalid_utf8_payload_is_its_own_error() {
    // A stray continuation byte.
    let r = parse_response(&[0x20, 0x5A, 0x80, 0x31, 0x0D, 0x0A], b'Z', 10);
    assert_eq!(r.unwrap_err(), ResponseError::Utf8Error);
    // A truncated two-byte sequence.
    let r = parse_response(&[0x20, 0x5A, 0x31, 0xC3, 0x0D, 0x0A], b'Z', 10);
    assert_eq!(r.unwrap_err(), ResponseError::Utf8Error);
    // An overlong encoding of an ASCII value.
    let r = parse_response(&[0x20, 0x5A, 0xC0, 0x80, 0x0D, 0x0A], b'Z', 10);
    assert_eq!(r.unwrap_err(), ResponseError::Utf8Error);
}

#[test]
fn payload_over_capacity_is_its_own_error() {
    let r = parse_response(b" Z01234\r\n", b'Z', 3);
    assert_eq!(r.unwrap_err(), ResponseError::StringOverflow);
}

#[test]
fn error_messages_are_distinct() {
    let all = [
        ResponseError::TooShort,
        ResponseError::InvalidFormat,
        ResponseError::MissingSpace,
        ResponseError::InvalidTermination,
        ResponseError::WrongCommand,
        ResponseError::Utf8Error,
        ResponseError::StringOverflow,
    ];
    for (i, a) in all.iter().enumerate() {
        for b in all.iter().skip(i + 1) {
            assert_ne!(response_error_message(a), response_error_message(b));
        }
    }
}

#[test]
fn filtered_co2_is_scaled_to_ppm() {
    let sensor = ExplorIrME100::new();
    assert_eq!(sensor.filtered_co2_command(), b"Z\r\n".to_vec());
    // The device reports " Z 00500": 500 hundredths-units = 50000 ppm.
    let ppm = sensor.get_filtered_co2(b" Z 00500\r\n").unwrap();
    assert_eq!(ppm, 50_000);
}

#[test]
fn unfiltered_co2_uses_the_lowercase_letter() {
    let sensor = ExplorIrME100::new();
    assert_eq!(sensor.unfiltered_co2_command(), b"z\r\n".to_vec());
    let ppm = sensor.get_unfiltered_co2(b" z 00470\r\n").unwrap();
    assert_eq!(ppm, 47_000);
    // The filtered decoder refuses the unfiltered echo.
    assert_eq!(
        sensor.get_filtered_co2(b" z 00470\r\n").unwrap_err(),
        ValueError::Envelope(ResponseError::WrongCommand)
    );
}

#[test]
fn unparsable_payload_is_a_number_error() {
    let sensor = ExplorIrME100::new();
    assert_eq!(
        sensor.get_filtered_co2(b" Z abcde\r\n").unwrap_err(),
        ValueError::NotANumber
    );
    assert_eq!(
        sensor.get_filtered_co2(b" Z     \r\n").unwrap_err(),
        ValueError::NotANumber
    );
}

#[test]
fn oversized_reading_is_a_range_error() {
    let sensor = ExplorIrME100::new();
    // 99999999 * 100 does not fit an i32.
    assert_eq!(
        sensor.get_filtered_co2(b" Z99999999\r\n").unwrap_err(),
        ValueError::OutOfRange
    );
}

#[test]
fn pressure_reading_is_unscaled() {
    let sensor = ExplorIrME100::new();
    assert_eq!(sensor.pressure_command(), b"s\r\n".to_vec());
    assert_eq!(sensor.get_pressure_and_concentration(b" s 08192\r\n").unwrap(), 8192);
}

#[test]
fn sea_level_pressure_compensates_to_8192() {
    let sensor = ExplorIrME100::new();
    // 1013.0 mbar, the sea-level reference, in tenths of a millibar.
    let cmd = sensor.set_pressure_and_concentration(10130).unwrap();
    assert_eq!(cmd, b"S 8192\r\n".to_vec());
}

#[test]
fn pressure_range_bounds_are_inclusive() {
    let sensor = ExplorIrME100::new();
    // 299.9 and 1100.1 mbar are rejected; 300.0 and 1100.0 accepted.
    assert_eq!(
        sensor.set_pressure_and_concentration(2999).unwrap_err(),
        RangeError::PressureOutOfRange
    );
    assert_eq!(
        sensor.set_pressure_and_concentration(11001).unwrap_err(),
        RangeError::PressureOutOfRange
    );
    assert_eq!(sensor.set_pressure_and_concentration(3000).unwrap(), b"S 14\r\n".to_vec());
    assert_eq!(
        sensor.set_pressure_and_concentration(11000).unwrap(),
        b"S 9189\r\n".to_vec()
    );
}

#[test]
fn calibration_sends_the_scaled_value() {
    let sensor = ExplorIrME100::new();
    assert_eq!(sensor.calibrate(50_000), b"X 500\r\n".to_vec());
}

#[test]
fn fine_tune_sends_output_then_reference() {
    let sensor = ExplorIrME100::new();
    let cmd = sensor.fine_tune(51_000, 49_000);
    assert_eq!(cmd, b"F 490 510\r\n".to_vec());
}

#[test]
fn serial_number_payload_is_returned_raw() {
    let sensor = ExplorIrME100::new();
    assert_eq!(sensor.serial_command(), b"Y\r\n".to_vec());
    let payload = sensor.read_serial_no(b" Y 123456 654321\r\n").unwrap();
    assert_eq!(payload, b" 123456 654321".to_vec());
}

#[test]
fn mode_commands_select_sleep_streaming_polling() {
    let sensor = ExplorIrME100::new();
    assert_eq!(sensor.change_mode_command(&Mode::Sleep), b"K 0\r\n".to_vec());
    assert_eq!(sensor.change_mode_command(&Mode::Streaming), b"K 1\r\n".to_vec());
    assert_eq!(sensor.change_mode_command(&Mode::Polling), b"K 2\r\n".to_vec());
}

#[test]
fn mode_changes_only_when_the_write_succeeded() {
    let mut sensor = ExplorIrME100::new();
    assert!(matches!(sensor.mode(), Mode::Polling));
    sensor.change_mode_commit(Mode::Sleep, false);
    assert!(matches!(sensor.mode(), Mode::Polling));
    sensor.change_mode_commit(Mode::Sleep, true);
    assert!(matches!(sensor.mode(), Mode::Sleep));
}

#[test]
fn init_plan_sets_polling_then_filter_then_settles() {
    let sensor = ExplorIrME100::new();
    let (polling, filter, settle) = sensor.init();
    assert_eq!(polling, b"K 2\r\n".to_vec());
    assert_eq!(filter, b"A 32\r\n".to_vec());
    assert_eq!(settle, 1200);
}

#[test]
fn altitude_compensation_matches_the_quadratic() {
    assert_eq!(altitude_compensation(0).unwrap(), 8229);
    assert_eq!(altitude_compensation(142).unwrap(), 8410);
    assert_eq!(altitude_compensation(3050).unwrap(), 11730);
    assert_eq!(
        altitude_compensation(3051).unwrap_err(),
        RangeError::AltitudeOutOfRange
    );
}

#[test]
fn negative_reading_parses_with_its_sign() {
    let sensor = ExplorIrME100::new();
    assert_eq!(sensor.get_pressure_and_concentration(b" s -0042\r\n").unwrap(), -42);
}
