//! ASCII command/response UART protocol client for the second CO2
//! sensor, with field-calibration support.
//!
//! A request is a single command letter, optionally followed by
//! space-separated decimal arguments, terminated by CR LF.  A response
//! echoes the command letter between a leading space and a CR LF
//! trailer; the payload between them is trimmed and, for the numeric
//! commands, parsed as a decimal integer.  Every envelope violation
//! yields its own distinct error.

use vstd::prelude::*;
use vstd::utf8::valid_utf8;
use crate::decimal::{
    format_u32, parse_i32, spec_decimal, spec_parse_i32, spec_trim, trim,
};
use crate::encoding::is_valid_utf8;

verus! {

/// Milliseconds to wait after initialisation before the first value.
pub const TIME_TO_FIRST_VAL_MS: u64 = 1200;

/// The device reports CO2 in hundredths-resolution units: readings are
/// scaled by this to parts per million.
pub const CO2_SCALE_VALUE: i32 = 100;

/// Size of the response buffer for the numeric commands, and so the
/// largest payload such a response can carry.
pub const RESPONSE_BUFFER_SIZE: usize = 10;

/// Size of the response buffer for the serial-number command.
pub const SERIAL_BUFFER_SIZE: usize = 47;

/// An envelope violation in a response.  Every check has its own
/// variant, so a caller can tell them apart.
#[derive(Clone, Copy, Debug, PartialEq, Eq, Structural)]
pub enum ResponseError {
    TooShort,
    InvalidFormat,
    MissingSpace,
    InvalidTermination,
    WrongCommand,
    Utf8Error,
    StringOverflow,
}

/// Why a numeric response yielded no value.
#[derive(Clone, Copy, Debug, PartialEq, Eq, Structural)]
pub enum ValueError {
    /// The envelope was violated.
    Envelope(ResponseError),
    /// The trimmed payload is not a decimal integer.
    NotANumber,
    /// The value does not fit the reading's 32-bit range once scaled.
    OutOfRange,
}

/// A rejected calibration input.
#[derive(Clone, Copy, Debug, PartialEq, Eq, Structural)]
pub enum RangeError {
    PressureOutOfRange,
    AltitudeOutOfRange,
}

/// The sensor's reporting mode.
#[derive(Clone, Copy, Debug, PartialEq, Eq, Structural)]
pub enum Mode {
    Sleep,
    Streaming,
    Polling,
}

/// What a response must look like, and the payload it carries: at least
/// 4 bytes; a leading space; the echoed command letter; a CR LF trailer;
/// a valid UTF-8 payload between letter and trailer that fits in `cap`
/// bytes.
pub open spec fn spec_parse_response(resp: Seq<u8>, letter: u8, cap: int) -> Result<
    Seq<u8>,
    ResponseError,
> {
    if resp.len() < 4 {
        Err(ResponseError::TooShort)
    } else if resp[0] != 0x20 {
        Err(ResponseError::MissingSpace)
    } else if resp[1] != letter {
        Err(ResponseError::WrongCommand)
    } else if resp[resp.len() - 2] != 0x0D || resp[resp.len() - 1] != 0x0A {
        Err(ResponseError::InvalidTermination)
    } else if !valid_utf8(resp.subrange(2, resp.len() - 2)) {
        Err(ResponseError::Utf8Error)
    } else if resp.len() - 4 > cap {
        Err(ResponseError::StringOverflow)
    } else {
        Ok(resp.subrange(2, resp.len() - 2))
    }
}

/// Validates a response envelope against the command letter it echoes
/// and returns the payload between the leading space pair and the CR LF
/// trailer.  `cap` is the capacity of the caller's payload buffer.
pub fn parse_response(resp: &[u8], letter: u8, cap: usize) -> (r: Result<Vec<u8>, ResponseError>)
    ensures
        match (r, spec_parse_response(resp@, letter, cap as int)) {
            (Ok(p), Ok(q)) => p@ == q,
            (Err(e), Err(f)) => e == f,
            _ => false,
        },
{
    let n = resp.len();
    if n < 4 {
        return Err(ResponseError::TooShort);
    }
    if resp[0] != 0x20 {
        return Err(ResponseError::MissingSpace);
    }
    if resp[1] != letter {
        return Err(ResponseError::WrongCommand);
    }
    if resp[n - 2] != 0x0D || resp[n - 1] != 0x0A {
        return Err(ResponseError::InvalidTermination);
    }
    let mut payload: Vec<u8> = Vec::new();
    let mut k: usize = 2;
    while k < n - 2
        invariant
            2 <= k <= n - 2,
            n == resp@.len(),
            4 <= n,
            payload@ == resp@.subrange(2, k as int),
        decreases n - 2 - k,
    {
        payload.push(resp[k]);
        assert(payload@ =~= resp@.subrange(2, k + 1));
        k = k + 1;
    }
    if !is_valid_utf8(payload.as_slice()) {
        return Err(ResponseError::Utf8Error);
    }
    if n - 4 > cap {
        return Err(ResponseError::StringOverflow);
    }
    Ok(payload)
}

/// The message each envelope violation maps to.
pub open spec fn spec_response_error_message(e: ResponseError) -> Seq<char> {
    match e {
        ResponseError::TooShort => "Response too short"@,
        ResponseError::MissingSpace => "Missing leading space"@,
        ResponseError::WrongCommand => "Wrong command letter in response"@,
        ResponseError::InvalidTermination => "Invalid termination sequence"@,
        ResponseError::Utf8Error => "Invalid UTF-8 in response"@,
        ResponseError::StringOverflow => "Response string overflow"@,
        ResponseError::InvalidFormat => "Invalid response format"@,
    }
}

/// A human-readable description of an envelope violation.
pub fn response_error_message(e: &ResponseError) -> (r: &'static str)
    ensures
        r@ == spec_response_error_message(*e),
{
    match e {
        ResponseError::TooShort => "Response too short",
        ResponseError::MissingSpace => "Missing leading space",
        ResponseError::WrongCommand => "Wrong command letter in response",
        ResponseError::InvalidTermination => "Invalid termination sequence",
        ResponseError::Utf8Error => "Invalid UTF-8 in response",
        ResponseError::StringOverflow => "Response string overflow",
        ResponseError::InvalidFormat => "Invalid response format",
    }
}

/// Distinct envelope violations carry distinct messages, so a caller
/// that only sees the message can still tell the error kinds apart.
pub proof fn lemma_response_error_messages_distinct(a: ResponseError, b: ResponseError)
    requires
        a != b,
    ensures
        spec_response_error_message(a) != spec_response_error_message(b),
{
    reveal_strlit("Response too short");
    reveal_strlit("Missing leading space");
    reveal_strlit("Wrong command letter in response");
    reveal_strlit("Invalid termination sequence");
    reveal_strlit("Invalid UTF-8 in response");
    reveal_strlit("Response string overflow");
    reveal_strlit("Invalid response format");
    // The seven messages all have different lengths.
    assert(spec_response_error_message(ResponseError::TooShort).len() == 18);
    assert(spec_response_error_message(ResponseError::MissingSpace).len() == 21);
    assert(spec_response_error_message(ResponseError::WrongCommand).len() == 32);
    assert(spec_response_error_message(ResponseError::InvalidTermination).len() == 28);
    assert(spec_response_error_message(ResponseError::Utf8Error).len() == 25);
    assert(spec_response_error_message(ResponseError::StringOverflow).len() == 24);
    assert(spec_response_error_message(ResponseError::InvalidFormat).len() == 23);
    assert(spec_response_error_message(a).len() != spec_response_error_message(b).len());
}

/// The reading carried by a numeric response: the envelope validated,
/// the payload trimmed and parsed as a decimal integer, and the result
/// scaled by `scale`.
pub open spec fn spec_decode_reading(resp: Seq<u8>, letter: u8, scale: int) -> Result<
    int,
    ValueError,
> {
    match spec_parse_response(resp, letter, RESPONSE_BUFFER_SIZE as int) {
        Err(e) => Err(ValueError::Envelope(e)),
        Ok(p) => match spec_parse_i32(spec_trim(p)) {
            None => Err(ValueError::NotANumber),
            Some(v) => if -0x8000_0000 <= v * scale <= 0x7FFF_FFFF {
                Ok(v * scale)
            } else {
                Err(ValueError::OutOfRange)
            },
        },
    }
}

/// The bytes of a command with no argument: the letter, then CR LF.
pub open spec fn spec_plain_command(letter: u8) -> Seq<u8> {
    seq![letter, 0x0D, 0x0A]
}

/// The bytes of a command with one decimal argument: the letter, a
/// space, the argument's digits, then CR LF.
pub open spec fn spec_numeric_command(letter: u8, value: nat) -> Seq<u8> {
    seq![letter, 0x20] + spec_decimal(value) + seq![0x0D, 0x0A]
}

/// Builds a command with no argument.
fn plain_command(letter: u8) -> (r: Vec<u8>)
    ensures
        r@ == spec_plain_command(letter),
{
    let mut cmd: Vec<u8> = Vec::new();
    cmd.push(letter);
    cmd.push(0x0D);
    cmd.push(0x0A);
    assert(cmd@ =~= spec_plain_command(letter));
    cmd
}

/// Builds a command with one decimal argument.
fn numeric_command(letter: u8, value: u32) -> (r: Vec<u8>)
    ensures
        r@ == spec_numeric_command(letter, value as nat),
{
    let mut cmd: Vec<u8> = Vec::new();
    cmd.push(letter);
    cmd.push(0x20);
    let mut digits = format_u32(value);
    cmd.append(&mut digits);
    cmd.push(0x0D);
    cmd.push(0x0A);
    assert(cmd@ =~= spec_numeric_command(letter, value as nat));
    cmd
}

/// The UART sensor client.  It holds the reporting mode the sensor was
/// last commanded into; the wire itself belongs to the caller, which
/// writes the returned command bytes and hands response bytes back.
pub struct ExplorIrME100 {
    mode: Mode,
}

impl ExplorIrME100 {
    pub closed spec fn spec_mode(self) -> Mode {
        self.mode
    }

    /// A fresh client.  The sensor is assumed to be in polling mode, as
    /// initialisation commands it below.
    pub fn new() -> (r: ExplorIrME100)
        ensures
            r.spec_mode() is Polling,
    {
        ExplorIrME100 { mode: Mode::Polling }
    }

    /// The initialisation plan: command polling mode, then the fixed
    /// digital filter window, then wait for the first value.  The caller
    /// writes the two commands in order, commits the mode change with
    /// [`ExplorIrME100::change_mode_commit`] once the first write
    /// succeeds, and waits the returned settle time.
    pub fn init(&self) -> (r: (Vec<u8>, Vec<u8>, u64))
        ensures
            r.0@ == spec_plain_command_mode(Mode::Polling),
            r.1@ == spec_numeric_command(0x41, 32),
            r.2 == TIME_TO_FIRST_VAL_MS,
    {
        let polling = self.change_mode_command(&Mode::Polling);
        let filter = numeric_command(0x41, 32);
        (polling, filter, TIME_TO_FIRST_VAL_MS)
    }

    /// The bytes of a mode-select command: `K 0`, `K 1` or `K 2`.
    pub fn change_mode_command(&self, mode: &Mode) -> (r: Vec<u8>)
        ensures
            r@ == spec_plain_command_mode(*mode),
    {
        match mode {
            Mode::Sleep => numeric_command(0x4B, 0),
            Mode::Streaming => numeric_command(0x4B, 1),
            Mode::Polling => numeric_command(0x4B, 2),
        }
    }

    /// Records the outcome of writing a mode-select command: the stored
    /// mode changes exactly when the write succeeded.
    pub fn change_mode_commit(&mut self, mode: Mode, write_ok: bool)
        ensures
            write_ok ==> final(self).spec_mode() == mode,
            !write_ok ==> *final(self) == *old(self),
    {
        if write_ok {
            self.mode = mode;
        }
    }

    /// The reporting mode the sensor was last commanded into.
    pub fn mode(&self) -> (r: &Mode)
        ensures
            *r == self.spec_mode(),
    {
        &self.mode
    }

    /// The command requesting the filtered CO2 reading: `Z`.
    pub fn filtered_co2_command(&self) -> (r: Vec<u8>)
        ensures
            r@ == spec_plain_command(0x5A),
    {
        plain_command(0x5A)
    }

    /// The filtered CO2 reading carried by a response, in parts per
    /// million: the validated payload parsed as an integer and scaled by
    /// [`CO2_SCALE_VALUE`].
    pub fn get_filtered_co2(&self, resp: &[u8]) -> (r: Result<i32, ValueError>)
        ensures
            match (r, spec_decode_reading(resp@, 0x5A, CO2_SCALE_VALUE as int)) {
                (Ok(v), Ok(w)) => v == w,
                (Err(e), Err(f)) => e == f,
                _ => false,
            },
    {
        decode_reading(resp, 0x5A, CO2_SCALE_VALUE)
    }

    /// The command requesting the unfiltered CO2 reading: `z`.
    pub fn unfiltered_co2_command(&self) -> (r: Vec<u8>)
        ensures
            r@ == spec_plain_command(0x7A),
    {
        plain_command(0x7A)
    }

    /// The unfiltered CO2 reading carried by a response, in parts per
    /// million.
    pub fn get_unfiltered_co2(&self, resp: &[u8]) -> (r: Result<i32, ValueError>)
        ensures
            match (r, spec_decode_reading(resp@, 0x7A, CO2_SCALE_VALUE as int)) {
                (Ok(v), Ok(w)) => v == w,
                (Err(e), Err(f)) => e == f,
                _ => false,
            },
    {
        decode_reading(resp, 0x7A, CO2_SCALE_VALUE)
    }

    /// The command requesting the pressure compensation value: `s`.
    pub fn pressure_command(&self) -> (r: Vec<u8>)
        ensures
            r@ == spec_plain_command(0x73),
    {
        plain_command(0x73)
    }

    /// The compensation value carried by a response to the `s` command,
    /// unscaled.
    pub fn get_pressure_and_concentration(&self, resp: &[u8]) -> (r: Result<i32, ValueError>)
        ensures
            match (r, spec_decode_reading(resp@, 0x73, 1)) {
                (Ok(v), Ok(w)) => v == w,
                (Err(e), Err(f)) => e == f,
                _ => false,
            },
    {
        decode_reading(resp, 0x73, 1)
    }

    /// The pressure-compensation command for an ambient pressure given
    /// in tenths of a millibar, valid from 300.0 to 1100.0 mbar.  The
    /// compensation value sent is `8192` at the sea-level reference of
    /// 1013.0 mbar, adjusted by 0.14 percent of 8192 per millibar of
    /// difference, rounded towards negative infinity.  An out-of-range
    /// pressure is rejected and no command is built.
    pub fn set_pressure_and_concentration(&self, pressure_dmbar: u32) -> (r: Result<
        Vec<u8>,
        RangeError,
    >)
        ensures
            !(3000 <= pressure_dmbar <= 11000) ==> r == Err::<Vec<u8>, RangeError>(
                RangeError::PressureOutOfRange,
            ),
            3000 <= pressure_dmbar <= 11000 ==> (match r {
                Ok(cmd) => cmd@ == spec_numeric_command(
                    0x53,
                    spec_compensation(pressure_dmbar as int) as nat,
                ),
                Err(_) => false,
            }),
    {
        if pressure_dmbar < 3000 || pressure_dmbar > 11000 {
            return Err(RangeError::PressureOutOfRange);
        }
        let comp = compensation_value(pressure_dmbar);
        Ok(numeric_command(0x53, comp))
    }

    /// The zero-point calibration command: the known concentration in
    /// parts per million, scaled down to the device's units.
    pub fn calibrate(&self, ppm: u32) -> (r: Vec<u8>)
        ensures
            r@ == spec_numeric_command(0x58, (ppm / 100) as nat),
    {
        numeric_command(0x58, ppm / 100)
    }

    /// The fine-tune calibration command: the sensor's current output
    /// first, then the known concentration, both in parts per million
    /// and scaled down to the device's units.
    pub fn fine_tune(&self, ppm: u32, sensor_output: u32) -> (r: Vec<u8>)
        ensures
            r@ == seq![0x46u8, 0x20u8] + spec_decimal((sensor_output / 100) as nat)
                + seq![0x20u8] + spec_decimal((ppm / 100) as nat) + seq![0x0Du8, 0x0Au8],
    {
        let mut cmd: Vec<u8> = Vec::new();
        cmd.push(0x46);
        cmd.push(0x20);
        let mut output_digits = format_u32(sensor_output / 100);
        cmd.append(&mut output_digits);
        cmd.push(0x20);
        let mut ppm_digits = format_u32(ppm / 100);
        cmd.append(&mut ppm_digits);
        cmd.push(0x0D);
        cmd.push(0x0A);
        assert(cmd@ =~= seq![0x46u8, 0x20u8] + spec_decimal((sensor_output / 100) as nat)
            + seq![0x20u8] + spec_decimal((ppm / 100) as nat) + seq![0x0Du8, 0x0Au8]);
        cmd
    }

    /// The command requesting the serial number: `Y`.
    pub fn serial_command(&self) -> (r: Vec<u8>)
        ensures
            r@ == spec_plain_command(0x59),
    {
        plain_command(0x59)
    }

    /// The serial number carried by a response: the validated payload,
    /// unparsed.
    pub fn read_serial_no(&self, resp: &[u8]) -> (r: Result<Vec<u8>, ResponseError>)
        ensures
            match (r, spec_parse_response(resp@, 0x59, SERIAL_BUFFER_SIZE as int)) {
                (Ok(p), Ok(q)) => p@ == q,
                (Err(e), Err(f)) => e == f,
                _ => false,
            },
    {
        parse_response(resp, 0x59, SERIAL_BUFFER_SIZE)
    }
}

/// The bytes of the mode-select command for `mode`.
pub open spec fn spec_plain_command_mode(mode: Mode) -> Seq<u8> {
    match mode {
        Mode::Sleep => spec_numeric_command(0x4B, 0),
        Mode::Streaming => spec_numeric_command(0x4B, 1),
        Mode::Polling => spec_numeric_command(0x4B, 2),
    }
}

/// The pressure compensation value for a pressure in tenths of a
/// millibar: `8192 + (p_mbar - 1013) * 0.14 / 100 * 8192`, rounded
/// towards negative infinity, computed exactly over tenths.  Over
/// tenths the per-millibar factor `0.14 / 100 * 8192` is
/// `114688 / 100000` per tenth.
pub open spec fn spec_compensation(pressure_dmbar: int) -> int {
    8192 + (pressure_dmbar - 10130) * 114688 / 100000
}

/// Computes the compensation value for an in-range pressure.  The
/// numerator is shifted by a multiple of the divisor so the unsigned
/// division rounds the same way the specification's signed one does.
fn compensation_value(pressure_dmbar: u32) -> (r: u32)
    requires
        3000 <= pressure_dmbar <= 11000,
    ensures
        r == spec_compensation(pressure_dmbar as int),
{
    let d: i64 = (pressure_dmbar as i64) - 10130;
    let shifted: u64 = ((d * 114688) + 1_000_000_000) as u64;
    let q: u64 = shifted / 100000;
    proof {
        vstd::arithmetic::div_mod::lemma_hoist_over_denominator(
            d as int * 114688,
            10000,
            100000nat,
        );
    }
    let comp: u64 = 8192 + q - 10000;
    comp as u32
}

/// The compensation value of the documented alternative policy, based
/// on altitude rather than pressure: `-0.000043713 a^2 + 1.2813 a +
/// 8229.2`, rounded towards negative infinity, computed exactly in
/// billionths.
pub open spec fn spec_altitude_compensation(alt_m: int) -> int {
    (8229200000000 + 1281300000 * alt_m - 43713 * alt_m * alt_m) / 1000000000
}

/// The alternative, altitude-based compensation value, valid for 0 to
/// 3050 m above sea level.  An out-of-range altitude is rejected.  This
/// policy and the pressure-based one are alternatives: a deployment
/// picks one and does not mix them.
pub fn altitude_compensation(alt_m: u16) -> (r: Result<u32, RangeError>)
    ensures
        alt_m > 3050 ==> r == Err::<u32, RangeError>(RangeError::AltitudeOutOfRange),
        alt_m <= 3050 ==> r == Ok::<u32, RangeError>(
            spec_altitude_compensation(alt_m as int) as u32,
        ),
{
    if alt_m > 3050 {
        return Err(RangeError::AltitudeOutOfRange);
    }
    let a: u64 = alt_m as u64;
    proof {
        assert(43713 * (a as int) * (a as int) <= 1281300000 * (a as int)
            && 1281300000 * (a as int) <= 3908000000000) by (nonlinear_arith)
            requires
                0 <= a <= 3050,
        ;
    }
    let n: u64 = 8_229_200_000_000 + 1_281_300_000 * a - 43_713 * a * a;
    Ok((n / 1_000_000_000) as u32)
}

/// The reading carried by a numeric response, shared by the CO2 and
/// pressure queries: validate the envelope, trim the payload, parse it
/// as a decimal integer, scale the value.
fn decode_reading(resp: &[u8], letter: u8, scale: i32) -> (r: Result<i32, ValueError>)
    ensures
        match (r, spec_decode_reading(resp@, letter, scale as int)) {
            (Ok(v), Ok(w)) => v == w,
            (Err(e), Err(f)) => e == f,
            _ => false,
        },
{
    let payload = match parse_response(resp, letter, RESPONSE_BUFFER_SIZE) {
        Ok(p) => p,
        Err(e) => {
            return Err(ValueError::Envelope(e));
        },
    };
    let trimmed = trim(payload.as_slice());
    let v = match parse_i32(trimmed.as_slice()) {
        Some(v) => v,
        None => {
            return Err(ValueError::NotANumber);
        },
    };
    proof {
        assert(-0x4000_0000_0000_0000 <= (v as int) * (scale as int) <= 0x4000_0000_0000_0000)
            by (nonlinear_arith)
            requires
                -0x8000_0000 <= v <= 0x7FFF_FFFF,
                -0x8000_0000 <= scale <= 0x7FFF_FFFF,
        ;
    }
    let w: i64 = (v as i64) * (scale as i64);
    if -0x8000_0000i64 <= w && w <= 0x7FFF_FFFFi64 {
        Ok(w as i32)
    } else {
        Err(ValueError::OutOfRange)
    }
}

} // verus!
