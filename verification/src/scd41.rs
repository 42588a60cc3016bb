//! Binary, CRC-checked I2C protocol client for the CO2 / temperature /
//! humidity sensor, with an explicit Idle/Measurement state machine.
//!
//! Every operation is split at the bus: a request builder produces the
//! exact [`Transaction`] to perform (and refuses to produce one when the
//! driver state or an input forbids the operation), and a decoder
//! validates the checksums of the bytes that came back and extracts the
//! value.  Configuration commands demand the `Idle` state and fail
//! before anything is built, so a refused call never touches the bus.
//!
//! Temperatures are carried in hundredths of a degree Celsius.

use vstd::prelude::*;
use crate::bus::{BusOutcome, Transaction, TransportError};
use crate::i2c_frame::{
    build_command_frame, decode_word, spec_command_frame, spec_response_valid, spec_word,
    validate_response,
};

verus! {

/// The sensor's fixed I2C address: every transaction of this driver is
/// addressed to it.
pub const SCD41_I2C_ADDRESS: u8 = 0x62;

/// Milliseconds the sensor needs after power-up.
pub const POWERUP_TIME_MS: u64 = 30;

/// Milliseconds to settle after starting periodic measurement.
pub const INITIAL_MEASURE_DELAY_MS: u64 = 500;

/// Milliseconds to settle after stopping periodic measurement.
pub const STOP_MEASURE_DELAY_MS: u64 = 500;

/// Milliseconds the self-test takes; the device ignores input
/// throughout this window and the suspension cannot be cancelled.
pub const SELF_TEST_TIME_MS: u64 = 10000;

/// Milliseconds between data-ready polls.
pub const DATA_READY_LOOP_DELAY_MS: u64 = 3000;

/// How many times a read polls for readiness before giving up.
pub const DATA_READ_MAX_ATTEMPTS: u8 = 5;

/// The driver's protocol state.  Configuration commands are valid only
/// in `Idle`.
#[derive(Clone, Copy, Debug, PartialEq, Eq, Structural)]
pub enum SCD41State {
    Idle,
    Measurement,
}

/// Settings applied during initialisation: either the device's own
/// defaults, or an explicit calibration.  Temperatures are hundredths
/// of a degree Celsius.
#[derive(Clone, Copy, Debug, PartialEq, Eq, Structural)]
pub enum SensorSettings {
    Custom {
        current_temp_centi: i32,
        reference_temp_centi: i32,
        pressure_pa: u32,
        altitude_m: u16,
    },
    Default,
}

/// Why an operation failed.
#[derive(Clone, Copy, Debug, PartialEq, Eq, Structural)]
pub enum Scd41Error {
    /// The bus reported a fault; passed through unchanged.
    Transport(TransportError),
    /// A response group's checksum did not match: the data cannot be
    /// trusted and the operation is abandoned.
    CrcMismatch,
    /// A configuration command was attempted outside `Idle`.  Nothing
    /// was sent.
    NotIdle,
    /// Opcode, payload and checksum would not fit the fixed frame.
    FrameTooLong,
    /// Altitude beyond 3000 m.  Nothing was sent.
    AltitudeOutOfRange,
    /// Pressure outside 70000 to 120000 Pa.  Nothing was sent.
    PressureOutOfRange,
    /// The sensor reported no fresh data within the bounded poll.
    DataNotReady,
}

/// One decoded sample.
#[derive(Clone, Copy, Debug, PartialEq, Eq, Structural)]
pub struct Measurement {
    /// CO2 concentration, parts per million.
    pub co2_ppm: i32,
    /// Temperature, hundredths of a degree Celsius.
    pub temperature_centi: i32,
    /// Relative humidity, hundredths of a percent.
    pub humidity_centi: i32,
}

/// The big-endian bytes of a 16-bit word.
pub open spec fn spec_be(w: u16) -> Seq<u8> {
    seq![(w / 256) as u8, (w % 256) as u8]
}

/// Temperature in hundredths of a degree Celsius for a raw word:
/// `-45 + 175 * raw / 65535` degrees, exact over hundredths.
pub open spec fn spec_temp_centi(raw: u16) -> int {
    -4500 + raw * 17500 / 65535
}

/// Relative humidity in hundredths of a percent for a raw word:
/// `100 * raw / 65535` percent, exact over hundredths.
pub open spec fn spec_humidity_centi(raw: u16) -> int {
    raw * 10000 / 65535
}

/// Temperature offset in hundredths of a degree for a raw offset word:
/// `175 * raw / 65535` degrees, exact over hundredths.
pub open spec fn spec_offset_centi(raw: u16) -> int {
    raw * 17500 / 65535
}

/// The raw word encoding a temperature offset given in hundredths of a
/// degree: `offset * 65535 / 17500`, clamped to the word's range as the
/// device expects.
pub open spec fn spec_offset_raw(offset_centi: int) -> u16 {
    if offset_centi <= 0 {
        0
    } else if offset_centi >= 17500 {
        65535
    } else {
        (offset_centi * 65535 / 17500) as u16
    }
}

/// True when the response word says fresh data is ready: the word's low
/// eleven bits are not all zero.
pub open spec fn spec_data_ready(b0: u8, b1: u8) -> bool {
    !((b0 & 0x07) == 0 && b1 == 0)
}

/// The driver.  It holds the protocol state alone; the bus belongs to
/// the caller, which performs the returned transactions and hands the
/// outcomes back.
pub struct SCD41 {
    state: SCD41State,
}

impl SCD41 {
    pub closed spec fn spec_state(self) -> SCD41State {
        self.state
    }

    /// A fresh driver.  The state starts in `Measurement`, matching the
    /// device's observed power-on behaviour; initialisation brings it
    /// through `Idle` explicitly.
    pub fn new() -> (r: SCD41)
        ensures
            r.spec_state() is Measurement,
    {
        SCD41 { state: SCD41State::Measurement }
    }

    /// Fails with the precondition error exactly when the driver is not
    /// idle; nothing has touched the bus when it does.
    pub fn ensure_idle(&self) -> (r: Result<(), Scd41Error>)
        ensures
            r == (if self.spec_state() is Idle {
                Ok::<(), Scd41Error>(())
            } else {
                Err::<(), Scd41Error>(Scd41Error::NotIdle)
            }),
    {
        match self.state {
            SCD41State::Idle => Ok(()),
            SCD41State::Measurement => Err(Scd41Error::NotIdle),
        }
    }

    /// The transaction that starts periodic measurement, settle delay
    /// included.
    pub fn start_periodic_measurement_request(&self) -> (t: Transaction)
        ensures
            t.write@ == seq![0x21u8, 0xB1u8],
            t.delay_ms == INITIAL_MEASURE_DELAY_MS,
            t.read_len == 0,
    {
        let mut write: Vec<u8> = Vec::new();
        write.push(0x21);
        write.push(0xB1);
        assert(write@ =~= seq![0x21u8, 0xB1u8]);
        Transaction { write, delay_ms: INITIAL_MEASURE_DELAY_MS, read_len: 0 }
    }

    /// Records the outcome of the start command: on success the driver
    /// is measuring; a transport fault leaves the state untouched and is
    /// passed through.
    pub fn start_periodic_measurement(&mut self, outcome: Result<(), TransportError>) -> (r:
        Result<(), Scd41Error>)
        ensures
            outcome is Ok ==> final(self).spec_state() is Measurement && r is Ok,
            outcome matches Err(e) ==> *final(self) == *old(self) && r == Err::<(), Scd41Error>(
                Scd41Error::Transport(e),
            ),
    {
        match outcome {
            Ok(()) => {
                self.state = SCD41State::Measurement;
                Ok(())
            },
            Err(e) => Err(Scd41Error::Transport(e)),
        }
    }

    /// The transaction that stops periodic measurement, settle delay
    /// included.
    pub fn stop_periodic_measurement_request(&self) -> (t: Transaction)
        ensures
            t.write@ == seq![0x3Fu8, 0x86u8],
            t.delay_ms == STOP_MEASURE_DELAY_MS,
            t.read_len == 0,
    {
        let mut write: Vec<u8> = Vec::new();
        write.push(0x3F);
        write.push(0x86);
        assert(write@ =~= seq![0x3Fu8, 0x86u8]);
        Transaction { write, delay_ms: STOP_MEASURE_DELAY_MS, read_len: 0 }
    }

    /// Records the outcome of the stop command.  The state is `Idle`
    /// afterwards whatever happened: stopping was commanded, and idle is
    /// what the driver now assumes of the device.  A transport fault is
    /// still reported.
    pub fn stop_periodic_measurement(&mut self, outcome: Result<(), TransportError>) -> (r:
        Result<(), Scd41Error>)
        ensures
            final(self).spec_state() is Idle,
            outcome is Ok ==> r is Ok,
            outcome matches Err(e) ==> r == Err::<(), Scd41Error>(Scd41Error::Transport(e)),
    {
        self.state = SCD41State::Idle;
        match outcome {
            Ok(()) => Ok(()),
            Err(e) => Err(Scd41Error::Transport(e)),
        }
    }

    /// Validates the checksums of a completed read: every 3-byte group
    /// of the response must carry the CRC-8 of its own word, else the
    /// whole buffer is distrusted.
    pub fn read_sequence(&self, buf: &[u8]) -> (r: Result<(), Scd41Error>)
        ensures
            r is Ok <==> spec_response_valid(buf@),
            r is Err ==> r == Err::<(), Scd41Error>(Scd41Error::CrcMismatch),
    {
        if validate_response(buf) {
            Ok(())
        } else {
            Err(Scd41Error::CrcMismatch)
        }
    }

    /// The transaction that polls the data-ready word.
    pub fn get_data_ready_status_request(&self) -> (t: Transaction)
        ensures
            t.write@ == seq![0xE4u8, 0xB8u8],
            t.delay_ms == 1,
            t.read_len == 3,
    {
        let mut write: Vec<u8> = Vec::new();
        write.push(0xE4);
        write.push(0xB8);
        assert(write@ =~= seq![0xE4u8, 0xB8u8]);
        Transaction { write, delay_ms: 1, read_len: 3 }
    }

    /// Whether the data-ready response says fresh data is waiting.  A
    /// checksum mismatch distrusts the answer entirely.
    pub fn get_data_ready_status(&self, buf: &[u8]) -> (r: Result<bool, Scd41Error>)
        requires
            buf@.len() == 3,
        ensures
            !spec_response_valid(buf@) ==> r == Err::<bool, Scd41Error>(Scd41Error::CrcMismatch),
            spec_response_valid(buf@) ==> r == Ok::<bool, Scd41Error>(
                spec_data_ready(buf@[0], buf@[1]),
            ),
    {
        if !validate_response(buf) {
            return Err(Scd41Error::CrcMismatch);
        }
        Ok(!((buf[0] & 0x07) == 0 && buf[1] == 0))
    }

    /// The transaction that reads the current temperature offset word.
    /// Demands `Idle`.
    pub fn get_temp_offset_request(&self) -> (r: Result<Transaction, Scd41Error>)
        ensures
            !(self.spec_state() is Idle) ==> r == Err::<Transaction, Scd41Error>(
                Scd41Error::NotIdle,
            ),
            self.spec_state() is Idle ==> (match r {
                Ok(t) => t.write@ == seq![0x23u8, 0x18u8] && t.delay_ms == 1 && t.read_len == 3,
                Err(_) => false,
            }),
    {
        self.ensure_idle()?;
        let mut write: Vec<u8> = Vec::new();
        write.push(0x23);
        write.push(0x18);
        assert(write@ =~= seq![0x23u8, 0x18u8]);
        Ok(Transaction { write, delay_ms: 1, read_len: 3 })
    }

    /// The temperature offset carried by the response, in hundredths of
    /// a degree Celsius.
    pub fn get_temp_offset(&self, buf: &[u8]) -> (r: Result<i32, Scd41Error>)
        requires
            buf@.len() == 3,
        ensures
            !spec_response_valid(buf@) ==> r == Err::<i32, Scd41Error>(Scd41Error::CrcMismatch),
            spec_response_valid(buf@) ==> r == Ok::<i32, Scd41Error>(
                spec_offset_centi(spec_word(buf@[0], buf@[1])) as i32,
            ),
    {
        if !validate_response(buf) {
            return Err(Scd41Error::CrcMismatch);
        }
        let raw = decode_word(buf[0], buf[1]);
        Ok((((raw as u64) * 17500) / 65535) as i32)
    }

    /// The transaction that reads the configured altitude word.
    /// Demands `Idle`.
    pub fn get_sensor_altitude_request(&self) -> (r: Result<Transaction, Scd41Error>)
        ensures
            !(self.spec_state() is Idle) ==> r == Err::<Transaction, Scd41Error>(
                Scd41Error::NotIdle,
            ),
            self.spec_state() is Idle ==> (match r {
                Ok(t) => t.write@ == seq![0x23u8, 0x22u8] && t.delay_ms == 1 && t.read_len == 3,
                Err(_) => false,
            }),
    {
        self.ensure_idle()?;
        let mut write: Vec<u8> = Vec::new();
        write.push(0x23);
        write.push(0x22);
        assert(write@ =~= seq![0x23u8, 0x22u8]);
        Ok(Transaction { write, delay_ms: 1, read_len: 3 })
    }

    /// The configured altitude carried by the response, in meters.
    pub fn get_sensor_altitude(&self, buf: &[u8]) -> (r: Result<u16, Scd41Error>)
        requires
            buf@.len() == 3,
        ensures
            !spec_response_valid(buf@) ==> r == Err::<u16, Scd41Error>(Scd41Error::CrcMismatch),
            spec_response_valid(buf@) ==> r == Ok::<u16, Scd41Error>(spec_word(buf@[0], buf@[1])),
    {
        if !validate_response(buf) {
            return Err(Scd41Error::CrcMismatch);
        }
        Ok(decode_word(buf[0], buf[1]))
    }

    /// The transaction that reads the configured ambient pressure word.
    /// Demands `Idle`, like every other configuration read.
    pub fn get_ambient_pressure_request(&self) -> (r: Result<Transaction, Scd41Error>)
        ensures
            !(self.spec_state() is Idle) ==> r == Err::<Transaction, Scd41Error>(
                Scd41Error::NotIdle,
            ),
            self.spec_state() is Idle ==> (match r {
                Ok(t) => t.write@ == seq![0xE0u8, 0x00u8] && t.delay_ms == 1 && t.read_len == 3,
                Err(_) => false,
            }),
    {
        self.ensure_idle()?;
        let mut write: Vec<u8> = Vec::new();
        write.push(0xE0);
        write.push(0x00);
        assert(write@ =~= seq![0xE0u8, 0x00u8]);
        Ok(Transaction { write, delay_ms: 1, read_len: 3 })
    }

    /// The configured ambient pressure carried by the response, in
    /// Pascals: the word is in hectopascal units.
    pub fn get_ambient_pressure(&self, buf: &[u8]) -> (r: Result<u32, Scd41Error>)
        requires
            buf@.len() == 3,
        ensures
            !spec_response_valid(buf@) ==> r == Err::<u32, Scd41Error>(Scd41Error::CrcMismatch),
            spec_response_valid(buf@) ==> r == Ok::<u32, Scd41Error>(
                (spec_word(buf@[0], buf@[1]) * 100) as u32,
            ),
    {
        if !validate_response(buf) {
            return Err(Scd41Error::CrcMismatch);
        }
        let raw = decode_word(buf[0], buf[1]);
        Ok((raw as u32) * 100)
    }

    /// The transaction that reads the serial number: three words, each
    /// with its checksum.  Demands `Idle`.
    pub fn get_serial_number_request(&self) -> (r: Result<Transaction, Scd41Error>)
        ensures
            !(self.spec_state() is Idle) ==> r == Err::<Transaction, Scd41Error>(
                Scd41Error::NotIdle,
            ),
            self.spec_state() is Idle ==> (match r {
                Ok(t) => t.write@ == seq![0x36u8, 0x82u8] && t.delay_ms == 1 && t.read_len == 9,
                Err(_) => false,
            }),
    {
        self.ensure_idle()?;
        let mut write: Vec<u8> = Vec::new();
        write.push(0x36);
        write.push(0x82);
        assert(write@ =~= seq![0x36u8, 0x82u8]);
        Ok(Transaction { write, delay_ms: 1, read_len: 9 })
    }

    /// The validated serial-number response, checksum bytes included,
    /// exactly as the device sent it.
    pub fn get_serial_number(&self, buf: &[u8]) -> (r: Result<Vec<u8>, Scd41Error>)
        requires
            buf@.len() == 9,
        ensures
            !spec_response_valid(buf@) ==> r == Err::<Vec<u8>, Scd41Error>(Scd41Error::CrcMismatch),
            spec_response_valid(buf@) ==> (match r {
                Ok(v) => v@ == buf@,
                Err(_) => false,
            }),
    {
        if !validate_response(buf) {
            return Err(Scd41Error::CrcMismatch);
        }
        let mut out: Vec<u8> = Vec::new();
        let mut i: usize = 0;
        while i < buf.len()
            invariant
                i <= buf@.len(),
                out@ == buf@.take(i as int),
            decreases buf@.len() - i,
        {
            out.push(buf[i]);
            i = i + 1;
        }
        assert(out@ =~= buf@);
        Ok(out)
    }

    /// The transaction that performs the self-test.  Demands `Idle`.
    /// The ten-second execution window is an uncancellable suspension:
    /// the device ignores input throughout it.
    pub fn perform_self_test_request(&self) -> (r: Result<Transaction, Scd41Error>)
        ensures
            !(self.spec_state() is Idle) ==> r == Err::<Transaction, Scd41Error>(
                Scd41Error::NotIdle,
            ),
            self.spec_state() is Idle ==> (match r {
                Ok(t) => t.write@ == seq![0x36u8, 0x39u8] && t.delay_ms == SELF_TEST_TIME_MS
                    && t.read_len == 3,
                Err(_) => false,
            }),
    {
        self.ensure_idle()?;
        let mut write: Vec<u8> = Vec::new();
        write.push(0x36);
        write.push(0x39);
        assert(write@ =~= seq![0x36u8, 0x39u8]);
        Ok(Transaction { write, delay_ms: SELF_TEST_TIME_MS, read_len: 3 })
    }

    /// Whether the self-test passed: a zero result word means no
    /// malfunction was detected.
    pub fn perform_self_test(&self, buf: &[u8]) -> (r: Result<bool, Scd41Error>)
        requires
            buf@.len() == 3,
        ensures
            !spec_response_valid(buf@) ==> r == Err::<bool, Scd41Error>(Scd41Error::CrcMismatch),
            spec_response_valid(buf@) ==> r == Ok::<bool, Scd41Error>(
                spec_word(buf@[0], buf@[1]) == 0,
            ),
    {
        if !validate_response(buf) {
            return Err(Scd41Error::CrcMismatch);
        }
        let raw = decode_word(buf[0], buf[1]);
        Ok(raw == 0)
    }

    /// The transaction that disables automatic self-calibration: the
    /// command carries the zero word and its checksum.  Demands `Idle`.
    pub fn set_automatic_self_calibration_enabled(&self) -> (r: Result<Transaction, Scd41Error>)
        ensures
            !(self.spec_state() is Idle) ==> r == Err::<Transaction, Scd41Error>(
                Scd41Error::NotIdle,
            ),
            self.spec_state() is Idle ==> (match r {
                Ok(t) => t.write@ == spec_command_frame(seq![0x24u8, 0x16u8], seq![0u8, 0u8])
                    && t.delay_ms == 0 && t.read_len == 0,
                Err(_) => false,
            }),
    {
        self.ensure_idle()?;
        Ok(self.write_word_command(0x24, 0x16, 0, 0))
    }

    /// The transaction that configures the altitude, in meters above
    /// sea level.  Demands `Idle`; an altitude beyond 3000 m is
    /// rejected and nothing is built.
    pub fn set_sensor_altitude(&self, altitude: u16) -> (r: Result<Transaction, Scd41Error>)
        ensures
            !(self.spec_state() is Idle) ==> r == Err::<Transaction, Scd41Error>(
                Scd41Error::NotIdle,
            ),
            self.spec_state() is Idle && altitude > 3000 ==> r == Err::<Transaction, Scd41Error>(
                Scd41Error::AltitudeOutOfRange,
            ),
            self.spec_state() is Idle && altitude <= 3000 ==> (match r {
                Ok(t) => t.write@ == spec_command_frame(seq![0x24u8, 0x27u8], spec_be(altitude))
                    && t.delay_ms == 0 && t.read_len == 0,
                Err(_) => false,
            }),
    {
        self.ensure_idle()?;
        if altitude > 3000 {
            return Err(Scd41Error::AltitudeOutOfRange);
        }
        Ok(self.write_word_command(0x24, 0x27, (altitude / 256) as u8, (altitude % 256) as u8))
    }

    /// The transaction that configures the ambient pressure, in
    /// Pascals, sent in hectopascal units.  Demands `Idle`; a pressure
    /// outside 70000 to 120000 Pa is rejected and nothing is built.
    pub fn set_ambient_pressure(&self, pressure: u32) -> (r: Result<Transaction, Scd41Error>)
        ensures
            !(self.spec_state() is Idle) ==> r == Err::<Transaction, Scd41Error>(
                Scd41Error::NotIdle,
            ),
            self.spec_state() is Idle && !(70000 <= pressure <= 120000) ==> r == Err::<
                Transaction,
                Scd41Error,
            >(Scd41Error::PressureOutOfRange),
            self.spec_state() is Idle && 70000 <= pressure <= 120000 ==> (match r {
                Ok(t) => t.write@ == spec_command_frame(
                    seq![0xE0u8, 0x00u8],
                    spec_be((pressure / 100) as u16),
                ) && t.delay_ms == 0 && t.read_len == 0,
                Err(_) => false,
            }),
    {
        self.ensure_idle()?;
        if pressure < 70000 || pressure > 120000 {
            return Err(Scd41Error::PressureOutOfRange);
        }
        let raw = (pressure / 100) as u16;
        Ok(self.write_word_command(0xE0, 0x00, (raw / 256) as u8, (raw % 256) as u8))
    }

    /// The transaction that configures the temperature offset.  The
    /// offset actually written is `current - reference + previous`,
    /// where `previous` is the offset word read back from the device
    /// beforehand; temperatures are hundredths of a degree Celsius.
    /// Demands `Idle`.
    pub fn set_temp_offset(
        &self,
        current_temp_centi: i32,
        reference_temp_centi: i32,
        previous_offset_raw: u16,
    ) -> (r: Result<Transaction, Scd41Error>)
        ensures
            !(self.spec_state() is Idle) ==> r == Err::<Transaction, Scd41Error>(
                Scd41Error::NotIdle,
            ),
            self.spec_state() is Idle ==> (match r {
                Ok(t) => t.write@ == spec_command_frame(
                    seq![0x24u8, 0x1Du8],
                    spec_be(
                        spec_offset_raw(
                            current_temp_centi - reference_temp_centi + spec_offset_centi(
                                previous_offset_raw,
                            ),
                        ),
                    ),
                ) && t.delay_ms == 0 && t.read_len == 0,
                Err(_) => false,
            }),
    {
        self.ensure_idle()?;
        let previous_centi: i64 = (((previous_offset_raw as u64) * 17500) / 65535) as i64;
        let actual: i64 = (current_temp_centi as i64) - (reference_temp_centi as i64)
            + previous_centi;
        let raw: u16 = if actual <= 0 {
            0
        } else if actual >= 17500 {
            65535
        } else {
            proof {
                assert((actual as int) * 65535 / 17500 < 65535) by (nonlinear_arith)
                    requires
                        0 < actual < 17500,
                ;
            }
            (((actual as u64) * 65535) / 17500) as u16
        };
        Ok(self.write_word_command(0x24, 0x1D, (raw / 256) as u8, (raw % 256) as u8))
    }

    /// Builds a write-only transaction from an opcode and a data
    /// payload, appending the payload's checksum.  Fails exactly when
    /// opcode, payload and checksum together would exceed the fixed
    /// 5-byte frame; nothing is built in that case.
    pub fn write_command(&self, opcode: &[u8], data: &[u8]) -> (r: Result<Transaction, Scd41Error>)
        ensures
            opcode@.len() + data@.len() + 1 > 5 ==> r == Err::<Transaction, Scd41Error>(
                Scd41Error::FrameTooLong,
            ),
            opcode@.len() + data@.len() + 1 <= 5 ==> (match r {
                Ok(t) => t.write@ == spec_command_frame(opcode@, data@) && t.delay_ms == 0
                    && t.read_len == 0,
                Err(_) => false,
            }),
    {
        match build_command_frame(opcode, data) {
            Some(write) => Ok(Transaction { write, delay_ms: 0, read_len: 0 }),
            None => Err(Scd41Error::FrameTooLong),
        }
    }

    /// Builds the write-only transaction for an opcode and one data
    /// word, which always fits the frame.
    fn write_word_command(&self, op0: u8, op1: u8, d0: u8, d1: u8) -> (t: Transaction)
        ensures
            t.write@ == spec_command_frame(seq![op0, op1], seq![d0, d1]),
            t.delay_ms == 0,
            t.read_len == 0,
    {
        let mut opcode: Vec<u8> = Vec::new();
        opcode.push(op0);
        opcode.push(op1);
        let mut data: Vec<u8> = Vec::new();
        data.push(d0);
        data.push(d1);
        assert(opcode@ =~= seq![op0, op1]);
        assert(data@ =~= seq![d0, d1]);
        let write = build_command_frame(opcode.as_slice(), data.as_slice()).unwrap();
        Transaction { write, delay_ms: 0, read_len: 0 }
    }

    /// One decoded measurement: the CO2 word is parts per million
    /// directly; temperature and humidity words are scaled to hundredth
    /// units.  A checksum mismatch on any group distrusts the whole
    /// sample.
    pub fn read_measurement(&self, buf: &[u8]) -> (r: Result<Measurement, Scd41Error>)
        requires
            buf@.len() == 9,
        ensures
            !spec_response_valid(buf@) ==> r == Err::<Measurement, Scd41Error>(
                Scd41Error::CrcMismatch,
            ),
            spec_response_valid(buf@) ==> (match r {
                Ok(m) => {
                    &&& m.co2_ppm == spec_word(buf@[0], buf@[1]) as int
                    &&& m.temperature_centi == spec_temp_centi(spec_word(buf@[3], buf@[4]))
                    &&& m.humidity_centi == spec_humidity_centi(spec_word(buf@[6], buf@[7]))
                },
                Err(_) => false,
            }),
    {
        if !validate_response(buf) {
            return Err(Scd41Error::CrcMismatch);
        }
        let co2 = decode_word(buf[0], buf[1]);
        let raw_temp = decode_word(buf[3], buf[4]);
        let raw_hum = decode_word(buf[6], buf[7]);
        let temperature_centi: i32 = -4500 + ((((raw_temp as u64) * 17500) / 65535) as i32);
        let humidity_centi: i32 = (((raw_hum as u64) * 10000) / 65535) as i32;
        Ok(Measurement { co2_ppm: co2 as i32, temperature_centi, humidity_centi })
    }

    /// The transaction that reads one measurement, once data is ready.
    pub fn read_measurement_request(&self) -> (t: Transaction)
        ensures
            t.write@ == seq![0xECu8, 0x05u8],
            t.delay_ms == 1,
            t.read_len == 9,
    {
        let mut write: Vec<u8> = Vec::new();
        write.push(0xEC);
        write.push(0x05);
        assert(write@ =~= seq![0xECu8, 0x05u8]);
        Transaction { write, delay_ms: 1, read_len: 9 }
    }
}

/// The bounded readiness poll a measurement read runs: the data-ready
/// word is checked up to [`DATA_READ_MAX_ATTEMPTS`] times, with a fixed
/// backoff between checks, before the read gives up — a bounded retry,
/// never an unbounded spin.
pub struct MeasurementPoll {
    attempts: u8,
}

/// What a readiness check decided: read the sample now, retry after the
/// backoff, or give up with the not-ready error.
pub enum PollDecision {
    Read(Transaction),
    RetryAfter(u64),
    GiveUp(Scd41Error),
}

impl MeasurementPoll {
    /// How many backoffs have been taken.
    pub closed spec fn spec_attempts(self) -> u8 {
        self.attempts
    }

    pub open spec fn wf(self) -> bool {
        self.spec_attempts() < DATA_READ_MAX_ATTEMPTS
    }

    /// A fresh poll, no attempts taken.
    pub fn new() -> (r: MeasurementPoll)
        ensures
            r.wf(),
            r.spec_attempts() == 0,
    {
        MeasurementPoll { attempts: 0 }
    }

    /// Feeds one data-ready answer into the poll.  Ready data is read
    /// at once.  Not-ready data costs one attempt and a backoff, until
    /// the attempts are spent; then the poll gives up, and the caller
    /// reports [`Scd41Error::DataNotReady`].
    pub fn on_ready_status(&mut self, ready: bool) -> (r: PollDecision)
        requires
            old(self).wf(),
        ensures
            final(self).wf(),
            ready ==> (r matches PollDecision::Read(t) && t.write@ == seq![0xECu8, 0x05u8]
                && t.delay_ms == 1 && t.read_len == 9) && *final(self) == *old(self),
            !ready && old(self).spec_attempts() < DATA_READ_MAX_ATTEMPTS - 1 ==> (r matches
                PollDecision::RetryAfter(d) && d == DATA_READY_LOOP_DELAY_MS)
                && final(self).spec_attempts() == old(self).spec_attempts() + 1,
            !ready && old(self).spec_attempts() >= DATA_READ_MAX_ATTEMPTS - 1 ==> (r matches
                PollDecision::GiveUp(e) && e == Scd41Error::DataNotReady)
                && *final(self) == *old(self),
    {
        if ready {
            let mut write: Vec<u8> = Vec::new();
            write.push(0xEC);
            write.push(0x05);
            assert(write@ =~= seq![0xECu8, 0x05u8]);
            PollDecision::Read(Transaction { write, delay_ms: 1, read_len: 9 })
        } else if self.attempts < DATA_READ_MAX_ATTEMPTS - 1 {
            self.attempts = self.attempts + 1;
            PollDecision::RetryAfter(DATA_READY_LOOP_DELAY_MS)
        } else {
            PollDecision::GiveUp(Scd41Error::DataNotReady)
        }
    }
}


/// Which initialisation step is in flight.  Each stage names the
/// transaction whose outcome the next [`SCD41::init_step`] call will
/// consume.
#[derive(Clone, Copy, Debug, PartialEq, Eq, Structural)]
pub enum InitStage {
    Begin,
    PowerUp,
    Stop,
    SelfTest,
    DisableAsc,
    SetPressure,
    SetAltitude,
    ReadOffset,
    SetOffset,
    Start,
    Done,
    Failed,
}

/// Which initialisation step failed, and why: a failure aborts the
/// whole sequence and surfaces the stage it happened in.
#[derive(Clone, Copy, Debug, PartialEq, Eq, Structural)]
pub enum InitError {
    StopFailed(Scd41Error),
    SelfTestFailed(Scd41Error),
    /// The self-test reported a nonzero word: a detected malfunction,
    /// distinct from any transport or integrity failure.
    Malfunction,
    DisableCalibrationFailed(Scd41Error),
    SetPressureFailed(Scd41Error),
    SetAltitudeFailed(Scd41Error),
    ReadOffsetFailed(Scd41Error),
    SetOffsetFailed(Scd41Error),
    StartFailed(Scd41Error),
}

/// What one initialisation step asks of the caller: perform a
/// transaction and come back with its outcome, or stop — the sequence
/// is complete, or aborted with the stage that failed.
pub enum InitAction {
    Transact(Transaction),
    Done,
    Abort(InitError),
}

/// The multi-step initialisation in progress: power-up delay, stop
/// measurement, self-test, disable automatic self-calibration, apply
/// the settings (ambient pressure, altitude, then the temperature
/// offset, which first reads the offset currently stored), and start
/// periodic measurement.
pub struct InitSequence {
    stage: InitStage,
    settings: SensorSettings,
}

/// The ambient pressure the sequence configures: the custom setting, or
/// the standard-atmosphere default.
pub open spec fn spec_init_pressure(s: SensorSettings) -> u32 {
    match s {
        SensorSettings::Custom { pressure_pa, .. } => pressure_pa,
        SensorSettings::Default => 101300,
    }
}

/// The altitude the sequence configures: the custom setting, or sea
/// level.
pub open spec fn spec_init_altitude(s: SensorSettings) -> u16 {
    match s {
        SensorSettings::Custom { altitude_m, .. } => altitude_m,
        SensorSettings::Default => 0,
    }
}

/// The temperature offset the sequence writes, in hundredths of a
/// degree, given the offset word read back: custom settings shift the
/// stored offset by `current - reference`; the default writes 4
/// degrees whatever was stored.
pub open spec fn spec_init_actual_offset(s: SensorSettings, raw: u16) -> int {
    match s {
        SensorSettings::Custom { current_temp_centi, reference_temp_centi, .. } => (
        current_temp_centi - reference_temp_centi) + spec_offset_centi(raw),
        SensorSettings::Default => 400,
    }
}

/// The stages whose transaction reads bytes back.
pub open spec fn spec_expects_read(stage: InitStage) -> bool {
    stage is SelfTest || stage is ReadOffset
}

/// The stages during which the driver must be idle: everything between
/// the stop and the final start.
pub open spec fn spec_config_stage(stage: InitStage) -> bool {
    ||| stage is SelfTest
    ||| stage is DisableAsc
    ||| stage is SetPressure
    ||| stage is SetAltitude
    ||| stage is ReadOffset
    ||| stage is SetOffset
    ||| stage is Start
}

impl InitSequence {
    pub closed spec fn spec_stage(self) -> InitStage {
        self.stage
    }

    pub closed spec fn spec_settings(self) -> SensorSettings {
        self.settings
    }

    /// A fresh sequence.  No settings means the defaults.
    pub fn new(settings: Option<SensorSettings>) -> (r: InitSequence)
        ensures
            r.spec_stage() is Begin,
            r.spec_settings() == (match settings {
                Some(s) => s,
                None => SensorSettings::Default,
            }),
    {
        let resolved = match settings {
            Some(s) => s,
            None => SensorSettings::Default,
        };
        InitSequence { stage: InitStage::Begin, settings: resolved }
    }

    /// The current stage.
    pub fn stage(&self) -> (r: InitStage)
        ensures
            r == self.spec_stage(),
    {
        self.stage
    }
}

impl SCD41 {
    /// Drives the initialisation one step: consumes the outcome of the
    /// stage in flight and issues the next action.  Any step failure
    /// aborts the sequence with the stage that failed; the following
    /// call protocol holds the sequence together:
    ///
    /// * the first call, at `Begin`, takes a placeholder `WriteOk`;
    /// * a read stage hands back the 3 bytes read or the fault;
    /// * a write stage hands back `WriteOk` or the fault;
    /// * after the stop stage the driver is idle and stays so until the
    ///   final start, as the successive postconditions show.
    pub fn init_step(&mut self, seq: &mut InitSequence, outcome: BusOutcome) -> (a: InitAction)
        requires
            !(old(seq).spec_stage() is Done),
            !(old(seq).spec_stage() is Failed),
            (match outcome {
                BusOutcome::WriteOk => !spec_expects_read(old(seq).spec_stage()),
                BusOutcome::ReadOk(b) => spec_expects_read(old(seq).spec_stage()) && b@.len()
                    == 3,
                BusOutcome::Failed(_) => !(old(seq).spec_stage() is Begin) && !(old(
                    seq,
                ).spec_stage() is PowerUp),
            }),
            spec_config_stage(old(seq).spec_stage()) ==> old(self).spec_state() is Idle,
        ensures
            final(seq).spec_settings() == old(seq).spec_settings(),
            old(seq).spec_stage() is Begin ==> final(seq).spec_stage() is PowerUp && *final(self)
                == *old(self) && (a matches InitAction::Transact(t) && t.write@.len() == 0
                && t.delay_ms == POWERUP_TIME_MS && t.read_len == 0),
            old(seq).spec_stage() is PowerUp ==> final(seq).spec_stage() is Stop && *final(self)
                == *old(self) && (a matches InitAction::Transact(t) && t.write@ == seq![
                0x3Fu8,
                0x86u8,
            ] && t.delay_ms == STOP_MEASURE_DELAY_MS && t.read_len == 0),
            old(seq).spec_stage() is Stop ==> final(self).spec_state() is Idle && (match outcome {
                BusOutcome::WriteOk => final(seq).spec_stage() is SelfTest && (a matches
                    InitAction::Transact(t) && t.write@ == seq![0x36u8, 0x39u8] && t.delay_ms
                    == SELF_TEST_TIME_MS && t.read_len == 3),
                BusOutcome::Failed(e) => final(seq).spec_stage() is Failed && a
                    == InitAction::Abort(InitError::StopFailed(Scd41Error::Transport(e))),
                _ => false,
            }),
            old(seq).spec_stage() is SelfTest ==> *final(self) == *old(self) && (match outcome {
                BusOutcome::ReadOk(b) => {
                    if !spec_response_valid(b@) {
                        final(seq).spec_stage() is Failed && a == InitAction::Abort(
                            InitError::SelfTestFailed(Scd41Error::CrcMismatch),
                        )
                    } else if spec_word(b@[0], b@[1]) != 0 {
                        final(seq).spec_stage() is Failed && a == InitAction::Abort(
                            InitError::Malfunction,
                        )
                    } else {
                        final(seq).spec_stage() is DisableAsc && (a matches InitAction::Transact(
                            t,
                        ) && t.write@ == spec_command_frame(seq![0x24u8, 0x16u8], seq![0u8, 0u8])
                            && t.delay_ms == 0 && t.read_len == 0)
                    }
                },
                BusOutcome::Failed(e) => final(seq).spec_stage() is Failed && a
                    == InitAction::Abort(InitError::SelfTestFailed(Scd41Error::Transport(e))),
                _ => false,
            }),
            old(seq).spec_stage() is DisableAsc ==> *final(self) == *old(self) && (match outcome {
                BusOutcome::WriteOk => {
                    if 70000 <= spec_init_pressure(old(seq).spec_settings()) <= 120000 {
                        final(seq).spec_stage() is SetPressure && (a matches InitAction::Transact(
                            t,
                        ) && t.write@ == spec_command_frame(
                            seq![0xE0u8, 0x00u8],
                            spec_be((spec_init_pressure(old(seq).spec_settings()) / 100) as u16),
                        ) && t.delay_ms == 0 && t.read_len == 0)
                    } else {
                        final(seq).spec_stage() is Failed && a == InitAction::Abort(
                            InitError::SetPressureFailed(Scd41Error::PressureOutOfRange),
                        )
                    }
                },
                BusOutcome::Failed(e) => final(seq).spec_stage() is Failed && a
                    == InitAction::Abort(
                    InitError::DisableCalibrationFailed(Scd41Error::Transport(e)),
                ),
                _ => false,
            }),
            old(seq).spec_stage() is SetPressure ==> *final(self) == *old(self) && (match outcome {
                BusOutcome::WriteOk => {
                    if spec_init_altitude(old(seq).spec_settings()) <= 3000 {
                        final(seq).spec_stage() is SetAltitude && (a matches InitAction::Transact(
                            t,
                        ) && t.write@ == spec_command_frame(
                            seq![0x24u8, 0x27u8],
                            spec_be(spec_init_altitude(old(seq).spec_settings())),
                        ) && t.delay_ms == 0 && t.read_len == 0)
                    } else {
                        final(seq).spec_stage() is Failed && a == InitAction::Abort(
                            InitError::SetAltitudeFailed(Scd41Error::AltitudeOutOfRange),
                        )
                    }
                },
                BusOutcome::Failed(e) => final(seq).spec_stage() is Failed && a
                    == InitAction::Abort(InitError::SetPressureFailed(Scd41Error::Transport(e))),
                _ => false,
            }),
            old(seq).spec_stage() is SetAltitude ==> *final(self) == *old(self) && (match outcome {
                BusOutcome::WriteOk => final(seq).spec_stage() is ReadOffset && (a matches
                    InitAction::Transact(t) && t.write@ == seq![0x23u8, 0x18u8] && t.delay_ms == 1
                    && t.read_len == 3),
                BusOutcome::Failed(e) => final(seq).spec_stage() is Failed && a
                    == InitAction::Abort(InitError::SetAltitudeFailed(Scd41Error::Transport(e))),
                _ => false,
            }),
            old(seq).spec_stage() is ReadOffset ==> *final(self) == *old(self) && (match outcome {
                BusOutcome::ReadOk(b) => {
                    if !spec_response_valid(b@) {
                        final(seq).spec_stage() is Failed && a == InitAction::Abort(
                            InitError::ReadOffsetFailed(Scd41Error::CrcMismatch),
                        )
                    } else {
                        final(seq).spec_stage() is SetOffset && (a matches InitAction::Transact(
                            t,
                        ) && t.write@ == spec_command_frame(
                            seq![0x24u8, 0x1Du8],
                            spec_be(
                                spec_offset_raw(
                                    spec_init_actual_offset(
                                        old(seq).spec_settings(),
                                        spec_word(b@[0], b@[1]),
                                    ),
                                ),
                            ),
                        ) && t.delay_ms == 0 && t.read_len == 0)
                    }
                },
                BusOutcome::Failed(e) => final(seq).spec_stage() is Failed && a
                    == InitAction::Abort(InitError::ReadOffsetFailed(Scd41Error::Transport(e))),
                _ => false,
            }),
            old(seq).spec_stage() is SetOffset ==> *final(self) == *old(self) && (match outcome {
                BusOutcome::WriteOk => final(seq).spec_stage() is Start && (a matches
                    InitAction::Transact(t) && t.write@ == seq![0x21u8, 0xB1u8] && t.delay_ms
                    == INITIAL_MEASURE_DELAY_MS && t.read_len == 0),
                BusOutcome::Failed(e) => final(seq).spec_stage() is Failed && a
                    == InitAction::Abort(InitError::SetOffsetFailed(Scd41Error::Transport(e))),
                _ => false,
            }),
            old(seq).spec_stage() is Start ==> (match outcome {
                BusOutcome::WriteOk => final(seq).spec_stage() is Done && final(self).spec_state()
                    is Measurement && a is Done,
                BusOutcome::Failed(e) => final(seq).spec_stage() is Failed && *final(self)
                    == *old(self) && a == InitAction::Abort(
                    InitError::StartFailed(Scd41Error::Transport(e)),
                ),
                _ => false,
            }),
    {
        match seq.stage {
            InitStage::Begin => {
                seq.stage = InitStage::PowerUp;
                let write: Vec<u8> = Vec::new();
                InitAction::Transact(
                    Transaction { write, delay_ms: POWERUP_TIME_MS, read_len: 0 },
                )
            },
            InitStage::PowerUp => {
                seq.stage = InitStage::Stop;
                InitAction::Transact(self.stop_periodic_measurement_request())
            },
            InitStage::Stop => {
                self.state = SCD41State::Idle;
                match outcome {
                    BusOutcome::WriteOk => {
                        seq.stage = InitStage::SelfTest;
                        let mut write: Vec<u8> = Vec::new();
                        write.push(0x36);
                        write.push(0x39);
                        assert(write@ =~= seq![0x36u8, 0x39u8]);
                        InitAction::Transact(
                            Transaction { write, delay_ms: SELF_TEST_TIME_MS, read_len: 3 },
                        )
                    },
                    BusOutcome::Failed(e) => {
                        seq.stage = InitStage::Failed;
                        InitAction::Abort(InitError::StopFailed(Scd41Error::Transport(e)))
                    },
                    BusOutcome::ReadOk(_) => {
                        proof {
                            assert(false);
                        }
                        InitAction::Done
                    },
                }
            },
            InitStage::SelfTest => {
                match outcome {
                    BusOutcome::ReadOk(b) => {
                        match self.perform_self_test(b.as_slice()) {
                            Err(_) => {
                                seq.stage = InitStage::Failed;
                                InitAction::Abort(
                                    InitError::SelfTestFailed(Scd41Error::CrcMismatch),
                                )
                            },
                            Ok(false) => {
                                seq.stage = InitStage::Failed;
                                InitAction::Abort(InitError::Malfunction)
                            },
                            Ok(true) => {
                                seq.stage = InitStage::DisableAsc;
                                InitAction::Transact(self.write_word_command(0x24, 0x16, 0, 0))
                            },
                        }
                    },
                    BusOutcome::Failed(e) => {
                        seq.stage = InitStage::Failed;
                        InitAction::Abort(InitError::SelfTestFailed(Scd41Error::Transport(e)))
                    },
                    BusOutcome::WriteOk => {
                        proof {
                            assert(false);
                        }
                        InitAction::Done
                    },
                }
            },
            InitStage::DisableAsc => {
                match outcome {
                    BusOutcome::WriteOk => {
                        let pressure = match seq.settings {
                            SensorSettings::Custom { pressure_pa, .. } => pressure_pa,
                            SensorSettings::Default => 101300,
                        };
                        match self.set_ambient_pressure(pressure) {
                            Ok(t) => {
                                seq.stage = InitStage::SetPressure;
                                InitAction::Transact(t)
                            },
                            Err(e) => {
                                seq.stage = InitStage::Failed;
                                InitAction::Abort(InitError::SetPressureFailed(e))
                            },
                        }
                    },
                    BusOutcome::Failed(e) => {
                        seq.stage = InitStage::Failed;
                        InitAction::Abort(
                            InitError::DisableCalibrationFailed(Scd41Error::Transport(e)),
                        )
                    },
                    BusOutcome::ReadOk(_) => {
                        proof {
                            assert(false);
                        }
                        InitAction::Done
                    },
                }
            },
            InitStage::SetPressure => {
                match outcome {
                    BusOutcome::WriteOk => {
                        let altitude = match seq.settings {
                            SensorSettings::Custom { altitude_m, .. } => altitude_m,
                            SensorSettings::Default => 0,
                        };
                        match self.set_sensor_altitude(altitude) {
                            Ok(t) => {
                                seq.stage = InitStage::SetAltitude;
                                InitAction::Transact(t)
                            },
                            Err(e) => {
                                seq.stage = InitStage::Failed;
                                InitAction::Abort(InitError::SetAltitudeFailed(e))
                            },
                        }
                    },
                    BusOutcome::Failed(e) => {
                        seq.stage = InitStage::Failed;
                        InitAction::Abort(InitError::SetPressureFailed(Scd41Error::Transport(e)))
                    },
                    BusOutcome::ReadOk(_) => {
                        proof {
                            assert(false);
                        }
                        InitAction::Done
                    },
                }
            },
            InitStage::SetAltitude => {
                match outcome {
                    BusOutcome::WriteOk => {
                        seq.stage = InitStage::ReadOffset;
                        let mut write: Vec<u8> = Vec::new();
                        write.push(0x23);
                        write.push(0x18);
                        assert(write@ =~= seq![0x23u8, 0x18u8]);
                        InitAction::Transact(Transaction { write, delay_ms: 1, read_len: 3 })
                    },
                    BusOutcome::Failed(e) => {
                        seq.stage = InitStage::Failed;
                        InitAction::Abort(InitError::SetAltitudeFailed(Scd41Error::Transport(e)))
                    },
                    BusOutcome::ReadOk(_) => {
                        proof {
                            assert(false);
                        }
                        InitAction::Done
                    },
                }
            },
            InitStage::ReadOffset => {
                match outcome {
                    BusOutcome::ReadOk(b) => {
                        match self.get_temp_offset(b.as_slice()) {
                            Err(_) => {
                                seq.stage = InitStage::Failed;
                                InitAction::Abort(
                                    InitError::ReadOffsetFailed(Scd41Error::CrcMismatch),
                                )
                            },
                            Ok(offset_centi) => {
                                let raw = decode_word(b[0], b[1]);
                                let (current, reference) = match seq.settings {
                                    SensorSettings::Custom {
                                        current_temp_centi,
                                        reference_temp_centi,
                                        ..
                                    } => (current_temp_centi, reference_temp_centi),
                                    SensorSettings::Default => (400i32, offset_centi),
                                };
                                match self.set_temp_offset(current, reference, raw) {
                                    Ok(t) => {
                                        seq.stage = InitStage::SetOffset;
                                        InitAction::Transact(t)
                                    },
                                    Err(_) => {
                                        proof {
                                            assert(false);
                                        }
                                        InitAction::Done
                                    },
                                }
                            },
                        }
                    },
                    BusOutcome::Failed(e) => {
                        seq.stage = InitStage::Failed;
                        InitAction::Abort(InitError::ReadOffsetFailed(Scd41Error::Transport(e)))
                    },
                    BusOutcome::WriteOk => {
                        proof {
                            assert(false);
                        }
                        InitAction::Done
                    },
                }
            },
            InitStage::SetOffset => {
                match outcome {
                    BusOutcome::WriteOk => {
                        seq.stage = InitStage::Start;
                        InitAction::Transact(self.start_periodic_measurement_request())
                    },
                    BusOutcome::Failed(e) => {
                        seq.stage = InitStage::Failed;
                        InitAction::Abort(InitError::SetOffsetFailed(Scd41Error::Transport(e)))
                    },
                    BusOutcome::ReadOk(_) => {
                        proof {
                            assert(false);
                        }
                        InitAction::Done
                    },
                }
            },
            InitStage::Start => {
                match outcome {
                    BusOutcome::WriteOk => {
                        seq.stage = InitStage::Done;
                        self.state = SCD41State::Measurement;
                        InitAction::Done
                    },
                    BusOutcome::Failed(e) => {
                        seq.stage = InitStage::Failed;
                        InitAction::Abort(InitError::StartFailed(Scd41Error::Transport(e)))
                    },
                    BusOutcome::ReadOk(_) => {
                        proof {
                            assert(false);
                        }
                        InitAction::Done
                    },
                }
            },
            InitStage::Done | InitStage::Failed => {
                proof {
                    assert(false);
                }
                InitAction::Done
            },
        }
    }
}

} // verus!
