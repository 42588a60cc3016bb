//! Control core of a bio-reactor incubator firmware.
//!
//! The crate holds the protocol drivers for two CO2 sensors (a binary,
//! CRC-checked I2C protocol and an ASCII command/response UART protocol),
//! the state machines of the three actuators (heater, gas solenoid valve,
//! thermoelectric heat pump), and the homeostatic control loop that reads
//! the sensors and issues timed actuation on a fixed period.
//!
//! The crate never touches a bus itself: every driver operation is split
//! into a verified part that builds the exact bytes to send and a verified
//! part that validates and decodes the bytes that came back.  The caller
//! performs the transfers and the delays and hands the outcomes in.

pub mod bus;
pub mod checksum;
pub mod control;
pub mod decimal;
pub mod encoding;
pub mod explorir;
pub mod gpio;
pub mod heater;
pub mod i2c_frame;
pub mod peltier;
pub mod scd41;
pub mod solenoid;
