//! Types shared between the drivers and the code that owns the buses.
//!
//! The drivers never perform a transfer themselves: they hand the caller a
//! [`Transaction`] describing exactly what to put on the wire, and the
//! caller hands back either the bytes that were read or a
//! [`TransportError`] naming the bus-level fault.

use vstd::prelude::*;

verus! {

/// A bus-level failure, reported by the transport and passed through to
/// the driver's caller unchanged.
#[derive(Clone, Copy, Debug, PartialEq, Eq, Structural)]
pub enum TransportError {
    Arbitration,
    Bus,
    Crc,
    Nack,
    Overrun,
    Timeout,
    ZeroLengthTransfer,
}

/// One bus transaction: write `write`, suspend for `delay_ms`
/// milliseconds, then read `read_len` bytes (zero for a write-only
/// transaction).
pub struct Transaction {
    pub write: Vec<u8>,
    pub delay_ms: u64,
    pub read_len: usize,
}

/// How a transaction went: a write-only transaction succeeded, a read
/// came back with its bytes, or the bus faulted.
pub enum BusOutcome {
    WriteOk,
    ReadOk(Vec<u8>),
    Failed(TransportError),
}

} // verus!
