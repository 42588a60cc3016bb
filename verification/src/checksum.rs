//! CRC-8 checksum shared by the I2C sensor protocol.
//!
//! Polynomial 0x31, initial value 0xFF, MSB first, no final XOR and no
//! reflection.  Every outgoing data word and every incoming 2-byte word of
//! the I2C protocol carries one byte of this checksum.

use vstd::prelude::*;

verus! {

/// One shift of the CRC register: shift left, and fold the polynomial in
/// when the bit that fell out was set.
pub open spec fn spec_crc8_shift(crc: u8) -> u8 {
    if crc & 0x80 != 0 {
        (crc << 1) ^ 0x31
    } else {
        crc << 1
    }
}

/// `n` successive shifts of the CRC register.
pub open spec fn spec_crc8_shifts(crc: u8, n: nat) -> u8
    decreases n,
{
    if n == 0 {
        crc
    } else {
        spec_crc8_shifts(spec_crc8_shift(crc), (n - 1) as nat)
    }
}

/// Folding one data byte into the CRC register: XOR it in, then shift
/// eight times.
pub open spec fn spec_crc8_update(crc: u8, byte: u8) -> u8 {
    spec_crc8_shifts(crc ^ byte, 8)
}

/// CRC register after folding in every byte of `data`, starting from `crc`.
pub open spec fn spec_crc8_from(crc: u8, data: Seq<u8>) -> u8
    decreases data.len(),
{
    if data.len() == 0 {
        crc
    } else {
        spec_crc8_from(spec_crc8_update(crc, data[0]), data.skip(1))
    }
}

/// The checksum of a byte sequence: register initialised to 0xFF, every
/// byte folded in from first to last.
pub open spec fn spec_crc8(data: Seq<u8>) -> u8 {
    spec_crc8_from(0xFF, data)
}

/// CRC-8 of a byte slice, computed bit by bit.
pub fn crc8(data: &[u8]) -> (r: u8)
    ensures
        r == spec_crc8(data@),
{
    let mut crc: u8 = 0xFF;
    let mut i: usize = 0;
    assert(data@.skip(0) =~= data@);
    while i < data.len()
        invariant
            i <= data@.len(),
            spec_crc8_from(crc, data@.skip(i as int)) == spec_crc8(data@),
        decreases data@.len() - i,
    {
        crc = crc ^ data[i];
        let ghost entry = crc;
        let mut b: usize = 0;
        while b < 8
            invariant
                b <= 8,
                spec_crc8_shifts(crc, (8 - b) as nat) == spec_crc8_shifts(entry, 8),
            decreases 8 - b,
        {
            if crc & 0x80 != 0 {
                crc = (crc << 1u8) ^ 0x31;
            } else {
                crc = crc << 1u8;
            }
            b = b + 1;
        }
        assert(data@.skip(i as int).skip(1) =~= data@.skip(i as int + 1));
        i = i + 1;
    }
    crc
}

} // verus!
