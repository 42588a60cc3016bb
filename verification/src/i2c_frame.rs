//! Framing of the binary, CRC-checked I2C protocol.
//!
//! A command frame is a 2-byte opcode, optionally followed by a 2-byte
//! big-endian data word and the CRC-8 of that word.  A response is a
//! sequence of 3-byte groups `[MSB, LSB, CRC8(MSB, LSB)]`.

use vstd::prelude::*;
use crate::checksum::{crc8, spec_crc8};

verus! {

/// The fixed command frame limit: 2 opcode bytes, 2 data bytes, 1 CRC byte.
pub const MAX_FRAME_LENGTH: usize = 5;

/// The bytes of a command frame carrying a data payload: opcode, then the
/// payload, then the CRC-8 of the payload alone.
pub open spec fn spec_command_frame(opcode: Seq<u8>, data: Seq<u8>) -> Seq<u8> {
    opcode + data + seq![spec_crc8(data)]
}

/// Builds a command frame from an opcode and a data payload, appending the
/// CRC-8 of the payload.  Returns `None` when the frame would exceed the
/// fixed 5-byte limit; nothing is built in that case.
pub fn build_command_frame(opcode: &[u8], data: &[u8]) -> (r: Option<Vec<u8>>)
    ensures
        opcode@.len() + data@.len() + 1 > MAX_FRAME_LENGTH ==> r is None,
        opcode@.len() + data@.len() + 1 <= MAX_FRAME_LENGTH ==> (match r {
            Some(f) => f@ == spec_command_frame(opcode@, data@),
            None => false,
        }),
{
    if opcode.len() > MAX_FRAME_LENGTH || data.len() > MAX_FRAME_LENGTH
        || opcode.len() + data.len() + 1 > MAX_FRAME_LENGTH {
        return None;
    }
    let mut frame: Vec<u8> = Vec::new();
    let mut i: usize = 0;
    while i < opcode.len()
        invariant
            i <= opcode@.len(),
            frame@ == opcode@.take(i as int),
        decreases opcode@.len() - i,
    {
        frame.push(opcode[i]);
        i = i + 1;
    }
    let mut j: usize = 0;
    while j < data.len()
        invariant
            j <= data@.len(),
            frame@ == opcode@ + data@.take(j as int),
        decreases data@.len() - j,
    {
        frame.push(data[j]);
        j = j + 1;
    }
    frame.push(crc8(data));
    assert(opcode@.take(opcode@.len() as int) =~= opcode@);
    assert(data@.take(data@.len() as int) =~= data@);
    assert(frame@ =~= spec_command_frame(opcode@, data@));
    Some(frame)
}

/// The 16-bit big-endian word held by one response group.
pub open spec fn spec_word(msb: u8, lsb: u8) -> u16 {
    (msb * 256 + lsb) as u16
}

/// Decodes a 2-byte big-endian word.
pub fn decode_word(msb: u8, lsb: u8) -> (r: u16)
    ensures
        r == spec_word(msb, lsb),
{
    (msb as u16) * 256 + (lsb as u16)
}

/// True when the 3-byte group starting at `3 * g` carries the CRC-8 of its
/// own data word.
pub open spec fn spec_group_valid(buf: Seq<u8>, g: int) -> bool {
    buf[3 * g + 2] == spec_crc8(seq![buf[3 * g], buf[3 * g + 1]])
}

/// True when every complete 3-byte group of the response validates.  A
/// trailing remainder of fewer than 3 bytes carries no checksum and is not
/// checked, as the protocol never produces one.
pub open spec fn spec_response_valid(buf: Seq<u8>) -> bool {
    forall|g: int| 0 <= g < buf.len() / 3 ==> #[trigger] spec_group_valid(buf, g)
}

/// Checks one 3-byte response group: succeeds exactly when the third
/// byte is the CRC-8 of the 2-byte word before it.
pub fn validate_group(msb: u8, lsb: u8, crc: u8) -> (r: bool)
    ensures
        r <==> crc == spec_crc8(seq![msb, lsb]),
{
    let mut word: Vec<u8> = Vec::new();
    word.push(msb);
    word.push(lsb);
    assert(word@ =~= seq![msb, lsb]);
    crc8(word.as_slice()) == crc
}

/// A 3-byte response is valid exactly when its single group is: the
/// third byte carries the CRC-8 of the first two.
pub proof fn lemma_single_group_valid(s: Seq<u8>)
    requires
        s.len() == 3,
    ensures
        spec_response_valid(s) <==> s[2] == spec_crc8(seq![s[0], s[1]]),
{
    assert(spec_group_valid(s, 0) <==> s[2] == spec_crc8(seq![s[0], s[1]]));
    if s[2] == spec_crc8(seq![s[0], s[1]]) {
        assert(forall|g: int| 0 <= g < s.len() / 3 ==> #[trigger] spec_group_valid(s, g));
    }
}

/// A corrupted checksum byte never validates: a group that carries the
/// same word as a valid one but any other third byte fails.  (Whether a
/// changed word byte collides with the old checksum is a question about
/// the polynomial itself, which this module leaves to the checksum's
/// definition.)
pub proof fn lemma_corrupted_checksum_detected(s: Seq<u8>, s2: Seq<u8>)
    requires
        s.len() == 3,
        s2.len() == 3,
        spec_response_valid(s),
        s2[0] == s[0],
        s2[1] == s[1],
        s2[2] != s[2],
    ensures
        !spec_response_valid(s2),
{
    lemma_single_group_valid(s);
    lemma_single_group_valid(s2);
    assert(seq![s2[0], s2[1]] =~= seq![s[0], s[1]]);
}

/// Checks the CRC-8 of every complete 3-byte group of a response.
pub fn validate_response(buf: &[u8]) -> (r: bool)
    ensures
        r <==> spec_response_valid(buf@),
{
    let mut g: usize = 0;
    let n: usize = buf.len();
    let groups: usize = n / 3;
    while g < groups
        invariant
            g <= groups,
            n == buf@.len(),
            groups == n / 3,
            forall|k: int| 0 <= k < g ==> #[trigger] spec_group_valid(buf@, k),
        decreases groups - g,
    {
        assert(3 * (g as int) + 2 < n) by (nonlinear_arith)
            requires
                g < groups,
                groups == n / 3,
        ;
        let b0 = buf[3 * g];
        let b1 = buf[3 * g + 1];
        let received = buf[3 * g + 2];
        let mut word: Vec<u8> = Vec::new();
        word.push(b0);
        word.push(b1);
        let computed = crc8(word.as_slice());
        assert(word@ =~= seq![b0, b1]);
        if computed != received {
            assert(!spec_group_valid(buf@, g as int));
            return false;
        }
        assert(spec_group_valid(buf@, g as int));
        g = g + 1;
    }
    true
}

} // verus!
