//! UTF-8 validation for response payloads.
//!
//! The checker walks the bytes one encoded scalar at a time, mirroring
//! the structure of vstd's UTF-8 specification: a leading byte fixes
//! the width, the continuation bytes must follow their bit pattern, and
//! the decoded codepoint must be neither an overlong encoding nor a
//! surrogate.

use vstd::prelude::*;
use vstd::utf8::{
    codepoint_width_2, codepoint_width_3, codepoint_width_4, pop_first_scalar, valid_first_scalar,
    valid_utf8,
};

verus! {

/// True exactly when `bytes` is a well-formed UTF-8 encoding.
pub fn is_valid_utf8(bytes: &[u8]) -> (r: bool)
    ensures
        r <==> valid_utf8(bytes@),
{
    let n = bytes.len();
    let mut i: usize = 0;
    assert(bytes@.skip(0) =~= bytes@);
    while i < n
        invariant
            i <= n,
            n == bytes@.len(),
            valid_utf8(bytes@) == valid_utf8(bytes@.skip(i as int)),
        decreases n - i,
    {
        let ghost rest = bytes@.skip(i as int);
        assert(rest.len() == n - i);
        assert(rest[0] == bytes@[i as int]);
        let b0 = bytes[i];
        if b0 < 0x80 {
            // A one-byte scalar: its codepoint is below 0x80, so it can
            // be neither overlong nor a surrogate.
            proof {
                assert(valid_first_scalar(rest));
                assert(pop_first_scalar(rest) =~= bytes@.skip(i + 1));
            }
            i = i + 1;
        } else if 0xc0 <= b0 && b0 <= 0xdf {
            if n - i < 2 {
                return false;
            }
            assert(rest[1] == bytes@[i + 1]);
            let b1 = bytes[i + 1];
            if !(0x80 <= b1 && b1 <= 0xbf) {
                return false;
            }
            let cp: u32 = (((b0 & 0x1f) as u32) << 6) | ((b1 & 0x3f) as u32);
            assert(cp == codepoint_width_2(b0, b1));
            if cp < 0x80 {
                // Overlong: the value fits one byte.
                return false;
            }
            proof {
                assert(cp <= 0x7ff) by (bit_vector)
                    requires
                        cp == (((b0 & 0x1f) as u32) << 6) | ((b1 & 0x3f) as u32),
                ;
                assert(valid_first_scalar(rest));
                assert(pop_first_scalar(rest) =~= bytes@.skip(i + 2));
            }
            i = i + 2;
        } else if 0xe0 <= b0 && b0 <= 0xef {
            if n - i < 3 {
                return false;
            }
            assert(rest[1] == bytes@[i + 1]);
            assert(rest[2] == bytes@[i + 2]);
            let b1 = bytes[i + 1];
            let b2 = bytes[i + 2];
            if !(0x80 <= b1 && b1 <= 0xbf) || !(0x80 <= b2 && b2 <= 0xbf) {
                return false;
            }
            let cp: u32 = (((b0 & 0x0f) as u32) << 12) | (((b1 & 0x3f) as u32) << 6) | ((b2
                & 0x3f) as u32);
            assert(cp == codepoint_width_3(b0, b1, b2));
            if cp < 0x800 {
                // Overlong: the value fits two bytes.
                return false;
            }
            if 0xd800 <= cp && cp <= 0xdfff {
                // A surrogate: not a Unicode scalar.
                return false;
            }
            proof {
                assert(valid_first_scalar(rest));
                assert(pop_first_scalar(rest) =~= bytes@.skip(i + 3));
            }
            i = i + 3;
        } else if 0xf0 <= b0 && b0 <= 0xf7 {
            if n - i < 4 {
                return false;
            }
            assert(rest[1] == bytes@[i + 1]);
            assert(rest[2] == bytes@[i + 2]);
            assert(rest[3] == bytes@[i + 3]);
            let b1 = bytes[i + 1];
            let b2 = bytes[i + 2];
            let b3 = bytes[i + 3];
            if !(0x80 <= b1 && b1 <= 0xbf) || !(0x80 <= b2 && b2 <= 0xbf) || !(0x80 <= b3 && b3
                <= 0xbf) {
                return false;
            }
            let cp: u32 = (((b0 & 0x07) as u32) << 18) | (((b1 & 0x3f) as u32) << 12) | (((b2
                & 0x3f) as u32) << 6) | ((b3 & 0x3f) as u32);
            assert(cp == codepoint_width_4(b0, b1, b2, b3));
            if cp < 0x10000 || cp > 0x10ffff {
                // Overlong, or beyond the last Unicode scalar.
                return false;
            }
            proof {
                assert(valid_first_scalar(rest));
                assert(pop_first_scalar(rest) =~= bytes@.skip(i + 4));
            }
            i = i + 4;
        } else {
            // A stray continuation byte (0x80 to 0xbf) or a byte no
            // encoding uses (0xf8 to 0xff): no leading pattern matches.
            return false;
        }
    }
    assert(bytes@.skip(n as int) =~= Seq::<u8>::empty());
    true
}

} // verus!
