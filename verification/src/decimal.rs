//! Decimal text: formatting the numbers the UART commands carry, and
//! parsing the numbers the sensor's responses carry.

use vstd::prelude::*;

verus! {

/// True for the bytes of the ASCII digits `'0'` to `'9'`.
pub open spec fn spec_is_digit(b: u8) -> bool {
    0x30 <= b <= 0x39
}

/// The decimal digits of `n`, most significant first, with no sign and
/// no leading zeros (a single `'0'` for zero).
pub open spec fn spec_decimal(n: nat) -> Seq<u8>
    decreases n,
{
    if n < 10 {
        seq![(0x30 + n) as u8]
    } else {
        spec_decimal(n / 10) + seq![(0x30 + n % 10) as u8]
    }
}

/// Relies on itoa::Buffer::format: it writes the value's decimal digits,
/// most significant first, with no sign and no padding.
#[verifier::external_body]
pub fn format_u32(n: u32) -> (r: Vec<u8>)
    ensures
        r@ == spec_decimal(n as nat),
{
    let mut buf = itoa::Buffer::new();
    buf.format(n).as_bytes().to_vec()
}

/// The value of a digit string, most significant digit first.
pub open spec fn spec_digits_value(s: Seq<u8>) -> int
    decreases s.len(),
{
    if s.len() == 0 {
        0
    } else {
        spec_digits_value(s.drop_last()) * 10 + (s.last() - 0x30)
    }
}

/// True when `s` consists of digits only.
pub open spec fn spec_all_digits(s: Seq<u8>) -> bool {
    forall|j: int| 0 <= j < s.len() ==> spec_is_digit(#[trigger] s[j])
}

/// What a signed 32-bit decimal parse accepts, exactly as the driver
/// needs it: an optional `'+'` or `'-'` sign, then at least one digit,
/// and a value that fits the type.
pub open spec fn spec_parse_i32(s: Seq<u8>) -> Option<int> {
    let negative = s.len() > 0 && s[0] == 0x2D;
    let digits = if s.len() > 0 && (s[0] == 0x2B || s[0] == 0x2D) {
        s.skip(1)
    } else {
        s
    };
    if digits.len() > 0 && spec_all_digits(digits) {
        let v = if negative {
            -spec_digits_value(digits)
        } else {
            spec_digits_value(digits)
        };
        if -0x8000_0000 <= v <= 0x7FFF_FFFF {
            Some(v)
        } else {
            None
        }
    } else {
        None
    }
}

/// The value of a digit string is never negative.
proof fn lemma_digits_value_nonneg(s: Seq<u8>)
    requires
        spec_all_digits(s),
    ensures
        spec_digits_value(s) >= 0,
    decreases s.len(),
{
    if s.len() > 0 {
        assert(spec_all_digits(s.drop_last()));
        lemma_digits_value_nonneg(s.drop_last());
    }
}

/// Appending digits never shrinks the value of a digit string.
proof fn lemma_digits_value_extend(s: Seq<u8>, k: int)
    requires
        spec_all_digits(s),
        0 <= k <= s.len(),
    ensures
        spec_digits_value(s.take(k)) <= spec_digits_value(s),
    decreases s.len() - k,
{
    if k < s.len() {
        assert(s.take(k + 1).drop_last() =~= s.take(k));
        assert(spec_all_digits(s.take(k)));
        lemma_digits_value_nonneg(s.take(k));
        assert(spec_digits_value(s.take(k + 1)) >= spec_digits_value(s.take(k)));
        lemma_digits_value_extend(s, k + 1);
    } else {
        assert(s.take(k) =~= s);
    }
}

/// Parses a signed decimal 32-bit integer: an optional sign, then at
/// least one digit.  Returns `None` on an empty or malformed text and on
/// a value outside the type's range, exactly as [`spec_parse_i32`] says.
pub fn parse_i32(s: &[u8]) -> (r: Option<i32>)
    ensures
        match r {
            Some(v) => spec_parse_i32(s@) == Some(v as int),
            None => spec_parse_i32(s@) is None,
        },
{
    let n = s.len();
    let mut i: usize = 0;
    let mut negative = false;
    if n > 0 && (s[0] == 0x2B || s[0] == 0x2D) {
        negative = s[0] == 0x2D;
        i = 1;
    }
    let first: usize = i;
    let ghost digits = if first == 1 { s@.skip(1) } else { s@ };
    if i >= n {
        return None;
    }
    let mut acc: u64 = 0;
    while i < n
        invariant
            first <= i <= n,
            n == s@.len(),
            first <= 1,
            first < n,
            (first == 1) == (n > 0 && (s@[0] == 0x2B || s@[0] == 0x2D)),
            negative == (n > 0 && s@[0] == 0x2D),
            digits == (if first == 1 { s@.skip(1) } else { s@ }),
            forall|j: int| first <= j < i ==> spec_is_digit(#[trigger] s@[j]),
            acc == spec_digits_value(s@.subrange(first as int, i as int)),
            acc <= 0x8000_0000,
        decreases n - i,
    {
        let b = s[i];
        if !(0x30 <= b && b <= 0x39) {
            assert(!spec_is_digit(digits[i - first]));
            return None;
        }
        assert(s@.subrange(first as int, i + 1).drop_last() =~= s@.subrange(
            first as int,
            i as int,
        ));
        acc = acc * 10 + ((b - 0x30) as u64);
        i = i + 1;
        if acc > 0x8000_0000 {
            proof {
                assert(digits =~= s@.subrange(first as int, n as int));
                if spec_all_digits(digits) {
                    assert(s@.subrange(first as int, i as int) =~= digits.take(
                        i - first,
                    ));
                    lemma_digits_value_extend(digits, i - first);
                }
            }
            return None;
        }
    }
    proof {
        assert(digits =~= s@.subrange(first as int, n as int));
        assert(spec_all_digits(digits));
    }
    if negative {
        let v: i64 = -(acc as i64);
        Some(v as i32)
    } else {
        if acc > 0x7FFF_FFFF {
            assert(spec_parse_i32(s@) is None);
            return None;
        }
        Some(acc as i32)
    }
}

/// True for the ASCII whitespace bytes a payload is trimmed of: space,
/// horizontal tab, line feed, vertical tab, form feed and carriage
/// return.
pub open spec fn spec_is_space(b: u8) -> bool {
    b == 0x20 || 0x09 <= b <= 0x0D
}

/// `s` with its leading whitespace removed.
pub open spec fn spec_trim_front(s: Seq<u8>) -> Seq<u8>
    decreases s.len(),
{
    if s.len() > 0 && spec_is_space(s[0]) {
        spec_trim_front(s.skip(1))
    } else {
        s
    }
}

/// `s` with its trailing whitespace removed.
pub open spec fn spec_trim_back(s: Seq<u8>) -> Seq<u8>
    decreases s.len(),
{
    if s.len() > 0 && spec_is_space(s.last()) {
        spec_trim_back(s.drop_last())
    } else {
        s
    }
}

/// `s` with whitespace removed from both ends.
pub open spec fn spec_trim(s: Seq<u8>) -> Seq<u8> {
    spec_trim_back(spec_trim_front(s))
}

/// Copies `s` without its leading and trailing ASCII whitespace.
pub fn trim(s: &[u8]) -> (r: Vec<u8>)
    ensures
        r@ == spec_trim(s@),
{
    let n = s.len();
    let mut start: usize = 0;
    assert(s@.skip(0) =~= s@);
    while start < n && (s[start] == 0x20 || (0x09 <= s[start] && s[start] <= 0x0D))
        invariant
            start <= n,
            n == s@.len(),
            spec_trim_front(s@.skip(start as int)) == spec_trim_front(s@),
        decreases n - start,
    {
        assert(s@.skip(start as int).skip(1) =~= s@.skip(start as int + 1));
        start = start + 1;
    }
    assert(spec_trim_front(s@) == s@.skip(start as int));
    let mut end: usize = n;
    assert(s@.skip(start as int).take(n - start) =~= s@.skip(start as int));
    while end > start && (s[end - 1] == 0x20 || (0x09 <= s[end - 1] && s[end - 1] <= 0x0D))
        invariant
            start <= end <= n,
            n == s@.len(),
            spec_trim_back(s@.skip(start as int).take(end - start))
                == spec_trim_back(s@.skip(start as int)),
        decreases end,
    {
        assert(s@.skip(start as int).take(end - start).drop_last() =~= s@.skip(
            start as int,
        ).take(end - 1 - start));
        end = end - 1;
    }
    assert(spec_trim(s@) == s@.skip(start as int).take(end - start));
    let mut r: Vec<u8> = Vec::new();
    let mut k: usize = start;
    while k < end
        invariant
            start <= k <= end <= n,
            n == s@.len(),
            r@ == s@.subrange(start as int, k as int),
        decreases end - k,
    {
        r.push(s[k]);
        assert(r@ =~= s@.subrange(start as int, k + 1));
        k = k + 1;
    }
    assert(r@ =~= s@.skip(start as int).take(end - start));
    r
}

} // verus!
