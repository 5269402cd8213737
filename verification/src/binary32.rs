//! Ordering and clamping of IEEE-754 binary32 bit patterns.
//!
//! The GPU-facing data of this crate (camera parameters, uniform contents,
//! vertex positions) consists of 32-bit IEEE-754 values carried as raw `u32`
//! bit patterns. Real arithmetic on the encoded values happens outside the
//! library, but comparing and clamping them is pure bit logic: for patterns
//! that are not NaN, the encoded values order exactly as the signed-magnitude
//! keys below do, with the two zero patterns equal. Everything here is
//! verified against that order; nothing is taken on trust.
use vstd::prelude::*;

verus! {

/// Sign bit of a binary32 pattern.
pub const SIGN_MASK: u32 = 0x8000_0000;

/// Exponent and fraction bits of a binary32 pattern.
pub const MAG_MASK: u32 = 0x7FFF_FFFF;

/// Magnitude of an infinity: exponent all ones, fraction zero. Any larger
/// magnitude is a NaN.
pub const INF_MAG: u32 = 0x7F80_0000;

/// The exponent-and-fraction part of the pattern.
pub open spec fn mag(b: u32) -> u32 {
    b & MAG_MASK
}

/// The pattern encodes a NaN: exponent all ones, fraction non-zero.
pub open spec fn is_nan(b: u32) -> bool {
    mag(b) > INF_MAG
}

/// The sign bit is set: the encoded value is negative, or negative zero.
pub open spec fn is_neg(b: u32) -> bool {
    b >= SIGN_MASK
}

/// Order key of a pattern. For patterns that are not NaN, the encoded values
/// compare exactly as these integer keys do: within one sign the magnitude
/// bits are monotone in the encoded value, and the two zeros share key 0.
pub open spec fn key(b: u32) -> int {
    if is_neg(b) {
        -(mag(b) as int)
    } else {
        mag(b) as int
    }
}

/// The value encoded by `a` is less than or equal to the value encoded by
/// `b`. As in IEEE-754, any comparison against a NaN is false.
pub open spec fn le(a: u32, b: u32) -> bool {
    !is_nan(a) && !is_nan(b) && key(a) <= key(b)
}

/// The value encoded by `a` is strictly less than the value encoded by `b`.
/// As in IEEE-754, any comparison against a NaN is false.
pub open spec fn lt(a: u32, b: u32) -> bool {
    !is_nan(a) && !is_nan(b) && key(a) < key(b)
}

/// How the magnitude relates to the whole pattern: dropping the sign bit
/// either leaves the pattern unchanged or subtracts the sign bit's weight.
pub proof fn lemma_mag(b: u32)
    ensures
        b < SIGN_MASK ==> mag(b) == b,
        b >= SIGN_MASK ==> mag(b) == b - SIGN_MASK,
{
    assert(b < 0x8000_0000u32 ==> (b & 0x7FFF_FFFFu32) == b) by (bit_vector);
    assert(b >= 0x8000_0000u32 ==> (b & 0x7FFF_FFFFu32) == b - 0x8000_0000u32) by (bit_vector);
}

/// Whether the pattern encodes a NaN.
pub fn is_nan_bits(b: u32) -> (r: bool)
    ensures
        r == is_nan(b),
{
    (b & MAG_MASK) > INF_MAG
}

/// Comparison of the encoded values, decided on the bit patterns alone.
pub fn le_bits(a: u32, b: u32) -> (r: bool)
    ensures
        r == le(a, b),
{
    if is_nan_bits(a) || is_nan_bits(b) {
        false
    } else {
        let am = a & MAG_MASK;
        let bm = b & MAG_MASK;
        let an = a >= SIGN_MASK;
        let bn = b >= SIGN_MASK;
        if an && bn {
            am >= bm
        } else if an {
            true
        } else if bn {
            am == 0 && bm == 0
        } else {
            am <= bm
        }
    }
}

/// Strict comparison of the encoded values, decided on the bit patterns alone.
pub fn lt_bits(a: u32, b: u32) -> (r: bool)
    ensures
        r == lt(a, b),
{
    if is_nan_bits(a) || is_nan_bits(b) {
        false
    } else {
        let am = a & MAG_MASK;
        let bm = b & MAG_MASK;
        let an = a >= SIGN_MASK;
        let bn = b >= SIGN_MASK;
        if an && bn {
            am > bm
        } else if an {
            am != 0 || bm != 0
        } else if bn {
            false
        } else {
            am < bm
        }
    }
}

/// The pattern the standard clamping rule yields on the encoded values:
/// `lo` when the value lies below `lo`, `hi` when it lies above `hi`, the
/// value itself otherwise, and a NaN input is returned unchanged.
pub open spec fn clamp_spec(x: u32, lo: u32, hi: u32) -> u32 {
    if is_nan(x) {
        x
    } else if lt(x, lo) {
        lo
    } else if lt(hi, x) {
        hi
    } else {
        x
    }
}

/// Clamp the encoded value of `x` into the interval of the values encoded by
/// `lo` and `hi`, on the bit patterns alone.
pub fn clamp_bits(x: u32, lo: u32, hi: u32) -> (r: u32)
    requires
        !is_nan(lo),
        !is_nan(hi),
        le(lo, hi),
    ensures
        r == clamp_spec(x, lo, hi),
        !is_nan(x) ==> le(lo, r) && le(r, hi),
        is_nan(x) ==> r == x,
{
    if is_nan_bits(x) {
        x
    } else if lt_bits(x, lo) {
        lo
    } else if lt_bits(hi, x) {
        hi
    } else {
        x
    }
}

} // verus!
