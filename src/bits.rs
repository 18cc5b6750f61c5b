//! The ULPs step of a floating-point comparison, on the IEEE 754 encodings of the
//! two operands. An encoding is read as an unsigned integer of the same width:
//! the top bit is the sign, a NaN has an exponent of all ones and a non-zero
//! fraction. Within one sign, the encodings of two non-NaN values are as far apart
//! as there are representable steps between the values.
use vstd::prelude::*;

use crate::abs_diff_eq::int_distance;

verus! {

/// Whether a 32-bit encoding has its sign bit set.
pub open spec fn sign_bit32(b: u32) -> bool {
    b >= 0x8000_0000
}

/// Whether a 32-bit encoding is a NaN.
pub open spec fn is_nan_bits32(b: u32) -> bool {
    b % 0x8000_0000 > 0x7f80_0000
}

/// Whether two 32-bit encodings are non-NaN, of the same sign, and at most
/// `max_ulps` steps apart.
pub open spec fn within_ulps_bits32_spec(a: u32, b: u32, max_ulps: u32) -> bool {
    &&& !is_nan_bits32(a)
    &&& !is_nan_bits32(b)
    &&& sign_bit32(a) == sign_bit32(b)
    &&& int_distance(a as int, b as int) <= max_ulps
}

/// Tests whether two 32-bit encodings are non-NaN, of the same sign, and at
/// most `max_ulps` steps apart.
pub fn within_ulps_bits32(a: u32, b: u32, max_ulps: u32) -> (r: bool)
    ensures
        r == within_ulps_bits32_spec(a, b, max_ulps),
{
    if a % 0x8000_0000 > 0x7f80_0000 || b % 0x8000_0000 > 0x7f80_0000 {
        return false;
    }
    if (a >= 0x8000_0000) != (b >= 0x8000_0000) {
        return false;
    }
    (if a <= b {
        b - a
    } else {
        a - b
    }) <= max_ulps
}

/// Whether a 64-bit encoding has its sign bit set.
pub open spec fn sign_bit64(b: u64) -> bool {
    b >= 0x8000_0000_0000_0000
}

/// Whether a 64-bit encoding is a NaN.
pub open spec fn is_nan_bits64(b: u64) -> bool {
    b % 0x8000_0000_0000_0000 > 0x7ff0_0000_0000_0000
}

/// Whether two 64-bit encodings are non-NaN, of the same sign, and at most
/// `max_ulps` steps apart.
pub open spec fn within_ulps_bits64_spec(a: u64, b: u64, max_ulps: u32) -> bool {
    &&& !is_nan_bits64(a)
    &&& !is_nan_bits64(b)
    &&& sign_bit64(a) == sign_bit64(b)
    &&& int_distance(a as int, b as int) <= max_ulps
}

/// Tests whether two 64-bit encodings are non-NaN, of the same sign, and at
/// most `max_ulps` steps apart.
pub fn within_ulps_bits64(a: u64, b: u64, max_ulps: u32) -> (r: bool)
    ensures
        r == within_ulps_bits64_spec(a, b, max_ulps),
{
    if a % 0x8000_0000_0000_0000 > 0x7ff0_0000_0000_0000 || b % 0x8000_0000_0000_0000
        > 0x7ff0_0000_0000_0000 {
        return false;
    }
    if (a >= 0x8000_0000_0000_0000) != (b >= 0x8000_0000_0000_0000) {
        return false;
    }
    (if a <= b {
        b - a
    } else {
        a - b
    }) <= max_ulps as u64
}

} // verus!
