//! Floating-point values, held as their IEEE 754 encodings. The comparisons
//! read order, sign, magnitude, NaN and infinity straight from the encoding; the
//! arithmetic they need, a difference and a product rounded as the hardware
//! rounds, is rustc_apfloat's.
use vstd::prelude::*;

use rustc_apfloat::ieee::{Double, Single};
use rustc_apfloat::Float;

use crate::abs_diff_eq::AbsDiffEq;
use crate::bits::{
    is_nan_bits32, is_nan_bits64, sign_bit32, sign_bit64, within_ulps_bits32, within_ulps_bits32_spec,
    within_ulps_bits64, within_ulps_bits64_spec,
};
use crate::relative_eq::RelativeEq;
use crate::ulps_eq::UlpsEq;

verus! {

/// The magnitude of a 32-bit encoding: the encoding with its sign bit cleared,
/// which is the encoding of the absolute value.
pub open spec fn magnitude32(b: u32) -> u32 {
    b % 0x8000_0000
}

/// Whether a 32-bit encoding is an infinity.
pub open spec fn is_inf_bits32(b: u32) -> bool {
    b % 0x8000_0000 == 0x7f80_0000
}

/// Whether a 32-bit encoding is finite.
pub open spec fn is_finite_bits32(b: u32) -> bool {
    b % 0x8000_0000 < 0x7f80_0000
}

/// The position of a non-NaN 32-bit encoding on the number line: magnitudes
/// encode in increasing order, and both zeros sit at zero.
pub open spec fn order_key32(b: u32) -> int {
    if sign_bit32(b) {
        -(magnitude32(b) as int)
    } else {
        magnitude32(b) as int
    }
}

/// IEEE 754 `a <= b`: false when either is a NaN.
pub open spec fn le_bits32(a: u32, b: u32) -> bool {
    !is_nan_bits32(a) && !is_nan_bits32(b) && order_key32(a) <= order_key32(b)
}

/// IEEE 754 `a == b`: false when either is a NaN, true for the two zeros.
pub open spec fn eq_bits32(a: u32, b: u32) -> bool {
    !is_nan_bits32(a) && !is_nan_bits32(b) && order_key32(a) == order_key32(b)
}

/// IEEE 754 `a > b`: false when either is a NaN.
pub open spec fn gt_bits32(a: u32, b: u32) -> bool {
    !is_nan_bits32(a) && !is_nan_bits32(b) && order_key32(a) > order_key32(b)
}

/// The encoding of `a - b` in single precision, rounded to nearest, ties to even.
pub uninterp spec fn binary32_difference(a: u32, b: u32) -> u32;

/// The encoding of `a * b` in single precision, rounded to nearest, ties to even.
pub uninterp spec fn binary32_product(a: u32, b: u32) -> u32;

/// Relies on rustc_apfloat's IEEE 754 single-precision subtraction
/// (`ieee::Single`'s `-`, rounding to nearest, ties to even): the encoding of the
/// difference depends on the two encodings alone. As its source shows, a NaN
/// operand gives a NaN, and operands that are equal numbers give a zero.
#[verifier::external_body]
fn difference32(a: u32, b: u32) -> (r: u32)
    ensures
        r == binary32_difference(a, b),
        is_nan_bits32(a) || is_nan_bits32(b) ==> is_nan_bits32(r),
        is_finite_bits32(a) && order_key32(a) == order_key32(b) ==> magnitude32(r) == 0,
{
    (Single::from_bits(a as u128) - Single::from_bits(b as u128)).value.to_bits() as u32
}

/// Relies on rustc_apfloat's IEEE 754 single-precision multiplication
/// (`ieee::Single`'s `*`, rounding to nearest, ties to even): the encoding of the
/// product depends on the two encodings alone.
#[verifier::external_body]
fn product32(a: u32, b: u32) -> (r: u32)
    ensures
        r == binary32_product(a, b),
{
    (Single::from_bits(a as u128) * Single::from_bits(b as u128)).value.to_bits() as u32
}

/// Computes IEEE 754 `a <= b` on 32-bit encodings.
pub fn le32(a: u32, b: u32) -> (r: bool)
    ensures
        r == le_bits32(a, b),
{
    if a % 0x8000_0000 > 0x7f80_0000 || b % 0x8000_0000 > 0x7f80_0000 {
        return false;
    }
    let ma = a % 0x8000_0000;
    let mb = b % 0x8000_0000;
    match (a >= 0x8000_0000, b >= 0x8000_0000) {
        (false, false) => ma <= mb,
        (true, false) => true,
        (false, true) => ma == 0 && mb == 0,
        (true, true) => mb <= ma,
    }
}

/// Computes IEEE 754 `a == b` on 32-bit encodings.
pub fn eq32(a: u32, b: u32) -> (r: bool)
    ensures
        r == eq_bits32(a, b),
{
    le32(a, b) && le32(b, a)
}

/// Computes IEEE 754 `a > b` on 32-bit encodings.
pub fn gt32(a: u32, b: u32) -> (r: bool)
    ensures
        r == gt_bits32(a, b),
{
    le32(b, a) && !le32(a, b)
}

/// A single-precision IEEE 754 value, held as its encoding.
#[derive(Clone, Copy, Debug)]
pub struct Binary32 {
    pub bits: u32,
}

impl Binary32 {
    /// The value whose encoding is `bits`.
    pub fn from_bits(bits: u32) -> (r: Binary32)
        ensures
            r.bits == bits,
    {
        Binary32 { bits }
    }

    /// The encoding of the value.
    pub fn to_bits(self) -> (r: u32)
        ensures
            r == self.bits,
    {
        self.bits
    }
}

/// The machine epsilon of single precision, `2^-23`.
pub const EPSILON_BITS32: u32 = 0x3400_0000;

/// Whether `|a - b| <= epsilon`, with the difference rounded as the hardware does.
pub open spec fn abs_diff_eq_bits32(a: u32, b: u32, epsilon: u32) -> bool {
    le_bits32(magnitude32(binary32_difference(a, b)), epsilon)
}

/// Relative equality of two encodings: equal numbers (matching infinities
/// included); else, both finite and either within `epsilon` of each other or
/// within `max_relative` times the larger magnitude.
pub open spec fn relative_eq_bits32(a: u32, b: u32, epsilon: u32, max_relative: u32) -> bool {
    if eq_bits32(a, b) {
        true
    } else if is_inf_bits32(a) || is_inf_bits32(b) {
        false
    } else {
        let diff = magnitude32(binary32_difference(a, b));
        let largest = if gt_bits32(magnitude32(b), magnitude32(a)) {
            magnitude32(b)
        } else {
            magnitude32(a)
        };
        le_bits32(diff, epsilon) || le_bits32(diff, binary32_product(largest, max_relative))
    }
}

impl AbsDiffEq for Binary32 {
    type Epsilon = Binary32;

    open spec fn default_epsilon_spec() -> Binary32 {
        Binary32 { bits: EPSILON_BITS32 }
    }

    open spec fn abs_diff_eq_spec(&self, other: &Binary32, epsilon: Binary32) -> bool {
        abs_diff_eq_bits32(self.bits, other.bits, epsilon.bits)
    }

    fn default_epsilon() -> (r: Binary32) {
        Binary32 { bits: EPSILON_BITS32 }
    }

    /// A NaN equals nothing; a finite value equals every encoding of the same
    /// number (itself, and the other zero) under any tolerance not below zero.
    fn abs_diff_eq(&self, other: &Binary32, epsilon: Binary32) -> (r: bool)
        ensures
            is_nan_bits32(self.bits) || is_nan_bits32(other.bits) ==> !r,
            is_finite_bits32(self.bits) && order_key32(self.bits) == order_key32(other.bits)
                && le_bits32(0, epsilon.bits) ==> r,
    {
        let diff = difference32(self.bits, other.bits);
        le32(diff % 0x8000_0000, epsilon.bits)
    }
}

impl RelativeEq for Binary32 {
    open spec fn default_max_relative_spec() -> Binary32 {
        Binary32 { bits: EPSILON_BITS32 }
    }

    open spec fn relative_eq_spec(&self, other: &Binary32, epsilon: Binary32, max_relative: Binary32) -> bool {
        relative_eq_bits32(self.bits, other.bits, epsilon.bits, max_relative.bits)
    }

    fn default_max_relative() -> (r: Binary32) {
        Binary32 { bits: EPSILON_BITS32 }
    }

    /// A NaN equals nothing; equal numbers, the two zeros among them, are equal.
    fn relative_eq(&self, other: &Binary32, epsilon: Binary32, max_relative: Binary32) -> (r: bool)
        ensures
            is_nan_bits32(self.bits) || is_nan_bits32(other.bits) ==> !r,
            eq_bits32(self.bits, other.bits) ==> r,
    {
        let a = self.bits;
        let b = other.bits;
        // Equal numbers, and matching infinities.
        if eq32(a, b) {
            return true;
        }
        // An infinity against anything else.
        if a % 0x8000_0000 == 0x7f80_0000 || b % 0x8000_0000 == 0x7f80_0000 {
            return false;
        }
        let diff = difference32(a, b) % 0x8000_0000;
        // Values close to zero.
        if le32(diff, epsilon.bits) {
            return true;
        }
        let abs_a = a % 0x8000_0000;
        let abs_b = b % 0x8000_0000;
        let largest = if gt32(abs_b, abs_a) {
            abs_b
        } else {
            abs_a
        };
        le32(diff, product32(largest, max_relative.bits))
    }
}

impl UlpsEq for Binary32 {
    open spec fn default_max_ulps_spec() -> u32 {
        4
    }

    open spec fn ulps_eq_spec(&self, other: &Binary32, epsilon: Binary32, max_ulps: u32) -> bool {
        abs_diff_eq_bits32(self.bits, other.bits, epsilon.bits)
            || within_ulps_bits32_spec(self.bits, other.bits, max_ulps)
    }

    fn default_max_ulps() -> (r: u32) {
        4
    }

    /// A NaN equals nothing; a finite value equals every encoding of the same
    /// number (itself, and the other zero, through the absolute-difference short
    /// cut before the sign check) under any tolerance not below zero.
    fn ulps_eq(&self, other: &Binary32, epsilon: Binary32, max_ulps: u32) -> (r: bool)
        ensures
            is_nan_bits32(self.bits) || is_nan_bits32(other.bits) ==> !r,
            is_finite_bits32(self.bits) && order_key32(self.bits) == order_key32(other.bits)
                && le_bits32(0, epsilon.bits) ==> r,
    {
        // Values close together; otherwise the count of representable steps.
        self.abs_diff_eq(other, epsilon) || within_ulps_bits32(self.bits, other.bits, max_ulps)
    }
}

/// The magnitude of a 64-bit encoding: the encoding with its sign bit cleared,
/// which is the encoding of the absolute value.
pub open spec fn magnitude64(b: u64) -> u64 {
    b % 0x8000_0000_0000_0000
}

/// Whether a 64-bit encoding is an infinity.
pub open spec fn is_inf_bits64(b: u64) -> bool {
    b % 0x8000_0000_0000_0000 == 0x7ff0_0000_0000_0000
}

/// Whether a 64-bit encoding is finite.
pub open spec fn is_finite_bits64(b: u64) -> bool {
    b % 0x8000_0000_0000_0000 < 0x7ff0_0000_0000_0000
}

/// The position of a non-NaN 64-bit encoding on the number line: magnitudes
/// encode in increasing order, and both zeros sit at zero.
pub open spec fn order_key64(b: u64) -> int {
    if sign_bit64(b) {
        -(magnitude64(b) as int)
    } else {
        magnitude64(b) as int
    }
}

/// IEEE 754 `a <= b`: false when either is a NaN.
pub open spec fn le_bits64(a: u64, b: u64) -> bool {
    !is_nan_bits64(a) && !is_nan_bits64(b) && order_key64(a) <= order_key64(b)
}

/// IEEE 754 `a == b`: false when either is a NaN, true for the two zeros.
pub open spec fn eq_bits64(a: u64, b: u64) -> bool {
    !is_nan_bits64(a) && !is_nan_bits64(b) && order_key64(a) == order_key64(b)
}

/// IEEE 754 `a > b`: false when either is a NaN.
pub open spec fn gt_bits64(a: u64, b: u64) -> bool {
    !is_nan_bits64(a) && !is_nan_bits64(b) && order_key64(a) > order_key64(b)
}

/// The encoding of `a - b` in double precision, rounded to nearest, ties to even.
pub uninterp spec fn binary64_difference(a: u64, b: u64) -> u64;

/// The encoding of `a * b` in double precision, rounded to nearest, ties to even.
pub uninterp spec fn binary64_product(a: u64, b: u64) -> u64;

/// Relies on rustc_apfloat's IEEE 754 double-precision subtraction
/// (`ieee::Double`'s `-`, rounding to nearest, ties to even): the encoding of the
/// difference depends on the two encodings alone. As its source shows, a NaN
/// operand gives a NaN, and operands that are equal numbers give a zero.
#[verifier::external_body]
fn difference64(a: u64, b: u64) -> (r: u64)
    ensures
        r == binary64_difference(a, b),
        is_nan_bits64(a) || is_nan_bits64(b) ==> is_nan_bits64(r),
        is_finite_bits64(a) && order_key64(a) == order_key64(b) ==> magnitude64(r) == 0,
{
    (Double::from_bits(a as u128) - Double::from_bits(b as u128)).value.to_bits() as u64
}

/// Relies on rustc_apfloat's IEEE 754 double-precision multiplication
/// (`ieee::Double`'s `*`, rounding to nearest, ties to even): the encoding of the
/// product depends on the two encodings alone.
#[verifier::external_body]
fn product64(a: u64, b: u64) -> (r: u64)
    ensures
        r == binary64_product(a, b),
{
    (Double::from_bits(a as u128) * Double::from_bits(b as u128)).value.to_bits() as u64
}

/// Computes IEEE 754 `a <= b` on 64-bit encodings.
pub fn le64(a: u64, b: u64) -> (r: bool)
    ensures
        r == le_bits64(a, b),
{
    if a % 0x8000_0000_0000_0000 > 0x7ff0_0000_0000_0000 || b % 0x8000_0000_0000_0000 > 0x7ff0_0000_0000_0000 {
        return false;
    }
    let ma = a % 0x8000_0000_0000_0000;
    let mb = b % 0x8000_0000_0000_0000;
    match (a >= 0x8000_0000_0000_0000, b >= 0x8000_0000_0000_0000) {
        (false, false) => ma <= mb,
        (true, false) => true,
        (false, true) => ma == 0 && mb == 0,
        (true, true) => mb <= ma,
    }
}

/// Computes IEEE 754 `a == b` on 64-bit encodings.
pub fn eq64(a: u64, b: u64) -> (r: bool)
    ensures
        r == eq_bits64(a, b),
{
    le64(a, b) && le64(b, a)
}

/// Computes IEEE 754 `a > b` on 64-bit encodings.
pub fn gt64(a: u64, b: u64) -> (r: bool)
    ensures
        r == gt_bits64(a, b),
{
    le64(b, a) && !le64(a, b)
}

/// A double-precision IEEE 754 value, held as its encoding.
#[derive(Clone, Copy, Debug)]
pub struct Binary64 {
    pub bits: u64,
}

impl Binary64 {
    /// The value whose encoding is `bits`.
    pub fn from_bits(bits: u64) -> (r: Binary64)
        ensures
            r.bits == bits,
    {
        Binary64 { bits }
    }

    /// The encoding of the value.
    pub fn to_bits(self) -> (r: u64)
        ensures
            r == self.bits,
    {
        self.bits
    }
}

/// The machine epsilon of double precision, `2^-52`.
pub const EPSILON_BITS64: u64 = 0x3cb0_0000_0000_0000;

/// Whether `|a - b| <= epsilon`, with the difference rounded as the hardware does.
pub open spec fn abs_diff_eq_bits64(a: u64, b: u64, epsilon: u64) -> bool {
    le_bits64(magnitude64(binary64_difference(a, b)), epsilon)
}

/// Relative equality of two encodings: equal numbers (matching infinities
/// included); else, both finite and either within `epsilon` of each other or
/// within `max_relative` times the larger magnitude.
pub open spec fn relative_eq_bits64(a: u64, b: u64, epsilon: u64, max_relative: u64) -> bool {
    if eq_bits64(a, b) {
        true
    } else if is_inf_bits64(a) || is_inf_bits64(b) {
        false
    } else {
        let diff = magnitude64(binary64_difference(a, b));
        let largest = if gt_bits64(magnitude64(b), magnitude64(a)) {
            magnitude64(b)
        } else {
            magnitude64(a)
        };
        le_bits64(diff, epsilon) || le_bits64(diff, binary64_product(largest, max_relative))
    }
}

impl AbsDiffEq for Binary64 {
    type Epsilon = Binary64;

    open spec fn default_epsilon_spec() -> Binary64 {
        Binary64 { bits: EPSILON_BITS64 }
    }

    open spec fn abs_diff_eq_spec(&self, other: &Binary64, epsilon: Binary64) -> bool {
        abs_diff_eq_bits64(self.bits, other.bits, epsilon.bits)
    }

    fn default_epsilon() -> (r: Binary64) {
        Binary64 { bits: EPSILON_BITS64 }
    }

    /// A NaN equals nothing; a finite value equals every encoding of the same
    /// number (itself, and the other zero) under any tolerance not below zero.
    fn abs_diff_eq(&self, other: &Binary64, epsilon: Binary64) -> (r: bool)
        ensures
            is_nan_bits64(self.bits) || is_nan_bits64(other.bits) ==> !r,
            is_finite_bits64(self.bits) && order_key64(self.bits) == order_key64(other.bits)
                && le_bits64(0, epsilon.bits) ==> r,
    {
        let diff = difference64(self.bits, other.bits);
        le64(diff % 0x8000_0000_0000_0000, epsilon.bits)
    }
}

impl RelativeEq for Binary64 {
    open spec fn default_max_relative_spec() -> Binary64 {
        Binary64 { bits: EPSILON_BITS64 }
    }

    open spec fn relative_eq_spec(&self, other: &Binary64, epsilon: Binary64, max_relative: Binary64) -> bool {
        relative_eq_bits64(self.bits, other.bits, epsilon.bits, max_relative.bits)
    }

    fn default_max_relative() -> (r: Binary64) {
        Binary64 { bits: EPSILON_BITS64 }
    }

    /// A NaN equals nothing; equal numbers, the two zeros among them, are equal.
    fn relative_eq(&self, other: &Binary64, epsilon: Binary64, max_relative: Binary64) -> (r: bool)
        ensures
            is_nan_bits64(self.bits) || is_nan_bits64(other.bits) ==> !r,
            eq_bits64(self.bits, other.bits) ==> r,
    {
        let a = self.bits;
        let b = other.bits;
        // Equal numbers, and matching infinities.
        if eq64(a, b) {
            return true;
        }
        // An infinity against anything else.
        if a % 0x8000_0000_0000_0000 == 0x7ff0_0000_0000_0000 || b % 0x8000_0000_0000_0000 == 0x7ff0_0000_0000_0000 {
            return false;
        }
        let diff = difference64(a, b) % 0x8000_0000_0000_0000;
        // Values close to zero.
        if le64(diff, epsilon.bits) {
            return true;
        }
        let abs_a = a % 0x8000_0000_0000_0000;
        let abs_b = b % 0x8000_0000_0000_0000;
        let largest = if gt64(abs_b, abs_a) {
            abs_b
        } else {
            abs_a
        };
        le64(diff, product64(largest, max_relative.bits))
    }
}

impl UlpsEq for Binary64 {
    open spec fn default_max_ulps_spec() -> u32 {
        4
    }

    open spec fn ulps_eq_spec(&self, other: &Binary64, epsilon: Binary64, max_ulps: u32) -> bool {
        abs_diff_eq_bits64(self.bits, other.bits, epsilon.bits)
            || within_ulps_bits64_spec(self.bits, other.bits, max_ulps)
    }

    fn default_max_ulps() -> (r: u32) {
        4
    }

    /// A NaN equals nothing; a finite value equals every encoding of the same
    /// number (itself, and the other zero, through the absolute-difference short
    /// cut before the sign check) under any tolerance not below zero.
    fn ulps_eq(&self, other: &Binary64, epsilon: Binary64, max_ulps: u32) -> (r: bool)
        ensures
            is_nan_bits64(self.bits) || is_nan_bits64(other.bits) ==> !r,
            is_finite_bits64(self.bits) && order_key64(self.bits) == order_key64(other.bits)
                && le_bits64(0, epsilon.bits) ==> r,
    {
        // Values close together; otherwise the count of representable steps.
        self.abs_diff_eq(other, epsilon) || within_ulps_bits64(self.bits, other.bits, max_ulps)
    }
}

} // verus!
