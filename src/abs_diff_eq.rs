//! Equality by absolute difference, the strategy on which the other two rest.
use vstd::prelude::*;

use num_complex::Complex;
use ordered_float::OrderedFloat;

verus! {

/// `num_complex::Complex`, whose public fields `re` and `im` Verus reads.
#[verifier::external_type_specification]
pub struct ExComplex<T>(Complex<T>);

/// `ordered_float::OrderedFloat`, whose public field `0` Verus reads.
#[verifier::external_type_specification]
pub struct ExOrderedFloat<T>(OrderedFloat<T>);

/// Equality defined by the absolute difference of two values: `a` and `b` are
/// equal under a tolerance `epsilon` when `|a - b| <= epsilon`.
///
/// Each implementation gives, in `abs_diff_eq_spec`, what equality means for its
/// type; `abs_diff_eq` computes exactly that.
pub trait AbsDiffEq<Rhs: ?Sized = Self> {
    /// The type of the tolerance; its shape mirrors the shape of the value.
    type Epsilon;

    /// The default tolerance of the type.
    spec fn default_epsilon_spec() -> Self::Epsilon;

    /// When `self` and `other` are equal within `epsilon`.
    spec fn abs_diff_eq_spec(&self, other: &Rhs, epsilon: Self::Epsilon) -> bool;

    /// The default tolerance to use when testing values that are close together.
    fn default_epsilon() -> (r: Self::Epsilon)
        ensures
            r == Self::default_epsilon_spec(),
    ;

    /// Tests for equality within the absolute tolerance `epsilon`.
    fn abs_diff_eq(&self, other: &Rhs, epsilon: Self::Epsilon) -> (r: bool)
        ensures
            r == self.abs_diff_eq_spec(other, epsilon),
    ;

    /// The negation of [`AbsDiffEq::abs_diff_eq`].
    fn abs_diff_ne(&self, other: &Rhs, epsilon: Self::Epsilon) -> (r: bool)
        ensures
            r == !self.abs_diff_eq_spec(other, epsilon),
    {
        !self.abs_diff_eq(other, epsilon)
    }
}

/// The distance between two integers.
pub open spec fn int_distance(a: int, b: int) -> nat {
    if a >= b {
        (a - b) as nat
    } else {
        (b - a) as nat
    }
}

// Unsigned integers: the distance is the larger value minus the smaller.

impl AbsDiffEq for u8 {
    type Epsilon = u8;

    open spec fn default_epsilon_spec() -> u8 {
        0
    }

    open spec fn abs_diff_eq_spec(&self, other: &u8, epsilon: u8) -> bool {
        int_distance(*self as int, *other as int) <= epsilon
    }

    fn default_epsilon() -> (r: u8) {
        0
    }

    fn abs_diff_eq(&self, other: &u8, epsilon: u8) -> (r: bool) {
        (if *self > *other {
            *self - *other
        } else {
            *other - *self
        }) <= epsilon
    }
}

impl AbsDiffEq for u16 {
    type Epsilon = u16;

    open spec fn default_epsilon_spec() -> u16 {
        0
    }

    open spec fn abs_diff_eq_spec(&self, other: &u16, epsilon: u16) -> bool {
        int_distance(*self as int, *other as int) <= epsilon
    }

    fn default_epsilon() -> (r: u16) {
        0
    }

    fn abs_diff_eq(&self, other: &u16, epsilon: u16) -> (r: bool) {
        (if *self > *other {
            *self - *other
        } else {
            *other - *self
        }) <= epsilon
    }
}

impl AbsDiffEq for u32 {
    type Epsilon = u32;

    open spec fn default_epsilon_spec() -> u32 {
        0
    }

    open spec fn abs_diff_eq_spec(&self, other: &u32, epsilon: u32) -> bool {
        int_distance(*self as int, *other as int) <= epsilon
    }

    fn default_epsilon() -> (r: u32) {
        0
    }

    fn abs_diff_eq(&self, other: &u32, epsilon: u32) -> (r: bool) {
        (if *self > *other {
            *self - *other
        } else {
            *other - *self
        }) <= epsilon
    }
}

impl AbsDiffEq for u64 {
    type Epsilon = u64;

    open spec fn default_epsilon_spec() -> u64 {
        0
    }

    open spec fn abs_diff_eq_spec(&self, other: &u64, epsilon: u64) -> bool {
        int_distance(*self as int, *other as int) <= epsilon
    }

    fn default_epsilon() -> (r: u64) {
        0
    }

    fn abs_diff_eq(&self, other: &u64, epsilon: u64) -> (r: bool) {
        (if *self > *other {
            *self - *other
        } else {
            *other - *self
        }) <= epsilon
    }
}

impl AbsDiffEq for u128 {
    type Epsilon = u128;

    open spec fn default_epsilon_spec() -> u128 {
        0
    }

    open spec fn abs_diff_eq_spec(&self, other: &u128, epsilon: u128) -> bool {
        int_distance(*self as int, *other as int) <= epsilon
    }

    fn default_epsilon() -> (r: u128) {
        0
    }

    fn abs_diff_eq(&self, other: &u128, epsilon: u128) -> (r: bool) {
        (if *self > *other {
            *self - *other
        } else {
            *other - *self
        }) <= epsilon
    }
}

impl AbsDiffEq for usize {
    type Epsilon = usize;

    open spec fn default_epsilon_spec() -> usize {
        0
    }

    open spec fn abs_diff_eq_spec(&self, other: &usize, epsilon: usize) -> bool {
        int_distance(*self as int, *other as int) <= epsilon
    }

    fn default_epsilon() -> (r: usize) {
        0
    }

    fn abs_diff_eq(&self, other: &usize, epsilon: usize) -> (r: bool) {
        (if *self > *other {
            *self - *other
        } else {
            *other - *self
        }) <= epsilon
    }
}

// Signed integers: the default tolerance is zero, and a negative tolerance
// admits no pair.

impl AbsDiffEq for i8 {
    type Epsilon = i8;

    open spec fn default_epsilon_spec() -> i8 {
        0
    }

    open spec fn abs_diff_eq_spec(&self, other: &i8, epsilon: i8) -> bool {
        int_distance(*self as int, *other as int) <= epsilon
    }

    fn default_epsilon() -> (r: i8) {
        0
    }

    fn abs_diff_eq(&self, other: &i8, epsilon: i8) -> (r: bool) {
        // The difference is taken in a wider type, where it cannot overflow.
        let a = *self as i16;
        let b = *other as i16;
        (if a > b {
            a - b
        } else {
            b - a
        }) <= epsilon as i16
    }
}

impl AbsDiffEq for i16 {
    type Epsilon = i16;

    open spec fn default_epsilon_spec() -> i16 {
        0
    }

    open spec fn abs_diff_eq_spec(&self, other: &i16, epsilon: i16) -> bool {
        int_distance(*self as int, *other as int) <= epsilon
    }

    fn default_epsilon() -> (r: i16) {
        0
    }

    fn abs_diff_eq(&self, other: &i16, epsilon: i16) -> (r: bool) {
        // The difference is taken in a wider type, where it cannot overflow.
        let a = *self as i32;
        let b = *other as i32;
        (if a > b {
            a - b
        } else {
            b - a
        }) <= epsilon as i32
    }
}

impl AbsDiffEq for i32 {
    type Epsilon = i32;

    open spec fn default_epsilon_spec() -> i32 {
        0
    }

    open spec fn abs_diff_eq_spec(&self, other: &i32, epsilon: i32) -> bool {
        int_distance(*self as int, *other as int) <= epsilon
    }

    fn default_epsilon() -> (r: i32) {
        0
    }

    fn abs_diff_eq(&self, other: &i32, epsilon: i32) -> (r: bool) {
        // The difference is taken in a wider type, where it cannot overflow.
        let a = *self as i64;
        let b = *other as i64;
        (if a > b {
            a - b
        } else {
            b - a
        }) <= epsilon as i64
    }
}

impl AbsDiffEq for i64 {
    type Epsilon = i64;

    open spec fn default_epsilon_spec() -> i64 {
        0
    }

    open spec fn abs_diff_eq_spec(&self, other: &i64, epsilon: i64) -> bool {
        int_distance(*self as int, *other as int) <= epsilon
    }

    fn default_epsilon() -> (r: i64) {
        0
    }

    fn abs_diff_eq(&self, other: &i64, epsilon: i64) -> (r: bool) {
        // The difference is taken in a wider type, where it cannot overflow.
        let a = *self as i128;
        let b = *other as i128;
        (if a > b {
            a - b
        } else {
            b - a
        }) <= epsilon as i128
    }
}

impl AbsDiffEq for isize {
    type Epsilon = isize;

    open spec fn default_epsilon_spec() -> isize {
        0
    }

    open spec fn abs_diff_eq_spec(&self, other: &isize, epsilon: isize) -> bool {
        int_distance(*self as int, *other as int) <= epsilon
    }

    fn default_epsilon() -> (r: isize) {
        0
    }

    fn abs_diff_eq(&self, other: &isize, epsilon: isize) -> (r: bool) {
        // The difference is taken in a wider type, where it cannot overflow.
        let a = *self as i128;
        let b = *other as i128;
        (if a > b {
            a - b
        } else {
            b - a
        }) <= epsilon as i128
    }
}

/// Two optional values are equal when both are absent, or both are present and
/// equal; a present value never equals an absent one.
impl<T: AbsDiffEq> AbsDiffEq for Option<T> {
    type Epsilon = T::Epsilon;

    open spec fn default_epsilon_spec() -> T::Epsilon {
        T::default_epsilon_spec()
    }

    open spec fn abs_diff_eq_spec(&self, other: &Option<T>, epsilon: T::Epsilon) -> bool {
        match (*self, *other) {
            (Some(a), Some(b)) => a.abs_diff_eq_spec(&b, epsilon),
            (None, None) => true,
            _ => false,
        }
    }

    fn default_epsilon() -> (r: T::Epsilon) {
        T::default_epsilon()
    }

    fn abs_diff_eq(&self, other: &Option<T>, epsilon: T::Epsilon) -> (r: bool) {
        match (self, other) {
            (Some(a), Some(b)) => a.abs_diff_eq(b, epsilon),
            (None, None) => true,
            _ => false,
        }
    }
}

/// Two results are equal when they are the same variant with equal payloads; the
/// tolerance holds one slot for each variant.
impl<T: AbsDiffEq, E: AbsDiffEq> AbsDiffEq for Result<T, E> {
    type Epsilon = (T::Epsilon, E::Epsilon);

    open spec fn default_epsilon_spec() -> (T::Epsilon, E::Epsilon) {
        (T::default_epsilon_spec(), E::default_epsilon_spec())
    }

    open spec fn abs_diff_eq_spec(
        &self,
        other: &Result<T, E>,
        epsilon: (T::Epsilon, E::Epsilon),
    ) -> bool {
        match (*self, *other) {
            (Ok(a), Ok(b)) => a.abs_diff_eq_spec(&b, epsilon.0),
            (Err(a), Err(b)) => a.abs_diff_eq_spec(&b, epsilon.1),
            _ => false,
        }
    }

    fn default_epsilon() -> (r: (T::Epsilon, E::Epsilon)) {
        (T::default_epsilon(), E::default_epsilon())
    }

    fn abs_diff_eq(&self, other: &Result<T, E>, epsilon: (T::Epsilon, E::Epsilon)) -> (r: bool) {
        match (self, other) {
            (Ok(a), Ok(b)) => a.abs_diff_eq(b, epsilon.0),
            (Err(a), Err(b)) => a.abs_diff_eq(b, epsilon.1),
            _ => false,
        }
    }
}

/// References compare as the values they point to.
impl<'a, T: AbsDiffEq + ?Sized> AbsDiffEq for &'a T {
    type Epsilon = T::Epsilon;

    open spec fn default_epsilon_spec() -> T::Epsilon {
        T::default_epsilon_spec()
    }

    open spec fn abs_diff_eq_spec(&self, other: &&'a T, epsilon: T::Epsilon) -> bool {
        (**self).abs_diff_eq_spec(*other, epsilon)
    }

    fn default_epsilon() -> (r: T::Epsilon) {
        T::default_epsilon()
    }

    fn abs_diff_eq(&self, other: &&'a T, epsilon: T::Epsilon) -> (r: bool) {
        T::abs_diff_eq(*self, *other, epsilon)
    }
}

/// Mutable references compare as the values they point to.
impl<'a, T: AbsDiffEq + ?Sized> AbsDiffEq for &'a mut T {
    type Epsilon = T::Epsilon;

    open spec fn default_epsilon_spec() -> T::Epsilon {
        T::default_epsilon_spec()
    }

    open spec fn abs_diff_eq_spec(&self, other: &&'a mut T, epsilon: T::Epsilon) -> bool {
        (**self).abs_diff_eq_spec(&**other, epsilon)
    }

    fn default_epsilon() -> (r: T::Epsilon) {
        T::default_epsilon()
    }

    fn abs_diff_eq(&self, other: &&'a mut T, epsilon: T::Epsilon) -> (r: bool) {
        T::abs_diff_eq(*self, *other, epsilon)
    }
}

/// Sequences are equal when they have the same length and are equal position by
/// position, with one tolerance shared by every position.
impl<A: AbsDiffEq<B>, B> AbsDiffEq<Vec<B>> for Vec<A>
where
    A::Epsilon: Copy,
{
    type Epsilon = A::Epsilon;

    open spec fn default_epsilon_spec() -> A::Epsilon {
        A::default_epsilon_spec()
    }

    open spec fn abs_diff_eq_spec(&self, other: &Vec<B>, epsilon: A::Epsilon) -> bool {
        &&& self@.len() == other@.len()
        &&& forall|i: int|
            #![trigger self@[i]]
            0 <= i < self@.len() ==> self@[i].abs_diff_eq_spec(&other@[i], epsilon)
    }

    fn default_epsilon() -> (r: A::Epsilon) {
        A::default_epsilon()
    }

    fn abs_diff_eq(&self, other: &Vec<B>, epsilon: A::Epsilon) -> (r: bool) {
        if self.len() != other.len() {
            return false;
        }
        let mut i: usize = 0;
        while i < self.len()
            invariant
                self@.len() == other@.len(),
                0 <= i <= self@.len(),
                forall|j: int|
                    #![trigger self@[j]]
                    0 <= j < i ==> self@[j].abs_diff_eq_spec(&other@[j], epsilon),
            decreases self@.len() - i,
        {
            if !self[i].abs_diff_eq(&other[i], epsilon) {
                return false;
            }
            i = i + 1;
        }
        true
    }
}

/// Sequences are equal when they have the same length and are equal position by
/// position, with one tolerance shared by every position.
impl<A: AbsDiffEq<B>, B> AbsDiffEq<[B]> for [A]
where
    A::Epsilon: Copy,
{
    type Epsilon = A::Epsilon;

    open spec fn default_epsilon_spec() -> A::Epsilon {
        A::default_epsilon_spec()
    }

    open spec fn abs_diff_eq_spec(&self, other: &[B], epsilon: A::Epsilon) -> bool {
        &&& self@.len() == other@.len()
        &&& forall|i: int|
            #![trigger self@[i]]
            0 <= i < self@.len() ==> self@[i].abs_diff_eq_spec(&other@[i], epsilon)
    }

    fn default_epsilon() -> (r: A::Epsilon) {
        A::default_epsilon()
    }

    fn abs_diff_eq(&self, other: &[B], epsilon: A::Epsilon) -> (r: bool) {
        if self.len() != other.len() {
            return false;
        }
        let mut i: usize = 0;
        while i < self.len()
            invariant
                self@.len() == other@.len(),
                0 <= i <= self@.len(),
                forall|j: int|
                    #![trigger self@[j]]
                    0 <= j < i ==> self@[j].abs_diff_eq_spec(&other@[j], epsilon),
            decreases self@.len() - i,
        {
            if !self[i].abs_diff_eq(&other[i], epsilon) {
                return false;
            }
            i = i + 1;
        }
        true
    }
}

/// Arrays are equal when they are equal position by position, with one tolerance
/// shared by every position.
impl<A: AbsDiffEq<B>, B, const N: usize> AbsDiffEq<[B; N]> for [A; N]
where
    A::Epsilon: Copy,
{
    type Epsilon = A::Epsilon;

    open spec fn default_epsilon_spec() -> A::Epsilon {
        A::default_epsilon_spec()
    }

    open spec fn abs_diff_eq_spec(&self, other: &[B; N], epsilon: A::Epsilon) -> bool {
        forall|i: int|
            #![trigger self@[i]]
            0 <= i < N ==> self@[i].abs_diff_eq_spec(&other@[i], epsilon)
    }

    fn default_epsilon() -> (r: A::Epsilon) {
        A::default_epsilon()
    }

    fn abs_diff_eq(&self, other: &[B; N], epsilon: A::Epsilon) -> (r: bool) {
        let mut i: usize = 0;
        while i < N
            invariant
                0 <= i <= N,
                self@.len() == N,
                other@.len() == N,
                forall|j: int|
                    #![trigger self@[j]]
                    0 <= j < i ==> self@[j].abs_diff_eq_spec(&other@[j], epsilon),
            decreases N - i,
        {
            if !self[i].abs_diff_eq(&other[i], epsilon) {
                return false;
            }
            i = i + 1;
        }
        true
    }
}

/// Complex numbers are equal when their real parts and their imaginary parts are,
/// under one shared tolerance.
impl<T: AbsDiffEq> AbsDiffEq for Complex<T>
where
    T::Epsilon: Copy,
{
    type Epsilon = T::Epsilon;

    open spec fn default_epsilon_spec() -> T::Epsilon {
        T::default_epsilon_spec()
    }

    open spec fn abs_diff_eq_spec(&self, other: &Complex<T>, epsilon: T::Epsilon) -> bool {
        &&& self.re.abs_diff_eq_spec(&other.re, epsilon)
        &&& self.im.abs_diff_eq_spec(&other.im, epsilon)
    }

    fn default_epsilon() -> (r: T::Epsilon) {
        T::default_epsilon()
    }

    fn abs_diff_eq(&self, other: &Complex<T>, epsilon: T::Epsilon) -> (r: bool) {
        self.re.abs_diff_eq(&other.re, epsilon)
            && self.im.abs_diff_eq(&other.im, epsilon)
    }
}

/// An ordered wrapper compares as the value it wraps.
impl<T: AbsDiffEq> AbsDiffEq for OrderedFloat<T> {
    type Epsilon = T::Epsilon;

    open spec fn default_epsilon_spec() -> T::Epsilon {
        T::default_epsilon_spec()
    }

    open spec fn abs_diff_eq_spec(&self, other: &OrderedFloat<T>, epsilon: T::Epsilon) -> bool {
        self.0.abs_diff_eq_spec(&other.0, epsilon)
    }

    fn default_epsilon() -> (r: T::Epsilon) {
        T::default_epsilon()
    }

    fn abs_diff_eq(&self, other: &OrderedFloat<T>, epsilon: T::Epsilon) -> (r: bool) {
        self.0.abs_diff_eq(&other.0, epsilon)
    }
}

/// An ordered wrapper compares with a bare value as the value it wraps.
impl<T: AbsDiffEq> AbsDiffEq<T> for OrderedFloat<T> {
    type Epsilon = T::Epsilon;

    open spec fn default_epsilon_spec() -> T::Epsilon {
        T::default_epsilon_spec()
    }

    open spec fn abs_diff_eq_spec(&self, other: &T, epsilon: T::Epsilon) -> bool {
        self.0.abs_diff_eq_spec(other, epsilon)
    }

    fn default_epsilon() -> (r: T::Epsilon) {
        T::default_epsilon()
    }

    fn abs_diff_eq(&self, other: &T, epsilon: T::Epsilon) -> (r: bool) {
        self.0.abs_diff_eq(other, epsilon)
    }
}

} // verus!
