//! Equality by units in the last place: the number of representable values that
//! lie between two floating-point numbers of the same sign.
use vstd::prelude::*;

use num_complex::Complex;
use ordered_float::OrderedFloat;

use crate::abs_diff_eq::{int_distance, AbsDiffEq};

verus! {

/// Equality by both absolute difference and units in the last place (ULPs).
pub trait UlpsEq<Rhs: ?Sized = Self>: AbsDiffEq<Rhs> {
    /// The default number of ULPs of the type.
    spec fn default_max_ulps_spec() -> u32;

    /// When `self` and `other` are equal under the two tolerances.
    spec fn ulps_eq_spec(&self, other: &Rhs, epsilon: Self::Epsilon, max_ulps: u32) -> bool;

    /// The default number of ULPs to tolerate when testing values that are far apart.
    fn default_max_ulps() -> (r: u32)
        ensures
            r == Self::default_max_ulps_spec(),
    ;

    /// Tests for equality, by ULPs when the values are far apart.
    fn ulps_eq(&self, other: &Rhs, epsilon: Self::Epsilon, max_ulps: u32) -> (r: bool)
        ensures
            r == self.ulps_eq_spec(other, epsilon, max_ulps),
    ;

    /// The negation of [`UlpsEq::ulps_eq`].
    fn ulps_ne(&self, other: &Rhs, epsilon: Self::Epsilon, max_ulps: u32) -> (r: bool)
        ensures
            r == !self.ulps_eq_spec(other, epsilon, max_ulps),
    {
        !self.ulps_eq(other, epsilon, max_ulps)
    }
}

/// The larger of two counts.
pub open spec fn max_u32(a: u32, b: u32) -> u32 {
    if a >= b {
        a
    } else {
        b
    }
}

/// Computes the larger of two counts.
pub fn larger_u32(a: u32, b: u32) -> (r: u32)
    ensures
        r == max_u32(a, b),
{
    if a >= b {
        a
    } else {
        b
    }
}

/// Two optional values are equal when both are absent, or both are present and
/// equal; a present value never equals an absent one.
impl<T: UlpsEq> UlpsEq for Option<T> {
    open spec fn default_max_ulps_spec() -> u32 {
        T::default_max_ulps_spec()
    }

    open spec fn ulps_eq_spec(
        &self,
        other: &Option<T>,
        epsilon: T::Epsilon,
        max_ulps: u32,
    ) -> bool {
        match (*self, *other) {
            (Some(a), Some(b)) => a.ulps_eq_spec(&b, epsilon, max_ulps),
            (None, None) => true,
            _ => false,
        }
    }

    fn default_max_ulps() -> (r: u32) {
        T::default_max_ulps()
    }

    fn ulps_eq(&self, other: &Option<T>, epsilon: T::Epsilon, max_ulps: u32) -> (r: bool) {
        match (self, other) {
            (Some(a), Some(b)) => a.ulps_eq(b, epsilon, max_ulps),
            (None, None) => true,
            _ => false,
        }
    }
}

/// Two results are equal when they are the same variant with equal payloads; the
/// tolerance holds one slot for each variant.
impl<T: UlpsEq, E: UlpsEq> UlpsEq for Result<T, E> {
    open spec fn default_max_ulps_spec() -> u32 {
        max_u32(T::default_max_ulps_spec(), E::default_max_ulps_spec())
    }

    open spec fn ulps_eq_spec(
        &self,
        other: &Result<T, E>,
        epsilon: (T::Epsilon, E::Epsilon),
        max_ulps: u32,
    ) -> bool {
        match (*self, *other) {
            (Ok(a), Ok(b)) => a.ulps_eq_spec(&b, epsilon.0, max_ulps),
            (Err(a), Err(b)) => a.ulps_eq_spec(&b, epsilon.1, max_ulps),
            _ => false,
        }
    }

    fn default_max_ulps() -> (r: u32) {
        larger_u32(T::default_max_ulps(), E::default_max_ulps())
    }

    fn ulps_eq(
        &self,
        other: &Result<T, E>,
        epsilon: (T::Epsilon, E::Epsilon),
        max_ulps: u32,
    ) -> (r: bool) {
        match (self, other) {
            (Ok(a), Ok(b)) => a.ulps_eq(b, epsilon.0, max_ulps),
            (Err(a), Err(b)) => a.ulps_eq(b, epsilon.1, max_ulps),
            _ => false,
        }
    }
}

/// References compare as the values they point to.
impl<'a, T: UlpsEq + ?Sized> UlpsEq for &'a T {
    open spec fn default_max_ulps_spec() -> u32 {
        T::default_max_ulps_spec()
    }

    open spec fn ulps_eq_spec(&self, other: &&'a T, epsilon: T::Epsilon, max_ulps: u32) -> bool {
        (**self).ulps_eq_spec(*other, epsilon, max_ulps)
    }

    fn default_max_ulps() -> (r: u32) {
        T::default_max_ulps()
    }

    fn ulps_eq(&self, other: &&'a T, epsilon: T::Epsilon, max_ulps: u32) -> (r: bool) {
        T::ulps_eq(*self, *other, epsilon, max_ulps)
    }
}

/// Mutable references compare as the values they point to.
impl<'a, T: UlpsEq + ?Sized> UlpsEq for &'a mut T {
    open spec fn default_max_ulps_spec() -> u32 {
        T::default_max_ulps_spec()
    }

    open spec fn ulps_eq_spec(
        &self,
        other: &&'a mut T,
        epsilon: T::Epsilon,
        max_ulps: u32,
    ) -> bool {
        (**self).ulps_eq_spec(&**other, epsilon, max_ulps)
    }

    fn default_max_ulps() -> (r: u32) {
        T::default_max_ulps()
    }

    fn ulps_eq(&self, other: &&'a mut T, epsilon: T::Epsilon, max_ulps: u32) -> (r: bool) {
        T::ulps_eq(*self, *other, epsilon, max_ulps)
    }
}

/// Sequences are equal when they have the same length and are equal position by
/// position, with one tolerance shared by every position.
impl<A: UlpsEq<B>, B> UlpsEq<Vec<B>> for Vec<A>
where
    A::Epsilon: Copy,
{
    open spec fn default_max_ulps_spec() -> u32 {
        A::default_max_ulps_spec()
    }

    open spec fn ulps_eq_spec(&self, other: &Vec<B>, epsilon: A::Epsilon, max_ulps: u32) -> bool {
        &&& self@.len() == other@.len()
        &&& forall|i: int|
            #![trigger self@[i]]
            0 <= i < self@.len() ==> self@[i].ulps_eq_spec(&other@[i], epsilon, max_ulps)
    }

    fn default_max_ulps() -> (r: u32) {
        A::default_max_ulps()
    }

    fn ulps_eq(&self, other: &Vec<B>, epsilon: A::Epsilon, max_ulps: u32) -> (r: bool) {
        if self.len() != other.len() {
            return false;
        }
        let mut i: usize = 0;
        while i < self.len()
            invariant
                self@.len() == other@.len(),
                0 <= i <= self@.len(),
                forall|j: int|
                    #![trigger self@[j]]
                    0 <= j < i ==> self@[j].ulps_eq_spec(&other@[j], epsilon, max_ulps),
            decreases self@.len() - i,
        {
            if !self[i].ulps_eq(&other[i], epsilon, max_ulps) {
                return false;
            }
            i = i + 1;
        }
        true
    }
}

/// Sequences are equal when they have the same length and are equal position by
/// position, with one tolerance shared by every position.
impl<A: UlpsEq<B>, B> UlpsEq<[B]> for [A]
where
    A::Epsilon: Copy,
{
    open spec fn default_max_ulps_spec() -> u32 {
        A::default_max_ulps_spec()
    }

    open spec fn ulps_eq_spec(&self, other: &[B], epsilon: A::Epsilon, max_ulps: u32) -> bool {
        &&& self@.len() == other@.len()
        &&& forall|i: int|
            #![trigger self@[i]]
            0 <= i < self@.len() ==> self@[i].ulps_eq_spec(&other@[i], epsilon, max_ulps)
    }

    fn default_max_ulps() -> (r: u32) {
        A::default_max_ulps()
    }

    fn ulps_eq(&self, other: &[B], epsilon: A::Epsilon, max_ulps: u32) -> (r: bool) {
        if self.len() != other.len() {
            return false;
        }
        let mut i: usize = 0;
        while i < self.len()
            invariant
                self@.len() == other@.len(),
                0 <= i <= self@.len(),
                forall|j: int|
                    #![trigger self@[j]]
                    0 <= j < i ==> self@[j].ulps_eq_spec(&other@[j], epsilon, max_ulps),
            decreases self@.len() - i,
        {
            if !self[i].ulps_eq(&other[i], epsilon, max_ulps) {
                return false;
            }
            i = i + 1;
        }
        true
    }
}

/// Arrays are equal when they are equal position by position, with one tolerance
/// shared by every position.
impl<A: UlpsEq<B>, B, const N: usize> UlpsEq<[B; N]> for [A; N]
where
    A::Epsilon: Copy,
{
    open spec fn default_max_ulps_spec() -> u32 {
        A::default_max_ulps_spec()
    }

    open spec fn ulps_eq_spec(&self, other: &[B; N], epsilon: A::Epsilon, max_ulps: u32) -> bool {
        forall|i: int|
            #![trigger self@[i]]
            0 <= i < N ==> self@[i].ulps_eq_spec(&other@[i], epsilon, max_ulps)
    }

    fn default_max_ulps() -> (r: u32) {
        A::default_max_ulps()
    }

    fn ulps_eq(&self, other: &[B; N], epsilon: A::Epsilon, max_ulps: u32) -> (r: bool) {
        let mut i: usize = 0;
        while i < N
            invariant
                0 <= i <= N,
                self@.len() == N,
                other@.len() == N,
                forall|j: int|
                    #![trigger self@[j]]
                    0 <= j < i ==> self@[j].ulps_eq_spec(&other@[j], epsilon, max_ulps),
            decreases N - i,
        {
            if !self[i].ulps_eq(&other[i], epsilon, max_ulps) {
                return false;
            }
            i = i + 1;
        }
        true
    }
}

/// Complex numbers are equal when their real parts and their imaginary parts are,
/// under one shared tolerance.
impl<T: UlpsEq> UlpsEq for Complex<T>
where
    T::Epsilon: Copy,
{
    open spec fn default_max_ulps_spec() -> u32 {
        T::default_max_ulps_spec()
    }

    open spec fn ulps_eq_spec(
        &self,
        other: &Complex<T>,
        epsilon: T::Epsilon,
        max_ulps: u32,
    ) -> bool {
        &&& self.re.ulps_eq_spec(&other.re, epsilon, max_ulps)
        &&& self.im.ulps_eq_spec(&other.im, epsilon, max_ulps)
    }

    fn default_max_ulps() -> (r: u32) {
        T::default_max_ulps()
    }

    fn ulps_eq(&self, other: &Complex<T>, epsilon: T::Epsilon, max_ulps: u32) -> (r: bool) {
        self.re.ulps_eq(&other.re, epsilon, max_ulps)
            && self.im.ulps_eq(&other.im, epsilon, max_ulps)
    }
}

/// An ordered wrapper compares as the value it wraps.
impl<T: UlpsEq> UlpsEq for OrderedFloat<T> {
    open spec fn default_max_ulps_spec() -> u32 {
        T::default_max_ulps_spec()
    }

    open spec fn ulps_eq_spec(
        &self,
        other: &OrderedFloat<T>,
        epsilon: T::Epsilon,
        max_ulps: u32,
    ) -> bool {
        self.0.ulps_eq_spec(&other.0, epsilon, max_ulps)
    }

    fn default_max_ulps() -> (r: u32) {
        T::default_max_ulps()
    }

    fn ulps_eq(&self, other: &OrderedFloat<T>, epsilon: T::Epsilon, max_ulps: u32) -> (r: bool) {
        self.0.ulps_eq(&other.0, epsilon, max_ulps)
    }
}

/// An ordered wrapper compares with a bare value as the value it wraps.
impl<T: UlpsEq> UlpsEq<T> for OrderedFloat<T> {
    open spec fn default_max_ulps_spec() -> u32 {
        T::default_max_ulps_spec()
    }

    open spec fn ulps_eq_spec(&self, other: &T, epsilon: T::Epsilon, max_ulps: u32) -> bool {
        self.0.ulps_eq_spec(other, epsilon, max_ulps)
    }

    fn default_max_ulps() -> (r: u32) {
        T::default_max_ulps()
    }

    fn ulps_eq(&self, other: &T, epsilon: T::Epsilon, max_ulps: u32) -> (r: bool) {
        self.0.ulps_eq(other, epsilon, max_ulps)
    }
}

} // verus!
