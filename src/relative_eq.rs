//! Equality by relative difference, with an absolute-difference short cut for
//! values close to zero.
use vstd::prelude::*;

use num_complex::Complex;
use ordered_float::OrderedFloat;

use crate::abs_diff_eq::AbsDiffEq;

verus! {

/// Equality by both absolute and relative difference: `a` and `b` are equal when
/// they are equal within `epsilon`, or when `|a - b| <= max(|a|, |b|) * max_relative`.
pub trait RelativeEq<Rhs: ?Sized = Self>: AbsDiffEq<Rhs> {
    /// The default relative tolerance of the type.
    spec fn default_max_relative_spec() -> Self::Epsilon;

    /// When `self` and `other` are equal under the two tolerances.
    spec fn relative_eq_spec(
        &self,
        other: &Rhs,
        epsilon: Self::Epsilon,
        max_relative: Self::Epsilon,
    ) -> bool;

    /// The default relative tolerance for testing values that are far apart.
    fn default_max_relative() -> (r: Self::Epsilon)
        ensures
            r == Self::default_max_relative_spec(),
    ;

    /// Tests for equality, by relative difference when the values are far apart.
    fn relative_eq(
        &self,
        other: &Rhs,
        epsilon: Self::Epsilon,
        max_relative: Self::Epsilon,
    ) -> (r: bool)
        ensures
            r == self.relative_eq_spec(other, epsilon, max_relative),
    ;

    /// The negation of [`RelativeEq::relative_eq`].
    fn relative_ne(
        &self,
        other: &Rhs,
        epsilon: Self::Epsilon,
        max_relative: Self::Epsilon,
    ) -> (r: bool)
        ensures
            r == !self.relative_eq_spec(other, epsilon, max_relative),
    {
        !self.relative_eq(other, epsilon, max_relative)
    }
}

/// Two optional values are equal when both are absent, or both are present and
/// equal; a present value never equals an absent one.
impl<T: RelativeEq> RelativeEq for Option<T> {
    open spec fn default_max_relative_spec() -> T::Epsilon {
        T::default_max_relative_spec()
    }

    open spec fn relative_eq_spec(
        &self,
        other: &Option<T>,
        epsilon: T::Epsilon,
        max_relative: T::Epsilon,
    ) -> bool {
        match (*self, *other) {
            (Some(a), Some(b)) => a.relative_eq_spec(&b, epsilon, max_relative),
            (None, None) => true,
            _ => false,
        }
    }

    fn default_max_relative() -> (r: T::Epsilon) {
        T::default_max_relative()
    }

    fn relative_eq(
        &self,
        other: &Option<T>,
        epsilon: T::Epsilon,
        max_relative: T::Epsilon,
    ) -> (r: bool) {
        match (self, other) {
            (Some(a), Some(b)) => a.relative_eq(b, epsilon, max_relative),
            (None, None) => true,
            _ => false,
        }
    }
}

/// Two results are equal when they are the same variant with equal payloads; the
/// tolerance holds one slot for each variant.
impl<T: RelativeEq, E: RelativeEq> RelativeEq for Result<T, E> {
    open spec fn default_max_relative_spec() -> (T::Epsilon, E::Epsilon) {
        (T::default_max_relative_spec(), E::default_max_relative_spec())
    }

    open spec fn relative_eq_spec(
        &self,
        other: &Result<T, E>,
        epsilon: (T::Epsilon, E::Epsilon),
        max_relative: (T::Epsilon, E::Epsilon),
    ) -> bool {
        match (*self, *other) {
            (Ok(a), Ok(b)) => a.relative_eq_spec(&b, epsilon.0, max_relative.0),
            (Err(a), Err(b)) => a.relative_eq_spec(&b, epsilon.1, max_relative.1),
            _ => false,
        }
    }

    fn default_max_relative() -> (r: (T::Epsilon, E::Epsilon)) {
        (T::default_max_relative(), E::default_max_relative())
    }

    fn relative_eq(
        &self,
        other: &Result<T, E>,
        epsilon: (T::Epsilon, E::Epsilon),
        max_relative: (T::Epsilon, E::Epsilon),
    ) -> (r: bool) {
        match (self, other) {
            (Ok(a), Ok(b)) => a.relative_eq(b, epsilon.0, max_relative.0),
            (Err(a), Err(b)) => a.relative_eq(b, epsilon.1, max_relative.1),
            _ => false,
        }
    }
}

/// References compare as the values they point to.
impl<'a, T: RelativeEq + ?Sized> RelativeEq for &'a T {
    open spec fn default_max_relative_spec() -> T::Epsilon {
        T::default_max_relative_spec()
    }

    open spec fn relative_eq_spec(
        &self,
        other: &&'a T,
        epsilon: T::Epsilon,
        max_relative: T::Epsilon,
    ) -> bool {
        (**self).relative_eq_spec(*other, epsilon, max_relative)
    }

    fn default_max_relative() -> (r: T::Epsilon) {
        T::default_max_relative()
    }

    fn relative_eq(
        &self,
        other: &&'a T,
        epsilon: T::Epsilon,
        max_relative: T::Epsilon,
    ) -> (r: bool) {
        T::relative_eq(*self, *other, epsilon, max_relative)
    }
}

/// Mutable references compare as the values they point to.
impl<'a, T: RelativeEq + ?Sized> RelativeEq for &'a mut T {
    open spec fn default_max_relative_spec() -> T::Epsilon {
        T::default_max_relative_spec()
    }

    open spec fn relative_eq_spec(
        &self,
        other: &&'a mut T,
        epsilon: T::Epsilon,
        max_relative: T::Epsilon,
    ) -> bool {
        (**self).relative_eq_spec(&**other, epsilon, max_relative)
    }

    fn default_max_relative() -> (r: T::Epsilon) {
        T::default_max_relative()
    }

    fn relative_eq(
        &self,
        other: &&'a mut T,
        epsilon: T::Epsilon,
        max_relative: T::Epsilon,
    ) -> (r: bool) {
        T::relative_eq(*self, *other, epsilon, max_relative)
    }
}

/// Sequences are equal when they have the same length and are equal position by
/// position, with one tolerance shared by every position.
impl<A: RelativeEq<B>, B> RelativeEq<Vec<B>> for Vec<A>
where
    A::Epsilon: Copy,
{
    open spec fn default_max_relative_spec() -> A::Epsilon {
        A::default_max_relative_spec()
    }

    open spec fn relative_eq_spec(
        &self,
        other: &Vec<B>,
        epsilon: A::Epsilon,
        max_relative: A::Epsilon,
    ) -> bool {
        &&& self@.len() == other@.len()
        &&& forall|i: int|
            #![trigger self@[i]]
            0 <= i < self@.len() ==> self@[i].relative_eq_spec(&other@[i], epsilon, max_relative)
    }

    fn default_max_relative() -> (r: A::Epsilon) {
        A::default_max_relative()
    }

    fn relative_eq(
        &self,
        other: &Vec<B>,
        epsilon: A::Epsilon,
        max_relative: A::Epsilon,
    ) -> (r: bool) {
        if self.len() != other.len() {
            return false;
        }
        let mut i: usize = 0;
        while i < self.len()
            invariant
                self@.len() == other@.len(),
                0 <= i <= self@.len(),
                forall|j: int|
                    #![trigger self@[j]]
                    0 <= j < i ==> self@[j].relative_eq_spec(&other@[j], epsilon, max_relative),
            decreases self@.len() - i,
        {
            if !self[i].relative_eq(&other[i], epsilon, max_relative) {
                return false;
            }
            i = i + 1;
        }
        true
    }
}

/// Sequences are equal when they have the same length and are equal position by
/// position, with one tolerance shared by every position.
impl<A: RelativeEq<B>, B> RelativeEq<[B]> for [A]
where
    A::Epsilon: Copy,
{
    open spec fn default_max_relative_spec() -> A::Epsilon {
        A::default_max_relative_spec()
    }

    open spec fn relative_eq_spec(
        &self,
        other: &[B],
        epsilon: A::Epsilon,
        max_relative: A::Epsilon,
    ) -> bool {
        &&& self@.len() == other@.len()
        &&& forall|i: int|
            #![trigger self@[i]]
            0 <= i < self@.len() ==> self@[i].relative_eq_spec(&other@[i], epsilon, max_relative)
    }

    fn default_max_relative() -> (r: A::Epsilon) {
        A::default_max_relative()
    }

    fn relative_eq(&self, other: &[B], epsilon: A::Epsilon, max_relative: A::Epsilon) -> (r: bool) {
        if self.len() != other.len() {
            return false;
        }
        let mut i: usize = 0;
        while i < self.len()
            invariant
                self@.len() == other@.len(),
                0 <= i <= self@.len(),
                forall|j: int|
                    #![trigger self@[j]]
                    0 <= j < i ==> self@[j].relative_eq_spec(&other@[j], epsilon, max_relative),
            decreases self@.len() - i,
        {
            if !self[i].relative_eq(&other[i], epsilon, max_relative) {
                return false;
            }
            i = i + 1;
        }
        true
    }
}

/// Arrays are equal when they are equal position by position, with one tolerance
/// shared by every position.
impl<A: RelativeEq<B>, B, const N: usize> RelativeEq<[B; N]> for [A; N]
where
    A::Epsilon: Copy,
{
    open spec fn default_max_relative_spec() -> A::Epsilon {
        A::default_max_relative_spec()
    }

    open spec fn relative_eq_spec(
        &self,
        other: &[B; N],
        epsilon: A::Epsilon,
        max_relative: A::Epsilon,
    ) -> bool {
        forall|i: int|
            #![trigger self@[i]]
            0 <= i < N ==> self@[i].relative_eq_spec(&other@[i], epsilon, max_relative)
    }

    fn default_max_relative() -> (r: A::Epsilon) {
        A::default_max_relative()
    }

    fn relative_eq(
        &self,
        other: &[B; N],
        epsilon: A::Epsilon,
        max_relative: A::Epsilon,
    ) -> (r: bool) {
        let mut i: usize = 0;
        while i < N
            invariant
                0 <= i <= N,
                self@.len() == N,
                other@.len() == N,
                forall|j: int|
                    #![trigger self@[j]]
                    0 <= j < i ==> self@[j].relative_eq_spec(&other@[j], epsilon, max_relative),
            decreases N - i,
        {
            if !self[i].relative_eq(&other[i], epsilon, max_relative) {
                return false;
            }
            i = i + 1;
        }
        true
    }
}

/// Complex numbers are equal when their real parts and their imaginary parts are,
/// under one shared tolerance.
impl<T: RelativeEq> RelativeEq for Complex<T>
where
    T::Epsilon: Copy,
{
    open spec fn default_max_relative_spec() -> T::Epsilon {
        T::default_max_relative_spec()
    }

    open spec fn relative_eq_spec(
        &self,
        other: &Complex<T>,
        epsilon: T::Epsilon,
        max_relative: T::Epsilon,
    ) -> bool {
        &&& self.re.relative_eq_spec(&other.re, epsilon, max_relative)
        &&& self.im.relative_eq_spec(&other.im, epsilon, max_relative)
    }

    fn default_max_relative() -> (r: T::Epsilon) {
        T::default_max_relative()
    }

    fn relative_eq(
        &self,
        other: &Complex<T>,
        epsilon: T::Epsilon,
        max_relative: T::Epsilon,
    ) -> (r: bool) {
        self.re.relative_eq(&other.re, epsilon, max_relative)
            && self.im.relative_eq(&other.im, epsilon, max_relative)
    }
}

/// An ordered wrapper compares as the value it wraps.
impl<T: RelativeEq> RelativeEq for OrderedFloat<T> {
    open spec fn default_max_relative_spec() -> T::Epsilon {
        T::default_max_relative_spec()
    }

    open spec fn relative_eq_spec(
        &self,
        other: &OrderedFloat<T>,
        epsilon: T::Epsilon,
        max_relative: T::Epsilon,
    ) -> bool {
        self.0.relative_eq_spec(&other.0, epsilon, max_relative)
    }

    fn default_max_relative() -> (r: T::Epsilon) {
        T::default_max_relative()
    }

    fn relative_eq(
        &self,
        other: &OrderedFloat<T>,
        epsilon: T::Epsilon,
        max_relative: T::Epsilon,
    ) -> (r: bool) {
        self.0.relative_eq(&other.0, epsilon, max_relative)
    }
}

/// An ordered wrapper compares with a bare value as the value it wraps.
impl<T: RelativeEq> RelativeEq<T> for OrderedFloat<T> {
    open spec fn default_max_relative_spec() -> T::Epsilon {
        T::default_max_relative_spec()
    }

    open spec fn relative_eq_spec(
        &self,
        other: &T,
        epsilon: T::Epsilon,
        max_relative: T::Epsilon,
    ) -> bool {
        self.0.relative_eq_spec(other, epsilon, max_relative)
    }

    fn default_max_relative() -> (r: T::Epsilon) {
        T::default_max_relative()
    }

    fn relative_eq(&self, other: &T, epsilon: T::Epsilon, max_relative: T::Epsilon) -> (r: bool) {
        self.0.relative_eq(other, epsilon, max_relative)
    }
}

} // verus!
