//! Parameter objects: a tolerance (and, for the relative and ULPs strategies, a
//! second threshold) bound to a comparison, with defaults taken from the operand
//! type. Each setter returns a new value rather than changing the old one.
use vstd::prelude::*;

use crate::abs_diff_eq::AbsDiffEq;
use crate::relative_eq::RelativeEq;
use crate::ulps_eq::UlpsEq;

verus! {

/// The parameters of a comparison by absolute difference.
pub struct AbsDiff<A, B = A> where A: AbsDiffEq<B> + ?Sized, B: ?Sized {
    /// The tolerance to use when testing values that are close together.
    pub epsilon: A::Epsilon,
}

impl<A, B> Default for AbsDiff<A, B> where A: AbsDiffEq<B> + ?Sized, B: ?Sized {
    fn default() -> (r: AbsDiff<A, B>)
        ensures
            r.epsilon == A::default_epsilon_spec(),
    {
        AbsDiff { epsilon: A::default_epsilon() }
    }
}

impl<A, B> AbsDiff<A, B> where A: AbsDiffEq<B> + ?Sized, B: ?Sized {
    /// Replaces the tolerance.
    pub fn epsilon(self, epsilon: A::Epsilon) -> (r: AbsDiff<A, B>)
        ensures
            r.epsilon == epsilon,
    {
        AbsDiff { epsilon }
    }

    /// Performs the equality comparison.
    pub fn eq(self, lhs: &A, rhs: &B) -> (r: bool)
        ensures
            r == lhs.abs_diff_eq_spec(rhs, self.epsilon),
    {
        A::abs_diff_eq(lhs, rhs, self.epsilon)
    }

    /// Performs the inequality comparison.
    pub fn ne(self, lhs: &A, rhs: &B) -> (r: bool)
        ensures
            r == !lhs.abs_diff_eq_spec(rhs, self.epsilon),
    {
        A::abs_diff_ne(lhs, rhs, self.epsilon)
    }
}

/// The parameters of a comparison by relative difference.
pub struct Relative<A, B = A> where A: RelativeEq<B> + ?Sized, B: ?Sized {
    /// The tolerance to use when testing values that are close together.
    pub epsilon: A::Epsilon,
    /// The relative tolerance for testing values that are far apart.
    pub max_relative: A::Epsilon,
}

impl<A, B> Default for Relative<A, B> where A: RelativeEq<B> + ?Sized, B: ?Sized {
    fn default() -> (r: Relative<A, B>)
        ensures
            r.epsilon == A::default_epsilon_spec(),
            r.max_relative == A::default_max_relative_spec(),
    {
        Relative { epsilon: A::default_epsilon(), max_relative: A::default_max_relative() }
    }
}

impl<A, B> Relative<A, B> where A: RelativeEq<B> + ?Sized, B: ?Sized {
    /// Replaces the tolerance and keeps the relative tolerance.
    pub fn epsilon(self, epsilon: A::Epsilon) -> (r: Relative<A, B>)
        ensures
            r.epsilon == epsilon,
            r.max_relative == self.max_relative,
    {
        Relative { epsilon, max_relative: self.max_relative }
    }

    /// Replaces the relative tolerance and keeps the tolerance.
    pub fn max_relative(self, max_relative: A::Epsilon) -> (r: Relative<A, B>)
        ensures
            r.epsilon == self.epsilon,
            r.max_relative == max_relative,
    {
        Relative { epsilon: self.epsilon, max_relative }
    }

    /// Performs the equality comparison.
    pub fn eq(self, lhs: &A, rhs: &B) -> (r: bool)
        ensures
            r == lhs.relative_eq_spec(rhs, self.epsilon, self.max_relative),
    {
        A::relative_eq(lhs, rhs, self.epsilon, self.max_relative)
    }

    /// Performs the inequality comparison.
    pub fn ne(self, lhs: &A, rhs: &B) -> (r: bool)
        ensures
            r == !lhs.relative_eq_spec(rhs, self.epsilon, self.max_relative),
    {
        A::relative_ne(lhs, rhs, self.epsilon, self.max_relative)
    }
}

/// The parameters of a comparison by units in the last place.
pub struct Ulps<A, B = A> where A: UlpsEq<B> + ?Sized, B: ?Sized {
    /// The tolerance to use when testing values that are close together.
    pub epsilon: A::Epsilon,
    /// The number of ULPs to tolerate when testing values that are far apart.
    pub max_ulps: u32,
}

impl<A, B> Default for Ulps<A, B> where A: UlpsEq<B> + ?Sized, B: ?Sized {
    fn default() -> (r: Ulps<A, B>)
        ensures
            r.epsilon == A::default_epsilon_spec(),
            r.max_ulps == A::default_max_ulps_spec(),
    {
        Ulps { epsilon: A::default_epsilon(), max_ulps: A::default_max_ulps() }
    }
}

impl<A, B> Ulps<A, B> where A: UlpsEq<B> + ?Sized, B: ?Sized {
    /// Replaces the tolerance and keeps the number of ULPs.
    pub fn epsilon(self, epsilon: A::Epsilon) -> (r: Ulps<A, B>)
        ensures
            r.epsilon == epsilon,
            r.max_ulps == self.max_ulps,
    {
        Ulps { epsilon, max_ulps: self.max_ulps }
    }

    /// Replaces the number of ULPs and keeps the tolerance.
    pub fn max_ulps(self, max_ulps: u32) -> (r: Ulps<A, B>)
        ensures
            r.epsilon == self.epsilon,
            r.max_ulps == max_ulps,
    {
        Ulps { epsilon: self.epsilon, max_ulps }
    }

    /// Performs the equality comparison.
    pub fn eq(self, lhs: &A, rhs: &B) -> (r: bool)
        ensures
            r == lhs.ulps_eq_spec(rhs, self.epsilon, self.max_ulps),
    {
        A::ulps_eq(lhs, rhs, self.epsilon, self.max_ulps)
    }

    /// Performs the inequality comparison.
    pub fn ne(self, lhs: &A, rhs: &B) -> (r: bool)
        ensures
            r == !lhs.ulps_eq_spec(rhs, self.epsilon, self.max_ulps),
    {
        A::ulps_ne(lhs, rhs, self.epsilon, self.max_ulps)
    }
}

} // verus!
