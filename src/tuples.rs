//! The three capabilities on tuples of up to twelve elements: the tolerance of a
//! tuple is the tuple of its elements' tolerances, and two tuples are equal when
//! every position is.
use vstd::prelude::*;

use crate::abs_diff_eq::AbsDiffEq;
use crate::relative_eq::RelativeEq;
use crate::ulps_eq::{larger_u32, max_u32, UlpsEq};

verus! {

impl AbsDiffEq for () {
    type Epsilon = ();

    open spec fn default_epsilon_spec() -> Self::Epsilon {
        ()
    }

    open spec fn abs_diff_eq_spec(&self, other: &Self, epsilon: Self::Epsilon) -> bool {
        true
    }

    fn default_epsilon() -> (r: Self::Epsilon) {
        ()
    }

    fn abs_diff_eq(&self, other: &Self, epsilon: Self::Epsilon) -> (r: bool) {
        true
    }
}

impl<T0> AbsDiffEq for (T0,)
where
    T0: AbsDiffEq,
{
    type Epsilon = (T0::Epsilon,);

    open spec fn default_epsilon_spec() -> Self::Epsilon {
        (T0::default_epsilon_spec(),)
    }

    open spec fn abs_diff_eq_spec(&self, other: &Self, epsilon: Self::Epsilon) -> bool {
        self.0.abs_diff_eq_spec(&other.0, epsilon.0)
    }

    fn default_epsilon() -> (r: Self::Epsilon) {
        (T0::default_epsilon(),)
    }

    fn abs_diff_eq(&self, other: &Self, epsilon: Self::Epsilon) -> (r: bool) {
        self.0.abs_diff_eq(&other.0, epsilon.0)
    }
}

impl<T0, T1> AbsDiffEq for (T0, T1)
where
    T0: AbsDiffEq,
    T1: AbsDiffEq,
{
    type Epsilon = (T0::Epsilon, T1::Epsilon);

    open spec fn default_epsilon_spec() -> Self::Epsilon {
        (T0::default_epsilon_spec(), T1::default_epsilon_spec())
    }

    open spec fn abs_diff_eq_spec(&self, other: &Self, epsilon: Self::Epsilon) -> bool {
        &&& self.0.abs_diff_eq_spec(&other.0, epsilon.0)
        &&& self.1.abs_diff_eq_spec(&other.1, epsilon.1)
    }

    fn default_epsilon() -> (r: Self::Epsilon) {
        (T0::default_epsilon(), T1::default_epsilon())
    }

    fn abs_diff_eq(&self, other: &Self, epsilon: Self::Epsilon) -> (r: bool) {
        self.0.abs_diff_eq(&other.0, epsilon.0)
            && self.1.abs_diff_eq(&other.1, epsilon.1)
    }
}

impl<T0, T1, T2> AbsDiffEq for (T0, T1, T2)
where
    T0: AbsDiffEq,
    T1: AbsDiffEq,
    T2: AbsDiffEq,
{
    type Epsilon = (T0::Epsilon, T1::Epsilon, T2::Epsilon);

    open spec fn default_epsilon_spec() -> Self::Epsilon {
        (T0::default_epsilon_spec(), T1::default_epsilon_spec(), T2::default_epsilon_spec())
    }

    open spec fn abs_diff_eq_spec(&self, other: &Self, epsilon: Self::Epsilon) -> bool {
        &&& self.0.abs_diff_eq_spec(&other.0, epsilon.0)
        &&& self.1.abs_diff_eq_spec(&other.1, epsilon.1)
        &&& self.2.abs_diff_eq_spec(&other.2, epsilon.2)
    }

    fn default_epsilon() -> (r: Self::Epsilon) {
        (T0::default_epsilon(), T1::default_epsilon(), T2::default_epsilon())
    }

    fn abs_diff_eq(&self, other: &Self, epsilon: Self::Epsilon) -> (r: bool) {
        self.0.abs_diff_eq(&other.0, epsilon.0)
            && self.1.abs_diff_eq(&other.1, epsilon.1)
            && self.2.abs_diff_eq(&other.2, epsilon.2)
    }
}

impl<T0, T1, T2, T3> AbsDiffEq for (T0, T1, T2, T3)
where
    T0: AbsDiffEq,
    T1: AbsDiffEq,
    T2: AbsDiffEq,
    T3: AbsDiffEq,
{
    type Epsilon = (T0::Epsilon, T1::Epsilon, T2::Epsilon, T3::Epsilon);

    open spec fn default_epsilon_spec() -> Self::Epsilon {
        (
            T0::default_epsilon_spec(),
            T1::default_epsilon_spec(),
            T2::default_epsilon_spec(),
            T3::default_epsilon_spec(),
        )
    }

    open spec fn abs_diff_eq_spec(&self, other: &Self, epsilon: Self::Epsilon) -> bool {
        &&& self.0.abs_diff_eq_spec(&other.0, epsilon.0)
        &&& self.1.abs_diff_eq_spec(&other.1, epsilon.1)
        &&& self.2.abs_diff_eq_spec(&other.2, epsilon.2)
        &&& self.3.abs_diff_eq_spec(&other.3, epsilon.3)
    }

    fn default_epsilon() -> (r: Self::Epsilon) {
        (
            T0::default_epsilon(),
            T1::default_epsilon(),
            T2::default_epsilon(),
            T3::default_epsilon(),
        )
    }

    fn abs_diff_eq(&self, other: &Self, epsilon: Self::Epsilon) -> (r: bool) {
        self.0.abs_diff_eq(&other.0, epsilon.0)
            && self.1.abs_diff_eq(&other.1, epsilon.1)
            && self.2.abs_diff_eq(&other.2, epsilon.2)
            && self.3.abs_diff_eq(&other.3, epsilon.3)
    }
}

impl<T0, T1, T2, T3, T4> AbsDiffEq for (T0, T1, T2, T3, T4)
where
    T0: AbsDiffEq,
    T1: AbsDiffEq,
    T2: AbsDiffEq,
    T3: AbsDiffEq,
    T4: AbsDiffEq,
{
    type Epsilon = (T0::Epsilon, T1::Epsilon, T2::Epsilon, T3::Epsilon, T4::Epsilon);

    open spec fn default_epsilon_spec() -> Self::Epsilon {
        (
            T0::default_epsilon_spec(),
            T1::default_epsilon_spec(),
            T2::default_epsilon_spec(),
            T3::default_epsilon_spec(),
            T4::default_epsilon_spec(),
        )
    }

    open spec fn abs_diff_eq_spec(&self, other: &Self, epsilon: Self::Epsilon) -> bool {
        &&& self.0.abs_diff_eq_spec(&other.0, epsilon.0)
        &&& self.1.abs_diff_eq_spec(&other.1, epsilon.1)
        &&& self.2.abs_diff_eq_spec(&other.2, epsilon.2)
        &&& self.3.abs_diff_eq_spec(&other.3, epsilon.3)
        &&& self.4.abs_diff_eq_spec(&other.4, epsilon.4)
    }

    fn default_epsilon() -> (r: Self::Epsilon) {
        (
            T0::default_epsilon(),
            T1::default_epsilon(),
            T2::default_epsilon(),
            T3::default_epsilon(),
            T4::default_epsilon(),
        )
    }

    fn abs_diff_eq(&self, other: &Self, epsilon: Self::Epsilon) -> (r: bool) {
        self.0.abs_diff_eq(&other.0, epsilon.0)
            && self.1.abs_diff_eq(&other.1, epsilon.1)
            && self.2.abs_diff_eq(&other.2, epsilon.2)
            && self.3.abs_diff_eq(&other.3, epsilon.3)
            && self.4.abs_diff_eq(&other.4, epsilon.4)
    }
}

impl<T0, T1, T2, T3, T4, T5> AbsDiffEq for (T0, T1, T2, T3, T4, T5)
where
    T0: AbsDiffEq,
    T1: AbsDiffEq,
    T2: AbsDiffEq,
    T3: AbsDiffEq,
    T4: AbsDiffEq,
    T5: AbsDiffEq,
{
    type Epsilon = (T0::Epsilon, T1::Epsilon, T2::Epsilon, T3::Epsilon, T4::Epsilon, T5::Epsilon);

    open spec fn default_epsilon_spec() -> Self::Epsilon {
        (
            T0::default_epsilon_spec(),
            T1::default_epsilon_spec(),
            T2::default_epsilon_spec(),
            T3::default_epsilon_spec(),
            T4::default_epsilon_spec(),
            T5::default_epsilon_spec(),
        )
    }

    open spec fn abs_diff_eq_spec(&self, other: &Self, epsilon: Self::Epsilon) -> bool {
        &&& self.0.abs_diff_eq_spec(&other.0, epsilon.0)
        &&& self.1.abs_diff_eq_spec(&other.1, epsilon.1)
        &&& self.2.abs_diff_eq_spec(&other.2, epsilon.2)
        &&& self.3.abs_diff_eq_spec(&other.3, epsilon.3)
        &&& self.4.abs_diff_eq_spec(&other.4, epsilon.4)
        &&& self.5.abs_diff_eq_spec(&other.5, epsilon.5)
    }

    fn default_epsilon() -> (r: Self::Epsilon) {
        (
            T0::default_epsilon(),
            T1::default_epsilon(),
            T2::default_epsilon(),
            T3::default_epsilon(),
            T4::default_epsilon(),
            T5::default_epsilon(),
        )
    }

    fn abs_diff_eq(&self, other: &Self, epsilon: Self::Epsilon) -> (r: bool) {
        self.0.abs_diff_eq(&other.0, epsilon.0)
            && self.1.abs_diff_eq(&other.1, epsilon.1)
            && self.2.abs_diff_eq(&other.2, epsilon.2)
            && self.3.abs_diff_eq(&other.3, epsilon.3)
            && self.4.abs_diff_eq(&other.4, epsilon.4)
            && self.5.abs_diff_eq(&other.5, epsilon.5)
    }
}

impl<T0, T1, T2, T3, T4, T5, T6> AbsDiffEq for (T0, T1, T2, T3, T4, T5, T6)
where
    T0: AbsDiffEq,
    T1: AbsDiffEq,
    T2: AbsDiffEq,
    T3: AbsDiffEq,
    T4: AbsDiffEq,
    T5: AbsDiffEq,
    T6: AbsDiffEq,
{
    type Epsilon = (T0::Epsilon, T1::Epsilon, T2::Epsilon, T3::Epsilon, T4::Epsilon, T5::Epsilon, T6::Epsilon);

    open spec fn default_epsilon_spec() -> Self::Epsilon {
        (
            T0::default_epsilon_spec(),
            T1::default_epsilon_spec(),
            T2::default_epsilon_spec(),
            T3::default_epsilon_spec(),
            T4::default_epsilon_spec(),
            T5::default_epsilon_spec(),
            T6::default_epsilon_spec(),
        )
    }

    open spec fn abs_diff_eq_spec(&self, other: &Self, epsilon: Self::Epsilon) -> bool {
        &&& self.0.abs_diff_eq_spec(&other.0, epsilon.0)
        &&& self.1.abs_diff_eq_spec(&other.1, epsilon.1)
        &&& self.2.abs_diff_eq_spec(&other.2, epsilon.2)
        &&& self.3.abs_diff_eq_spec(&other.3, epsilon.3)
        &&& self.4.abs_diff_eq_spec(&other.4, epsilon.4)
        &&& self.5.abs_diff_eq_spec(&other.5, epsilon.5)
        &&& self.6.abs_diff_eq_spec(&other.6, epsilon.6)
    }

    fn default_epsilon() -> (r: Self::Epsilon) {
        (
            T0::default_epsilon(),
            T1::default_epsilon(),
            T2::default_epsilon(),
            T3::default_epsilon(),
            T4::default_epsilon(),
            T5::default_epsilon(),
            T6::default_epsilon(),
        )
    }

    fn abs_diff_eq(&self, other: &Self, epsilon: Self::Epsilon) -> (r: bool) {
        self.0.abs_diff_eq(&other.0, epsilon.0)
            && self.1.abs_diff_eq(&other.1, epsilon.1)
            && self.2.abs_diff_eq(&other.2, epsilon.2)
            && self.3.abs_diff_eq(&other.3, epsilon.3)
            && self.4.abs_diff_eq(&other.4, epsilon.4)
            && self.5.abs_diff_eq(&other.5, epsilon.5)
            && self.6.abs_diff_eq(&other.6, epsilon.6)
    }
}

impl<T0, T1, T2, T3, T4, T5, T6, T7> AbsDiffEq for (T0, T1, T2, T3, T4, T5, T6, T7)
where
    T0: AbsDiffEq,
    T1: AbsDiffEq,
    T2: AbsDiffEq,
    T3: AbsDiffEq,
    T4: AbsDiffEq,
    T5: AbsDiffEq,
    T6: AbsDiffEq,
    T7: AbsDiffEq,
{
    type Epsilon = (
        T0::Epsilon,
        T1::Epsilon,
        T2::Epsilon,
        T3::Epsilon,
        T4::Epsilon,
        T5::Epsilon,
        T6::Epsilon,
        T7::Epsilon,
    );

    open spec fn default_epsilon_spec() -> Self::Epsilon {
        (
            T0::default_epsilon_spec(),
            T1::default_epsilon_spec(),
            T2::default_epsilon_spec(),
            T3::default_epsilon_spec(),
            T4::default_epsilon_spec(),
            T5::default_epsilon_spec(),
            T6::default_epsilon_spec(),
            T7::default_epsilon_spec(),
        )
    }

    open spec fn abs_diff_eq_spec(&self, other: &Self, epsilon: Self::Epsilon) -> bool {
        &&& self.0.abs_diff_eq_spec(&other.0, epsilon.0)
        &&& self.1.abs_diff_eq_spec(&other.1, epsilon.1)
        &&& self.2.abs_diff_eq_spec(&other.2, epsilon.2)
        &&& self.3.abs_diff_eq_spec(&other.3, epsilon.3)
        &&& self.4.abs_diff_eq_spec(&other.4, epsilon.4)
        &&& self.5.abs_diff_eq_spec(&other.5, epsilon.5)
        &&& self.6.abs_diff_eq_spec(&other.6, epsilon.6)
        &&& self.7.abs_diff_eq_spec(&other.7, epsilon.7)
    }

    fn default_epsilon() -> (r: Self::Epsilon) {
        (
            T0::default_epsilon(),
            T1::default_epsilon(),
            T2::default_epsilon(),
            T3::default_epsilon(),
            T4::default_epsilon(),
            T5::default_epsilon(),
            T6::default_epsilon(),
            T7::default_epsilon(),
        )
    }

    fn abs_diff_eq(&self, other: &Self, epsilon: Self::Epsilon) -> (r: bool) {
        self.0.abs_diff_eq(&other.0, epsilon.0)
            && self.1.abs_diff_eq(&other.1, epsilon.1)
            && self.2.abs_diff_eq(&other.2, epsilon.2)
            && self.3.abs_diff_eq(&other.3, epsilon.3)
            && self.4.abs_diff_eq(&other.4, epsilon.4)
            && self.5.abs_diff_eq(&other.5, epsilon.5)
            && self.6.abs_diff_eq(&other.6, epsilon.6)
            && self.7.abs_diff_eq(&other.7, epsilon.7)
    }
}

impl<T0, T1, T2, T3, T4, T5, T6, T7, T8> AbsDiffEq for (T0, T1, T2, T3, T4, T5, T6, T7, T8)
where
    T0: AbsDiffEq,
    T1: AbsDiffEq,
    T2: AbsDiffEq,
    T3: AbsDiffEq,
    T4: AbsDiffEq,
    T5: AbsDiffEq,
    T6: AbsDiffEq,
    T7: AbsDiffEq,
    T8: AbsDiffEq,
{
    type Epsilon = (
        T0::Epsilon,
        T1::Epsilon,
        T2::Epsilon,
        T3::Epsilon,
        T4::Epsilon,
        T5::Epsilon,
        T6::Epsilon,
        T7::Epsilon,
        T8::Epsilon,
    );

    open spec fn default_epsilon_spec() -> Self::Epsilon {
        (
            T0::default_epsilon_spec(),
            T1::default_epsilon_spec(),
            T2::default_epsilon_spec(),
            T3::default_epsilon_spec(),
            T4::default_epsilon_spec(),
            T5::default_epsilon_spec(),
            T6::default_epsilon_spec(),
            T7::default_epsilon_spec(),
            T8::default_epsilon_spec(),
        )
    }

    open spec fn abs_diff_eq_spec(&self, other: &Self, epsilon: Self::Epsilon) -> bool {
        &&& self.0.abs_diff_eq_spec(&other.0, epsilon.0)
        &&& self.1.abs_diff_eq_spec(&other.1, epsilon.1)
        &&& self.2.abs_diff_eq_spec(&other.2, epsilon.2)
        &&& self.3.abs_diff_eq_spec(&other.3, epsilon.3)
        &&& self.4.abs_diff_eq_spec(&other.4, epsilon.4)
        &&& self.5.abs_diff_eq_spec(&other.5, epsilon.5)
        &&& self.6.abs_diff_eq_spec(&other.6, epsilon.6)
        &&& self.7.abs_diff_eq_spec(&other.7, epsilon.7)
        &&& self.8.abs_diff_eq_spec(&other.8, epsilon.8)
    }

    fn default_epsilon() -> (r: Self::Epsilon) {
        (
            T0::default_epsilon(),
            T1::default_epsilon(),
            T2::default_epsilon(),
            T3::default_epsilon(),
            T4::default_epsilon(),
            T5::default_epsilon(),
            T6::default_epsilon(),
            T7::default_epsilon(),
            T8::default_epsilon(),
        )
    }

    fn abs_diff_eq(&self, other: &Self, epsilon: Self::Epsilon) -> (r: bool) {
        self.0.abs_diff_eq(&other.0, epsilon.0)
            && self.1.abs_diff_eq(&other.1, epsilon.1)
            && self.2.abs_diff_eq(&other.2, epsilon.2)
            && self.3.abs_diff_eq(&other.3, epsilon.3)
            && self.4.abs_diff_eq(&other.4, epsilon.4)
            && self.5.abs_diff_eq(&other.5, epsilon.5)
            && self.6.abs_diff_eq(&other.6, epsilon.6)
            && self.7.abs_diff_eq(&other.7, epsilon.7)
            && self.8.abs_diff_eq(&other.8, epsilon.8)
    }
}

impl<T0, T1, T2, T3, T4, T5, T6, T7, T8, T9> AbsDiffEq for (T0, T1, T2, T3, T4, T5, T6, T7, T8, T9)
where
    T0: AbsDiffEq,
    T1: AbsDiffEq,
    T2: AbsDiffEq,
    T3: AbsDiffEq,
    T4: AbsDiffEq,
    T5: AbsDiffEq,
    T6: AbsDiffEq,
    T7: AbsDiffEq,
    T8: AbsDiffEq,
    T9: AbsDiffEq,
{
    type Epsilon = (
        T0::Epsilon,
        T1::Epsilon,
        T2::Epsilon,
        T3::Epsilon,
        T4::Epsilon,
        T5::Epsilon,
        T6::Epsilon,
        T7::Epsilon,
        T8::Epsilon,
        T9::Epsilon,
    );

    open spec fn default_epsilon_spec() -> Self::Epsilon {
        (
            T0::default_epsilon_spec(),
            T1::default_epsilon_spec(),
            T2::default_epsilon_spec(),
            T3::default_epsilon_spec(),
            T4::default_epsilon_spec(),
            T5::default_epsilon_spec(),
            T6::default_epsilon_spec(),
            T7::default_epsilon_spec(),
            T8::default_epsilon_spec(),
            T9::default_epsilon_spec(),
        )
    }

    open spec fn abs_diff_eq_spec(&self, other: &Self, epsilon: Self::Epsilon) -> bool {
        &&& self.0.abs_diff_eq_spec(&other.0, epsilon.0)
        &&& self.1.abs_diff_eq_spec(&other.1, epsilon.1)
        &&& self.2.abs_diff_eq_spec(&other.2, epsilon.2)
        &&& self.3.abs_diff_eq_spec(&other.3, epsilon.3)
        &&& self.4.abs_diff_eq_spec(&other.4, epsilon.4)
        &&& self.5.abs_diff_eq_spec(&other.5, epsilon.5)
        &&& self.6.abs_diff_eq_spec(&other.6, epsilon.6)
        &&& self.7.abs_diff_eq_spec(&other.7, epsilon.7)
        &&& self.8.abs_diff_eq_spec(&other.8, epsilon.8)
        &&& self.9.abs_diff_eq_spec(&other.9, epsilon.9)
    }

    fn default_epsilon() -> (r: Self::Epsilon) {
        (
            T0::default_epsilon(),
            T1::default_epsilon(),
            T2::default_epsilon(),
            T3::default_epsilon(),
            T4::default_epsilon(),
            T5::default_epsilon(),
            T6::default_epsilon(),
            T7::default_epsilon(),
            T8::default_epsilon(),
            T9::default_epsilon(),
        )
    }

    fn abs_diff_eq(&self, other: &Self, epsilon: Self::Epsilon) -> (r: bool) {
        self.0.abs_diff_eq(&other.0, epsilon.0)
            && self.1.abs_diff_eq(&other.1, epsilon.1)
            && self.2.abs_diff_eq(&other.2, epsilon.2)
            && self.3.abs_diff_eq(&other.3, epsilon.3)
            && self.4.abs_diff_eq(&other.4, epsilon.4)
            && self.5.abs_diff_eq(&other.5, epsilon.5)
            && self.6.abs_diff_eq(&other.6, epsilon.6)
            && self.7.abs_diff_eq(&other.7, epsilon.7)
            && self.8.abs_diff_eq(&other.8, epsilon.8)
            && self.9.abs_diff_eq(&other.9, epsilon.9)
    }
}

impl<T0, T1, T2, T3, T4, T5, T6, T7, T8, T9, T10> AbsDiffEq for (T0, T1, T2, T3, T4, T5, T6, T7, T8, T9, T10)
where
    T0: AbsDiffEq,
    T1: AbsDiffEq,
    T2: AbsDiffEq,
    T3: AbsDiffEq,
    T4: AbsDiffEq,
    T5: AbsDiffEq,
    T6: AbsDiffEq,
    T7: AbsDiffEq,
    T8: AbsDiffEq,
    T9: AbsDiffEq,
    T10: AbsDiffEq,
{
    type Epsilon = (
        T0::Epsilon,
        T1::Epsilon,
        T2::Epsilon,
        T3::Epsilon,
        T4::Epsilon,
        T5::Epsilon,
        T6::Epsilon,
        T7::Epsilon,
        T8::Epsilon,
        T9::Epsilon,
        T10::Epsilon,
    );

    open spec fn default_epsilon_spec() -> Self::Epsilon {
        (
            T0::default_epsilon_spec(),
            T1::default_epsilon_spec(),
            T2::default_epsilon_spec(),
            T3::default_epsilon_spec(),
            T4::default_epsilon_spec(),
            T5::default_epsilon_spec(),
            T6::default_epsilon_spec(),
            T7::default_epsilon_spec(),
            T8::default_epsilon_spec(),
            T9::default_epsilon_spec(),
            T10::default_epsilon_spec(),
        )
    }

    open spec fn abs_diff_eq_spec(&self, other: &Self, epsilon: Self::Epsilon) -> bool {
        &&& self.0.abs_diff_eq_spec(&other.0, epsilon.0)
        &&& self.1.abs_diff_eq_spec(&other.1, epsilon.1)
        &&& self.2.abs_diff_eq_spec(&other.2, epsilon.2)
        &&& self.3.abs_diff_eq_spec(&other.3, epsilon.3)
        &&& self.4.abs_diff_eq_spec(&other.4, epsilon.4)
        &&& self.5.abs_diff_eq_spec(&other.5, epsilon.5)
        &&& self.6.abs_diff_eq_spec(&other.6, epsilon.6)
        &&& self.7.abs_diff_eq_spec(&other.7, epsilon.7)
        &&& self.8.abs_diff_eq_spec(&other.8, epsilon.8)
        &&& self.9.abs_diff_eq_spec(&other.9, epsilon.9)
        &&& self.10.abs_diff_eq_spec(&other.10, epsilon.10)
    }

    fn default_epsilon() -> (r: Self::Epsilon) {
        (
            T0::default_epsilon(),
            T1::default_epsilon(),
            T2::default_epsilon(),
            T3::default_epsilon(),
            T4::default_epsilon(),
            T5::default_epsilon(),
            T6::default_epsilon(),
            T7::default_epsilon(),
            T8::default_epsilon(),
            T9::default_epsilon(),
            T10::default_epsilon(),
        )
    }

    fn abs_diff_eq(&self, other: &Self, epsilon: Self::Epsilon) -> (r: bool) {
        self.0.abs_diff_eq(&other.0, epsilon.0)
            && self.1.abs_diff_eq(&other.1, epsilon.1)
            && self.2.abs_diff_eq(&other.2, epsilon.2)
            && self.3.abs_diff_eq(&other.3, epsilon.3)
            && self.4.abs_diff_eq(&other.4, epsilon.4)
            && self.5.abs_diff_eq(&other.5, epsilon.5)
            && self.6.abs_diff_eq(&other.6, epsilon.6)
            && self.7.abs_diff_eq(&other.7, epsilon.7)
            && self.8.abs_diff_eq(&other.8, epsilon.8)
            && self.9.abs_diff_eq(&other.9, epsilon.9)
            && self.10.abs_diff_eq(&other.10, epsilon.10)
    }
}

impl<T0, T1, T2, T3, T4, T5, T6, T7, T8, T9, T10, T11> AbsDiffEq for (T0, T1, T2, T3, T4, T5, T6, T7, T8, T9, T10, T11)
where
    T0: AbsDiffEq,
    T1: AbsDiffEq,
    T2: AbsDiffEq,
    T3: AbsDiffEq,
    T4: AbsDiffEq,
    T5: AbsDiffEq,
    T6: AbsDiffEq,
    T7: AbsDiffEq,
    T8: AbsDiffEq,
    T9: AbsDiffEq,
    T10: AbsDiffEq,
    T11: AbsDiffEq,
{
    type Epsilon = (
        T0::Epsilon,
        T1::Epsilon,
        T2::Epsilon,
        T3::Epsilon,
        T4::Epsilon,
        T5::Epsilon,
        T6::Epsilon,
        T7::Epsilon,
        T8::Epsilon,
        T9::Epsilon,
        T10::Epsilon,
        T11::Epsilon,
    );

    open spec fn default_epsilon_spec() -> Self::Epsilon {
        (
            T0::default_epsilon_spec(),
            T1::default_epsilon_spec(),
            T2::default_epsilon_spec(),
            T3::default_epsilon_spec(),
            T4::default_epsilon_spec(),
            T5::default_epsilon_spec(),
            T6::default_epsilon_spec(),
            T7::default_epsilon_spec(),
            T8::default_epsilon_spec(),
            T9::default_epsilon_spec(),
            T10::default_epsilon_spec(),
            T11::default_epsilon_spec(),
        )
    }

    open spec fn abs_diff_eq_spec(&self, other: &Self, epsilon: Self::Epsilon) -> bool {
        &&& self.0.abs_diff_eq_spec(&other.0, epsilon.0)
        &&& self.1.abs_diff_eq_spec(&other.1, epsilon.1)
        &&& self.2.abs_diff_eq_spec(&other.2, epsilon.2)
        &&& self.3.abs_diff_eq_spec(&other.3, epsilon.3)
        &&& self.4.abs_diff_eq_spec(&other.4, epsilon.4)
        &&& self.5.abs_diff_eq_spec(&other.5, epsilon.5)
        &&& self.6.abs_diff_eq_spec(&other.6, epsilon.6)
        &&& self.7.abs_diff_eq_spec(&other.7, epsilon.7)
        &&& self.8.abs_diff_eq_spec(&other.8, epsilon.8)
        &&& self.9.abs_diff_eq_spec(&other.9, epsilon.9)
        &&& self.10.abs_diff_eq_spec(&other.10, epsilon.10)
        &&& self.11.abs_diff_eq_spec(&other.11, epsilon.11)
    }

    fn default_epsilon() -> (r: Self::Epsilon) {
        (
            T0::default_epsilon(),
            T1::default_epsilon(),
            T2::default_epsilon(),
            T3::default_epsilon(),
            T4::default_epsilon(),
            T5::default_epsilon(),
            T6::default_epsilon(),
            T7::default_epsilon(),
            T8::default_epsilon(),
            T9::default_epsilon(),
            T10::default_epsilon(),
            T11::default_epsilon(),
        )
    }

    fn abs_diff_eq(&self, other: &Self, epsilon: Self::Epsilon) -> (r: bool) {
        self.0.abs_diff_eq(&other.0, epsilon.0)
            && self.1.abs_diff_eq(&other.1, epsilon.1)
            && self.2.abs_diff_eq(&other.2, epsilon.2)
            && self.3.abs_diff_eq(&other.3, epsilon.3)
            && self.4.abs_diff_eq(&other.4, epsilon.4)
            && self.5.abs_diff_eq(&other.5, epsilon.5)
            && self.6.abs_diff_eq(&other.6, epsilon.6)
            && self.7.abs_diff_eq(&other.7, epsilon.7)
            && self.8.abs_diff_eq(&other.8, epsilon.8)
            && self.9.abs_diff_eq(&other.9, epsilon.9)
            && self.10.abs_diff_eq(&other.10, epsilon.10)
            && self.11.abs_diff_eq(&other.11, epsilon.11)
    }
}

impl RelativeEq for () {
    open spec fn default_max_relative_spec() -> Self::Epsilon {
        ()
    }

    open spec fn relative_eq_spec(
        &self,
        other: &Self,
        epsilon: Self::Epsilon,
        max_relative: Self::Epsilon,
    ) -> bool {
        true
    }

    fn default_max_relative() -> (r: Self::Epsilon) {
        ()
    }

    fn relative_eq(
        &self,
        other: &Self,
        epsilon: Self::Epsilon,
        max_relative: Self::Epsilon,
    ) -> (r: bool) {
        true
    }
}

impl<T0> RelativeEq for (T0,)
where
    T0: RelativeEq,
{
    open spec fn default_max_relative_spec() -> Self::Epsilon {
        (T0::default_max_relative_spec(),)
    }

    open spec fn relative_eq_spec(
        &self,
        other: &Self,
        epsilon: Self::Epsilon,
        max_relative: Self::Epsilon,
    ) -> bool {
        self.0.relative_eq_spec(&other.0, epsilon.0, max_relative.0)
    }

    fn default_max_relative() -> (r: Self::Epsilon) {
        (T0::default_max_relative(),)
    }

    fn relative_eq(
        &self,
        other: &Self,
        epsilon: Self::Epsilon,
        max_relative: Self::Epsilon,
    ) -> (r: bool) {
        self.0.relative_eq(&other.0, epsilon.0, max_relative.0)
    }
}

impl<T0, T1> RelativeEq for (T0, T1)
where
    T0: RelativeEq,
    T1: RelativeEq,
{
    open spec fn default_max_relative_spec() -> Self::Epsilon {
        (T0::default_max_relative_spec(), T1::default_max_relative_spec())
    }

    open spec fn relative_eq_spec(
        &self,
        other: &Self,
        epsilon: Self::Epsilon,
        max_relative: Self::Epsilon,
    ) -> bool {
        &&& self.0.relative_eq_spec(&other.0, epsilon.0, max_relative.0)
        &&& self.1.relative_eq_spec(&other.1, epsilon.1, max_relative.1)
    }

    fn default_max_relative() -> (r: Self::Epsilon) {
        (T0::default_max_relative(), T1::default_max_relative())
    }

    fn relative_eq(
        &self,
        other: &Self,
        epsilon: Self::Epsilon,
        max_relative: Self::Epsilon,
    ) -> (r: bool) {
        self.0.relative_eq(&other.0, epsilon.0, max_relative.0)
            && self.1.relative_eq(&other.1, epsilon.1, max_relative.1)
    }
}

impl<T0, T1, T2> RelativeEq for (T0, T1, T2)
where
    T0: RelativeEq,
    T1: RelativeEq,
    T2: RelativeEq,
{
    open spec fn default_max_relative_spec() -> Self::Epsilon {
        (
            T0::default_max_relative_spec(),
            T1::default_max_relative_spec(),
            T2::default_max_relative_spec(),
        )
    }

    open spec fn relative_eq_spec(
        &self,
        other: &Self,
        epsilon: Self::Epsilon,
        max_relative: Self::Epsilon,
    ) -> bool {
        &&& self.0.relative_eq_spec(&other.0, epsilon.0, max_relative.0)
        &&& self.1.relative_eq_spec(&other.1, epsilon.1, max_relative.1)
        &&& self.2.relative_eq_spec(&other.2, epsilon.2, max_relative.2)
    }

    fn default_max_relative() -> (r: Self::Epsilon) {
        (T0::default_max_relative(), T1::default_max_relative(), T2::default_max_relative())
    }

    fn relative_eq(
        &self,
        other: &Self,
        epsilon: Self::Epsilon,
        max_relative: Self::Epsilon,
    ) -> (r: bool) {
        self.0.relative_eq(&other.0, epsilon.0, max_relative.0)
            && self.1.relative_eq(&other.1, epsilon.1, max_relative.1)
            && self.2.relative_eq(&other.2, epsilon.2, max_relative.2)
    }
}

impl<T0, T1, T2, T3> RelativeEq for (T0, T1, T2, T3)
where
    T0: RelativeEq,
    T1: RelativeEq,
    T2: RelativeEq,
    T3: RelativeEq,
{
    open spec fn default_max_relative_spec() -> Self::Epsilon {
        (
            T0::default_max_relative_spec(),
            T1::default_max_relative_spec(),
            T2::default_max_relative_spec(),
            T3::default_max_relative_spec(),
        )
    }

    open spec fn relative_eq_spec(
        &self,
        other: &Self,
        epsilon: Self::Epsilon,
        max_relative: Self::Epsilon,
    ) -> bool {
        &&& self.0.relative_eq_spec(&other.0, epsilon.0, max_relative.0)
        &&& self.1.relative_eq_spec(&other.1, epsilon.1, max_relative.1)
        &&& self.2.relative_eq_spec(&other.2, epsilon.2, max_relative.2)
        &&& self.3.relative_eq_spec(&other.3, epsilon.3, max_relative.3)
    }

    fn default_max_relative() -> (r: Self::Epsilon) {
        (
            T0::default_max_relative(),
            T1::default_max_relative(),
            T2::default_max_relative(),
            T3::default_max_relative(),
        )
    }

    fn relative_eq(
        &self,
        other: &Self,
        epsilon: Self::Epsilon,
        max_relative: Self::Epsilon,
    ) -> (r: bool) {
        self.0.relative_eq(&other.0, epsilon.0, max_relative.0)
            && self.1.relative_eq(&other.1, epsilon.1, max_relative.1)
            && self.2.relative_eq(&other.2, epsilon.2, max_relative.2)
            && self.3.relative_eq(&other.3, epsilon.3, max_relative.3)
    }
}

impl<T0, T1, T2, T3, T4> RelativeEq for (T0, T1, T2, T3, T4)
where
    T0: RelativeEq,
    T1: RelativeEq,
    T2: RelativeEq,
    T3: RelativeEq,
    T4: RelativeEq,
{
    open spec fn default_max_relative_spec() -> Self::Epsilon {
        (
            T0::default_max_relative_spec(),
            T1::default_max_relative_spec(),
            T2::default_max_relative_spec(),
            T3::default_max_relative_spec(),
            T4::default_max_relative_spec(),
        )
    }

    open spec fn relative_eq_spec(
        &self,
        other: &Self,
        epsilon: Self::Epsilon,
        max_relative: Self::Epsilon,
    ) -> bool {
        &&& self.0.relative_eq_spec(&other.0, epsilon.0, max_relative.0)
        &&& self.1.relative_eq_spec(&other.1, epsilon.1, max_relative.1)
        &&& self.2.relative_eq_spec(&other.2, epsilon.2, max_relative.2)
        &&& self.3.relative_eq_spec(&other.3, epsilon.3, max_relative.3)
        &&& self.4.relative_eq_spec(&other.4, epsilon.4, max_relative.4)
    }

    fn default_max_relative() -> (r: Self::Epsilon) {
        (
            T0::default_max_relative(),
            T1::default_max_relative(),
            T2::default_max_relative(),
            T3::default_max_relative(),
            T4::default_max_relative(),
        )
    }

    fn relative_eq(
        &self,
        other: &Self,
        epsilon: Self::Epsilon,
        max_relative: Self::Epsilon,
    ) -> (r: bool) {
        self.0.relative_eq(&other.0, epsilon.0, max_relative.0)
            && self.1.relative_eq(&other.1, epsilon.1, max_relative.1)
            && self.2.relative_eq(&other.2, epsilon.2, max_relative.2)
            && self.3.relative_eq(&other.3, epsilon.3, max_relative.3)
            && self.4.relative_eq(&other.4, epsilon.4, max_relative.4)
    }
}

impl<T0, T1, T2, T3, T4, T5> RelativeEq for (T0, T1, T2, T3, T4, T5)
where
    T0: RelativeEq,
    T1: RelativeEq,
    T2: RelativeEq,
    T3: RelativeEq,
    T4: RelativeEq,
    T5: RelativeEq,
{
    open spec fn default_max_relative_spec() -> Self::Epsilon {
        (
            T0::default_max_relative_spec(),
            T1::default_max_relative_spec(),
            T2::default_max_relative_spec(),
            T3::default_max_relative_spec(),
            T4::default_max_relative_spec(),
            T5::default_max_relative_spec(),
        )
    }

    open spec fn relative_eq_spec(
        &self,
        other: &Self,
        epsilon: Self::Epsilon,
        max_relative: Self::Epsilon,
    ) -> bool {
        &&& self.0.relative_eq_spec(&other.0, epsilon.0, max_relative.0)
        &&& self.1.relative_eq_spec(&other.1, epsilon.1, max_relative.1)
        &&& self.2.relative_eq_spec(&other.2, epsilon.2, max_relative.2)
        &&& self.3.relative_eq_spec(&other.3, epsilon.3, max_relative.3)
        &&& self.4.relative_eq_spec(&other.4, epsilon.4, max_relative.4)
        &&& self.5.relative_eq_spec(&other.5, epsilon.5, max_relative.5)
    }

    fn default_max_relative() -> (r: Self::Epsilon) {
        (
            T0::default_max_relative(),
            T1::default_max_relative(),
            T2::default_max_relative(),
            T3::default_max_relative(),
            T4::default_max_relative(),
            T5::default_max_relative(),
        )
    }

    fn relative_eq(
        &self,
        other: &Self,
        epsilon: Self::Epsilon,
        max_relative: Self::Epsilon,
    ) -> (r: bool) {
        self.0.relative_eq(&other.0, epsilon.0, max_relative.0)
            && self.1.relative_eq(&other.1, epsilon.1, max_relative.1)
            && self.2.relative_eq(&other.2, epsilon.2, max_relative.2)
            && self.3.relative_eq(&other.3, epsilon.3, max_relative.3)
            && self.4.relative_eq(&other.4, epsilon.4, max_relative.4)
            && self.5.relative_eq(&other.5, epsilon.5, max_relative.5)
    }
}

impl<T0, T1, T2, T3, T4, T5, T6> RelativeEq for (T0, T1, T2, T3, T4, T5, T6)
where
    T0: RelativeEq,
    T1: RelativeEq,
    T2: RelativeEq,
    T3: RelativeEq,
    T4: RelativeEq,
    T5: RelativeEq,
    T6: RelativeEq,
{
    open spec fn default_max_relative_spec() -> Self::Epsilon {
        (
            T0::default_max_relative_spec(),
            T1::default_max_relative_spec(),
            T2::default_max_relative_spec(),
            T3::default_max_relative_spec(),
            T4::default_max_relative_spec(),
            T5::default_max_relative_spec(),
            T6::default_max_relative_spec(),
        )
    }

    open spec fn relative_eq_spec(
        &self,
        other: &Self,
        epsilon: Self::Epsilon,
        max_relative: Self::Epsilon,
    ) -> bool {
        &&& self.0.relative_eq_spec(&other.0, epsilon.0, max_relative.0)
        &&& self.1.relative_eq_spec(&other.1, epsilon.1, max_relative.1)
        &&& self.2.relative_eq_spec(&other.2, epsilon.2, max_relative.2)
        &&& self.3.relative_eq_spec(&other.3, epsilon.3, max_relative.3)
        &&& self.4.relative_eq_spec(&other.4, epsilon.4, max_relative.4)
        &&& self.5.relative_eq_spec(&other.5, epsilon.5, max_relative.5)
        &&& self.6.relative_eq_spec(&other.6, epsilon.6, max_relative.6)
    }

    fn default_max_relative() -> (r: Self::Epsilon) {
        (
            T0::default_max_relative(),
            T1::default_max_relative(),
            T2::default_max_relative(),
            T3::default_max_relative(),
            T4::default_max_relative(),
            T5::default_max_relative(),
            T6::default_max_relative(),
        )
    }

    fn relative_eq(
        &self,
        other: &Self,
        epsilon: Self::Epsilon,
        max_relative: Self::Epsilon,
    ) -> (r: bool) {
        self.0.relative_eq(&other.0, epsilon.0, max_relative.0)
            && self.1.relative_eq(&other.1, epsilon.1, max_relative.1)
            && self.2.relative_eq(&other.2, epsilon.2, max_relative.2)
            && self.3.relative_eq(&other.3, epsilon.3, max_relative.3)
            && self.4.relative_eq(&other.4, epsilon.4, max_relative.4)
            && self.5.relative_eq(&other.5, epsilon.5, max_relative.5)
            && self.6.relative_eq(&other.6, epsilon.6, max_relative.6)
    }
}

impl<T0, T1, T2, T3, T4, T5, T6, T7> RelativeEq for (T0, T1, T2, T3, T4, T5, T6, T7)
where
    T0: RelativeEq,
    T1: RelativeEq,
    T2: RelativeEq,
    T3: RelativeEq,
    T4: RelativeEq,
    T5: RelativeEq,
    T6: RelativeEq,
    T7: RelativeEq,
{
    open spec fn default_max_relative_spec() -> Self::Epsilon {
        (
            T0::default_max_relative_spec(),
            T1::default_max_relative_spec(),
            T2::default_max_relative_spec(),
            T3::default_max_relative_spec(),
            T4::default_max_relative_spec(),
            T5::default_max_relative_spec(),
            T6::default_max_relative_spec(),
            T7::default_max_relative_spec(),
        )
    }

    open spec fn relative_eq_spec(
        &self,
        other: &Self,
        epsilon: Self::Epsilon,
        max_relative: Self::Epsilon,
    ) -> bool {
        &&& self.0.relative_eq_spec(&other.0, epsilon.0, max_relative.0)
        &&& self.1.relative_eq_spec(&other.1, epsilon.1, max_relative.1)
        &&& self.2.relative_eq_spec(&other.2, epsilon.2, max_relative.2)
        &&& self.3.relative_eq_spec(&other.3, epsilon.3, max_relative.3)
        &&& self.4.relative_eq_spec(&other.4, epsilon.4, max_relative.4)
        &&& self.5.relative_eq_spec(&other.5, epsilon.5, max_relative.5)
        &&& self.6.relative_eq_spec(&other.6, epsilon.6, max_relative.6)
        &&& self.7.relative_eq_spec(&other.7, epsilon.7, max_relative.7)
    }

    fn default_max_relative() -> (r: Self::Epsilon) {
        (
            T0::default_max_relative(),
            T1::default_max_relative(),
            T2::default_max_relative(),
            T3::default_max_relative(),
            T4::default_max_relative(),
            T5::default_max_relative(),
            T6::default_max_relative(),
            T7::default_max_relative(),
        )
    }

    fn relative_eq(
        &self,
        other: &Self,
        epsilon: Self::Epsilon,
        max_relative: Self::Epsilon,
    ) -> (r: bool) {
        self.0.relative_eq(&other.0, epsilon.0, max_relative.0)
            && self.1.relative_eq(&other.1, epsilon.1, max_relative.1)
            && self.2.relative_eq(&other.2, epsilon.2, max_relative.2)
            && self.3.relative_eq(&other.3, epsilon.3, max_relative.3)
            && self.4.relative_eq(&other.4, epsilon.4, max_relative.4)
            && self.5.relative_eq(&other.5, epsilon.5, max_relative.5)
            && self.6.relative_eq(&other.6, epsilon.6, max_relative.6)
            && self.7.relative_eq(&other.7, epsilon.7, max_relative.7)
    }
}

impl<T0, T1, T2, T3, T4, T5, T6, T7, T8> RelativeEq for (T0, T1, T2, T3, T4, T5, T6, T7, T8)
where
    T0: RelativeEq,
    T1: RelativeEq,
    T2: RelativeEq,
    T3: RelativeEq,
    T4: RelativeEq,
    T5: RelativeEq,
    T6: RelativeEq,
    T7: RelativeEq,
    T8: RelativeEq,
{
    open spec fn default_max_relative_spec() -> Self::Epsilon {
        (
            T0::default_max_relative_spec(),
            T1::default_max_relative_spec(),
            T2::default_max_relative_spec(),
            T3::default_max_relative_spec(),
            T4::default_max_relative_spec(),
            T5::default_max_relative_spec(),
            T6::default_max_relative_spec(),
            T7::default_max_relative_spec(),
            T8::default_max_relative_spec(),
        )
    }

    open spec fn relative_eq_spec(
        &self,
        other: &Self,
        epsilon: Self::Epsilon,
        max_relative: Self::Epsilon,
    ) -> bool {
        &&& self.0.relative_eq_spec(&other.0, epsilon.0, max_relative.0)
        &&& self.1.relative_eq_spec(&other.1, epsilon.1, max_relative.1)
        &&& self.2.relative_eq_spec(&other.2, epsilon.2, max_relative.2)
        &&& self.3.relative_eq_spec(&other.3, epsilon.3, max_relative.3)
        &&& self.4.relative_eq_spec(&other.4, epsilon.4, max_relative.4)
        &&& self.5.relative_eq_spec(&other.5, epsilon.5, max_relative.5)
        &&& self.6.relative_eq_spec(&other.6, epsilon.6, max_relative.6)
        &&& self.7.relative_eq_spec(&other.7, epsilon.7, max_relative.7)
        &&& self.8.relative_eq_spec(&other.8, epsilon.8, max_relative.8)
    }

    fn default_max_relative() -> (r: Self::Epsilon) {
        (
            T0::default_max_relative(),
            T1::default_max_relative(),
            T2::default_max_relative(),
            T3::default_max_relative(),
            T4::default_max_relative(),
            T5::default_max_relative(),
            T6::default_max_relative(),
            T7::default_max_relative(),
            T8::default_max_relative(),
        )
    }

    fn relative_eq(
        &self,
        other: &Self,
        epsilon: Self::Epsilon,
        max_relative: Self::Epsilon,
    ) -> (r: bool) {
        self.0.relative_eq(&other.0, epsilon.0, max_relative.0)
            && self.1.relative_eq(&other.1, epsilon.1, max_relative.1)
            && self.2.relative_eq(&other.2, epsilon.2, max_relative.2)
            && self.3.relative_eq(&other.3, epsilon.3, max_relative.3)
            && self.4.relative_eq(&other.4, epsilon.4, max_relative.4)
            && self.5.relative_eq(&other.5, epsilon.5, max_relative.5)
            && self.6.relative_eq(&other.6, epsilon.6, max_relative.6)
            && self.7.relative_eq(&other.7, epsilon.7, max_relative.7)
            && self.8.relative_eq(&other.8, epsilon.8, max_relative.8)
    }
}

impl<T0, T1, T2, T3, T4, T5, T6, T7, T8, T9> RelativeEq for (T0, T1, T2, T3, T4, T5, T6, T7, T8, T9)
where
    T0: RelativeEq,
    T1: RelativeEq,
    T2: RelativeEq,
    T3: RelativeEq,
    T4: RelativeEq,
    T5: RelativeEq,
    T6: RelativeEq,
    T7: RelativeEq,
    T8: RelativeEq,
    T9: RelativeEq,
{
    open spec fn default_max_relative_spec() -> Self::Epsilon {
        (
            T0::default_max_relative_spec(),
            T1::default_max_relative_spec(),
            T2::default_max_relative_spec(),
            T3::default_max_relative_spec(),
            T4::default_max_relative_spec(),
            T5::default_max_relative_spec(),
            T6::default_max_relative_spec(),
            T7::default_max_relative_spec(),
            T8::default_max_relative_spec(),
            T9::default_max_relative_spec(),
        )
    }

    open spec fn relative_eq_spec(
        &self,
        other: &Self,
        epsilon: Self::Epsilon,
        max_relative: Self::Epsilon,
    ) -> bool {
        &&& self.0.relative_eq_spec(&other.0, epsilon.0, max_relative.0)
        &&& self.1.relative_eq_spec(&other.1, epsilon.1, max_relative.1)
        &&& self.2.relative_eq_spec(&other.2, epsilon.2, max_relative.2)
        &&& self.3.relative_eq_spec(&other.3, epsilon.3, max_relative.3)
        &&& self.4.relative_eq_spec(&other.4, epsilon.4, max_relative.4)
        &&& self.5.relative_eq_spec(&other.5, epsilon.5, max_relative.5)
        &&& self.6.relative_eq_spec(&other.6, epsilon.6, max_relative.6)
        &&& self.7.relative_eq_spec(&other.7, epsilon.7, max_relative.7)
        &&& self.8.relative_eq_spec(&other.8, epsilon.8, max_relative.8)
        &&& self.9.relative_eq_spec(&other.9, epsilon.9, max_relative.9)
    }

    fn default_max_relative() -> (r: Self::Epsilon) {
        (
            T0::default_max_relative(),
            T1::default_max_relative(),
            T2::default_max_relative(),
            T3::default_max_relative(),
            T4::default_max_relative(),
            T5::default_max_relative(),
            T6::default_max_relative(),
            T7::default_max_relative(),
            T8::default_max_relative(),
            T9::default_max_relative(),
        )
    }

    fn relative_eq(
        &self,
        other: &Self,
        epsilon: Self::Epsilon,
        max_relative: Self::Epsilon,
    ) -> (r: bool) {
        self.0.relative_eq(&other.0, epsilon.0, max_relative.0)
            && self.1.relative_eq(&other.1, epsilon.1, max_relative.1)
            && self.2.relative_eq(&other.2, epsilon.2, max_relative.2)
            && self.3.relative_eq(&other.3, epsilon.3, max_relative.3)
            && self.4.relative_eq(&other.4, epsilon.4, max_relative.4)
            && self.5.relative_eq(&other.5, epsilon.5, max_relative.5)
            && self.6.relative_eq(&other.6, epsilon.6, max_relative.6)
            && self.7.relative_eq(&other.7, epsilon.7, max_relative.7)
            && self.8.relative_eq(&other.8, epsilon.8, max_relative.8)
            && self.9.relative_eq(&other.9, epsilon.9, max_relative.9)
    }
}

impl<T0, T1, T2, T3, T4, T5, T6, T7, T8, T9, T10> RelativeEq for (T0, T1, T2, T3, T4, T5, T6, T7, T8, T9, T10)
where
    T0: RelativeEq,
    T1: RelativeEq,
    T2: RelativeEq,
    T3: RelativeEq,
    T4: RelativeEq,
    T5: RelativeEq,
    T6: RelativeEq,
    T7: RelativeEq,
    T8: RelativeEq,
    T9: RelativeEq,
    T10: RelativeEq,
{
    open spec fn default_max_relative_spec() -> Self::Epsilon {
        (
            T0::default_max_relative_spec(),
            T1::default_max_relative_spec(),
            T2::default_max_relative_spec(),
            T3::default_max_relative_spec(),
            T4::default_max_relative_spec(),
            T5::default_max_relative_spec(),
            T6::default_max_relative_spec(),
            T7::default_max_relative_spec(),
            T8::default_max_relative_spec(),
            T9::default_max_relative_spec(),
            T10::default_max_relative_spec(),
        )
    }

    open spec fn relative_eq_spec(
        &self,
        other: &Self,
        epsilon: Self::Epsilon,
        max_relative: Self::Epsilon,
    ) -> bool {
        &&& self.0.relative_eq_spec(&other.0, epsilon.0, max_relative.0)
        &&& self.1.relative_eq_spec(&other.1, epsilon.1, max_relative.1)
        &&& self.2.relative_eq_spec(&other.2, epsilon.2, max_relative.2)
        &&& self.3.relative_eq_spec(&other.3, epsilon.3, max_relative.3)
        &&& self.4.relative_eq_spec(&other.4, epsilon.4, max_relative.4)
        &&& self.5.relative_eq_spec(&other.5, epsilon.5, max_relative.5)
        &&& self.6.relative_eq_spec(&other.6, epsilon.6, max_relative.6)
        &&& self.7.relative_eq_spec(&other.7, epsilon.7, max_relative.7)
        &&& self.8.relative_eq_spec(&other.8, epsilon.8, max_relative.8)
        &&& self.9.relative_eq_spec(&other.9, epsilon.9, max_relative.9)
        &&& self.10.relative_eq_spec(&other.10, epsilon.10, max_relative.10)
    }

    fn default_max_relative() -> (r: Self::Epsilon) {
        (
            T0::default_max_relative(),
            T1::default_max_relative(),
            T2::default_max_relative(),
            T3::default_max_relative(),
            T4::default_max_relative(),
            T5::default_max_relative(),
            T6::default_max_relative(),
            T7::default_max_relative(),
            T8::default_max_relative(),
            T9::default_max_relative(),
            T10::default_max_relative(),
        )
    }

    fn relative_eq(
        &self,
        other: &Self,
        epsilon: Self::Epsilon,
        max_relative: Self::Epsilon,
    ) -> (r: bool) {
        self.0.relative_eq(&other.0, epsilon.0, max_relative.0)
            && self.1.relative_eq(&other.1, epsilon.1, max_relative.1)
            && self.2.relative_eq(&other.2, epsilon.2, max_relative.2)
            && self.3.relative_eq(&other.3, epsilon.3, max_relative.3)
            && self.4.relative_eq(&other.4, epsilon.4, max_relative.4)
            && self.5.relative_eq(&other.5, epsilon.5, max_relative.5)
            && self.6.relative_eq(&other.6, epsilon.6, max_relative.6)
            && self.7.relative_eq(&other.7, epsilon.7, max_relative.7)
            && self.8.relative_eq(&other.8, epsilon.8, max_relative.8)
            && self.9.relative_eq(&other.9, epsilon.9, max_relative.9)
            && self.10.relative_eq(&other.10, epsilon.10, max_relative.10)
    }
}

impl<T0, T1, T2, T3, T4, T5, T6, T7, T8, T9, T10, T11> RelativeEq for (T0, T1, T2, T3, T4, T5, T6, T7, T8, T9, T10, T11)
where
    T0: RelativeEq,
    T1: RelativeEq,
    T2: RelativeEq,
    T3: RelativeEq,
    T4: RelativeEq,
    T5: RelativeEq,
    T6: RelativeEq,
    T7: RelativeEq,
    T8: RelativeEq,
    T9: RelativeEq,
    T10: RelativeEq,
    T11: RelativeEq,
{
    open spec fn default_max_relative_spec() -> Self::Epsilon {
        (
            T0::default_max_relative_spec(),
            T1::default_max_relative_spec(),
            T2::default_max_relative_spec(),
            T3::default_max_relative_spec(),
            T4::default_max_relative_spec(),
            T5::default_max_relative_spec(),
            T6::default_max_relative_spec(),
            T7::default_max_relative_spec(),
            T8::default_max_relative_spec(),
            T9::default_max_relative_spec(),
            T10::default_max_relative_spec(),
            T11::default_max_relative_spec(),
        )
    }

    open spec fn relative_eq_spec(
        &self,
        other: &Self,
        epsilon: Self::Epsilon,
        max_relative: Self::Epsilon,
    ) -> bool {
        &&& self.0.relative_eq_spec(&other.0, epsilon.0, max_relative.0)
        &&& self.1.relative_eq_spec(&other.1, epsilon.1, max_relative.1)
        &&& self.2.relative_eq_spec(&other.2, epsilon.2, max_relative.2)
        &&& self.3.relative_eq_spec(&other.3, epsilon.3, max_relative.3)
        &&& self.4.relative_eq_spec(&other.4, epsilon.4, max_relative.4)
        &&& self.5.relative_eq_spec(&other.5, epsilon.5, max_relative.5)
        &&& self.6.relative_eq_spec(&other.6, epsilon.6, max_relative.6)
        &&& self.7.relative_eq_spec(&other.7, epsilon.7, max_relative.7)
        &&& self.8.relative_eq_spec(&other.8, epsilon.8, max_relative.8)
        &&& self.9.relative_eq_spec(&other.9, epsilon.9, max_relative.9)
        &&& self.10.relative_eq_spec(&other.10, epsilon.10, max_relative.10)
        &&& self.11.relative_eq_spec(&other.11, epsilon.11, max_relative.11)
    }

    fn default_max_relative() -> (r: Self::Epsilon) {
        (
            T0::default_max_relative(),
            T1::default_max_relative(),
            T2::default_max_relative(),
            T3::default_max_relative(),
            T4::default_max_relative(),
            T5::default_max_relative(),
            T6::default_max_relative(),
            T7::default_max_relative(),
            T8::default_max_relative(),
            T9::default_max_relative(),
            T10::default_max_relative(),
            T11::default_max_relative(),
        )
    }

    fn relative_eq(
        &self,
        other: &Self,
        epsilon: Self::Epsilon,
        max_relative: Self::Epsilon,
    ) -> (r: bool) {
        self.0.relative_eq(&other.0, epsilon.0, max_relative.0)
            && self.1.relative_eq(&other.1, epsilon.1, max_relative.1)
            && self.2.relative_eq(&other.2, epsilon.2, max_relative.2)
            && self.3.relative_eq(&other.3, epsilon.3, max_relative.3)
            && self.4.relative_eq(&other.4, epsilon.4, max_relative.4)
            && self.5.relative_eq(&other.5, epsilon.5, max_relative.5)
            && self.6.relative_eq(&other.6, epsilon.6, max_relative.6)
            && self.7.relative_eq(&other.7, epsilon.7, max_relative.7)
            && self.8.relative_eq(&other.8, epsilon.8, max_relative.8)
            && self.9.relative_eq(&other.9, epsilon.9, max_relative.9)
            && self.10.relative_eq(&other.10, epsilon.10, max_relative.10)
            && self.11.relative_eq(&other.11, epsilon.11, max_relative.11)
    }
}

impl UlpsEq for () {
    open spec fn default_max_ulps_spec() -> u32 {
        0
    }

    open spec fn ulps_eq_spec(&self, other: &Self, epsilon: Self::Epsilon, max_ulps: u32) -> bool {
        true
    }

    fn default_max_ulps() -> (r: u32) {
        0
    }

    fn ulps_eq(&self, other: &Self, epsilon: Self::Epsilon, max_ulps: u32) -> (r: bool) {
        true
    }
}

impl<T0> UlpsEq for (T0,)
where
    T0: UlpsEq,
{
    open spec fn default_max_ulps_spec() -> u32 {
        let m: u32 = 0;
        let m = max_u32(m, T0::default_max_ulps_spec());
        m
    }

    open spec fn ulps_eq_spec(&self, other: &Self, epsilon: Self::Epsilon, max_ulps: u32) -> bool {
        self.0.ulps_eq_spec(&other.0, epsilon.0, max_ulps)
    }

    fn default_max_ulps() -> (r: u32) {
        let m: u32 = 0;
        let m: u32 = larger_u32(m, T0::default_max_ulps());
        m
    }

    fn ulps_eq(&self, other: &Self, epsilon: Self::Epsilon, max_ulps: u32) -> (r: bool) {
        self.0.ulps_eq(&other.0, epsilon.0, max_ulps)
    }
}

impl<T0, T1> UlpsEq for (T0, T1)
where
    T0: UlpsEq,
    T1: UlpsEq,
{
    open spec fn default_max_ulps_spec() -> u32 {
        let m: u32 = 0;
        let m = max_u32(m, T0::default_max_ulps_spec());
        let m = max_u32(m, T1::default_max_ulps_spec());
        m
    }

    open spec fn ulps_eq_spec(&self, other: &Self, epsilon: Self::Epsilon, max_ulps: u32) -> bool {
        &&& self.0.ulps_eq_spec(&other.0, epsilon.0, max_ulps)
        &&& self.1.ulps_eq_spec(&other.1, epsilon.1, max_ulps)
    }

    fn default_max_ulps() -> (r: u32) {
        let m: u32 = 0;
        let m: u32 = larger_u32(m, T0::default_max_ulps());
        let m: u32 = larger_u32(m, T1::default_max_ulps());
        m
    }

    fn ulps_eq(&self, other: &Self, epsilon: Self::Epsilon, max_ulps: u32) -> (r: bool) {
        self.0.ulps_eq(&other.0, epsilon.0, max_ulps)
            && self.1.ulps_eq(&other.1, epsilon.1, max_ulps)
    }
}

impl<T0, T1, T2> UlpsEq for (T0, T1, T2)
where
    T0: UlpsEq,
    T1: UlpsEq,
    T2: UlpsEq,
{
    open spec fn default_max_ulps_spec() -> u32 {
        let m: u32 = 0;
        let m = max_u32(m, T0::default_max_ulps_spec());
        let m = max_u32(m, T1::default_max_ulps_spec());
        let m = max_u32(m, T2::default_max_ulps_spec());
        m
    }

    open spec fn ulps_eq_spec(&self, other: &Self, epsilon: Self::Epsilon, max_ulps: u32) -> bool {
        &&& self.0.ulps_eq_spec(&other.0, epsilon.0, max_ulps)
        &&& self.1.ulps_eq_spec(&other.1, epsilon.1, max_ulps)
        &&& self.2.ulps_eq_spec(&other.2, epsilon.2, max_ulps)
    }

    fn default_max_ulps() -> (r: u32) {
        let m: u32 = 0;
        let m: u32 = larger_u32(m, T0::default_max_ulps());
        let m: u32 = larger_u32(m, T1::default_max_ulps());
        let m: u32 = larger_u32(m, T2::default_max_ulps());
        m
    }

    fn ulps_eq(&self, other: &Self, epsilon: Self::Epsilon, max_ulps: u32) -> (r: bool) {
        self.0.ulps_eq(&other.0, epsilon.0, max_ulps)
            && self.1.ulps_eq(&other.1, epsilon.1, max_ulps)
            && self.2.ulps_eq(&other.2, epsilon.2, max_ulps)
    }
}

impl<T0, T1, T2, T3> UlpsEq for (T0, T1, T2, T3)
where
    T0: UlpsEq,
    T1: UlpsEq,
    T2: UlpsEq,
    T3: UlpsEq,
{
    open spec fn default_max_ulps_spec() -> u32 {
        let m: u32 = 0;
        let m = max_u32(m, T0::default_max_ulps_spec());
        let m = max_u32(m, T1::default_max_ulps_spec());
        let m = max_u32(m, T2::default_max_ulps_spec());
        let m = max_u32(m, T3::default_max_ulps_spec());
        m
    }

    open spec fn ulps_eq_spec(&self, other: &Self, epsilon: Self::Epsilon, max_ulps: u32) -> bool {
        &&& self.0.ulps_eq_spec(&other.0, epsilon.0, max_ulps)
        &&& self.1.ulps_eq_spec(&other.1, epsilon.1, max_ulps)
        &&& self.2.ulps_eq_spec(&other.2, epsilon.2, max_ulps)
        &&& self.3.ulps_eq_spec(&other.3, epsilon.3, max_ulps)
    }

    fn default_max_ulps() -> (r: u32) {
        let m: u32 = 0;
        let m: u32 = larger_u32(m, T0::default_max_ulps());
        let m: u32 = larger_u32(m, T1::default_max_ulps());
        let m: u32 = larger_u32(m, T2::default_max_ulps());
        let m: u32 = larger_u32(m, T3::default_max_ulps());
        m
    }

    fn ulps_eq(&self, other: &Self, epsilon: Self::Epsilon, max_ulps: u32) -> (r: bool) {
        self.0.ulps_eq(&other.0, epsilon.0, max_ulps)
            && self.1.ulps_eq(&other.1, epsilon.1, max_ulps)
            && self.2.ulps_eq(&other.2, epsilon.2, max_ulps)
            && self.3.ulps_eq(&other.3, epsilon.3, max_ulps)
    }
}

impl<T0, T1, T2, T3, T4> UlpsEq for (T0, T1, T2, T3, T4)
where
    T0: UlpsEq,
    T1: UlpsEq,
    T2: UlpsEq,
    T3: UlpsEq,
    T4: UlpsEq,
{
    open spec fn default_max_ulps_spec() -> u32 {
        let m: u32 = 0;
        let m = max_u32(m, T0::default_max_ulps_spec());
        let m = max_u32(m, T1::default_max_ulps_spec());
        let m = max_u32(m, T2::default_max_ulps_spec());
        let m = max_u32(m, T3::default_max_ulps_spec());
        let m = max_u32(m, T4::default_max_ulps_spec());
        m
    }

    open spec fn ulps_eq_spec(&self, other: &Self, epsilon: Self::Epsilon, max_ulps: u32) -> bool {
        &&& self.0.ulps_eq_spec(&other.0, epsilon.0, max_ulps)
        &&& self.1.ulps_eq_spec(&other.1, epsilon.1, max_ulps)
        &&& self.2.ulps_eq_spec(&other.2, epsilon.2, max_ulps)
        &&& self.3.ulps_eq_spec(&other.3, epsilon.3, max_ulps)
        &&& self.4.ulps_eq_spec(&other.4, epsilon.4, max_ulps)
    }

    fn default_max_ulps() -> (r: u32) {
        let m: u32 = 0;
        let m: u32 = larger_u32(m, T0::default_max_ulps());
        let m: u32 = larger_u32(m, T1::default_max_ulps());
        let m: u32 = larger_u32(m, T2::default_max_ulps());
        let m: u32 = larger_u32(m, T3::default_max_ulps());
        let m: u32 = larger_u32(m, T4::default_max_ulps());
        m
    }

    fn ulps_eq(&self, other: &Self, epsilon: Self::Epsilon, max_ulps: u32) -> (r: bool) {
        self.0.ulps_eq(&other.0, epsilon.0, max_ulps)
            && self.1.ulps_eq(&other.1, epsilon.1, max_ulps)
            && self.2.ulps_eq(&other.2, epsilon.2, max_ulps)
            && self.3.ulps_eq(&other.3, epsilon.3, max_ulps)
            && self.4.ulps_eq(&other.4, epsilon.4, max_ulps)
    }
}

impl<T0, T1, T2, T3, T4, T5> UlpsEq for (T0, T1, T2, T3, T4, T5)
where
    T0: UlpsEq,
    T1: UlpsEq,
    T2: UlpsEq,
    T3: UlpsEq,
    T4: UlpsEq,
    T5: UlpsEq,
{
    open spec fn default_max_ulps_spec() -> u32 {
        let m: u32 = 0;
        let m = max_u32(m, T0::default_max_ulps_spec());
        let m = max_u32(m, T1::default_max_ulps_spec());
        let m = max_u32(m, T2::default_max_ulps_spec());
        let m = max_u32(m, T3::default_max_ulps_spec());
        let m = max_u32(m, T4::default_max_ulps_spec());
        let m = max_u32(m, T5::default_max_ulps_spec());
        m
    }

    open spec fn ulps_eq_spec(&self, other: &Self, epsilon: Self::Epsilon, max_ulps: u32) -> bool {
        &&& self.0.ulps_eq_spec(&other.0, epsilon.0, max_ulps)
        &&& self.1.ulps_eq_spec(&other.1, epsilon.1, max_ulps)
        &&& self.2.ulps_eq_spec(&other.2, epsilon.2, max_ulps)
        &&& self.3.ulps_eq_spec(&other.3, epsilon.3, max_ulps)
        &&& self.4.ulps_eq_spec(&other.4, epsilon.4, max_ulps)
        &&& self.5.ulps_eq_spec(&other.5, epsilon.5, max_ulps)
    }

    fn default_max_ulps() -> (r: u32) {
        let m: u32 = 0;
        let m: u32 = larger_u32(m, T0::default_max_ulps());
        let m: u32 = larger_u32(m, T1::default_max_ulps());
        let m: u32 = larger_u32(m, T2::default_max_ulps());
        let m: u32 = larger_u32(m, T3::default_max_ulps());
        let m: u32 = larger_u32(m, T4::default_max_ulps());
        let m: u32 = larger_u32(m, T5::default_max_ulps());
        m
    }

    fn ulps_eq(&self, other: &Self, epsilon: Self::Epsilon, max_ulps: u32) -> (r: bool) {
        self.0.ulps_eq(&other.0, epsilon.0, max_ulps)
            && self.1.ulps_eq(&other.1, epsilon.1, max_ulps)
            && self.2.ulps_eq(&other.2, epsilon.2, max_ulps)
            && self.3.ulps_eq(&other.3, epsilon.3, max_ulps)
            && self.4.ulps_eq(&other.4, epsilon.4, max_ulps)
            && self.5.ulps_eq(&other.5, epsilon.5, max_ulps)
    }
}

impl<T0, T1, T2, T3, T4, T5, T6> UlpsEq for (T0, T1, T2, T3, T4, T5, T6)
where
    T0: UlpsEq,
    T1: UlpsEq,
    T2: UlpsEq,
    T3: UlpsEq,
    T4: UlpsEq,
    T5: UlpsEq,
    T6: UlpsEq,
{
    open spec fn default_max_ulps_spec() -> u32 {
        let m: u32 = 0;
        let m = max_u32(m, T0::default_max_ulps_spec());
        let m = max_u32(m, T1::default_max_ulps_spec());
        let m = max_u32(m, T2::default_max_ulps_spec());
        let m = max_u32(m, T3::default_max_ulps_spec());
        let m = max_u32(m, T4::default_max_ulps_spec());
        let m = max_u32(m, T5::default_max_ulps_spec());
        let m = max_u32(m, T6::default_max_ulps_spec());
        m
    }

    open spec fn ulps_eq_spec(&self, other: &Self, epsilon: Self::Epsilon, max_ulps: u32) -> bool {
        &&& self.0.ulps_eq_spec(&other.0, epsilon.0, max_ulps)
        &&& self.1.ulps_eq_spec(&other.1, epsilon.1, max_ulps)
        &&& self.2.ulps_eq_spec(&other.2, epsilon.2, max_ulps)
        &&& self.3.ulps_eq_spec(&other.3, epsilon.3, max_ulps)
        &&& self.4.ulps_eq_spec(&other.4, epsilon.4, max_ulps)
        &&& self.5.ulps_eq_spec(&other.5, epsilon.5, max_ulps)
        &&& self.6.ulps_eq_spec(&other.6, epsilon.6, max_ulps)
    }

    fn default_max_ulps() -> (r: u32) {
        let m: u32 = 0;
        let m: u32 = larger_u32(m, T0::default_max_ulps());
        let m: u32 = larger_u32(m, T1::default_max_ulps());
        let m: u32 = larger_u32(m, T2::default_max_ulps());
        let m: u32 = larger_u32(m, T3::default_max_ulps());
        let m: u32 = larger_u32(m, T4::default_max_ulps());
        let m: u32 = larger_u32(m, T5::default_max_ulps());
        let m: u32 = larger_u32(m, T6::default_max_ulps());
        m
    }

    fn ulps_eq(&self, other: &Self, epsilon: Self::Epsilon, max_ulps: u32) -> (r: bool) {
        self.0.ulps_eq(&other.0, epsilon.0, max_ulps)
            && self.1.ulps_eq(&other.1, epsilon.1, max_ulps)
            && self.2.ulps_eq(&other.2, epsilon.2, max_ulps)
            && self.3.ulps_eq(&other.3, epsilon.3, max_ulps)
            && self.4.ulps_eq(&other.4, epsilon.4, max_ulps)
            && self.5.ulps_eq(&other.5, epsilon.5, max_ulps)
            && self.6.ulps_eq(&other.6, epsilon.6, max_ulps)
    }
}

impl<T0, T1, T2, T3, T4, T5, T6, T7> UlpsEq for (T0, T1, T2, T3, T4, T5, T6, T7)
where
    T0: UlpsEq,
    T1: UlpsEq,
    T2: UlpsEq,
    T3: UlpsEq,
    T4: UlpsEq,
    T5: UlpsEq,
    T6: UlpsEq,
    T7: UlpsEq,
{
    open spec fn default_max_ulps_spec() -> u32 {
        let m: u32 = 0;
        let m = max_u32(m, T0::default_max_ulps_spec());
        let m = max_u32(m, T1::default_max_ulps_spec());
        let m = max_u32(m, T2::default_max_ulps_spec());
        let m = max_u32(m, T3::default_max_ulps_spec());
        let m = max_u32(m, T4::default_max_ulps_spec());
        let m = max_u32(m, T5::default_max_ulps_spec());
        let m = max_u32(m, T6::default_max_ulps_spec());
        let m = max_u32(m, T7::default_max_ulps_spec());
        m
    }

    open spec fn ulps_eq_spec(&self, other: &Self, epsilon: Self::Epsilon, max_ulps: u32) -> bool {
        &&& self.0.ulps_eq_spec(&other.0, epsilon.0, max_ulps)
        &&& self.1.ulps_eq_spec(&other.1, epsilon.1, max_ulps)
        &&& self.2.ulps_eq_spec(&other.2, epsilon.2, max_ulps)
        &&& self.3.ulps_eq_spec(&other.3, epsilon.3, max_ulps)
        &&& self.4.ulps_eq_spec(&other.4, epsilon.4, max_ulps)
        &&& self.5.ulps_eq_spec(&other.5, epsilon.5, max_ulps)
        &&& self.6.ulps_eq_spec(&other.6, epsilon.6, max_ulps)
        &&& self.7.ulps_eq_spec(&other.7, epsilon.7, max_ulps)
    }

    fn default_max_ulps() -> (r: u32) {
        let m: u32 = 0;
        let m: u32 = larger_u32(m, T0::default_max_ulps());
        let m: u32 = larger_u32(m, T1::default_max_ulps());
        let m: u32 = larger_u32(m, T2::default_max_ulps());
        let m: u32 = larger_u32(m, T3::default_max_ulps());
        let m: u32 = larger_u32(m, T4::default_max_ulps());
        let m: u32 = larger_u32(m, T5::default_max_ulps());
        let m: u32 = larger_u32(m, T6::default_max_ulps());
        let m: u32 = larger_u32(m, T7::default_max_ulps());
        m
    }

    fn ulps_eq(&self, other: &Self, epsilon: Self::Epsilon, max_ulps: u32) -> (r: bool) {
        self.0.ulps_eq(&other.0, epsilon.0, max_ulps)
            && self.1.ulps_eq(&other.1, epsilon.1, max_ulps)
            && self.2.ulps_eq(&other.2, epsilon.2, max_ulps)
            && self.3.ulps_eq(&other.3, epsilon.3, max_ulps)
            && self.4.ulps_eq(&other.4, epsilon.4, max_ulps)
            && self.5.ulps_eq(&other.5, epsilon.5, max_ulps)
            && self.6.ulps_eq(&other.6, epsilon.6, max_ulps)
            && self.7.ulps_eq(&other.7, epsilon.7, max_ulps)
    }
}

impl<T0, T1, T2, T3, T4, T5, T6, T7, T8> UlpsEq for (T0, T1, T2, T3, T4, T5, T6, T7, T8)
where
    T0: UlpsEq,
    T1: UlpsEq,
    T2: UlpsEq,
    T3: UlpsEq,
    T4: UlpsEq,
    T5: UlpsEq,
    T6: UlpsEq,
    T7: UlpsEq,
    T8: UlpsEq,
{
    open spec fn default_max_ulps_spec() -> u32 {
        let m: u32 = 0;
        let m = max_u32(m, T0::default_max_ulps_spec());
        let m = max_u32(m, T1::default_max_ulps_spec());
        let m = max_u32(m, T2::default_max_ulps_spec());
        let m = max_u32(m, T3::default_max_ulps_spec());
        let m = max_u32(m, T4::default_max_ulps_spec());
        let m = max_u32(m, T5::default_max_ulps_spec());
        let m = max_u32(m, T6::default_max_ulps_spec());
        let m = max_u32(m, T7::default_max_ulps_spec());
        let m = max_u32(m, T8::default_max_ulps_spec());
        m
    }

    open spec fn ulps_eq_spec(&self, other: &Self, epsilon: Self::Epsilon, max_ulps: u32) -> bool {
        &&& self.0.ulps_eq_spec(&other.0, epsilon.0, max_ulps)
        &&& self.1.ulps_eq_spec(&other.1, epsilon.1, max_ulps)
        &&& self.2.ulps_eq_spec(&other.2, epsilon.2, max_ulps)
        &&& self.3.ulps_eq_spec(&other.3, epsilon.3, max_ulps)
        &&& self.4.ulps_eq_spec(&other.4, epsilon.4, max_ulps)
        &&& self.5.ulps_eq_spec(&other.5, epsilon.5, max_ulps)
        &&& self.6.ulps_eq_spec(&other.6, epsilon.6, max_ulps)
        &&& self.7.ulps_eq_spec(&other.7, epsilon.7, max_ulps)
        &&& self.8.ulps_eq_spec(&other.8, epsilon.8, max_ulps)
    }

    fn default_max_ulps() -> (r: u32) {
        let m: u32 = 0;
        let m: u32 = larger_u32(m, T0::default_max_ulps());
        let m: u32 = larger_u32(m, T1::default_max_ulps());
        let m: u32 = larger_u32(m, T2::default_max_ulps());
        let m: u32 = larger_u32(m, T3::default_max_ulps());
        let m: u32 = larger_u32(m, T4::default_max_ulps());
        let m: u32 = larger_u32(m, T5::default_max_ulps());
        let m: u32 = larger_u32(m, T6::default_max_ulps());
        let m: u32 = larger_u32(m, T7::default_max_ulps());
        let m: u32 = larger_u32(m, T8::default_max_ulps());
        m
    }

    fn ulps_eq(&self, other: &Self, epsilon: Self::Epsilon, max_ulps: u32) -> (r: bool) {
        self.0.ulps_eq(&other.0, epsilon.0, max_ulps)
            && self.1.ulps_eq(&other.1, epsilon.1, max_ulps)
            && self.2.ulps_eq(&other.2, epsilon.2, max_ulps)
            && self.3.ulps_eq(&other.3, epsilon.3, max_ulps)
            && self.4.ulps_eq(&other.4, epsilon.4, max_ulps)
            && self.5.ulps_eq(&other.5, epsilon.5, max_ulps)
            && self.6.ulps_eq(&other.6, epsilon.6, max_ulps)
            && self.7.ulps_eq(&other.7, epsilon.7, max_ulps)
            && self.8.ulps_eq(&other.8, epsilon.8, max_ulps)
    }
}

impl<T0, T1, T2, T3, T4, T5, T6, T7, T8, T9> UlpsEq for (T0, T1, T2, T3, T4, T5, T6, T7, T8, T9)
where
    T0: UlpsEq,
    T1: UlpsEq,
    T2: UlpsEq,
    T3: UlpsEq,
    T4: UlpsEq,
    T5: UlpsEq,
    T6: UlpsEq,
    T7: UlpsEq,
    T8: UlpsEq,
    T9: UlpsEq,
{
    open spec fn default_max_ulps_spec() -> u32 {
        let m: u32 = 0;
        let m = max_u32(m, T0::default_max_ulps_spec());
        let m = max_u32(m, T1::default_max_ulps_spec());
        let m = max_u32(m, T2::default_max_ulps_spec());
        let m = max_u32(m, T3::default_max_ulps_spec());
        let m = max_u32(m, T4::default_max_ulps_spec());
        let m = max_u32(m, T5::default_max_ulps_spec());
        let m = max_u32(m, T6::default_max_ulps_spec());
        let m = max_u32(m, T7::default_max_ulps_spec());
        let m = max_u32(m, T8::default_max_ulps_spec());
        let m = max_u32(m, T9::default_max_ulps_spec());
        m
    }

    open spec fn ulps_eq_spec(&self, other: &Self, epsilon: Self::Epsilon, max_ulps: u32) -> bool {
        &&& self.0.ulps_eq_spec(&other.0, epsilon.0, max_ulps)
        &&& self.1.ulps_eq_spec(&other.1, epsilon.1, max_ulps)
        &&& self.2.ulps_eq_spec(&other.2, epsilon.2, max_ulps)
        &&& self.3.ulps_eq_spec(&other.3, epsilon.3, max_ulps)
        &&& self.4.ulps_eq_spec(&other.4, epsilon.4, max_ulps)
        &&& self.5.ulps_eq_spec(&other.5, epsilon.5, max_ulps)
        &&& self.6.ulps_eq_spec(&other.6, epsilon.6, max_ulps)
        &&& self.7.ulps_eq_spec(&other.7, epsilon.7, max_ulps)
        &&& self.8.ulps_eq_spec(&other.8, epsilon.8, max_ulps)
        &&& self.9.ulps_eq_spec(&other.9, epsilon.9, max_ulps)
    }

    fn default_max_ulps() -> (r: u32) {
        let m: u32 = 0;
        let m: u32 = larger_u32(m, T0::default_max_ulps());
        let m: u32 = larger_u32(m, T1::default_max_ulps());
        let m: u32 = larger_u32(m, T2::default_max_ulps());
        let m: u32 = larger_u32(m, T3::default_max_ulps());
        let m: u32 = larger_u32(m, T4::default_max_ulps());
        let m: u32 = larger_u32(m, T5::default_max_ulps());
        let m: u32 = larger_u32(m, T6::default_max_ulps());
        let m: u32 = larger_u32(m, T7::default_max_ulps());
        let m: u32 = larger_u32(m, T8::default_max_ulps());
        let m: u32 = larger_u32(m, T9::default_max_ulps());
        m
    }

    fn ulps_eq(&self, other: &Self, epsilon: Self::Epsilon, max_ulps: u32) -> (r: bool) {
        self.0.ulps_eq(&other.0, epsilon.0, max_ulps)
            && self.1.ulps_eq(&other.1, epsilon.1, max_ulps)
            && self.2.ulps_eq(&other.2, epsilon.2, max_ulps)
            && self.3.ulps_eq(&other.3, epsilon.3, max_ulps)
            && self.4.ulps_eq(&other.4, epsilon.4, max_ulps)
            && self.5.ulps_eq(&other.5, epsilon.5, max_ulps)
            && self.6.ulps_eq(&other.6, epsilon.6, max_ulps)
            && self.7.ulps_eq(&other.7, epsilon.7, max_ulps)
            && self.8.ulps_eq(&other.8, epsilon.8, max_ulps)
            && self.9.ulps_eq(&other.9, epsilon.9, max_ulps)
    }
}

impl<T0, T1, T2, T3, T4, T5, T6, T7, T8, T9, T10> UlpsEq for (T0, T1, T2, T3, T4, T5, T6, T7, T8, T9, T10)
where
    T0: UlpsEq,
    T1: UlpsEq,
    T2: UlpsEq,
    T3: UlpsEq,
    T4: UlpsEq,
    T5: UlpsEq,
    T6: UlpsEq,
    T7: UlpsEq,
    T8: UlpsEq,
    T9: UlpsEq,
    T10: UlpsEq,
{
    open spec fn default_max_ulps_spec() -> u32 {
        let m: u32 = 0;
        let m = max_u32(m, T0::default_max_ulps_spec());
        let m = max_u32(m, T1::default_max_ulps_spec());
        let m = max_u32(m, T2::default_max_ulps_spec());
        let m = max_u32(m, T3::default_max_ulps_spec());
        let m = max_u32(m, T4::default_max_ulps_spec());
        let m = max_u32(m, T5::default_max_ulps_spec());
        let m = max_u32(m, T6::default_max_ulps_spec());
        let m = max_u32(m, T7::default_max_ulps_spec());
        let m = max_u32(m, T8::default_max_ulps_spec());
        let m = max_u32(m, T9::default_max_ulps_spec());
        let m = max_u32(m, T10::default_max_ulps_spec());
        m
    }

    open spec fn ulps_eq_spec(&self, other: &Self, epsilon: Self::Epsilon, max_ulps: u32) -> bool {
        &&& self.0.ulps_eq_spec(&other.0, epsilon.0, max_ulps)
        &&& self.1.ulps_eq_spec(&other.1, epsilon.1, max_ulps)
        &&& self.2.ulps_eq_spec(&other.2, epsilon.2, max_ulps)
        &&& self.3.ulps_eq_spec(&other.3, epsilon.3, max_ulps)
        &&& self.4.ulps_eq_spec(&other.4, epsilon.4, max_ulps)
        &&& self.5.ulps_eq_spec(&other.5, epsilon.5, max_ulps)
        &&& self.6.ulps_eq_spec(&other.6, epsilon.6, max_ulps)
        &&& self.7.ulps_eq_spec(&other.7, epsilon.7, max_ulps)
        &&& self.8.ulps_eq_spec(&other.8, epsilon.8, max_ulps)
        &&& self.9.ulps_eq_spec(&other.9, epsilon.9, max_ulps)
        &&& self.10.ulps_eq_spec(&other.10, epsilon.10, max_ulps)
    }

    fn default_max_ulps() -> (r: u32) {
        let m: u32 = 0;
        let m: u32 = larger_u32(m, T0::default_max_ulps());
        let m: u32 = larger_u32(m, T1::default_max_ulps());
        let m: u32 = larger_u32(m, T2::default_max_ulps());
        let m: u32 = larger_u32(m, T3::default_max_ulps());
        let m: u32 = larger_u32(m, T4::default_max_ulps());
        let m: u32 = larger_u32(m, T5::default_max_ulps());
        let m: u32 = larger_u32(m, T6::default_max_ulps());
        let m: u32 = larger_u32(m, T7::default_max_ulps());
        let m: u32 = larger_u32(m, T8::default_max_ulps());
        let m: u32 = larger_u32(m, T9::default_max_ulps());
        let m: u32 = larger_u32(m, T10::default_max_ulps());
        m
    }

    fn ulps_eq(&self, other: &Self, epsilon: Self::Epsilon, max_ulps: u32) -> (r: bool) {
        self.0.ulps_eq(&other.0, epsilon.0, max_ulps)
            && self.1.ulps_eq(&other.1, epsilon.1, max_ulps)
            && self.2.ulps_eq(&other.2, epsilon.2, max_ulps)
            && self.3.ulps_eq(&other.3, epsilon.3, max_ulps)
            && self.4.ulps_eq(&other.4, epsilon.4, max_ulps)
            && self.5.ulps_eq(&other.5, epsilon.5, max_ulps)
            && self.6.ulps_eq(&other.6, epsilon.6, max_ulps)
            && self.7.ulps_eq(&other.7, epsilon.7, max_ulps)
            && self.8.ulps_eq(&other.8, epsilon.8, max_ulps)
            && self.9.ulps_eq(&other.9, epsilon.9, max_ulps)
            && self.10.ulps_eq(&other.10, epsilon.10, max_ulps)
    }
}

impl<T0, T1, T2, T3, T4, T5, T6, T7, T8, T9, T10, T11> UlpsEq for (T0, T1, T2, T3, T4, T5, T6, T7, T8, T9, T10, T11)
where
    T0: UlpsEq,
    T1: UlpsEq,
    T2: UlpsEq,
    T3: UlpsEq,
    T4: UlpsEq,
    T5: UlpsEq,
    T6: UlpsEq,
    T7: UlpsEq,
    T8: UlpsEq,
    T9: UlpsEq,
    T10: UlpsEq,
    T11: UlpsEq,
{
    open spec fn default_max_ulps_spec() -> u32 {
        let m: u32 = 0;
        let m = max_u32(m, T0::default_max_ulps_spec());
        let m = max_u32(m, T1::default_max_ulps_spec());
        let m = max_u32(m, T2::default_max_ulps_spec());
        let m = max_u32(m, T3::default_max_ulps_spec());
        let m = max_u32(m, T4::default_max_ulps_spec());
        let m = max_u32(m, T5::default_max_ulps_spec());
        let m = max_u32(m, T6::default_max_ulps_spec());
        let m = max_u32(m, T7::default_max_ulps_spec());
        let m = max_u32(m, T8::default_max_ulps_spec());
        let m = max_u32(m, T9::default_max_ulps_spec());
        let m = max_u32(m, T10::default_max_ulps_spec());
        let m = max_u32(m, T11::default_max_ulps_spec());
        m
    }

    open spec fn ulps_eq_spec(&self, other: &Self, epsilon: Self::Epsilon, max_ulps: u32) -> bool {
        &&& self.0.ulps_eq_spec(&other.0, epsilon.0, max_ulps)
        &&& self.1.ulps_eq_spec(&other.1, epsilon.1, max_ulps)
        &&& self.2.ulps_eq_spec(&other.2, epsilon.2, max_ulps)
        &&& self.3.ulps_eq_spec(&other.3, epsilon.3, max_ulps)
        &&& self.4.ulps_eq_spec(&other.4, epsilon.4, max_ulps)
        &&& self.5.ulps_eq_spec(&other.5, epsilon.5, max_ulps)
        &&& self.6.ulps_eq_spec(&other.6, epsilon.6, max_ulps)
        &&& self.7.ulps_eq_spec(&other.7, epsilon.7, max_ulps)
        &&& self.8.ulps_eq_spec(&other.8, epsilon.8, max_ulps)
        &&& self.9.ulps_eq_spec(&other.9, epsilon.9, max_ulps)
        &&& self.10.ulps_eq_spec(&other.10, epsilon.10, max_ulps)
        &&& self.11.ulps_eq_spec(&other.11, epsilon.11, max_ulps)
    }

    fn default_max_ulps() -> (r: u32) {
        let m: u32 = 0;
        let m: u32 = larger_u32(m, T0::default_max_ulps());
        let m: u32 = larger_u32(m, T1::default_max_ulps());
        let m: u32 = larger_u32(m, T2::default_max_ulps());
        let m: u32 = larger_u32(m, T3::default_max_ulps());
        let m: u32 = larger_u32(m, T4::default_max_ulps());
        let m: u32 = larger_u32(m, T5::default_max_ulps());
        let m: u32 = larger_u32(m, T6::default_max_ulps());
        let m: u32 = larger_u32(m, T7::default_max_ulps());
        let m: u32 = larger_u32(m, T8::default_max_ulps());
        let m: u32 = larger_u32(m, T9::default_max_ulps());
        let m: u32 = larger_u32(m, T10::default_max_ulps());
        let m: u32 = larger_u32(m, T11::default_max_ulps());
        m
    }

    fn ulps_eq(&self, other: &Self, epsilon: Self::Epsilon, max_ulps: u32) -> (r: bool) {
        self.0.ulps_eq(&other.0, epsilon.0, max_ulps)
            && self.1.ulps_eq(&other.1, epsilon.1, max_ulps)
            && self.2.ulps_eq(&other.2, epsilon.2, max_ulps)
            && self.3.ulps_eq(&other.3, epsilon.3, max_ulps)
            && self.4.ulps_eq(&other.4, epsilon.4, max_ulps)
            && self.5.ulps_eq(&other.5, epsilon.5, max_ulps)
            && self.6.ulps_eq(&other.6, epsilon.6, max_ulps)
            && self.7.ulps_eq(&other.7, epsilon.7, max_ulps)
            && self.8.ulps_eq(&other.8, epsilon.8, max_ulps)
            && self.9.ulps_eq(&other.9, epsilon.9, max_ulps)
            && self.10.ulps_eq(&other.10, epsilon.10, max_ulps)
            && self.11.ulps_eq(&other.11, epsilon.11, max_ulps)
    }
}

} // verus!
