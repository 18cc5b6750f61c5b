//! Laws of the comparisons, proved over their specifications.
use vstd::prelude::*;

use std::collections::BTreeMap;

use crate::abs_diff_eq::AbsDiffEq;
use crate::bits::{within_ulps_bits32_spec, within_ulps_bits64_spec, is_nan_bits32, is_nan_bits64};
use crate::maps::OrderedKey;
use crate::relative_eq::RelativeEq;
use crate::ulps_eq::UlpsEq;

verus! {

/// Every signed integer equals itself under any non-negative tolerance.
pub proof fn lemma_abs_diff_reflexive_i64(a: i64, epsilon: i64)
    requires
        epsilon >= 0,
    ensures
        a.abs_diff_eq_spec(&a, epsilon),
{
}

/// Every unsigned integer equals itself under any tolerance.
pub proof fn lemma_abs_diff_reflexive_u64(a: u64, epsilon: u64)
    ensures
        a.abs_diff_eq_spec(&a, epsilon),
{
}

/// A NaN encoding is within no number of ULPs of any encoding, itself included.
pub proof fn lemma_nan_never_within_ulps_bits32(a: u32, b: u32, max_ulps: u32)
    requires
        is_nan_bits32(a) || is_nan_bits32(b),
    ensures
        !within_ulps_bits32_spec(a, b, max_ulps),
        !within_ulps_bits32_spec(b, a, max_ulps),
{
}

/// A NaN encoding is within no number of ULPs of any encoding, itself included.
pub proof fn lemma_nan_never_within_ulps_bits64(a: u64, b: u64, max_ulps: u32)
    requires
        is_nan_bits64(a) || is_nan_bits64(b),
    ensures
        !within_ulps_bits64_spec(a, b, max_ulps),
        !within_ulps_bits64_spec(b, a, max_ulps),
{
}

/// The encodings of positive and negative zero are within no number of ULPs of
/// each other: the sign check rejects them, so only the absolute-difference
/// short cut can make the two zeros equal.
pub proof fn lemma_signed_zeros_fail_ulps_step(max_ulps: u32)
    ensures
        !within_ulps_bits32_spec(0, 0x8000_0000, max_ulps),
        !within_ulps_bits64_spec(0, 0x8000_0000_0000_0000, max_ulps),
{
}

/// Sequences of different lengths are never equal by absolute difference,
/// whatever the tolerance.
pub proof fn lemma_abs_diff_lengths_differ<A: AbsDiffEq<B>, B>(
    a: Vec<A>,
    b: Vec<B>,
    epsilon: A::Epsilon,
)
    where
        A::Epsilon: Copy,
    requires
        a@.len() != b@.len(),
    ensures
        !a.abs_diff_eq_spec(&b, epsilon),
{
}

/// Sequences of different lengths are never equal by relative difference,
/// whatever the tolerances.
pub proof fn lemma_relative_lengths_differ<A: RelativeEq<B>, B>(
    a: Vec<A>,
    b: Vec<B>,
    epsilon: A::Epsilon,
    max_relative: A::Epsilon,
)
    where
        A::Epsilon: Copy,
    requires
        a@.len() != b@.len(),
    ensures
        !a.relative_eq_spec(&b, epsilon, max_relative),
{
}

/// Sequences of different lengths are never equal by ULPs, whatever the
/// tolerances.
pub proof fn lemma_ulps_lengths_differ<A: UlpsEq<B>, B>(
    a: Vec<A>,
    b: Vec<B>,
    epsilon: A::Epsilon,
    max_ulps: u32,
)
    where
        A::Epsilon: Copy,
    requires
        a@.len() != b@.len(),
    ensures
        !a.ulps_eq_spec(&b, epsilon, max_ulps),
{
}

/// By absolute difference, two absent values are equal, an absent value never
/// equals a present one, and two present values are equal exactly when their
/// contents are.
pub proof fn lemma_abs_diff_option<T: AbsDiffEq>(x: T, y: T, epsilon: T::Epsilon)
    ensures
        None::<T>.abs_diff_eq_spec(&None, epsilon),
        !Some(x).abs_diff_eq_spec(&None, epsilon),
        !None.abs_diff_eq_spec(&Some(x), epsilon),
        Some(x).abs_diff_eq_spec(&Some(y), epsilon) == x.abs_diff_eq_spec(&y, epsilon),
{
}

/// By relative difference, two absent values are equal, an absent value never
/// equals a present one, and two present values are equal exactly when their
/// contents are.
pub proof fn lemma_relative_option<T: RelativeEq>(
    x: T,
    y: T,
    epsilon: T::Epsilon,
    max_relative: T::Epsilon,
)
    ensures
        None::<T>.relative_eq_spec(&None, epsilon, max_relative),
        !Some(x).relative_eq_spec(&None, epsilon, max_relative),
        !None.relative_eq_spec(&Some(x), epsilon, max_relative),
        Some(x).relative_eq_spec(&Some(y), epsilon, max_relative) == x.relative_eq_spec(
            &y,
            epsilon,
            max_relative,
        ),
{
}

/// By ULPs, two absent values are equal, an absent value never equals a present
/// one, and two present values are equal exactly when their contents are.
pub proof fn lemma_ulps_option<T: UlpsEq>(x: T, y: T, epsilon: T::Epsilon, max_ulps: u32)
    ensures
        None::<T>.ulps_eq_spec(&None, epsilon, max_ulps),
        !Some(x).ulps_eq_spec(&None, epsilon, max_ulps),
        !None.ulps_eq_spec(&Some(x), epsilon, max_ulps),
        Some(x).ulps_eq_spec(&Some(y), epsilon, max_ulps) == x.ulps_eq_spec(&y, epsilon, max_ulps),
{
}

/// Two maps of equal size, where every key of the first is a key of the second
/// with an equal value, are equal by absolute difference.
pub proof fn lemma_abs_diff_maps_equal<K: OrderedKey, V1: AbsDiffEq<V2>, V2>(
    a: BTreeMap<K, V1>,
    b: BTreeMap<K, V2>,
    epsilon: V1::Epsilon,
)
    where
        V1::Epsilon: Copy,
    requires
        a@.len() == b@.len(),
        forall|k: K|
            #[trigger] a@.contains_key(k) ==> b@.contains_key(k) && a@[k].abs_diff_eq_spec(
                &b@[k],
                epsilon,
            ),
    ensures
        a.abs_diff_eq_spec(&b, epsilon),
{
}

/// Maps with the same entries compare alike by absolute difference, whatever
/// the order in which their entries were inserted.
pub proof fn lemma_abs_diff_maps_ignore_order<K: OrderedKey, V1: AbsDiffEq<V2>, V2>(
    a1: BTreeMap<K, V1>,
    a2: BTreeMap<K, V1>,
    b: BTreeMap<K, V2>,
    epsilon: V1::Epsilon,
)
    where
        V1::Epsilon: Copy,
    requires
        a1@ == a2@,
    ensures
        a1.abs_diff_eq_spec(&b, epsilon) == a2.abs_diff_eq_spec(&b, epsilon),
{
}

/// Inserting two different keys into a map in either order gives the same entries.
pub proof fn lemma_insertion_order_irrelevant<K, V>(m: Map<K, V>, k1: K, v1: V, k2: K, v2: V)
    requires
        k1 != k2,
    ensures
        m.insert(k1, v1).insert(k2, v2) == m.insert(k2, v2).insert(k1, v1),
{
    assert(m.insert(k1, v1).insert(k2, v2) =~= m.insert(k2, v2).insert(k1, v1));
}

/// Two maps of equal size, where every key of the first is a key of the second
/// with an equal value, are equal by relative difference.
pub proof fn lemma_relative_maps_equal<K: OrderedKey, V1: RelativeEq<V2>, V2>(
    a: BTreeMap<K, V1>,
    b: BTreeMap<K, V2>,
    epsilon: V1::Epsilon,
    max_relative: V1::Epsilon,
)
    where
        V1::Epsilon: Copy,
    requires
        a@.len() == b@.len(),
        forall|k: K|
            #[trigger] a@.contains_key(k) ==> b@.contains_key(k) && a@[k].relative_eq_spec(
                &b@[k],
                epsilon,
                max_relative,
            ),
    ensures
        a.relative_eq_spec(&b, epsilon, max_relative),
{
}

/// Two maps of equal size, where every key of the first is a key of the second
/// with an equal value, are equal by ULPs.
pub proof fn lemma_ulps_maps_equal<K: OrderedKey, V1: UlpsEq<V2>, V2>(
    a: BTreeMap<K, V1>,
    b: BTreeMap<K, V2>,
    epsilon: V1::Epsilon,
    max_ulps: u32,
)
    where
        V1::Epsilon: Copy,
    requires
        a@.len() == b@.len(),
        forall|k: K|
            #[trigger] a@.contains_key(k) ==> b@.contains_key(k) && a@[k].ulps_eq_spec(
                &b@[k],
                epsilon,
                max_ulps,
            ),
    ensures
        a.ulps_eq_spec(&b, epsilon, max_ulps),
{
}

/// Maps of different sizes are never equal by absolute difference.
pub proof fn lemma_abs_diff_maps_sizes_differ<K: OrderedKey, V1: AbsDiffEq<V2>, V2>(
    a: BTreeMap<K, V1>,
    b: BTreeMap<K, V2>,
    epsilon: V1::Epsilon,
)
    where
        V1::Epsilon: Copy,
    requires
        a@.len() != b@.len(),
    ensures
        !a.abs_diff_eq_spec(&b, epsilon),
{
}

} // verus!
