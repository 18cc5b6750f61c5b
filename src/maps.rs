//! The three capabilities on ordered maps. Two maps are equal when they have as
//! many entries, and every key of the first is a key of the second with an equal
//! value; the order in which entries were inserted plays no part.
use vstd::prelude::*;

use std::collections::BTreeMap;
use vstd::laws_cmp::obeys_cmp;

use crate::abs_diff_eq::AbsDiffEq;
use crate::relative_eq::RelativeEq;
use crate::ulps_eq::UlpsEq;

verus! {

broadcast use vstd::std_specs::btree::group_btree_axioms;

/// A key type whose ordering is a total order that agrees with its equality.
pub trait OrderedKey: Ord + Sized {
    /// The ordering of the type is a lawful total order.
    proof fn lemma_obeys_cmp()
        ensures
            obeys_cmp::<Self>(),
    ;
}

impl OrderedKey for u8 {
    proof fn lemma_obeys_cmp() {
        broadcast use vstd::laws_cmp::group_laws_cmp;

    }
}

impl OrderedKey for u16 {
    proof fn lemma_obeys_cmp() {
        broadcast use vstd::laws_cmp::group_laws_cmp;

    }
}

impl OrderedKey for u32 {
    proof fn lemma_obeys_cmp() {
        broadcast use vstd::laws_cmp::group_laws_cmp;

    }
}

impl OrderedKey for u64 {
    proof fn lemma_obeys_cmp() {
        broadcast use vstd::laws_cmp::group_laws_cmp;

    }
}

impl OrderedKey for u128 {
    proof fn lemma_obeys_cmp() {
        broadcast use vstd::laws_cmp::group_laws_cmp;

    }
}

impl OrderedKey for usize {
    proof fn lemma_obeys_cmp() {
        broadcast use vstd::laws_cmp::group_laws_cmp;

    }
}

impl OrderedKey for i8 {
    proof fn lemma_obeys_cmp() {
        broadcast use vstd::laws_cmp::group_laws_cmp;

    }
}

impl OrderedKey for i16 {
    proof fn lemma_obeys_cmp() {
        broadcast use vstd::laws_cmp::group_laws_cmp;

    }
}

impl OrderedKey for i32 {
    proof fn lemma_obeys_cmp() {
        broadcast use vstd::laws_cmp::group_laws_cmp;

    }
}

impl OrderedKey for i64 {
    proof fn lemma_obeys_cmp() {
        broadcast use vstd::laws_cmp::group_laws_cmp;

    }
}

impl OrderedKey for i128 {
    proof fn lemma_obeys_cmp() {
        broadcast use vstd::laws_cmp::group_laws_cmp;

    }
}

impl OrderedKey for isize {
    proof fn lemma_obeys_cmp() {
        broadcast use vstd::laws_cmp::group_laws_cmp;

    }
}

/// When two maps have as many entries and every entry of `a` has its key in `b`
/// with a value related to it by `related`.
pub open spec fn maps_correspond<K, V1, V2>(
    a: Map<K, V1>,
    b: Map<K, V2>,
    related: spec_fn(V1, V2) -> bool,
) -> bool {
    &&& a.len() == b.len()
    &&& forall|k: K| #[trigger] a.contains_key(k) ==> b.contains_key(k) && related(a[k], b[k])
}

impl<K: OrderedKey, V1: AbsDiffEq<V2>, V2> AbsDiffEq<BTreeMap<K, V2>> for BTreeMap<K, V1>
where
    V1::Epsilon: Copy,
{
    type Epsilon = V1::Epsilon;

    open spec fn default_epsilon_spec() -> V1::Epsilon {
        V1::default_epsilon_spec()
    }

    open spec fn abs_diff_eq_spec(&self, other: &BTreeMap<K, V2>, epsilon: V1::Epsilon) -> bool {
        maps_correspond(self@, other@, |x: V1, y: V2| x.abs_diff_eq_spec(&y, epsilon))
    }

    fn default_epsilon() -> (r: V1::Epsilon) {
        V1::default_epsilon()
    }

    fn abs_diff_eq(&self, other: &BTreeMap<K, V2>, epsilon: V1::Epsilon) -> (r: bool) {
        proof {
            K::lemma_obeys_cmp();
        }
        // Equal sizes first: looking up the keys of `self` alone says nothing of
        // keys that only `other` has.
        if self.len() != other.len() {
            return false;
        }
        for (k, v) in it: self.iter()
            invariant
                obeys_cmp::<K>(),
                self@.len() == other@.len(),
                forall|i: int|
                    0 <= i < it.seq().len() ==> self@.contains_key(*(#[trigger] it.seq()[i]).0)
                        && self@[*it.seq()[i].0] == *it.seq()[i].1,
                forall|i: int|
                    0 <= i < it.index() ==> {
                        let (ki, vi) = #[trigger] it.seq()[i];
                        other@.contains_key(*ki) && (*vi).abs_diff_eq_spec(&other@[*ki], epsilon)
                    },
        {
            proof {
                assert(it.seq()[it.index() as int] == (k, v));
            }
            match other.get(k) {
                Some(w) => {
                    if !v.abs_diff_eq(w, epsilon) {
                        return false;
                    }
                },
                None => {
                    return false;
                },
            }
        }
        true
    }
}

impl<K: OrderedKey, V1: RelativeEq<V2>, V2> RelativeEq<BTreeMap<K, V2>> for BTreeMap<K, V1>
where
    V1::Epsilon: Copy,
{
    open spec fn default_max_relative_spec() -> V1::Epsilon {
        V1::default_max_relative_spec()
    }

    open spec fn relative_eq_spec(
        &self,
        other: &BTreeMap<K, V2>,
        epsilon: V1::Epsilon,
        max_relative: V1::Epsilon,
    ) -> bool {
        maps_correspond(self@, other@, |x: V1, y: V2| x.relative_eq_spec(&y, epsilon, max_relative))
    }

    fn default_max_relative() -> (r: V1::Epsilon) {
        V1::default_max_relative()
    }

    fn relative_eq(
        &self,
        other: &BTreeMap<K, V2>,
        epsilon: V1::Epsilon,
        max_relative: V1::Epsilon,
    ) -> (r: bool) {
        proof {
            K::lemma_obeys_cmp();
        }
        // Equal sizes first: looking up the keys of `self` alone says nothing of
        // keys that only `other` has.
        if self.len() != other.len() {
            return false;
        }
        for (k, v) in it: self.iter()
            invariant
                obeys_cmp::<K>(),
                self@.len() == other@.len(),
                forall|i: int|
                    0 <= i < it.seq().len() ==> self@.contains_key(*(#[trigger] it.seq()[i]).0)
                        && self@[*it.seq()[i].0] == *it.seq()[i].1,
                forall|i: int|
                    0 <= i < it.index() ==> {
                        let (ki, vi) = #[trigger] it.seq()[i];
                        other@.contains_key(*ki)
                            && (*vi).relative_eq_spec(&other@[*ki], epsilon, max_relative)
                    },
        {
            proof {
                assert(it.seq()[it.index() as int] == (k, v));
            }
            match other.get(k) {
                Some(w) => {
                    if !v.relative_eq(w, epsilon, max_relative) {
                        return false;
                    }
                },
                None => {
                    return false;
                },
            }
        }
        true
    }
}

impl<K: OrderedKey, V1: UlpsEq<V2>, V2> UlpsEq<BTreeMap<K, V2>> for BTreeMap<K, V1>
where
    V1::Epsilon: Copy,
{
    open spec fn default_max_ulps_spec() -> u32 {
        V1::default_max_ulps_spec()
    }

    open spec fn ulps_eq_spec(
        &self,
        other: &BTreeMap<K, V2>,
        epsilon: V1::Epsilon,
        max_ulps: u32,
    ) -> bool {
        maps_correspond(self@, other@, |x: V1, y: V2| x.ulps_eq_spec(&y, epsilon, max_ulps))
    }

    fn default_max_ulps() -> (r: u32) {
        V1::default_max_ulps()
    }

    fn ulps_eq(&self, other: &BTreeMap<K, V2>, epsilon: V1::Epsilon, max_ulps: u32) -> (r: bool) {
        proof {
            K::lemma_obeys_cmp();
        }
        // Equal sizes first: looking up the keys of `self` alone says nothing of
        // keys that only `other` has.
        if self.len() != other.len() {
            return false;
        }
        for (k, v) in it: self.iter()
            invariant
                obeys_cmp::<K>(),
                self@.len() == other@.len(),
                forall|i: int|
                    0 <= i < it.seq().len() ==> self@.contains_key(*(#[trigger] it.seq()[i]).0)
                        && self@[*it.seq()[i].0] == *it.seq()[i].1,
                forall|i: int|
                    0 <= i < it.index() ==> {
                        let (ki, vi) = #[trigger] it.seq()[i];
                        other@.contains_key(*ki)
                            && (*vi).ulps_eq_spec(&other@[*ki], epsilon, max_ulps)
                    },
        {
            proof {
                assert(it.seq()[it.index() as int] == (k, v));
            }
            match other.get(k) {
                Some(w) => {
                    if !v.ulps_eq(w, epsilon, max_ulps) {
                        return false;
                    }
                },
                None => {
                    return false;
                },
            }
        }
        true
    }
}

} // verus!
