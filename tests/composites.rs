use approxim::{AbsDiffEq, RelativeEq, Relative, Ulps, UlpsEq};
use num_complex::Complex;
use ordered_float::OrderedFloat;
use std::collections::BTreeMap;

#[test]
fn option_values() {
    assert!(Some(1u32).abs_diff_eq(&Some(1u32), 0));
    assert!(!Some(1u32).abs_diff_eq(&Some(2u32), 0));
    assert!(Some(1u32).abs_diff_eq(&Some(2u32), 1));
    assert!(!Some(1u32).abs_diff_eq(&None, 5));
    assert!(!None.abs_diff_eq(&Some(1u32), 5));
    assert!(None::<u32>.abs_diff_eq(&None, 0));
}

#[test]
fn result_values() {
    assert!(Ok::<i32, u8>(1).abs_diff_eq(&Ok(1), (0, 0)));
    assert!(Err::<i32, u8>(1).abs_diff_eq(&Err(1), (0, 0)));
    assert!(!Ok::<i32, u8>(1).abs_diff_eq(&Ok(2), (0, 9)));
    assert!(Ok::<i32, u8>(1).abs_diff_eq(&Ok(2), (1, 0)));
    assert!(!Err::<i32, u8>(1).abs_diff_eq(&Err(2), (9, 0)));
    assert!(Err::<i32, u8>(1).abs_diff_eq(&Err(2), (0, 1)));
    assert!(!Ok::<i32, i32>(1).abs_diff_eq(&Err(1), (9, 9)));
    assert_eq!(<Result<i32, u8>>::default_epsilon(), (0, 0));
}

#[test]
fn reference_values() {
    assert!((&1i16).abs_diff_eq(&&1i16, 0));
    assert!(!(&1i16).abs_diff_eq(&&2i16, 0));
    let mut a = 3u8;
    let mut b = 4u8;
    assert!((&mut a).abs_diff_eq(&&mut b, 1));
}

#[test]
fn sequence_values() {
    let a = vec![1u32, 2];
    assert!(a.abs_diff_eq(&vec![1u32, 2], 0));
    assert!(!a.abs_diff_eq(&vec![2u32, 1], 0));
    assert!(a.abs_diff_eq(&vec![2u32, 1], 1));
    assert!(!a.abs_diff_eq(&vec![1u32, 2, 3], u32::MAX));
    assert!(!vec![1u32, 2, 3].abs_diff_eq(&a, u32::MAX));
    assert!(Vec::<u32>::new().abs_diff_eq(&Vec::new(), 0));
    assert!([1u32, 2][..].abs_diff_eq(&[1u32, 2][..], 0));
    assert!(![1u32, 2][..].abs_diff_eq(&[1u32, 2, 3][..], 100));
    assert!([1i64, 2].abs_diff_eq(&[1i64, 2], 0));
    assert!(![1i64, 2].abs_diff_eq(&[2i64, 1], 0));
}

#[test]
fn tuple_values() {
    assert!((1u8, -2i32).abs_diff_eq(&(2u8, -2i32), (1, 0)));
    assert!(!(1u8, -2i32).abs_diff_eq(&(2u8, -2i32), (0, 5)));
    assert_eq!(<(u8, i32, usize)>::default_epsilon(), (0, 0, 0));
}

#[test]
fn complex_values() {
    assert!(Complex::new(1i32, 2).abs_diff_eq(&Complex::new(1, 2), 0));
    assert!(!Complex::new(1i32, 2).abs_diff_eq(&Complex::new(2, 1), 0));
    assert!(Complex::new(1i32, 2).abs_diff_eq(&Complex::new(2, 1), 1));
    assert!(!Complex::new(1i32, 5).abs_diff_eq(&Complex::new(1, 1), 1));
}

#[test]
fn ordered_wrapper_values() {
    assert!(OrderedFloat(1u32).abs_diff_eq(&OrderedFloat(1u32), 0));
    assert!(!OrderedFloat(1u32).abs_diff_eq(&OrderedFloat(2u32), 0));
    assert!(OrderedFloat(1u32).abs_diff_eq(&1u32, 0));
    assert!(OrderedFloat(1u32).abs_diff_ne(&2u32, 0));
}

#[test]
fn unit_values_under_every_strategy() {
    assert!(().relative_eq(&(), (), ()));
    assert!(!().relative_ne(&(), (), ()));
    assert!(().ulps_eq(&(), (), 0));
    assert!(Some(()).ulps_eq(&Some(()), (), 4));
    assert!(!Some(()).ulps_eq(&None, (), 4));
    assert!(vec![(), ()].relative_eq(&vec![(), ()], (), ()));
    assert!(!vec![()].ulps_eq(&vec![(), ()], (), 100));
    assert_eq!(<()>::default_max_ulps(), 0);
}

#[test]
fn relative_and_ulps_parameters() {
    assert!(Relative::<()>::default().eq(&(), &()));
    assert!(!Relative::<()>::default().ne(&(), &()));
    assert!(Relative::<Vec<()>>::default().epsilon(()).max_relative(()).ne(&vec![()], &vec![]));
    let u: Ulps<Option<()>> = Ulps::default();
    assert_eq!(u.max_ulps, 0);
    let u = u.max_ulps(7);
    assert_eq!(u.max_ulps, 7);
    assert!(u.eq(&Some(()), &Some(())));
    assert!(Ulps::<Option<()>>::default().epsilon(()).ne(&Some(()), &None));
}

#[test]
fn map_values_ignore_insertion_order() {
    let mut a = BTreeMap::new();
    a.insert(1u64, 10u32);
    a.insert(2u64, 20u32);
    let mut b = BTreeMap::new();
    b.insert(2u64, 21u32);
    b.insert(1u64, 10u32);
    assert!(a.abs_diff_eq(&b, 1));
    assert!(b.abs_diff_eq(&a, 1));
    assert!(!a.abs_diff_eq(&b, 0));
}

#[test]
fn map_values_need_the_same_keys_and_size() {
    let mut a = BTreeMap::new();
    a.insert(1i32, 10u8);
    a.insert(2i32, 20u8);
    let mut b = BTreeMap::new();
    b.insert(1i32, 10u8);
    b.insert(3i32, 20u8);
    assert!(!a.abs_diff_eq(&b, u8::MAX));
    let mut c = a.clone();
    c.insert(3i32, 30u8);
    assert!(!a.abs_diff_eq(&c, u8::MAX));
    assert!(!c.abs_diff_eq(&a, u8::MAX));
    assert!(BTreeMap::<u8, u8>::new().abs_diff_eq(&BTreeMap::new(), 0));
}

#[test]
fn map_values_under_every_strategy() {
    let mut a = BTreeMap::new();
    a.insert(5usize, Some(()));
    let mut b = BTreeMap::new();
    b.insert(5usize, Some(()));
    assert!(a.relative_eq(&b, (), ()));
    assert!(a.ulps_eq(&b, (), 4));
    b.insert(5usize, None);
    assert!(a.relative_ne(&b, (), ()));
    assert!(a.ulps_ne(&b, (), 4));
}
