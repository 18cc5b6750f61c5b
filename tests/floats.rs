use approxim::{AbsDiffEq, Binary32, Binary64, Relative, RelativeEq, Ulps, UlpsEq};
use num_complex::Complex;
use ordered_float::OrderedFloat;
use std::collections::BTreeMap;

fn s(x: f32) -> Binary32 {
    Binary32::from_bits(x.to_bits())
}

fn d(x: f64) -> Binary64 {
    Binary64::from_bits(x.to_bits())
}

#[test]
fn option_test_basic() {
    let e = Binary32::default_epsilon();
    assert!(Some(s(1.0)).abs_diff_eq(&Some(s(1.0)), e));
    assert!(Some(s(1.0)).abs_diff_ne(&Some(s(2.0)), e));
    assert!(Some(s(1.0)).abs_diff_ne(&None, e));
    assert!(None::<Binary32>.abs_diff_eq(&None, e));
    let e = Binary64::default_epsilon();
    assert!(Some(d(1.0)).abs_diff_eq(&Some(d(1.0)), e));
    assert!(Some(d(1.0)).abs_diff_ne(&Some(d(2.0)), e));
    assert!(Some(d(1.0)).abs_diff_ne(&None, e));
}

#[test]
fn result_test_basic() {
    let e = <Result<Binary32, Binary32>>::default_epsilon();
    assert!(Ok::<Binary32, Binary32>(s(1.0)).abs_diff_eq(&Ok(s(1.0)), e));
    assert!(Err::<Binary32, Binary32>(s(1.0)).abs_diff_eq(&Err(s(1.0)), e));
    assert!(Ok::<Binary32, Binary32>(s(1.0)).abs_diff_ne(&Ok(s(2.0)), e));
    assert!(Ok::<Binary32, Binary32>(s(1.0)).abs_diff_ne(&Err(s(1.0)), e));
    assert!(Err::<Binary32, Binary32>(s(1.0)).abs_diff_ne(&Err(s(2.0)), e));
    let e = <Result<Binary64, Binary64>>::default_epsilon();
    assert!(Ok::<Binary64, Binary64>(d(1.0)).abs_diff_eq(&Ok(d(1.0)), e));
    assert!(Err::<Binary64, Binary64>(d(1.0)).abs_diff_eq(&Err(d(1.0)), e));
    assert!(Ok::<Binary64, Binary64>(d(1.0)).abs_diff_ne(&Ok(d(2.0)), e));
    assert!(Ok::<Binary64, Binary64>(d(1.0)).abs_diff_ne(&Err(d(1.0)), e));
    assert!(Err::<Binary64, Binary64>(d(1.0)).abs_diff_ne(&Err(d(2.0)), e));
}

#[test]
fn ref_test_basic() {
    let e = Binary32::default_epsilon();
    assert!((&s(1.0)).abs_diff_eq(&&s(1.0), e));
    assert!((&s(1.0)).abs_diff_ne(&&s(2.0), e));
    let e = Binary64::default_epsilon();
    assert!((&d(1.0)).abs_diff_eq(&&d(1.0), e));
    assert!((&d(1.0)).abs_diff_ne(&&d(2.0), e));
}

#[test]
fn slice_and_array_test_basic() {
    let e = Binary32::default_epsilon();
    assert!([s(1.0), s(2.0)][..].abs_diff_eq(&[s(1.0), s(2.0)][..], e));
    assert!([s(1.0), s(2.0)][..].abs_diff_ne(&[s(2.0), s(1.0)][..], e));
    assert!([s(1.0), s(2.0)].abs_diff_eq(&[s(1.0), s(2.0)], e));
    assert!([s(1.0), s(2.0)].abs_diff_ne(&[s(2.0), s(1.0)], e));
    let e = Binary64::default_epsilon();
    assert!([d(1.0), d(2.0)][..].abs_diff_eq(&[d(1.0), d(2.0)][..], e));
    assert!([d(1.0), d(2.0)][..].abs_diff_ne(&[d(2.0), d(1.0)][..], e));
    assert!([d(1.0), d(2.0)].abs_diff_eq(&[d(1.0), d(2.0)], e));
    assert!([d(1.0), d(2.0)].abs_diff_ne(&[d(2.0), d(1.0)], e));
}

#[test]
fn sequences_of_different_lengths_differ() {
    let a = vec![d(1.0), d(2.0)];
    let b = vec![d(1.0), d(2.0), d(3.0)];
    assert!(a.abs_diff_ne(&b, d(f64::MAX)));
    assert!(a.relative_ne(&b, d(f64::MAX), d(f64::MAX)));
    assert!(a.ulps_ne(&b, d(f64::MAX), u32::MAX));
}

#[test]
fn complex_test_basic() {
    let e = Binary32::default_epsilon();
    assert!(Complex::new(s(1.0), s(2.0)).abs_diff_eq(&Complex::new(s(1.0), s(2.0)), e));
    assert!(Complex::new(s(1.0), s(2.0)).abs_diff_ne(&Complex::new(s(2.0), s(1.0)), e));
    let e = Binary64::default_epsilon();
    assert!(Complex::new(d(1.0), d(2.0)).abs_diff_eq(&Complex::new(d(1.0), d(2.0)), e));
    assert!(Complex::new(d(1.0), d(2.0)).abs_diff_ne(&Complex::new(d(2.0), d(1.0)), e));
}

#[test]
fn ordered_float_test_basic() {
    let e = Binary32::default_epsilon();
    assert!(OrderedFloat(s(1.0)).abs_diff_eq(&OrderedFloat(s(1.0)), e));
    assert!(OrderedFloat(s(1.0)).abs_diff_ne(&OrderedFloat(s(2.0)), e));
    assert!(OrderedFloat(s(1.0)).abs_diff_eq(&s(1.0), e));
    assert!(OrderedFloat(s(1.0)).abs_diff_ne(&s(2.0), e));
    let e = Binary64::default_epsilon();
    assert!(OrderedFloat(d(1.0)).abs_diff_eq(&OrderedFloat(d(1.0)), e));
    assert!(OrderedFloat(d(1.0)).abs_diff_ne(&OrderedFloat(d(2.0)), e));
    assert!(OrderedFloat(d(1.0)).abs_diff_eq(&d(1.0), e));
    assert!(OrderedFloat(d(1.0)).abs_diff_ne(&d(2.0), e));
}

#[test]
fn maps_of_floats_ignore_insertion_order() {
    let mut a = BTreeMap::new();
    a.insert(1u32, d(1.0));
    a.insert(2u32, d(2.0));
    let mut b = BTreeMap::new();
    b.insert(2u32, d(2.0 + f64::EPSILON));
    b.insert(1u32, d(1.0));
    assert!(a.abs_diff_eq(&b, Binary64::default_epsilon()));
    assert!(a.relative_eq(&b, Binary64::default_epsilon(), Binary64::default_max_relative()));
}

#[test]
fn relative_examples() {
    let r = Relative::<Binary64>::default();
    assert!(r.eq(&d(1.0), &d(1.0)));
    assert!(Relative::<Binary64>::default().ne(&d(1.0), &d(1.1)));
    assert!(Relative::<Binary64>::default().max_relative(d(0.1)).eq(&d(1.0), &d(1.1)));
    assert!(Relative::<Binary64>::default().max_relative(d(0.1)).eq(&d(1.1), &d(1.0)));
    assert!(Relative::<Binary64>::default().max_relative(d(0.1)).ne(&d(1.0), &d(1.2)));
    assert!(Relative::<Binary64>::default().max_relative(d(1e-5)).ne(&d(0.0), &d(1e-6)));
    assert!(Relative::<Binary64>::default()
        .epsilon(d(1e-5))
        .max_relative(d(1e-5))
        .eq(&d(0.0), &d(1e-6)));
    assert!(Relative::<Binary32>::default().max_relative(s(0.34)).eq(&s(1.0), &s(1.5)));
    assert!(Relative::<Binary32>::default().max_relative(s(0.33)).ne(&s(1.0), &s(1.5)));
}

#[test]
fn relative_infinities() {
    let e = Binary64::default_epsilon();
    assert!(d(f64::INFINITY).relative_eq(&d(f64::INFINITY), e, e));
    assert!(d(f64::NEG_INFINITY).relative_eq(&d(f64::NEG_INFINITY), e, e));
    assert!(d(f64::INFINITY).relative_ne(&d(f64::NEG_INFINITY), e, e));
    assert!(d(f64::INFINITY).relative_ne(&d(f64::MAX), d(f64::MAX), d(f64::MAX)));
}

#[test]
fn relative_is_commutative_on_examples() {
    let e = Binary64::default_epsilon();
    for (a, b) in [(1.0, 1.1), (1e-300, 2e-300), (-3.0, 3.0), (100.0, 100.00000000000001)] {
        for m in [1e-16, 0.05, 0.1, 1.0] {
            assert_eq!(d(a).relative_eq(&d(b), e, d(m)), d(b).relative_eq(&d(a), e, d(m)));
        }
    }
}

#[test]
fn ulps_examples() {
    assert!(Ulps::<Binary64>::default().eq(&d(1.0), &d(1.0 + 1e-17)));
    assert!(Ulps::<Binary64>::default().eq(&d(1.0), &d(1.0 + 1e-16)));
    assert!(Ulps::<Binary64>::default().ne(&d(1.0), &d(1.0 + 1e-15)));
    assert!(Ulps::<Binary64>::default().max_ulps(5).eq(&d(1.0), &d(1.0 + 1e-15)));
    assert!(Ulps::<Binary32>::default().eq(&s(1.0), &s(1.0 + 1e-17)));
    assert_eq!(Binary32::default_max_ulps(), 4);
}

#[test]
fn nan_is_equal_to_nothing() {
    for x in [f64::NAN, 0.0, -0.0, 1.0, f64::INFINITY, f64::MAX] {
        let e = d(f64::MAX);
        assert!(d(f64::NAN).abs_diff_ne(&d(x), e));
        assert!(d(x).abs_diff_ne(&d(f64::NAN), e));
        assert!(d(f64::NAN).relative_ne(&d(x), e, e));
        assert!(d(x).relative_ne(&d(f64::NAN), e, e));
        assert!(d(f64::NAN).ulps_ne(&d(x), e, u32::MAX));
        assert!(s(f32::NAN).ulps_ne(&s(x as f32), s(f32::MAX), u32::MAX));
    }
}

#[test]
fn signed_zeros_are_equal() {
    let zero = d(0.0);
    assert!(d(0.0).abs_diff_eq(&d(-0.0), zero));
    assert!(d(0.0).relative_eq(&d(-0.0), zero, zero));
    assert!(d(0.0).ulps_eq(&d(-0.0), zero, 0));
    assert!(s(-0.0).ulps_eq(&s(0.0), s(0.0), 4));
}

#[test]
fn default_epsilon_scenario() {
    let e = Binary64::default_epsilon();
    assert!(d(1.0).abs_diff_ne(&d(1.0 + 2.0 * f64::EPSILON), e));
    assert!(d(1.0).abs_diff_eq(&d(1.0 + 2.0 * f64::EPSILON), d(2.0 * f64::EPSILON)));
    assert_eq!(Binary64::default_epsilon().to_bits(), f64::EPSILON.to_bits());
    assert_eq!(Binary32::default_epsilon().to_bits(), f32::EPSILON.to_bits());
}
