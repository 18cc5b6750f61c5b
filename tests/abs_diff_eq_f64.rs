use approxim::{AbsDiffEq, Binary64};

const EPSILON: f64 = f64::EPSILON;

fn value(x: f64) -> Binary64 {
    Binary64::from_bits(x.to_bits())
}

fn eq(a: f64, b: f64) -> bool {
    value(a).abs_diff_eq(&value(b), Binary64::default_epsilon())
}

fn ne(a: f64, b: f64) -> bool {
    value(a).abs_diff_ne(&value(b), Binary64::default_epsilon())
}

fn eq_eps(a: f64, b: f64, epsilon: f64) -> bool {
    value(a).abs_diff_eq(&value(b), value(epsilon))
}

fn ne_eps(a: f64, b: f64, epsilon: f64) -> bool {
    value(a).abs_diff_ne(&value(b), value(epsilon))
}

#[test]
fn abs_diff_eq_test_basic() {
    assert!(eq(1.0f64, 1.0f64));
    assert!(ne(1.0f64, 2.0f64));
}

#[test]
fn abs_diff_eq_test_big() {
    assert!(eq(10000000000000000.0f64, 10000000000000001.0f64));
    assert!(eq(10000000000000001.0f64, 10000000000000000.0f64));
    assert!(ne(1000000000000000.0f64, 1000000000000001.0f64));
    assert!(ne(1000000000000001.0f64, 1000000000000000.0f64));
}

#[test]
fn abs_diff_eq_test_big_neg() {
    assert!(eq(-10000000000000000.0f64, -10000000000000001.0f64));
    assert!(eq(-10000000000000001.0f64, -10000000000000000.0f64));
    assert!(ne(-1000000000000000.0f64, -1000000000000001.0f64));
    assert!(ne(-1000000000000001.0f64, -1000000000000000.0f64));
}

#[test]
fn abs_diff_eq_test_mid() {
    assert!(eq(1.0000000000000001f64, 1.0000000000000002f64));
    assert!(eq(1.0000000000000002f64, 1.0000000000000001f64));
    assert!(ne(1.000000000000001f64, 1.000000000000002f64));
    assert!(ne(1.000000000000002f64, 1.000000000000001f64));
}

#[test]
fn abs_diff_eq_test_mid_neg() {
    assert!(eq(-1.0000000000000001f64, -1.0000000000000002f64));
    assert!(eq(-1.0000000000000002f64, -1.0000000000000001f64));
    assert!(ne(-1.000000000000001f64, -1.000000000000002f64));
    assert!(ne(-1.000000000000002f64, -1.000000000000001f64));
}

#[test]
fn abs_diff_eq_test_small() {
    assert!(eq(0.0000000100000001f64, 0.0000000100000002f64));
    assert!(eq(0.0000000100000002f64, 0.0000000100000001f64));
    assert!(ne(0.0000000100000001f64, 0.0000000010000002f64));
    assert!(ne(0.0000000100000002f64, 0.0000000010000001f64));
}

#[test]
fn abs_diff_eq_test_small_neg() {
    assert!(eq(-0.0000000100000001f64, -0.0000000100000002f64));
    assert!(eq(-0.0000000100000002f64, -0.0000000100000001f64));
    assert!(ne(-0.0000000100000001f64, -0.0000000010000002f64));
    assert!(ne(-0.0000000100000002f64, -0.0000000010000001f64));
}

#[test]
fn abs_diff_eq_test_zero() {
    assert!(eq(0.0f64, 0.0f64));
    assert!(eq(0.0f64, -0.0f64));
    assert!(eq(-0.0f64, -0.0f64));

    assert!(ne(0.000000000000001f64, 0.0f64));
    assert!(ne(0.0f64, 0.000000000000001f64));
    assert!(ne(-0.000000000000001f64, 0.0f64));
    assert!(ne(0.0f64, -0.000000000000001f64));
}

#[test]
fn abs_diff_eq_test_epsilon() {
    assert!(eq_eps(0.0f64, 1e-40f64, 1e-40f64));
    assert!(eq_eps(1e-40f64, 0.0f64, 1e-40f64));
    assert!(eq_eps(0.0f64, -1e-40f64, 1e-40f64));
    assert!(eq_eps(-1e-40f64, 0.0f64, 1e-40f64));

    assert!(ne_eps(1e-40f64, 0.0f64, 1e-41f64));
    assert!(ne_eps(0.0f64, 1e-40f64, 1e-41f64));
    assert!(ne_eps(-1e-40f64, 0.0f64, 1e-41f64));
    assert!(ne_eps(0.0f64, -1e-40f64, 1e-41f64));
}

#[test]
fn abs_diff_eq_test_default_epsilon() {
    assert!(eq(1.0, 1.0 + EPSILON));
    assert!(ne(1.0, 1.0 + EPSILON + EPSILON));
    assert!(eq_eps(1.0, 1.0 + EPSILON + EPSILON, EPSILON + EPSILON));
    assert!(eq(1.0, 1.0 - EPSILON));
    assert!(ne(1.0, 1.0 - EPSILON - EPSILON));
    assert!(eq_eps(1.0, 1.0 - EPSILON - EPSILON, EPSILON + EPSILON));
}

#[test]
fn abs_diff_eq_test_max() {
    assert!(eq(f64::MAX, f64::MAX));
    assert!(ne(f64::MAX, -f64::MAX));
    assert!(ne(-f64::MAX, f64::MAX));
    assert!(ne(f64::MAX, f64::MAX / 2.0));
    assert!(ne(f64::MAX, -f64::MAX / 2.0));
    assert!(ne(-f64::MAX, f64::MAX / 2.0));
}

#[test]
fn abs_diff_eq_test_nan() {
    assert!(ne(f64::NAN, f64::NAN));

    assert!(ne(f64::NAN, 0.0));
    assert!(ne(-0.0, f64::NAN));
    assert!(ne(f64::NAN, -0.0));
    assert!(ne(0.0, f64::NAN));

    assert!(ne(f64::NAN, f64::INFINITY));
    assert!(ne(f64::INFINITY, f64::NAN));
    assert!(ne(f64::NAN, f64::NEG_INFINITY));
    assert!(ne(f64::NEG_INFINITY, f64::NAN));

    assert!(ne(f64::NAN, f64::MAX));
    assert!(ne(f64::MAX, f64::NAN));
    assert!(ne(f64::NAN, -f64::MAX));
    assert!(ne(-f64::MAX, f64::NAN));

    assert!(ne(f64::NAN, f64::MIN_POSITIVE));
    assert!(ne(f64::MIN_POSITIVE, f64::NAN));
    assert!(ne(f64::NAN, -f64::MIN_POSITIVE));
    assert!(ne(-f64::MIN_POSITIVE, f64::NAN));
}

#[test]
fn abs_diff_eq_test_opposite_signs() {
    assert!(ne(1.000000001f64, -1.0f64));
    assert!(ne(-1.0f64, 1.000000001f64));
    assert!(ne(-1.000000001f64, 1.0f64));
    assert!(ne(1.0f64, -1.000000001f64));

    assert!(eq(10.0 * f64::MIN_POSITIVE, 10.0 * -f64::MIN_POSITIVE));
}

#[test]
fn abs_diff_eq_test_close_to_zero() {
    assert!(eq(f64::MIN_POSITIVE, f64::MIN_POSITIVE));
    assert!(eq(f64::MIN_POSITIVE, -f64::MIN_POSITIVE));
    assert!(eq(-f64::MIN_POSITIVE, f64::MIN_POSITIVE));

    assert!(eq(f64::MIN_POSITIVE, 0.0f64));
    assert!(eq(0.0f64, f64::MIN_POSITIVE));
    assert!(eq(-f64::MIN_POSITIVE, 0.0f64));
    assert!(eq(0.0f64, -f64::MIN_POSITIVE));

    assert!(ne(0.000000000000001f64, -f64::MIN_POSITIVE));
    assert!(ne(0.000000000000001f64, f64::MIN_POSITIVE));
    assert!(ne(f64::MIN_POSITIVE, 0.000000000000001f64));
    assert!(ne(-f64::MIN_POSITIVE, 0.000000000000001f64));
}
