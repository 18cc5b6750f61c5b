use approxim::{AbsDiffEq, Binary32};

const EPSILON: f32 = f32::EPSILON;

fn value(x: f32) -> Binary32 {
    Binary32::from_bits(x.to_bits())
}

fn eq(a: f32, b: f32) -> bool {
    value(a).abs_diff_eq(&value(b), Binary32::default_epsilon())
}

fn ne(a: f32, b: f32) -> bool {
    value(a).abs_diff_ne(&value(b), Binary32::default_epsilon())
}

fn eq_eps(a: f32, b: f32, epsilon: f32) -> bool {
    value(a).abs_diff_eq(&value(b), value(epsilon))
}

fn ne_eps(a: f32, b: f32, epsilon: f32) -> bool {
    value(a).abs_diff_ne(&value(b), value(epsilon))
}

#[test]
fn test_basic() {
    assert!(eq(1.0f32, 1.0f32));
    assert!(ne(1.0f32, 2.0f32));
}

#[test]
fn test_big() {
    assert!(eq(100000000.0f32, 100000001.0f32));
    assert!(eq(100000001.0f32, 100000000.0f32));
    assert!(ne(10000.0f32, 10001.0f32));
    assert!(ne(10001.0f32, 10000.0f32));
}

#[test]
fn test_big_neg() {
    assert!(eq(-100000000.0f32, -100000001.0f32));
    assert!(eq(-100000001.0f32, -100000000.0f32));
    assert!(ne(-10000.0f32, -10001.0f32));
    assert!(ne(-10001.0f32, -10000.0f32));
}

#[test]
fn test_mid() {
    assert!(eq(1.0000001f32, 1.0000002f32));
    assert!(eq(1.0000002f32, 1.0000001f32));
    assert!(ne(1.000001f32, 1.000002f32));
    assert!(ne(1.000002f32, 1.000001f32));
}

#[test]
fn test_mid_neg() {
    assert!(eq(-1.0000001f32, -1.0000002f32));
    assert!(eq(-1.0000002f32, -1.0000001f32));
    assert!(ne(-1.000001f32, -1.000002f32));
    assert!(ne(-1.000002f32, -1.000001f32));
}

#[test]
fn test_small() {
    assert!(eq(0.000010001f32, 0.000010002f32));
    assert!(eq(0.000010002f32, 0.000010001f32));
    assert!(ne(0.000001002f32, 0.0000001001f32));
    assert!(ne(0.000001001f32, 0.0000001002f32));
}

#[test]
fn test_small_neg() {
    assert!(eq(-0.000010001f32, -0.000010002f32));
    assert!(eq(-0.000010002f32, -0.000010001f32));
    assert!(ne(-0.000001002f32, -0.0000001001f32));
    assert!(ne(-0.000001001f32, -0.0000001002f32));
}

#[test]
fn test_zero() {
    assert!(eq(0.0f32, 0.0f32));
    assert!(eq(0.0f32, -0.0f32));
    assert!(eq(-0.0f32, -0.0f32));

    assert!(ne(0.000001f32, 0.0f32));
    assert!(ne(0.0f32, 0.000001f32));
    assert!(ne(-0.000001f32, 0.0f32));
    assert!(ne(0.0f32, -0.000001f32));
}

#[test]
fn test_default_epsilon() {
    assert!(eq(1.0f32, 1.0f32 + EPSILON));
    assert!(ne(1.0f32, 1.0f32 + EPSILON + EPSILON));
    assert!(eq_eps(1.0f32, 1.0f32 + EPSILON + EPSILON, EPSILON + EPSILON));
    assert!(eq(1.0f32, 1.0f32 - EPSILON));
    assert!(ne(1.0f32, 1.0f32 - EPSILON - EPSILON));
    assert!(eq_eps(1.0f32, 1.0f32 - EPSILON - EPSILON, EPSILON + EPSILON));
}

#[test]
fn test_epsilon() {
    assert!(eq_eps(0.0f32, 1e-40f32, 1e-40f32));
    assert!(eq_eps(1e-40f32, 0.0f32, 1e-40f32));
    assert!(eq_eps(0.0f32, -1e-40f32, 1e-40f32));
    assert!(eq_eps(-1e-40f32, 0.0f32, 1e-40f32));

    assert!(ne_eps(1e-40f32, 0.0f32, 1e-41f32));
    assert!(ne_eps(0.0f32, 1e-40f32, 1e-41f32));
    assert!(ne_eps(-1e-40f32, 0.0f32, 1e-41f32));
    assert!(ne_eps(0.0f32, -1e-40f32, 1e-41f32));
}

#[test]
fn test_max() {
    assert!(eq(f32::MAX, f32::MAX));
    assert!(ne(f32::MAX, -f32::MAX));
    assert!(ne(-f32::MAX, f32::MAX));
    assert!(ne(f32::MAX, f32::MAX / 2.0));
    assert!(ne(f32::MAX, -f32::MAX / 2.0));
    assert!(ne(-f32::MAX, f32::MAX / 2.0));
}

#[test]
fn test_nan() {
    assert!(ne(f32::NAN, f32::NAN));

    assert!(ne(f32::NAN, 0.0));
    assert!(ne(-0.0, f32::NAN));
    assert!(ne(f32::NAN, -0.0));
    assert!(ne(0.0, f32::NAN));

    assert!(ne(f32::NAN, f32::INFINITY));
    assert!(ne(f32::INFINITY, f32::NAN));
    assert!(ne(f32::NAN, f32::NEG_INFINITY));
    assert!(ne(f32::NEG_INFINITY, f32::NAN));

    assert!(ne(f32::NAN, f32::MAX));
    assert!(ne(f32::MAX, f32::NAN));
    assert!(ne(f32::NAN, -f32::MAX));
    assert!(ne(-f32::MAX, f32::NAN));

    assert!(ne(f32::NAN, f32::MIN_POSITIVE));
    assert!(ne(f32::MIN_POSITIVE, f32::NAN));
    assert!(ne(f32::NAN, -f32::MIN_POSITIVE));
    assert!(ne(-f32::MIN_POSITIVE, f32::NAN));
}

#[test]
fn test_opposite_signs() {
    assert!(ne(1.000000001f32, -1.0f32));
    assert!(ne(-1.0f32, 1.000000001f32));
    assert!(ne(-1.000000001f32, 1.0f32));
    assert!(ne(1.0f32, -1.000000001f32));

    assert!(eq(10.0 * f32::MIN_POSITIVE, 10.0 * -f32::MIN_POSITIVE));
}

#[test]
fn test_close_to_zero() {
    assert!(eq(f32::MIN_POSITIVE, f32::MIN_POSITIVE));
    assert!(eq(f32::MIN_POSITIVE, -f32::MIN_POSITIVE));
    assert!(eq(-f32::MIN_POSITIVE, f32::MIN_POSITIVE));

    assert!(eq(f32::MIN_POSITIVE, 0.0f32));
    assert!(eq(0.0f32, f32::MIN_POSITIVE));
    assert!(eq(-f32::MIN_POSITIVE, 0.0f32));
    assert!(eq(0.0f32, -f32::MIN_POSITIVE));

    assert!(ne(0.000001f32, -f32::MIN_POSITIVE));
    assert!(ne(0.000001f32, f32::MIN_POSITIVE));
    assert!(ne(f32::MIN_POSITIVE, 0.000001f32));
    assert!(ne(-f32::MIN_POSITIVE, 0.000001f32));
}
