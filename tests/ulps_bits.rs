use approxim::{within_ulps_bits32, within_ulps_bits64};

#[test]
fn equal_values_are_within_any_count() {
    assert!(within_ulps_bits32(1.0f32.to_bits(), 1.0f32.to_bits(), 0));
    assert!(within_ulps_bits64(1.0f64.to_bits(), 1.0f64.to_bits(), 0));
}

#[test]
fn tiny_increment_is_within_default_count() {
    let a = 1.0f32;
    let b = 1.0f32 + 1e-17f32;
    assert!(within_ulps_bits32(a.to_bits(), b.to_bits(), 4));
    let a = 1.0f64;
    let b = 1.0f64 + 1e-17f64;
    assert!(within_ulps_bits64(a.to_bits(), b.to_bits(), 4));
}

#[test]
fn five_steps_need_a_count_of_five() {
    let a = 1.0f64;
    let b = 1.0f64 + 1e-15f64;
    assert_eq!(b.to_bits() - a.to_bits(), 5);
    assert!(!within_ulps_bits64(a.to_bits(), b.to_bits(), 4));
    assert!(within_ulps_bits64(a.to_bits(), b.to_bits(), 5));
    assert!(within_ulps_bits64(b.to_bits(), a.to_bits(), 6));
}

#[test]
fn adjacent_values() {
    let a = 1.0f32;
    let b = f32::from_bits(a.to_bits() + 1);
    assert!(within_ulps_bits32(a.to_bits(), b.to_bits(), 1));
    assert!(!within_ulps_bits32(a.to_bits(), b.to_bits(), 0));
    let c = -1.0f32;
    let d = f32::from_bits(c.to_bits() + 3);
    assert!(within_ulps_bits32(c.to_bits(), d.to_bits(), 3));
    assert!(!within_ulps_bits32(c.to_bits(), d.to_bits(), 2));
}

#[test]
fn nan_is_never_within() {
    assert!(!within_ulps_bits32(f32::NAN.to_bits(), f32::NAN.to_bits(), u32::MAX));
    assert!(!within_ulps_bits32(f32::NAN.to_bits(), 0.0f32.to_bits(), u32::MAX));
    assert!(!within_ulps_bits32(1.0f32.to_bits(), (-f32::NAN).to_bits(), u32::MAX));
    assert!(!within_ulps_bits64(f64::NAN.to_bits(), f64::NAN.to_bits(), u32::MAX));
    assert!(!within_ulps_bits64(f64::INFINITY.to_bits(), f64::NAN.to_bits(), u32::MAX));
}

#[test]
fn infinity_is_one_step_past_max() {
    assert!(within_ulps_bits32(f32::MAX.to_bits(), f32::INFINITY.to_bits(), 1));
    assert!(within_ulps_bits64(f64::MAX.to_bits(), f64::INFINITY.to_bits(), 1));
    assert!(!within_ulps_bits64(f64::INFINITY.to_bits(), f64::NEG_INFINITY.to_bits(), u32::MAX));
}

#[test]
fn signs_must_agree() {
    assert!(!within_ulps_bits32(0.0f32.to_bits(), (-0.0f32).to_bits(), u32::MAX));
    assert!(!within_ulps_bits64(0.0f64.to_bits(), (-0.0f64).to_bits(), u32::MAX));
    assert!(!within_ulps_bits64(f64::MIN_POSITIVE.to_bits(), (-f64::MIN_POSITIVE).to_bits(), u32::MAX));
}
