use approxim::{AbsDiff, AbsDiffEq};

#[test]
fn tuple_test_basic() {
    assert!(().abs_diff_eq(&(), ()));
    assert!(((),).abs_diff_eq(&((),), ((),)));
    assert!(((), (),).abs_diff_eq(&((), (),), ((), (),)));
    assert!(((), (), (),).abs_diff_eq(&((), (), (),), ((), (), (),)));
    assert!(((), (), (), (),).abs_diff_eq(&((), (), (), (),), ((), (), (), (),)));
    assert!(((), (), (), (), (),).abs_diff_eq(&((), (), (), (), (),), ((), (), (), (), (),)));
    assert!(((), (), (), (), (), (),).abs_diff_eq(&((), (), (), (), (), (),), ((), (), (), (), (), (),)));
    assert!(((), (), (), (), (), (), (),).abs_diff_eq(&((), (), (), (), (), (), (),), ((), (), (), (), (), (), (),)));
    assert!(((), (), (), (), (), (), (), (),).abs_diff_eq(&((), (), (), (), (), (), (), (),), ((), (), (), (), (), (), (), (),)));
    assert!(((), (), (), (), (), (), (), (), (),).abs_diff_eq(&((), (), (), (), (), (), (), (), (),), ((), (), (), (), (), (), (), (), (),)));
    assert!(((), (), (), (), (), (), (), (), (), (),).abs_diff_eq(&((), (), (), (), (), (), (), (), (), (),), ((), (), (), (), (), (), (), (), (), (),)));
    assert!(((), (), (), (), (), (), (), (), (), (), (),).abs_diff_eq(&((), (), (), (), (), (), (), (), (), (), (),), ((), (), (), (), (), (), (), (), (), (), (),)));
    assert!(((), (), (), (), (), (), (), (), (), (), (), (),).abs_diff_eq(&((), (), (), (), (), (), (), (), (), (), (), (),), ((), (), (), (), (), (), (), (), (), (), (), (),)));
}

#[test]
fn unsigned_default_epsilon_is_zero() {
    assert_eq!(u8::default_epsilon(), 0);
    assert_eq!(u64::default_epsilon(), 0);
    assert_eq!(usize::default_epsilon(), 0);
    assert!(7u32.abs_diff_eq(&7, u32::default_epsilon()));
    assert!(!7u32.abs_diff_eq(&8, u32::default_epsilon()));
}

#[test]
fn unsigned_difference_in_either_order() {
    assert!(10u16.abs_diff_eq(&13, 3));
    assert!(13u16.abs_diff_eq(&10, 3));
    assert!(!10u16.abs_diff_eq(&14, 3));
    assert!(!14u16.abs_diff_eq(&10, 3));
    assert!(10u16.abs_diff_ne(&14, 3));
}

#[test]
fn unsigned_extremes() {
    assert!(u64::MAX.abs_diff_eq(&0, u64::MAX));
    assert!(!u64::MAX.abs_diff_eq(&0, u64::MAX - 1));
    assert!(0u128.abs_diff_eq(&u128::MAX, u128::MAX));
    assert!(255u8.abs_diff_ne(&0, 254));
}

#[test]
fn signed_difference_across_zero() {
    assert!((-5i32).abs_diff_eq(&5, 10));
    assert!(5i32.abs_diff_eq(&-5, 10));
    assert!(!(-5i32).abs_diff_eq(&5, 9));
    assert!((-5i64).abs_diff_ne(&5, 9));
}

#[test]
fn signed_extremes_do_not_overflow() {
    assert!(!i8::MIN.abs_diff_eq(&i8::MAX, i8::MAX));
    assert!(!i64::MIN.abs_diff_eq(&i64::MAX, i64::MAX));
    assert!(i16::MIN.abs_diff_eq(&-1, i16::MAX));
    assert!(!isize::MAX.abs_diff_eq(&isize::MIN, isize::MAX));
}

#[test]
fn signed_negative_tolerance_never_holds() {
    assert!(!3i32.abs_diff_eq(&3, -1));
    assert!(3i32.abs_diff_eq(&3, 0));
}

#[test]
fn abs_diff_parameters() {
    assert!(AbsDiff::default().eq(&4u32, &4u32));
    assert!(AbsDiff::default().ne(&4u32, &5u32));
    assert!(AbsDiff::default().epsilon(1u32).eq(&4u32, &5u32));
    assert!(AbsDiff::default().epsilon(1i8).ne(&-4i8, &-6i8));
    let p: AbsDiff<i32> = AbsDiff::default();
    assert_eq!(p.epsilon, 0);
}

#[test]
fn integers_equal_themselves() {
    for a in [i64::MIN, -1, 0, 1, i64::MAX] {
        assert!(a.abs_diff_eq(&a, 0));
        assert!(a.abs_diff_eq(&a, i64::MAX));
    }
    for a in [0u64, 1, u64::MAX] {
        assert!(a.abs_diff_eq(&a, 0));
    }
    assert!(i8::MIN.abs_diff_eq(&i8::MIN, 0));
    assert!(!i8::MIN.abs_diff_eq(&i8::MIN, -1));
}
