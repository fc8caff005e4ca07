use bounded::{
    BoundedError, BoundedI128, BoundedI16, BoundedI32, BoundedI64, BoundedI8, BoundedU128,
    BoundedU16, BoundedU32, BoundedU64, BoundedU8,
};

type Teen = BoundedU8<10, 20>;

#[test]
fn u8_below_minimum() {
    assert_eq!(Teen::new(5), Err(BoundedError::LessThanMinimum));
}

#[test]
fn u8_above_maximum() {
    assert_eq!(Teen::new(25), Err(BoundedError::GreaterThanMaximum));
}

#[test]
fn u8_bounds_are_inclusive() {
    assert_eq!(Teen::new(10).unwrap().get(), 10);
    assert_eq!(Teen::new(20).unwrap().get(), 20);
}

#[test]
fn u8_inside_range() {
    assert_eq!(Teen::new(15).unwrap().get(), 15);
}

#[test]
fn u8_just_outside_range() {
    assert_eq!(Teen::new(9), Err(BoundedError::LessThanMinimum));
    assert_eq!(Teen::new(21), Err(BoundedError::GreaterThanMaximum));
}

#[test]
fn u8_every_value_classified() {
    for v in 0..=u8::MAX {
        let r = Teen::new(v);
        if v < 10 {
            assert_eq!(r, Err(BoundedError::LessThanMinimum));
        } else if v > 20 {
            assert_eq!(r, Err(BoundedError::GreaterThanMaximum));
        } else {
            assert_eq!(r.unwrap().get(), v);
        }
    }
}

#[test]
fn u8_full_range_accepts_extremes() {
    assert_eq!(BoundedU8::<0, 255>::new(0).unwrap().get(), 0);
    assert_eq!(BoundedU8::<0, 255>::new(255).unwrap().get(), 255);
}

#[test]
fn single_point_range() {
    assert_eq!(BoundedU16::<7, 7>::new(7).unwrap().get(), 7);
    assert_eq!(BoundedU16::<7, 7>::new(6), Err(BoundedError::LessThanMinimum));
    assert_eq!(BoundedU16::<7, 7>::new(8), Err(BoundedError::GreaterThanMaximum));
}

#[test]
fn reversed_bounds_report_minimum_first() {
    // 5 is both below 10 and above 3: the minimum is tested first.
    assert_eq!(BoundedU32::<10, 3>::new(5), Err(BoundedError::LessThanMinimum));
    assert_eq!(BoundedU32::<10, 3>::new(11), Err(BoundedError::GreaterThanMaximum));
    assert_eq!(BoundedU32::<10, 3>::new(1), Err(BoundedError::LessThanMinimum));
}

#[test]
fn unchecked_keeps_value_in_range() {
    assert_eq!(Teen::new_unchecked(12).get(), 12);
}

#[test]
fn unchecked_performs_no_validation() {
    assert_eq!(Teen::new_unchecked(200).get(), 200);
    assert_eq!(BoundedI8::<0, 10>::new_unchecked(-3).get(), -3);
}

#[test]
fn unchecked_equals_checked() {
    assert_eq!(Teen::new_unchecked(17), Teen::new(17).unwrap());
}

#[test]
fn u64_and_u128_extremes() {
    assert_eq!(BoundedU64::<1, { u64::MAX }>::new(u64::MAX).unwrap().get(), u64::MAX);
    assert_eq!(BoundedU64::<1, { u64::MAX }>::new(0), Err(BoundedError::LessThanMinimum));
    assert_eq!(
        BoundedU128::<0, 1000>::new(u128::MAX),
        Err(BoundedError::GreaterThanMaximum)
    );
    assert_eq!(BoundedU128::<0, 1000>::new(1000).unwrap().get(), 1000);
}

#[test]
fn i8_negative_bounds() {
    type Small = BoundedI8<{ -5i8 as u8 }, 10>;
    assert_eq!(Small::new(-6), Err(BoundedError::LessThanMinimum));
    assert_eq!(Small::new(-5).unwrap().get(), -5);
    assert_eq!(Small::new(0).unwrap().get(), 0);
    assert_eq!(Small::new(10).unwrap().get(), 10);
    assert_eq!(Small::new(11), Err(BoundedError::GreaterThanMaximum));
    assert_eq!(Small::new(i8::MIN), Err(BoundedError::LessThanMinimum));
    assert_eq!(Small::new(i8::MAX), Err(BoundedError::GreaterThanMaximum));
}

#[test]
fn i8_all_negative_range() {
    type Neg = BoundedI8<{ -100i8 as u8 }, { -50i8 as u8 }>;
    assert_eq!(Neg::new(-101), Err(BoundedError::LessThanMinimum));
    assert_eq!(Neg::new(-75).unwrap().get(), -75);
    assert_eq!(Neg::new(-49), Err(BoundedError::GreaterThanMaximum));
    assert_eq!(Neg::new(0), Err(BoundedError::GreaterThanMaximum));
}

#[test]
fn i16_and_i32_ranges() {
    type T16 = BoundedI16<{ -1000i16 as u16 }, 1000>;
    assert_eq!(T16::new(-1000).unwrap().get(), -1000);
    assert_eq!(T16::new(-1001), Err(BoundedError::LessThanMinimum));
    assert_eq!(T16::new(1001), Err(BoundedError::GreaterThanMaximum));
    type T32 = BoundedI32<{ i32::MIN as u32 }, { i32::MAX as u32 }>;
    assert_eq!(T32::new(i32::MIN).unwrap().get(), i32::MIN);
    assert_eq!(T32::new(i32::MAX).unwrap().get(), i32::MAX);
}

#[test]
fn i64_and_i128_ranges() {
    type T64 = BoundedI64<{ -1i64 as u64 }, 1>;
    assert_eq!(T64::new(-1).unwrap().get(), -1);
    assert_eq!(T64::new(-2), Err(BoundedError::LessThanMinimum));
    assert_eq!(T64::new(2), Err(BoundedError::GreaterThanMaximum));
    type T128 = BoundedI128<{ i128::MIN as u128 }, 0>;
    assert_eq!(T128::new(i128::MIN).unwrap().get(), i128::MIN);
    assert_eq!(T128::new(0).unwrap().get(), 0);
    assert_eq!(T128::new(1), Err(BoundedError::GreaterThanMaximum));
}

#[test]
fn error_kinds_are_ordered() {
    assert!(BoundedError::LessThanMinimum < BoundedError::GreaterThanMaximum);
    assert_ne!(BoundedError::LessThanMinimum, BoundedError::GreaterThanMaximum);
}
