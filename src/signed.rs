use crate::range::{range_check, BoundedError};
use vstd::prelude::*;

verus! {

/// An `i8` which is known to lie in the range `MIN as i8..=MAX as i8`. The bounds are
/// written as the two's-complement bit patterns of the signed values, as in
/// `BoundedI8<{ -5i8 as u8 }, 10>`.
#[derive(Debug, Clone, Copy, PartialEq, Eq, PartialOrd, Ord)]
pub struct BoundedI8<const MIN: u8, const MAX: u8> {
    value: i8,
}

impl<const MIN: u8, const MAX: u8> View for BoundedI8<MIN, MAX> {
    type V = i8;

    closed spec fn view(&self) -> i8 {
        self.value
    }
}

impl<const MIN: u8, const MAX: u8> BoundedI8<MIN, MAX> {
    #[verifier::type_invariant]
    closed spec fn in_range(self) -> bool {
        (MIN as i8) <= self.value <= (MAX as i8)
    }

    /// Creates a new `Self` from `value`, or says on which side of the range it falls.
    pub fn new(value: i8) -> (r: Result<Self, BoundedError>)
        ensures
            match r {
                Ok(b) => range_check(value as int, (MIN as i8) as int, (MAX as i8) as int) is None && b@ == value,
                Err(e) => range_check(value as int, (MIN as i8) as int, (MAX as i8) as int) == Some(e),
            },
    {
        if value < MIN as i8 {
            Err(BoundedError::LessThanMinimum)
        } else if value > MAX as i8 {
            Err(BoundedError::GreaterThanMaximum)
        } else {
            Ok(Self::new_unchecked(value))
        }
    }

    /// Creates a new `Self` from `value` without a run-time check: the caller proves that
    /// `value` lies in `MIN as i8..=MAX as i8`.
    pub fn new_unchecked(value: i8) -> (r: Self)
        requires
            (MIN as i8) <= value <= (MAX as i8),
        ensures
            r@ == value,
    {
        Self { value }
    }

    /// The contained value, which lies in `MIN as i8..=MAX as i8`.
    pub fn get(self) -> (r: i8)
        ensures
            r == self@,
            (MIN as i8) <= r <= (MAX as i8),
    {
        proof {
            use_type_invariant(&self);
        }
        self.value
    }
}

/// An `i16` which is known to lie in the range `MIN as i16..=MAX as i16`. The bounds are
/// written as the two's-complement bit patterns of the signed values, as in
/// `BoundedI16<{ -5i16 as u16 }, 10>`.
#[derive(Debug, Clone, Copy, PartialEq, Eq, PartialOrd, Ord)]
pub struct BoundedI16<const MIN: u16, const MAX: u16> {
    value: i16,
}

impl<const MIN: u16, const MAX: u16> View for BoundedI16<MIN, MAX> {
    type V = i16;

    closed spec fn view(&self) -> i16 {
        self.value
    }
}

impl<const MIN: u16, const MAX: u16> BoundedI16<MIN, MAX> {
    #[verifier::type_invariant]
    closed spec fn in_range(self) -> bool {
        (MIN as i16) <= self.value <= (MAX as i16)
    }

    /// Creates a new `Self` from `value`, or says on which side of the range it falls.
    pub fn new(value: i16) -> (r: Result<Self, BoundedError>)
        ensures
            match r {
                Ok(b) => range_check(value as int, (MIN as i16) as int, (MAX as i16) as int) is None && b@ == value,
                Err(e) => range_check(value as int, (MIN as i16) as int, (MAX as i16) as int) == Some(e),
            },
    {
        if value < MIN as i16 {
            Err(BoundedError::LessThanMinimum)
        } else if value > MAX as i16 {
            Err(BoundedError::GreaterThanMaximum)
        } else {
            Ok(Self::new_unchecked(value))
        }
    }

    /// Creates a new `Self` from `value` without a run-time check: the caller proves that
    /// `value` lies in `MIN as i16..=MAX as i16`.
    pub fn new_unchecked(value: i16) -> (r: Self)
        requires
            (MIN as i16) <= value <= (MAX as i16),
        ensures
            r@ == value,
    {
        Self { value }
    }

    /// The contained value, which lies in `MIN as i16..=MAX as i16`.
    pub fn get(self) -> (r: i16)
        ensures
            r == self@,
            (MIN as i16) <= r <= (MAX as i16),
    {
        proof {
            use_type_invariant(&self);
        }
        self.value
    }
}

/// An `i32` which is known to lie in the range `MIN as i32..=MAX as i32`. The bounds are
/// written as the two's-complement bit patterns of the signed values, as in
/// `BoundedI32<{ -5i32 as u32 }, 10>`.
#[derive(Debug, Clone, Copy, PartialEq, Eq, PartialOrd, Ord)]
pub struct BoundedI32<const MIN: u32, const MAX: u32> {
    value: i32,
}

impl<const MIN: u32, const MAX: u32> View for BoundedI32<MIN, MAX> {
    type V = i32;

    closed spec fn view(&self) -> i32 {
        self.value
    }
}

impl<const MIN: u32, const MAX: u32> BoundedI32<MIN, MAX> {
    #[verifier::type_invariant]
    closed spec fn in_range(self) -> bool {
        (MIN as i32) <= self.value <= (MAX as i32)
    }

    /// Creates a new `Self` from `value`, or says on which side of the range it falls.
    pub fn new(value: i32) -> (r: Result<Self, BoundedError>)
        ensures
            match r {
                Ok(b) => range_check(value as int, (MIN as i32) as int, (MAX as i32) as int) is None && b@ == value,
                Err(e) => range_check(value as int, (MIN as i32) as int, (MAX as i32) as int) == Some(e),
            },
    {
        if value < MIN as i32 {
            Err(BoundedError::LessThanMinimum)
        } else if value > MAX as i32 {
            Err(BoundedError::GreaterThanMaximum)
        } else {
            Ok(Self::new_unchecked(value))
        }
    }

    /// Creates a new `Self` from `value` without a run-time check: the caller proves that
    /// `value` lies in `MIN as i32..=MAX as i32`.
    pub fn new_unchecked(value: i32) -> (r: Self)
        requires
            (MIN as i32) <= value <= (MAX as i32),
        ensures
            r@ == value,
    {
        Self { value }
    }

    /// The contained value, which lies in `MIN as i32..=MAX as i32`.
    pub fn get(self) -> (r: i32)
        ensures
            r == self@,
            (MIN as i32) <= r <= (MAX as i32),
    {
        proof {
            use_type_invariant(&self);
        }
        self.value
    }
}

/// An `i64` which is known to lie in the range `MIN as i64..=MAX as i64`. The bounds are
/// written as the two's-complement bit patterns of the signed values, as in
/// `BoundedI64<{ -5i64 as u64 }, 10>`.
#[derive(Debug, Clone, Copy, PartialEq, Eq, PartialOrd, Ord)]
pub struct BoundedI64<const MIN: u64, const MAX: u64> {
    value: i64,
}

impl<const MIN: u64, const MAX: u64> View for BoundedI64<MIN, MAX> {
    type V = i64;

    closed spec fn view(&self) -> i64 {
        self.value
    }
}

impl<const MIN: u64, const MAX: u64> BoundedI64<MIN, MAX> {
    #[verifier::type_invariant]
    closed spec fn in_range(self) -> bool {
        (MIN as i64) <= self.value <= (MAX as i64)
    }

    /// Creates a new `Self` from `value`, or says on which side of the range it falls.
    pub fn new(value: i64) -> (r: Result<Self, BoundedError>)
        ensures
            match r {
                Ok(b) => range_check(value as int, (MIN as i64) as int, (MAX as i64) as int) is None && b@ == value,
                Err(e) => range_check(value as int, (MIN as i64) as int, (MAX as i64) as int) == Some(e),
            },
    {
        if value < MIN as i64 {
            Err(BoundedError::LessThanMinimum)
        } else if value > MAX as i64 {
            Err(BoundedError::GreaterThanMaximum)
        } else {
            Ok(Self::new_unchecked(value))
        }
    }

    /// Creates a new `Self` from `value` without a run-time check: the caller proves that
    /// `value` lies in `MIN as i64..=MAX as i64`.
    pub fn new_unchecked(value: i64) -> (r: Self)
        requires
            (MIN as i64) <= value <= (MAX as i64),
        ensures
            r@ == value,
    {
        Self { value }
    }

    /// The contained value, which lies in `MIN as i64..=MAX as i64`.
    pub fn get(self) -> (r: i64)
        ensures
            r == self@,
            (MIN as i64) <= r <= (MAX as i64),
    {
        proof {
            use_type_invariant(&self);
        }
        self.value
    }
}

/// An `i128` which is known to lie in the range `MIN as i128..=MAX as i128`. The bounds are
/// written as the two's-complement bit patterns of the signed values, as in
/// `BoundedI128<{ -5i128 as u128 }, 10>`.
#[derive(Debug, Clone, Copy, PartialEq, Eq, PartialOrd, Ord)]
pub struct BoundedI128<const MIN: u128, const MAX: u128> {
    value: i128,
}

impl<const MIN: u128, const MAX: u128> View for BoundedI128<MIN, MAX> {
    type V = i128;

    closed spec fn view(&self) -> i128 {
        self.value
    }
}

impl<const MIN: u128, const MAX: u128> BoundedI128<MIN, MAX> {
    #[verifier::type_invariant]
    closed spec fn in_range(self) -> bool {
        (MIN as i128) <= self.value <= (MAX as i128)
    }

    /// Creates a new `Self` from `value`, or says on which side of the range it falls.
    pub fn new(value: i128) -> (r: Result<Self, BoundedError>)
        ensures
            match r {
                Ok(b) => range_check(value as int, (MIN as i128) as int, (MAX as i128) as int) is None && b@ == value,
                Err(e) => range_check(value as int, (MIN as i128) as int, (MAX as i128) as int) == Some(e),
            },
    {
        if value < MIN as i128 {
            Err(BoundedError::LessThanMinimum)
        } else if value > MAX as i128 {
            Err(BoundedError::GreaterThanMaximum)
        } else {
            Ok(Self::new_unchecked(value))
        }
    }

    /// Creates a new `Self` from `value` without a run-time check: the caller proves that
    /// `value` lies in `MIN as i128..=MAX as i128`.
    pub fn new_unchecked(value: i128) -> (r: Self)
        requires
            (MIN as i128) <= value <= (MAX as i128),
        ensures
            r@ == value,
    {
        Self { value }
    }

    /// The contained value, which lies in `MIN as i128..=MAX as i128`.
    pub fn get(self) -> (r: i128)
        ensures
            r == self@,
            (MIN as i128) <= r <= (MAX as i128),
    {
        proof {
            use_type_invariant(&self);
        }
        self.value
    }
}

} // verus!
