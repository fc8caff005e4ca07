use crate::range::{range_check, BoundedError};
use vstd::prelude::*;

verus! {

/// A `u8` which is known to lie in the range `MIN..=MAX`.
#[derive(Debug, Clone, Copy, PartialEq, Eq, PartialOrd, Ord)]
pub struct BoundedU8<const MIN: u8, const MAX: u8> {
    value: u8,
}

impl<const MIN: u8, const MAX: u8> View for BoundedU8<MIN, MAX> {
    type V = u8;

    closed spec fn view(&self) -> u8 {
        self.value
    }
}

impl<const MIN: u8, const MAX: u8> BoundedU8<MIN, MAX> {
    #[verifier::type_invariant]
    closed spec fn in_range(self) -> bool {
        MIN <= self.value <= MAX
    }

    /// Creates a new `Self` from `value`, or says on which side of the range it falls.
    pub fn new(value: u8) -> (r: Result<Self, BoundedError>)
        ensures
            match r {
                Ok(b) => range_check(value as int, MIN as int, MAX as int) is None && b@ == value,
                Err(e) => range_check(value as int, MIN as int, MAX as int) == Some(e),
            },
    {
        if value < MIN {
            Err(BoundedError::LessThanMinimum)
        } else if value > MAX {
            Err(BoundedError::GreaterThanMaximum)
        } else {
            Ok(Self::new_unchecked(value))
        }
    }

    /// Creates a new `Self` from `value` without a run-time check: the caller proves that
    /// `value` lies in `MIN..=MAX`.
    pub fn new_unchecked(value: u8) -> (r: Self)
        requires
            MIN <= value <= MAX,
        ensures
            r@ == value,
    {
        Self { value }
    }

    /// The contained value, which lies in `MIN..=MAX`.
    pub fn get(self) -> (r: u8)
        ensures
            r == self@,
            MIN <= r <= MAX,
    {
        proof {
            use_type_invariant(&self);
        }
        self.value
    }
}

/// A `u16` which is known to lie in the range `MIN..=MAX`.
#[derive(Debug, Clone, Copy, PartialEq, Eq, PartialOrd, Ord)]
pub struct BoundedU16<const MIN: u16, const MAX: u16> {
    value: u16,
}

impl<const MIN: u16, const MAX: u16> View for BoundedU16<MIN, MAX> {
    type V = u16;

    closed spec fn view(&self) -> u16 {
        self.value
    }
}

impl<const MIN: u16, const MAX: u16> BoundedU16<MIN, MAX> {
    #[verifier::type_invariant]
    closed spec fn in_range(self) -> bool {
        MIN <= self.value <= MAX
    }

    /// Creates a new `Self` from `value`, or says on which side of the range it falls.
    pub fn new(value: u16) -> (r: Result<Self, BoundedError>)
        ensures
            match r {
                Ok(b) => range_check(value as int, MIN as int, MAX as int) is None && b@ == value,
                Err(e) => range_check(value as int, MIN as int, MAX as int) == Some(e),
            },
    {
        if value < MIN {
            Err(BoundedError::LessThanMinimum)
        } else if value > MAX {
            Err(BoundedError::GreaterThanMaximum)
        } else {
            Ok(Self::new_unchecked(value))
        }
    }

    /// Creates a new `Self` from `value` without a run-time check: the caller proves that
    /// `value` lies in `MIN..=MAX`.
    pub fn new_unchecked(value: u16) -> (r: Self)
        requires
            MIN <= value <= MAX,
        ensures
            r@ == value,
    {
        Self { value }
    }

    /// The contained value, which lies in `MIN..=MAX`.
    pub fn get(self) -> (r: u16)
        ensures
            r == self@,
            MIN <= r <= MAX,
    {
        proof {
            use_type_invariant(&self);
        }
        self.value
    }
}

/// A `u32` which is known to lie in the range `MIN..=MAX`.
#[derive(Debug, Clone, Copy, PartialEq, Eq, PartialOrd, Ord)]
pub struct BoundedU32<const MIN: u32, const MAX: u32> {
    value: u32,
}

impl<const MIN: u32, const MAX: u32> View for BoundedU32<MIN, MAX> {
    type V = u32;

    closed spec fn view(&self) -> u32 {
        self.value
    }
}

impl<const MIN: u32, const MAX: u32> BoundedU32<MIN, MAX> {
    #[verifier::type_invariant]
    closed spec fn in_range(self) -> bool {
        MIN <= self.value <= MAX
    }

    /// Creates a new `Self` from `value`, or says on which side of the range it falls.
    pub fn new(value: u32) -> (r: Result<Self, BoundedError>)
        ensures
            match r {
                Ok(b) => range_check(value as int, MIN as int, MAX as int) is None && b@ == value,
                Err(e) => range_check(value as int, MIN as int, MAX as int) == Some(e),
            },
    {
        if value < MIN {
            Err(BoundedError::LessThanMinimum)
        } else if value > MAX {
            Err(BoundedError::GreaterThanMaximum)
        } else {
            Ok(Self::new_unchecked(value))
        }
    }

    /// Creates a new `Self` from `value` without a run-time check: the caller proves that
    /// `value` lies in `MIN..=MAX`.
    pub fn new_unchecked(value: u32) -> (r: Self)
        requires
            MIN <= value <= MAX,
        ensures
            r@ == value,
    {
        Self { value }
    }

    /// The contained value, which lies in `MIN..=MAX`.
    pub fn get(self) -> (r: u32)
        ensures
            r == self@,
            MIN <= r <= MAX,
    {
        proof {
            use_type_invariant(&self);
        }
        self.value
    }
}

/// A `u64` which is known to lie in the range `MIN..=MAX`.
#[derive(Debug, Clone, Copy, PartialEq, Eq, PartialOrd, Ord)]
pub struct BoundedU64<const MIN: u64, const MAX: u64> {
    value: u64,
}

impl<const MIN: u64, const MAX: u64> View for BoundedU64<MIN, MAX> {
    type V = u64;

    closed spec fn view(&self) -> u64 {
        self.value
    }
}

impl<const MIN: u64, const MAX: u64> BoundedU64<MIN, MAX> {
    #[verifier::type_invariant]
    closed spec fn in_range(self) -> bool {
        MIN <= self.value <= MAX
    }

    /// Creates a new `Self` from `value`, or says on which side of the range it falls.
    pub fn new(value: u64) -> (r: Result<Self, BoundedError>)
        ensures
            match r {
                Ok(b) => range_check(value as int, MIN as int, MAX as int) is None && b@ == value,
                Err(e) => range_check(value as int, MIN as int, MAX as int) == Some(e),
            },
    {
        if value < MIN {
            Err(BoundedError::LessThanMinimum)
        } else if value > MAX {
            Err(BoundedError::GreaterThanMaximum)
        } else {
            Ok(Self::new_unchecked(value))
        }
    }

    /// Creates a new `Self` from `value` without a run-time check: the caller proves that
    /// `value` lies in `MIN..=MAX`.
    pub fn new_unchecked(value: u64) -> (r: Self)
        requires
            MIN <= value <= MAX,
        ensures
            r@ == value,
    {
        Self { value }
    }

    /// The contained value, which lies in `MIN..=MAX`.
    pub fn get(self) -> (r: u64)
        ensures
            r == self@,
            MIN <= r <= MAX,
    {
        proof {
            use_type_invariant(&self);
        }
        self.value
    }
}

/// A `u128` which is known to lie in the range `MIN..=MAX`.
#[derive(Debug, Clone, Copy, PartialEq, Eq, PartialOrd, Ord)]
pub struct BoundedU128<const MIN: u128, const MAX: u128> {
    value: u128,
}

impl<const MIN: u128, const MAX: u128> View for BoundedU128<MIN, MAX> {
    type V = u128;

    closed spec fn view(&self) -> u128 {
        self.value
    }
}

impl<const MIN: u128, const MAX: u128> BoundedU128<MIN, MAX> {
    #[verifier::type_invariant]
    closed spec fn in_range(self) -> bool {
        MIN <= self.value <= MAX
    }

    /// Creates a new `Self` from `value`, or says on which side of the range it falls.
    pub fn new(value: u128) -> (r: Result<Self, BoundedError>)
        ensures
            match r {
                Ok(b) => range_check(value as int, MIN as int, MAX as int) is None && b@ == value,
                Err(e) => range_check(value as int, MIN as int, MAX as int) == Some(e),
            },
    {
        if value < MIN {
            Err(BoundedError::LessThanMinimum)
        } else if value > MAX {
            Err(BoundedError::GreaterThanMaximum)
        } else {
            Ok(Self::new_unchecked(value))
        }
    }

    /// Creates a new `Self` from `value` without a run-time check: the caller proves that
    /// `value` lies in `MIN..=MAX`.
    pub fn new_unchecked(value: u128) -> (r: Self)
        requires
            MIN <= value <= MAX,
        ensures
            r@ == value,
    {
        Self { value }
    }

    /// The contained value, which lies in `MIN..=MAX`.
    pub fn get(self) -> (r: u128)
        ensures
            r == self@,
            MIN <= r <= MAX,
    {
        proof {
            use_type_invariant(&self);
        }
        self.value
    }
}

} // verus!
