use crate::range::BoundedError;
use core::cmp::Ordering;
use vstd::laws_cmp::{
    obeys_cmp, obeys_cmp_ord, obeys_cmp_partial_ord, obeys_partial_cmp_spec_properties,
};
use vstd::laws_eq::obeys_concrete_eq;
use vstd::prelude::*;
use vstd::std_specs::cmp::{OrdSpec, PartialOrdSpec};

verus! {

/// The outcome of checking `v` against `lo..=hi` under the order of `T`: `None` when it
/// lies inside, else the kind of violation. The minimum is tested first.
pub open spec fn order_check<T: PartialOrd>(v: T, lo: T, hi: T) -> Option<BoundedError> {
    if v.partial_cmp_spec(&lo) == Some(Ordering::Less) {
        Some(BoundedError::LessThanMinimum)
    } else if v.partial_cmp_spec(&hi) == Some(Ordering::Greater) {
        Some(BoundedError::GreaterThanMaximum)
    } else {
        None
    }
}

/// A value which is known to lie in the range `minimum..=maximum`, both stored beside it.
#[derive(Debug, Copy, PartialEq, Eq, PartialOrd, Ord)]
pub struct Bounded<T: Ord> {
    minimum: T,
    maximum: T,
    value: T,
}

impl<T: Ord> Bounded<T> {
    /// The contained value.
    pub closed spec fn value_spec(self) -> T {
        self.value
    }

    /// The lower bound the value was checked against.
    pub closed spec fn minimum_spec(self) -> T {
        self.minimum
    }

    /// The upper bound the value was checked against.
    pub closed spec fn maximum_spec(self) -> T {
        self.maximum
    }

    #[verifier::type_invariant]
    closed spec fn in_range(self) -> bool {
        T::obeys_partial_cmp_spec() ==> order_check(self.value, self.minimum, self.maximum) is None
    }

    /// Creates a new `Self` from `value` and its bounds, or says on which side of the range
    /// the value falls. What is stated holds for every `T` whose order vstd specifies, such as
    /// the integer types.
    pub fn new(value: T, minimum: T, maximum: T) -> (r: Result<Self, BoundedError>)
        ensures
            T::obeys_partial_cmp_spec() ==> match r {
                Ok(b) => {
                    &&& order_check(value, minimum, maximum) is None
                    &&& b.value_spec() == value
                    &&& b.minimum_spec() == minimum
                    &&& b.maximum_spec() == maximum
                },
                Err(e) => order_check(value, minimum, maximum) == Some(e),
            },
    {
        if value < minimum {
            Err(BoundedError::LessThanMinimum)
        } else if value > maximum {
            Err(BoundedError::GreaterThanMaximum)
        } else {
            Ok(Self { minimum, maximum, value })
        }
    }

    /// Creates a new `Self` without a run-time check: the caller proves that `value` lies in
    /// `minimum..=maximum`.
    pub fn new_unchecked(value: T, minimum: T, maximum: T) -> (r: Self)
        requires
            order_check(value, minimum, maximum) is None,
        ensures
            r.value_spec() == value,
            r.minimum_spec() == minimum,
            r.maximum_spec() == maximum,
    {
        Self { minimum, maximum, value }
    }

    /// The contained value.
    pub fn get(&self) -> (r: &T)
        ensures
            *r == self.value_spec(),
            T::obeys_partial_cmp_spec() ==> order_check(
                *r,
                self.minimum_spec(),
                self.maximum_spec(),
            ) is None,
    {
        proof {
            use_type_invariant(self);
        }
        &self.value
    }

    /// The lower bound.
    pub fn minimum(&self) -> (r: &T)
        ensures
            *r == self.minimum_spec(),
    {
        &self.minimum
    }

    /// The upper bound.
    pub fn maximum(&self) -> (r: &T)
        ensures
            *r == self.maximum_spec(),
    {
        &self.maximum
    }
}

/// A copy keeps the value and both bounds, and with them the range guarantee.
impl<T: Ord + Copy> Clone for Bounded<T> {
    fn clone(&self) -> (r: Self)
        ensures
            r == *self,
    {
        *self
    }
}

/// With bounds in the wrong order (`lo > hi`), every value is refused: none can be at once
/// at least `lo` and at most `hi`.
pub proof fn lemma_empty_range_rejects_all<T: Ord>(v: T, lo: T, hi: T)
    requires
        obeys_cmp::<T>(),
        obeys_concrete_eq::<T>(),
        lo.partial_cmp_spec(&hi) == Some(Ordering::Greater),
    ensures
        order_check(v, lo, hi) is Some,
{
    reveal(obeys_cmp_ord);
    reveal(obeys_cmp_partial_ord);
    reveal(obeys_partial_cmp_spec_properties);
    reveal(obeys_concrete_eq);
    let a = v.partial_cmp_spec(&lo);
    let b = v.partial_cmp_spec(&hi);
    assert(a == Some(v.cmp_spec(&lo)));
    assert(b == Some(v.cmp_spec(&hi)));
    assert(hi.partial_cmp_spec(&lo) == Some(Ordering::Less));
    if a == Some(Ordering::Greater) && b == Some(Ordering::Less) {
        // lo < v < hi would put lo below hi.
        assert(hi.partial_cmp_spec(&v) == Some(Ordering::Greater));
    }
}

} // verus!
