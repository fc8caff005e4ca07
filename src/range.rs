use vstd::prelude::*;

verus! {

/// Why a checked construction refused its value.
#[derive(Debug, Clone, Copy, PartialEq, Eq, Structural, PartialOrd, Ord)]
pub enum BoundedError {
    /// The value provided was less than the minimum.
    LessThanMinimum,
    /// The value provided was greater than the maximum.
    GreaterThanMaximum,
}

/// The outcome of checking `v` against the inclusive range `lo..=hi`: `None` when it lies
/// inside, else the kind of violation. The minimum is tested first, so with `lo > hi` a
/// value on neither side counts as below the minimum.
pub open spec fn range_check(v: int, lo: int, hi: int) -> Option<BoundedError> {
    if v < lo {
        Some(BoundedError::LessThanMinimum)
    } else if v > hi {
        Some(BoundedError::GreaterThanMaximum)
    } else {
        None
    }
}

/// A value is accepted exactly when `lo <= v <= hi`.
pub proof fn lemma_accepts_exactly_in_range(v: int, lo: int, hi: int)
    ensures
        range_check(v, lo, hi) is None <==> lo <= v <= hi,
{
}

/// A value below the minimum is reported as below the minimum, never as above the maximum.
pub proof fn lemma_below_minimum(v: int, lo: int, hi: int)
    requires
        v < lo,
    ensures
        range_check(v, lo, hi) == Some(BoundedError::LessThanMinimum),
{
}

/// In a range with `lo <= hi`, a value above the maximum is reported as above the maximum,
/// never as below the minimum.
pub proof fn lemma_above_maximum(v: int, lo: int, hi: int)
    requires
        lo <= hi,
        v > hi,
    ensures
        range_check(v, lo, hi) == Some(BoundedError::GreaterThanMaximum),
{
}

/// The range is inclusive: in a range with `lo <= hi`, both bounds are accepted.
pub proof fn lemma_bounds_are_accepted(lo: int, hi: int)
    requires
        lo <= hi,
    ensures
        range_check(lo, lo, hi) is None,
        range_check(hi, lo, hi) is None,
{
}

} // verus!
