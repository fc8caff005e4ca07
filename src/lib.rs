//! Bounded integers: values that carry, by construction, the guarantee that they lie
//! within an inclusive range. The range is either part of the type (`BoundedU8<10, 20>`)
//! or stored beside the value (`Bounded<T>`).
mod dynamic;
mod range;
mod signed;
mod unsigned;

pub use dynamic::{lemma_empty_range_rejects_all, order_check, Bounded};
pub use range::{
    lemma_bounds_are_accepted, lemma_above_maximum, lemma_below_minimum,
    lemma_accepts_exactly_in_range, range_check, BoundedError,
};
pub use signed::{BoundedI128, BoundedI16, BoundedI32, BoundedI64, BoundedI8};
pub use unsigned::{BoundedU128, BoundedU16, BoundedU32, BoundedU64, BoundedU8};
