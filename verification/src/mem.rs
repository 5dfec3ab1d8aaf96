//! Utilities for working with ranges of collections in memory.

use core::ops::{RangeTo, RangeToInclusive};
use vstd::prelude::*;

verus! {

/// Converts a range with an inclusive end bound into the equivalent
/// range with the exclusive end bound.
///
/// This allows reusing the implementation of `TakeRange<RangeTo<usize>>`
/// to implement `TakeRange<RangeToInclusive<usize>>`. The exclusive end
/// bound value also corresponds directly to container lengths and
/// zero-based offsets.
///
/// This conversion is valid for any valid range within a collection in memory,
/// since the entire length of the collection must fit within a `usize` value.
/// The inclusive end bound `usize::MAX` has no exclusive counterpart and is
/// not accepted; `checked_convert_inclusive_range` takes any bound.
pub fn convert_inclusive_range(range: RangeToInclusive<usize>) -> (converted: RangeTo<usize>)
    requires
        range.end < usize::MAX,
    ensures
        converted.end == range.end + 1,
{
    ..range.end.checked_add(1).expect("integer overflow")
}

/// Converts a range with an inclusive end bound into the equivalent
/// range with the exclusive end bound, or returns `None` where the
/// inclusive end bound is `usize::MAX`, one past which no index lies.
pub fn checked_convert_inclusive_range(range: RangeToInclusive<usize>) -> (converted: Option<
    RangeTo<usize>,
>)
    ensures
        range.end < usize::MAX ==> converted == Some(RangeTo { end: (range.end + 1) as usize }),
        range.end == usize::MAX ==> converted is None,
{
    match range.end.checked_add(1) {
        Some(end) => Some(..end),
        None => None,
    }
}

} // verus!
