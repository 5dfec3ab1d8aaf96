//! The range shapes that designate part of an indexed sequence, and the
//! positions at which each of them cuts.

use core::ops::{Bound, Range, RangeFrom, RangeFull, RangeTo, RangeToInclusive};
use vstd::prelude::*;

verus! {

/// `core::ops::Bound`, an endpoint of a range: its three variants are read
/// as the standard library declares them.
#[verifier::external_type_specification]
#[verifier::reject_recursive_types(T)]
pub struct ExBound<T>(Bound<T>);

/// `core::ops::RangeFull`, the range `..`, which has no field.
#[verifier::external_type_specification]
pub struct ExRangeFull(RangeFull);

/// `core::ops::RangeFrom`, the range `start..`, read by its public field
/// `start`.
#[verifier::external_type_specification]
#[verifier::reject_recursive_types(Idx)]
pub struct ExRangeFrom<Idx>(RangeFrom<Idx>);

/// `core::ops::RangeTo`, the range `..end`, read by its public field `end`.
#[verifier::external_type_specification]
#[verifier::reject_recursive_types(Idx)]
pub struct ExRangeTo<Idx>(RangeTo<Idx>);

/// `core::ops::RangeToInclusive`, the range `..=end`, read by its public
/// field `end`.
#[verifier::external_type_specification]
#[verifier::reject_recursive_types(Idx)]
pub struct ExRangeToInclusive<Idx>(RangeToInclusive<Idx>);

/// The position of the first element that a range with the start bound
/// `start` designates.
pub open spec fn first_index(start: Bound<usize>) -> int {
    match start {
        Bound::Unbounded => 0,
        Bound::Included(index) => index as int,
        Bound::Excluded(index) => index + 1,
    }
}

/// The position just past the last element that a range with the end bound
/// `end` designates in a sequence of `len` elements.
pub open spec fn end_index(end: Bound<usize>, len: nat) -> int {
    match end {
        Bound::Unbounded => len as int,
        Bound::Excluded(index) => index as int,
        Bound::Included(index) => index + 1,
    }
}

/// A range over `usize` indices, known by its two bounds.
///
/// The range begins at `first_index` of its start bound and ends before
/// `end_index` of its end bound.
pub trait IndexBounds {
    /// The bound at which the range starts.
    spec fn start(&self) -> Bound<usize>;

    /// The bound at which the range ends.
    spec fn end(&self) -> Bound<usize>;

    /// Returns the bound at which the range starts.
    fn start_bound(&self) -> (bound: Bound<usize>)
        ensures
            bound == self.start(),
    ;

    /// Returns the bound at which the range ends.
    fn end_bound(&self) -> (bound: Bound<usize>)
        ensures
            bound == self.end(),
    ;
}

impl IndexBounds for RangeFull {
    open spec fn start(&self) -> Bound<usize> {
        Bound::Unbounded
    }

    open spec fn end(&self) -> Bound<usize> {
        Bound::Unbounded
    }

    fn start_bound(&self) -> (bound: Bound<usize>) {
        Bound::Unbounded
    }

    fn end_bound(&self) -> (bound: Bound<usize>) {
        Bound::Unbounded
    }
}

impl IndexBounds for RangeFrom<usize> {
    open spec fn start(&self) -> Bound<usize> {
        Bound::Included(self.start)
    }

    open spec fn end(&self) -> Bound<usize> {
        Bound::Unbounded
    }

    fn start_bound(&self) -> (bound: Bound<usize>) {
        Bound::Included(self.start)
    }

    fn end_bound(&self) -> (bound: Bound<usize>) {
        Bound::Unbounded
    }
}

impl IndexBounds for RangeTo<usize> {
    open spec fn start(&self) -> Bound<usize> {
        Bound::Unbounded
    }

    open spec fn end(&self) -> Bound<usize> {
        Bound::Excluded(self.end)
    }

    fn start_bound(&self) -> (bound: Bound<usize>) {
        Bound::Unbounded
    }

    fn end_bound(&self) -> (bound: Bound<usize>) {
        Bound::Excluded(self.end)
    }
}

impl IndexBounds for RangeToInclusive<usize> {
    open spec fn start(&self) -> Bound<usize> {
        Bound::Unbounded
    }

    open spec fn end(&self) -> Bound<usize> {
        Bound::Included(self.end)
    }

    fn start_bound(&self) -> (bound: Bound<usize>) {
        Bound::Unbounded
    }

    fn end_bound(&self) -> (bound: Bound<usize>) {
        Bound::Included(self.end)
    }
}

impl IndexBounds for Range<usize> {
    open spec fn start(&self) -> Bound<usize> {
        Bound::Included(self.start)
    }

    open spec fn end(&self) -> Bound<usize> {
        Bound::Excluded(self.end)
    }

    fn start_bound(&self) -> (bound: Bound<usize>) {
        Bound::Included(self.start)
    }

    fn end_bound(&self) -> (bound: Bound<usize>) {
        Bound::Excluded(self.end)
    }
}

impl IndexBounds for (Bound<usize>, Bound<usize>) {
    open spec fn start(&self) -> Bound<usize> {
        self.0
    }

    open spec fn end(&self) -> Bound<usize> {
        self.1
    }

    fn start_bound(&self) -> (bound: Bound<usize>) {
        self.0
    }

    fn end_bound(&self) -> (bound: Bound<usize>) {
        self.1
    }
}

} // verus!
