//! The capability of splitting part of a collection out by a range.

use vstd::prelude::*;

verus! {

/// The part of `elements` at the positions from `start` up to `end`.
pub open spec fn taken_part(elements: Seq<u8>, start: int, end: int) -> Seq<u8> {
    elements.subrange(start, end)
}

/// What is left of `elements` once the positions from `start` up to `end`
/// are gone: the elements before `start`, followed by those from `end` on.
pub open spec fn remaining_part(elements: Seq<u8>, start: int, end: int) -> Seq<u8> {
    elements.subrange(0, start) + elements.subrange(end, elements.len() as int)
}

/// Methods for splitting out part of a collection with a given range.
///
/// An implementation says, by `range_start` and `range_end`, which
/// positions a range designates. Both methods ask that these lie within
/// the collection, in order.
pub trait TakeRange<R> {
    /// The value returned by the `take_range` method, representing
    /// the extracted part of the collection.
    type Output;

    /// The elements of the collection, in index order.
    spec fn elements(&self) -> Seq<u8>;

    /// The elements of an extracted part, in index order.
    spec fn output_elements(output: &Self::Output) -> Seq<u8>;

    /// The position of the first element that `range` designates.
    spec fn range_start(range: &R) -> int;

    /// The position just past the last element that `range` designates in
    /// a collection of `len` elements.
    spec fn range_end(range: &R, len: nat) -> int;

    /// Splits off and returns part of the collection designated by
    /// the given range. The remaining part is left in `self` with indices
    /// adjusted after the removal.
    fn take_range(&mut self, range: R) -> (taken: Self::Output)
        requires
            0 <= Self::range_start(&range) <= Self::range_end(&range, old(self).elements().len())
                <= old(self).elements().len(),
        ensures
            Self::output_elements(&taken) == taken_part(
                old(self).elements(),
                Self::range_start(&range),
                Self::range_end(&range, old(self).elements().len()),
            ),
            final(self).elements() == remaining_part(
                old(self).elements(),
                Self::range_start(&range),
                Self::range_end(&range, old(self).elements().len()),
            ),
            Self::output_elements(&taken).len() + final(self).elements().len() == old(
                self,
            ).elements().len(),
    ;

    /// Removes items from the collection as designated by
    /// the given range. The remaining part is left in `self` with indices
    /// adjusted after the removal.
    ///
    /// The default implementation of this method calls `take_range` and
    /// drops the returned value. Implementors of the trait should consider
    /// a more efficient implementation, avoiding construction of an
    /// intermediate container.
    fn remove_range(&mut self, range: R)
        requires
            0 <= Self::range_start(&range) <= Self::range_end(&range, old(self).elements().len())
                <= old(self).elements().len(),
        ensures
            final(self).elements() == remaining_part(
                old(self).elements(),
                Self::range_start(&range),
                Self::range_end(&range, old(self).elements().len()),
            ),
    {
        self.take_range(range);
    }
}

/// The elements that `take_range` with `range` extracts from a collection
/// of type `C` that holds `elements`.
pub open spec fn extracted_by<R, C: TakeRange<R>>(elements: Seq<u8>, range: &R) -> Seq<u8> {
    taken_part(elements, C::range_start(range), C::range_end(range, elements.len()))
}

/// The elements that `take_range` or `remove_range` with `range` leaves in
/// a collection of type `C` that holds `elements`.
pub open spec fn left_by<R, C: TakeRange<R>>(elements: Seq<u8>, range: &R) -> Seq<u8> {
    remaining_part(elements, C::range_start(range), C::range_end(range, elements.len()))
}

/// Nothing but the designated part leaves the collection, and what remains
/// is indexed from zero: the two parts together hold as many elements as
/// the collection held, the elements before `start` keep their positions,
/// and the elements from `end` on move down by the length of the part taken.
pub proof fn lemma_parts_of_split(elements: Seq<u8>, start: int, end: int)
    requires
        0 <= start <= end <= elements.len(),
    ensures
        taken_part(elements, start, end).len() == end - start,
        remaining_part(elements, start, end).len() == elements.len() - (end - start),
        forall|i: int|
            0 <= i < end - start ==> #[trigger] taken_part(elements, start, end)[i] == elements[start
                + i],
        forall|i: int|
            0 <= i < start ==> #[trigger] remaining_part(elements, start, end)[i] == elements[i],
        forall|i: int|
            start <= i < elements.len() - (end - start) ==> #[trigger] remaining_part(
                elements,
                start,
                end,
            )[i] == elements[i + (end - start)],
{
}

} // verus!
