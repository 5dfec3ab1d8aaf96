//! Utilities for validating ranges on UTF-8 strings.

use crate::bounds::{end_index, first_index, IndexBounds};
use crate::take_range::{remaining_part, taken_part};
use core::ops::Bound;
use vstd::prelude::*;
use vstd::string::{StringExecFns, StringSliceAdditionalSpecFns};
use vstd::utf8::*;

verus! {

/// Why a bound of a range cannot be used to split a string.
#[derive(Clone, Copy, Debug, PartialEq, Eq, Structural)]
pub enum InvalidBound {
    /// The split position lies past the end of the string.
    OutOfBuffer,
    /// The split position lies inside the encoding of a character.
    NotCharBoundary,
}

/// Whether the UTF-8 text `text` can be split at byte position `index`.
pub open spec fn index_status(text: Seq<u8>, index: int) -> Result<(), InvalidBound> {
    if index > text.len() {
        Err(InvalidBound::OutOfBuffer)
    } else if is_char_boundary(text, index) {
        Ok(())
    } else {
        Err(InvalidBound::NotCharBoundary)
    }
}

/// Whether the UTF-8 text `text` can be split where a range with the start
/// bound `bound` begins.
pub open spec fn start_bound_status(text: Seq<u8>, bound: Bound<usize>) -> Result<
    (),
    InvalidBound,
> {
    index_status(text, first_index(bound))
}

/// Whether the UTF-8 text `text` can be split where a range with the end
/// bound `bound` ends.
pub open spec fn end_bound_status(text: Seq<u8>, bound: Bound<usize>) -> Result<(), InvalidBound> {
    index_status(text, end_index(bound, text.len()))
}

/// The length of `s` in bytes.
fn byte_len(s: &str) -> (len: usize)
    ensures
        len == s.spec_bytes().len(),
{
    s.as_bytes().len()
}

/// Tells whether `s` can be split at the byte position `index`, and if
/// not, whether the position lies past the end of `s` or inside a character.
pub fn validate_index(s: &str, index: usize) -> (status: Result<(), InvalidBound>)
    ensures
        status == index_status(s.spec_bytes(), index as int),
{
    broadcast use encode_utf8_valid_utf8;
    // .is_char_boundary() fails on OOB as well, but we check it as
    // the fast path first and discern the failure cause later.
    if s.is_char_boundary(index) {
        Ok(())
    } else if index > byte_len(s) {
        Err(InvalidBound::OutOfBuffer)
    } else {
        Err(InvalidBound::NotCharBoundary)
    }
}

/// Tells whether `s` can be split just past the byte position `index`,
/// the split position of a bound that includes `index`.
pub fn validate_next_index(s: &str, index: usize) -> (status: Result<(), InvalidBound>)
    ensures
        status == index_status(s.spec_bytes(), index + 1),
{
    broadcast use encode_utf8_valid_utf8;
    // The check for OOB also rules out integer overflow in index + 1
    if index >= byte_len(s) {
        Err(InvalidBound::OutOfBuffer)
    } else if s.is_char_boundary(index + 1) {
        Ok(())
    } else {
        Err(InvalidBound::NotCharBoundary)
    }
}

/// Tells whether `s` can be split where a range with the start bound
/// `bound` begins.
pub fn validate_start_bound(s: &str, bound: Bound<usize>) -> (status: Result<(), InvalidBound>)
    ensures
        status == start_bound_status(s.spec_bytes(), bound),
{
    broadcast use {encode_utf8_valid_utf8, is_char_boundary_start_end_of_seq};

    match bound {
        Bound::Unbounded => Ok(()),
        Bound::Included(index) => validate_index(s, index),
        Bound::Excluded(index) => validate_next_index(s, index),
    }
}

/// Tells whether `s` can be split where a range with the end bound `bound`
/// ends.
pub fn validate_end_bound(s: &str, bound: Bound<usize>) -> (status: Result<(), InvalidBound>)
    ensures
        status == end_bound_status(s.spec_bytes(), bound),
{
    broadcast use {encode_utf8_valid_utf8, is_char_boundary_start_end_of_seq};

    match bound {
        Bound::Unbounded => Ok(()),
        Bound::Excluded(index) => validate_index(s, index),
        Bound::Included(index) => validate_next_index(s, index),
    }
}

/// Whether a range with the bounds `start` and `end` can be split out of the
/// UTF-8 text `text`.
pub open spec fn range_is_valid(text: Seq<u8>, start: Bound<usize>, end: Bound<usize>) -> bool {
    start_bound_status(text, start) is Ok && end_bound_status(text, end) is Ok
}

/// Checks that `range` is valid for splitting the string slice `s`.
///
/// The range is valid if it fits within the slice and its bounds are
/// on UTF-8 code point boundaries. The answer is a function of the bytes of
/// `s` and of the two bounds of `range`: asking again gives it again.
pub fn is_valid_range<R: IndexBounds>(s: &str, range: &R) -> (valid: bool)
    ensures
        valid == range_is_valid(s.spec_bytes(), range.start(), range.end()),
{
    validate_start_bound(s, range.start_bound()).is_ok() && validate_end_bound(
        s,
        range.end_bound(),
    ).is_ok()
}

/// Why a range with the bounds `start` and `end`, which is not valid for
/// the UTF-8 text `text`, cannot be split out of it: a bound past the end of
/// the text outweighs one inside a character.
pub open spec fn range_failure(
    text: Seq<u8>,
    start: Bound<usize>,
    end: Bound<usize>,
) -> InvalidBound {
    if first_index(start) > text.len() || end_index(end, text.len()) > text.len() {
        InvalidBound::OutOfBuffer
    } else {
        InvalidBound::NotCharBoundary
    }
}

/// The text that `{:?}` formatting gives for the pair `(start, end)`.
pub uninterp spec fn bounds_debug_text(start: Bound<usize>, end: Bound<usize>) -> Seq<char>;

/// Formats the pair `(start, end)` with the `Debug` implementations of
/// `core::ops::Bound`, tuples and `usize`, through `format!`. The formatting
/// depends on the two values alone; the contract gives its result a name
/// and claims nothing more of it.
#[verifier::external_body]
fn debug_bounds(start: Bound<usize>, end: Bound<usize>) -> (text: String)
    ensures
        text@ == bounds_debug_text(start, end),
{
    format!("{:?}", (start, end))
}

/// The description of a failed range check: `range_text` names the range
/// and `failure` tells why it was refused.
pub open spec fn failure_text(failure: InvalidBound, range_text: Seq<char>) -> Seq<char> {
    "range "@ + range_text + match failure {
        InvalidBound::OutOfBuffer => " is out of bounds"@,
        InvalidBound::NotCharBoundary => " does not split on a UTF-8 boundary"@,
    }
}

/// Describes a failed range check on a range that `range_text` names.
pub fn failure_message(failure: InvalidBound, range_text: &str) -> (message: String)
    ensures
        message@ == failure_text(failure, range_text@),
{
    let mut message = String::from_str("range ");
    message.append(range_text);
    match failure {
        InvalidBound::OutOfBuffer => message.append(" is out of bounds"),
        InvalidBound::NotCharBoundary => message.append(" does not split on a UTF-8 boundary"),
    }
    message
}

/// Describes why the range with the bounds `start_bound` and `end_bound`
/// is not valid for splitting the string slice `s`.
pub fn range_fail_internal(s: &str, start_bound: Bound<usize>, end_bound: Bound<usize>) -> (message:
    String)
    requires
        !range_is_valid(s.spec_bytes(), start_bound, end_bound),
    ensures
        message@ == failure_text(
            range_failure(s.spec_bytes(), start_bound, end_bound),
            bounds_debug_text(start_bound, end_bound),
        ),
{
    let start_validity = validate_start_bound(s, start_bound);
    let end_validity = validate_end_bound(s, end_bound);
    let r = debug_bounds(start_bound, end_bound);
    match (start_validity, end_validity) {
        (Err(InvalidBound::OutOfBuffer), _) | (_, Err(InvalidBound::OutOfBuffer)) => {
            failure_message(InvalidBound::OutOfBuffer, r.as_str())
        },
        (Err(InvalidBound::NotCharBoundary), _) | (_, Err(InvalidBound::NotCharBoundary)) => {
            failure_message(InvalidBound::NotCharBoundary, r.as_str())
        },
        // A range with two valid bounds is valid, and none such comes here.
        (Ok(()), Ok(())) => unreached(),
    }
}

/// Describes why `range` is not valid for splitting the string slice `s`.
pub fn range_fail<R: IndexBounds>(s: &str, range: &R) -> (message: String)
    requires
        !range_is_valid(s.spec_bytes(), range.start(), range.end()),
    ensures
        message@ == failure_text(
            range_failure(s.spec_bytes(), range.start(), range.end()),
            bounds_debug_text(range.start(), range.end()),
        ),
{
    range_fail_internal(s, range.start_bound(), range.end_bound())
}

/// Checks that `range` is valid for splitting the string slice `s`, and
/// describes the failure where it is not.
pub fn check_str_range<R: IndexBounds>(s: &str, range: &R) -> (checked: Result<(), String>)
    ensures
        checked is Ok <==> range_is_valid(s.spec_bytes(), range.start(), range.end()),
        checked matches Err(message) ==> message@ == failure_text(
            range_failure(s.spec_bytes(), range.start(), range.end()),
            bounds_debug_text(range.start(), range.end()),
        ),
{
    if is_valid_range(s, range) {
        Ok(())
    } else {
        Err(range_fail(s, range))
    }
}

/// The status of a position, told from the byte at it: a position past
/// the end of the text is out of the buffer, the start and the end of the
/// text are accepted, and a position in between is refused exactly where
/// the byte at it continues a character.
pub proof fn lemma_index_status_by_byte(text: Seq<u8>, index: int)
    requires
        valid_utf8(text),
        0 <= index,
    ensures
        index > text.len() ==> index_status(text, index) == Err::<(), InvalidBound>(
            InvalidBound::OutOfBuffer,
        ),
        index == 0 || index == text.len() ==> index_status(text, index) is Ok,
        0 < index < text.len() ==> index_status(text, index) == if is_continuation_byte(
            text[index],
        ) {
            Err::<(), InvalidBound>(InvalidBound::NotCharBoundary)
        } else {
            Ok::<(), InvalidBound>(())
        },
{
    is_char_boundary_start_end_of_seq(text);
    if 0 < index < text.len() {
        is_char_boundary_iff_not_is_continuation_byte(text, index);
    }
}

/// A split at an accepted position cuts no character in two: the position
/// lies within the text, and the text before it and the text from it on are
/// both valid UTF-8.
pub proof fn lemma_accepted_index_splits_text(text: Seq<u8>, index: int)
    requires
        valid_utf8(text),
        index_status(text, index) is Ok,
    ensures
        0 <= index <= text.len(),
        valid_utf8(text.subrange(0, index)),
        valid_utf8(text.subrange(index, text.len() as int)),
{
    valid_utf8_split(text, index);
}

/// Splitting by a valid range keeps text on both sides: where the range does
/// not end before it starts, it lies within the text, and both the part that
/// it designates and what remains without that part are valid UTF-8.
pub proof fn lemma_valid_range_splits_text(text: Seq<u8>, start: Bound<usize>, end: Bound<usize>)
    requires
        valid_utf8(text),
        range_is_valid(text, start, end),
        first_index(start) <= end_index(end, text.len()),
    ensures
        0 <= first_index(start) <= end_index(end, text.len()) <= text.len(),
        valid_utf8(taken_part(text, first_index(start), end_index(end, text.len()))),
        valid_utf8(remaining_part(text, first_index(start), end_index(end, text.len()))),
{
    let lo = first_index(start);
    let hi = end_index(end, text.len());
    let head = text.subrange(0, hi);
    lemma_accepted_index_splits_text(text, lo);
    lemma_accepted_index_splits_text(text, hi);
    assert(is_char_boundary(head, lo)) by {
        is_char_boundary_start_end_of_seq(head);
        if 0 < lo < hi {
            is_char_boundary_iff_not_is_continuation_byte(text, lo);
            is_char_boundary_iff_not_is_continuation_byte(head, lo);
        }
    }
    valid_utf8_split(head, lo);
    assert(head.subrange(lo, head.len() as int) =~= text.subrange(lo, hi));
    valid_utf8_concat(text.subrange(0, lo), text.subrange(hi, text.len() as int));
}

/// The failure of a range that is not valid agrees with the statuses of its
/// two bounds: it is `OutOfBuffer` exactly where one of them is, and
/// `NotCharBoundary` exactly where neither lies past the end of the text
/// and one of them lies inside a character.
pub proof fn lemma_range_failure_by_bounds(text: Seq<u8>, start: Bound<usize>, end: Bound<usize>)
    requires
        !range_is_valid(text, start, end),
    ensures
        range_failure(text, start, end) == InvalidBound::OutOfBuffer <==> {
            ||| start_bound_status(text, start) matches Err(InvalidBound::OutOfBuffer)
            ||| end_bound_status(text, end) matches Err(InvalidBound::OutOfBuffer)
        },
        range_failure(text, start, end) == InvalidBound::NotCharBoundary <==> {
            &&& !(start_bound_status(text, start) matches Err(InvalidBound::OutOfBuffer))
            &&& !(end_bound_status(text, end) matches Err(InvalidBound::OutOfBuffer))
            &&& {
                ||| start_bound_status(text, start) matches Err(InvalidBound::NotCharBoundary)
                ||| end_bound_status(text, end) matches Err(InvalidBound::NotCharBoundary)
            }
        },
{
}

} // verus!
