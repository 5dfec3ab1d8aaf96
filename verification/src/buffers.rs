//! `TakeRange` for the byte buffers of the crate `bytes`.
//!
//! `Bytes` and `BytesMut` are known here by the bytes that they hold. What
//! their methods do to those bytes is taken on trust from the crate `bytes`
//! and stated below; the `TakeRange` implementations are verified against
//! these statements.

use crate::bounds::{end_index, first_index, IndexBounds};
use crate::mem;
use crate::take_range::{extracted_by, left_by, TakeRange};
use bytes::{Bytes, BytesMut};
use core::ops::{RangeFrom, RangeFull, RangeTo, RangeToInclusive};
use vstd::prelude::*;

verus! {

/// `bytes::Bytes`, a reference-counted slice of shared memory. Nothing of
/// its representation is known here.
#[verifier::external_type_specification]
#[verifier::external_body]
pub struct ExBytes(Bytes);

/// `bytes::BytesMut`, a uniquely owned slice of memory. Nothing of its
/// representation is known here.
#[verifier::external_type_specification]
#[verifier::external_body]
pub struct ExBytesMut(BytesMut);

/// The bytes that a `Bytes` holds, in index order.
pub uninterp spec fn bytes_content(buf: Bytes) -> Seq<u8>;

/// The bytes that a `BytesMut` holds, in index order.
pub uninterp spec fn bytes_mut_content(buf: BytesMut) -> Seq<u8>;

/// `Bytes::len` returns the number of bytes held.
pub assume_specification[ Bytes::len ](buf: &Bytes) -> (len: usize)
    ensures
        len == bytes_content(*buf).len(),
;

/// `Bytes::split_off` leaves the bytes before `at` in the buffer and returns
/// the bytes from `at` on. It panics if `at` is greater than the length.
pub assume_specification[ Bytes::split_off ](buf: &mut Bytes, at: usize) -> (tail: Bytes)
    requires
        at <= bytes_content(*old(buf)).len(),
    ensures
        bytes_content(*final(buf)) == bytes_content(*old(buf)).subrange(0, at as int),
        bytes_content(tail) == bytes_content(*old(buf)).subrange(
            at as int,
            bytes_content(*old(buf)).len() as int,
        ),
;

/// `Bytes::split_to` returns the bytes before `at` and leaves the bytes from
/// `at` on in the buffer. It panics if `at` is greater than the length.
pub assume_specification[ Bytes::split_to ](buf: &mut Bytes, at: usize) -> (head: Bytes)
    requires
        at <= bytes_content(*old(buf)).len(),
    ensures
        bytes_content(head) == bytes_content(*old(buf)).subrange(0, at as int),
        bytes_content(*final(buf)) == bytes_content(*old(buf)).subrange(
            at as int,
            bytes_content(*old(buf)).len() as int,
        ),
;

/// `Bytes::truncate` keeps the first `len` bytes and drops the rest; where
/// `len` is greater than the length it changes nothing.
pub assume_specification[ Bytes::truncate ](buf: &mut Bytes, len: usize)
    ensures
        len <= bytes_content(*old(buf)).len() ==> bytes_content(*final(buf)) == bytes_content(
            *old(buf),
        ).subrange(0, len as int),
        len > bytes_content(*old(buf)).len() ==> bytes_content(*final(buf)) == bytes_content(
            *old(buf),
        ),
;

/// `Bytes::advance` drops the first `cnt` bytes and keeps the rest. It
/// panics if `cnt` is greater than the length.
pub assume_specification[ Bytes::advance ](buf: &mut Bytes, cnt: usize)
    requires
        cnt <= bytes_content(*old(buf)).len(),
    ensures
        bytes_content(*final(buf)) == bytes_content(*old(buf)).subrange(
            cnt as int,
            bytes_content(*old(buf)).len() as int,
        ),
;

/// `Bytes::clear` removes all bytes.
pub assume_specification[ Bytes::clear ](buf: &mut Bytes)
    ensures
        bytes_content(*final(buf)) == Seq::<u8>::empty(),
;

/// `BytesMut::len` returns the number of bytes held.
pub assume_specification[ BytesMut::len ](buf: &BytesMut) -> (len: usize)
    ensures
        len == bytes_mut_content(*buf).len(),
;

/// `BytesMut::split_off` leaves the bytes before `at` in the buffer and
/// returns what follows them, which for `at` within the length is the bytes
/// from `at` on. It panics if `at` is greater than the capacity, which is
/// never less than the length.
pub assume_specification[ BytesMut::split_off ](buf: &mut BytesMut, at: usize) -> (tail: BytesMut)
    requires
        at <= bytes_mut_content(*old(buf)).len(),
    ensures
        bytes_mut_content(*final(buf)) == bytes_mut_content(*old(buf)).subrange(0, at as int),
        bytes_mut_content(tail) == bytes_mut_content(*old(buf)).subrange(
            at as int,
            bytes_mut_content(*old(buf)).len() as int,
        ),
;

/// `BytesMut::take` returns all the bytes and leaves the buffer empty.
pub assume_specification[ BytesMut::take ](buf: &mut BytesMut) -> (all: BytesMut)
    ensures
        bytes_mut_content(all) == bytes_mut_content(*old(buf)),
        bytes_mut_content(*final(buf)) == Seq::<u8>::empty(),
;

/// `BytesMut::split_to` returns the bytes before `at` and leaves the bytes
/// from `at` on in the buffer. It panics if `at` is greater than the length.
pub assume_specification[ BytesMut::split_to ](buf: &mut BytesMut, at: usize) -> (head: BytesMut)
    requires
        at <= bytes_mut_content(*old(buf)).len(),
    ensures
        bytes_mut_content(head) == bytes_mut_content(*old(buf)).subrange(0, at as int),
        bytes_mut_content(*final(buf)) == bytes_mut_content(*old(buf)).subrange(
            at as int,
            bytes_mut_content(*old(buf)).len() as int,
        ),
;

/// `BytesMut::truncate` keeps the first `len` bytes and drops the rest; where
/// `len` is greater than the length it changes nothing.
pub assume_specification[ BytesMut::truncate ](buf: &mut BytesMut, len: usize)
    ensures
        len <= bytes_mut_content(*old(buf)).len() ==> bytes_mut_content(*final(buf))
            == bytes_mut_content(*old(buf)).subrange(0, len as int),
        len > bytes_mut_content(*old(buf)).len() ==> bytes_mut_content(*final(buf))
            == bytes_mut_content(*old(buf)),
;

/// `BytesMut::advance` drops the first `cnt` bytes and keeps the rest. It
/// panics if `cnt` is greater than the length.
pub assume_specification[ BytesMut::advance ](buf: &mut BytesMut, cnt: usize)
    requires
        cnt <= bytes_mut_content(*old(buf)).len(),
    ensures
        bytes_mut_content(*final(buf)) == bytes_mut_content(*old(buf)).subrange(
            cnt as int,
            bytes_mut_content(*old(buf)).len() as int,
        ),
;

/// `BytesMut::clear` removes all bytes.
pub assume_specification[ BytesMut::clear ](buf: &mut BytesMut)
    ensures
        bytes_mut_content(*final(buf)) == Seq::<u8>::empty(),
;

/// The full range designates the whole buffer: all of it is extracted and
/// nothing remains. It fits every buffer, an empty one too.
impl TakeRange<RangeFull> for Bytes {
    type Output = Bytes;

    open spec fn elements(&self) -> Seq<u8> {
        bytes_content(*self)
    }

    open spec fn output_elements(output: &Bytes) -> Seq<u8> {
        bytes_content(*output)
    }

    open spec fn range_start(range: &RangeFull) -> int {
        first_index(range.start())
    }

    open spec fn range_end(range: &RangeFull, len: nat) -> int {
        end_index(range.end(), len)
    }

    #[inline]
    fn take_range(&mut self, _range: RangeFull) -> (taken: Bytes)
        ensures
            bytes_content(taken) == bytes_content(*old(self)),
            bytes_content(*final(self)) == Seq::<u8>::empty(),
    {
        self.split_off(0)
    }

    #[inline]
    fn remove_range(&mut self, _range: RangeFull)
        ensures
            bytes_content(*final(self)) == Seq::<u8>::empty(),
    {
        self.clear()
    }
}

/// The full range designates the whole buffer: all of it is extracted and
/// nothing remains. It fits every buffer, an empty one too.
impl TakeRange<RangeFull> for BytesMut {
    type Output = BytesMut;

    open spec fn elements(&self) -> Seq<u8> {
        bytes_mut_content(*self)
    }

    open spec fn output_elements(output: &BytesMut) -> Seq<u8> {
        bytes_mut_content(*output)
    }

    open spec fn range_start(range: &RangeFull) -> int {
        first_index(range.start())
    }

    open spec fn range_end(range: &RangeFull, len: nat) -> int {
        end_index(range.end(), len)
    }

    #[inline]
    fn take_range(&mut self, _range: RangeFull) -> (taken: BytesMut)
        ensures
            bytes_mut_content(taken) == bytes_mut_content(*old(self)),
            bytes_mut_content(*final(self)) == Seq::<u8>::empty(),
    {
        self.take()
    }

    #[inline]
    fn remove_range(&mut self, _range: RangeFull)
        ensures
            bytes_mut_content(*final(self)) == Seq::<u8>::empty(),
    {
        self.clear()
    }
}

/// `start..` designates the bytes from `start` on: they are extracted and the
/// bytes before `start` remain. It fits a buffer of at least `start` bytes.
impl TakeRange<RangeFrom<usize>> for Bytes {
    type Output = Bytes;

    open spec fn elements(&self) -> Seq<u8> {
        bytes_content(*self)
    }

    open spec fn output_elements(output: &Bytes) -> Seq<u8> {
        bytes_content(*output)
    }

    open spec fn range_start(range: &RangeFrom<usize>) -> int {
        first_index(range.start())
    }

    open spec fn range_end(range: &RangeFrom<usize>, len: nat) -> int {
        end_index(range.end(), len)
    }

    #[inline]
    fn take_range(&mut self, range: RangeFrom<usize>) -> (taken: Bytes)
        ensures
            bytes_content(taken) == bytes_content(*old(self)).subrange(
                range.start as int,
                bytes_content(*old(self)).len() as int,
            ),
            bytes_content(*final(self)) == bytes_content(*old(self)).subrange(
                0,
                range.start as int,
            ),
    {
        self.split_off(range.start)
    }

    #[inline]
    fn remove_range(&mut self, range: RangeFrom<usize>)
        ensures
            bytes_content(*final(self)) == bytes_content(*old(self)).subrange(
                0,
                range.start as int,
            ),
    {
        self.truncate(range.start)
    }
}

/// `start..` designates the bytes from `start` on: they are extracted and the
/// bytes before `start` remain. It fits a buffer of at least `start` bytes.
impl TakeRange<RangeFrom<usize>> for BytesMut {
    type Output = BytesMut;

    open spec fn elements(&self) -> Seq<u8> {
        bytes_mut_content(*self)
    }

    open spec fn output_elements(output: &BytesMut) -> Seq<u8> {
        bytes_mut_content(*output)
    }

    open spec fn range_start(range: &RangeFrom<usize>) -> int {
        first_index(range.start())
    }

    open spec fn range_end(range: &RangeFrom<usize>, len: nat) -> int {
        end_index(range.end(), len)
    }

    #[inline]
    fn take_range(&mut self, range: RangeFrom<usize>) -> (taken: BytesMut)
        ensures
            bytes_mut_content(taken) == bytes_mut_content(*old(self)).subrange(
                range.start as int,
                bytes_mut_content(*old(self)).len() as int,
            ),
            bytes_mut_content(*final(self)) == bytes_mut_content(*old(self)).subrange(
                0,
                range.start as int,
            ),
    {
        self.split_off(range.start)
    }

    #[inline]
    fn remove_range(&mut self, range: RangeFrom<usize>)
        ensures
            bytes_mut_content(*final(self)) == bytes_mut_content(*old(self)).subrange(
                0,
                range.start as int,
            ),
    {
        self.truncate(range.start)
    }
}

/// `..end` designates the bytes before `end`: they are extracted and the
/// bytes from `end` on remain, indexed from zero. It fits a buffer of at
/// least `end` bytes.
impl TakeRange<RangeTo<usize>> for Bytes {
    type Output = Bytes;

    open spec fn elements(&self) -> Seq<u8> {
        bytes_content(*self)
    }

    open spec fn output_elements(output: &Bytes) -> Seq<u8> {
        bytes_content(*output)
    }

    open spec fn range_start(range: &RangeTo<usize>) -> int {
        first_index(range.start())
    }

    open spec fn range_end(range: &RangeTo<usize>, len: nat) -> int {
        end_index(range.end(), len)
    }

    #[inline]
    fn take_range(&mut self, range: RangeTo<usize>) -> (taken: Bytes)
        ensures
            bytes_content(taken) == bytes_content(*old(self)).subrange(0, range.end as int),
            bytes_content(*final(self)) == bytes_content(*old(self)).subrange(
                range.end as int,
                bytes_content(*old(self)).len() as int,
            ),
    {
        self.split_to(range.end)
    }

    #[inline]
    fn remove_range(&mut self, range: RangeTo<usize>)
        ensures
            bytes_content(*final(self)) == bytes_content(*old(self)).subrange(
                range.end as int,
                bytes_content(*old(self)).len() as int,
            ),
    {
        self.advance(range.end)
    }
}

/// `..end` designates the bytes before `end`: they are extracted and the
/// bytes from `end` on remain, indexed from zero. It fits a buffer of at
/// least `end` bytes.
impl TakeRange<RangeTo<usize>> for BytesMut {
    type Output = BytesMut;

    open spec fn elements(&self) -> Seq<u8> {
        bytes_mut_content(*self)
    }

    open spec fn output_elements(output: &BytesMut) -> Seq<u8> {
        bytes_mut_content(*output)
    }

    open spec fn range_start(range: &RangeTo<usize>) -> int {
        first_index(range.start())
    }

    open spec fn range_end(range: &RangeTo<usize>, len: nat) -> int {
        end_index(range.end(), len)
    }

    #[inline]
    fn take_range(&mut self, range: RangeTo<usize>) -> (taken: BytesMut)
        ensures
            bytes_mut_content(taken) == bytes_mut_content(*old(self)).subrange(0, range.end as int),
            bytes_mut_content(*final(self)) == bytes_mut_content(*old(self)).subrange(
                range.end as int,
                bytes_mut_content(*old(self)).len() as int,
            ),
    {
        self.split_to(range.end)
    }

    #[inline]
    fn remove_range(&mut self, range: RangeTo<usize>)
        ensures
            bytes_mut_content(*final(self)) == bytes_mut_content(*old(self)).subrange(
                range.end as int,
                bytes_mut_content(*old(self)).len() as int,
            ),
    {
        self.advance(range.end)
    }
}

/// `..=end` designates the bytes up to and including the one at `end`: they
/// are extracted and the bytes after `end` remain, indexed from zero. It
/// fits a buffer of more than `end` bytes.
impl TakeRange<RangeToInclusive<usize>> for Bytes {
    type Output = Bytes;

    open spec fn elements(&self) -> Seq<u8> {
        bytes_content(*self)
    }

    open spec fn output_elements(output: &Bytes) -> Seq<u8> {
        bytes_content(*output)
    }

    open spec fn range_start(range: &RangeToInclusive<usize>) -> int {
        first_index(range.start())
    }

    open spec fn range_end(range: &RangeToInclusive<usize>, len: nat) -> int {
        end_index(range.end(), len)
    }

    #[inline]
    fn take_range(&mut self, range: RangeToInclusive<usize>) -> (taken: Bytes)
        ensures
            bytes_content(taken) == bytes_content(*old(self)).subrange(0, range.end + 1),
            bytes_content(*final(self)) == bytes_content(*old(self)).subrange(
                range.end + 1,
                bytes_content(*old(self)).len() as int,
            ),
    {
        // The length of the buffer fits in `usize`, so an inclusive end within
        // the buffer is less than `usize::MAX`.
        let _ = self.len();
        self.take_range(mem::convert_inclusive_range(range))
    }

    #[inline]
    fn remove_range(&mut self, range: RangeToInclusive<usize>)
        ensures
            bytes_content(*final(self)) == bytes_content(*old(self)).subrange(
                range.end + 1,
                bytes_content(*old(self)).len() as int,
            ),
    {
        // As in `take_range`, the length bounds the inclusive end.
        let _ = self.len();
        self.remove_range(mem::convert_inclusive_range(range))
    }
}

/// `..=end` designates the bytes up to and including the one at `end`: they
/// are extracted and the bytes after `end` remain, indexed from zero. It
/// fits a buffer of more than `end` bytes.
impl TakeRange<RangeToInclusive<usize>> for BytesMut {
    type Output = BytesMut;

    open spec fn elements(&self) -> Seq<u8> {
        bytes_mut_content(*self)
    }

    open spec fn output_elements(output: &BytesMut) -> Seq<u8> {
        bytes_mut_content(*output)
    }

    open spec fn range_start(range: &RangeToInclusive<usize>) -> int {
        first_index(range.start())
    }

    open spec fn range_end(range: &RangeToInclusive<usize>, len: nat) -> int {
        end_index(range.end(), len)
    }

    #[inline]
    fn take_range(&mut self, range: RangeToInclusive<usize>) -> (taken: BytesMut)
        ensures
            bytes_mut_content(taken) == bytes_mut_content(*old(self)).subrange(0, range.end + 1),
            bytes_mut_content(*final(self)) == bytes_mut_content(*old(self)).subrange(
                range.end + 1,
                bytes_mut_content(*old(self)).len() as int,
            ),
    {
        // The length of the buffer fits in `usize`, so an inclusive end within
        // the buffer is less than `usize::MAX`.
        let _ = self.len();
        self.take_range(mem::convert_inclusive_range(range))
    }

    #[inline]
    fn remove_range(&mut self, range: RangeToInclusive<usize>)
        ensures
            bytes_mut_content(*final(self)) == bytes_mut_content(*old(self)).subrange(
                range.end + 1,
                bytes_mut_content(*old(self)).len() as int,
            ),
    {
        // As in `take_range`, the length bounds the inclusive end.
        let _ = self.len();
        self.remove_range(mem::convert_inclusive_range(range))
    }
}

/// Taking or removing `..=end` is taking or removing `..end + 1`: on both
/// kinds of buffer, whatever the buffer holds, the two ranges have the same
/// part extracted and the same part left.
pub proof fn lemma_inclusive_end_as_exclusive(elements: Seq<u8>, end: usize)
    requires
        end < usize::MAX,
    ensures
        ({
            let inclusive = RangeToInclusive { end };
            let exclusive = RangeTo { end: (end + 1) as usize };
            &&& extracted_by::<RangeToInclusive<usize>, Bytes>(elements, &inclusive)
                == extracted_by::<RangeTo<usize>, Bytes>(elements, &exclusive)
            &&& left_by::<RangeToInclusive<usize>, Bytes>(elements, &inclusive) == left_by::<
                RangeTo<usize>,
                Bytes,
            >(elements, &exclusive)
            &&& extracted_by::<RangeToInclusive<usize>, BytesMut>(elements, &inclusive)
                == extracted_by::<RangeTo<usize>, BytesMut>(elements, &exclusive)
            &&& left_by::<RangeToInclusive<usize>, BytesMut>(elements, &inclusive) == left_by::<
                RangeTo<usize>,
                BytesMut,
            >(elements, &exclusive)
        }),
{
}

} // verus!
