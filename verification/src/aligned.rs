//! The byte buffer of rkyv, [`AlignedVec`]: its declaration, a name for what it
//! holds, and the contracts of the methods that the framing code calls.
//!
//! Nothing in this file is proved. Each contract restates what the source of rkyv
//! does to the bytes of the buffer; the capacity that the buffer has allocated is
//! left out.

use rkyv::AlignedVec;
use std::io::Write;
use vstd::prelude::*;

verus! {

/// rkyv's vector of bytes whose memory is aligned to 16 bytes.
#[verifier::external_type_specification]
#[verifier::external_body]
pub struct ExAlignedVec(AlignedVec);

/// The error of the writing methods of std.
#[verifier::external_type_specification]
#[verifier::external_body]
pub struct ExIoError(std::io::Error);

/// The bytes that an [`AlignedVec`] holds, in order.
pub uninterp spec fn aligned_contents(buffer: AlignedVec) -> Seq<u8>;

/// The largest number of bytes that an [`AlignedVec`] can hold: `isize::MAX - 15`.
pub open spec fn max_capacity() -> int {
    isize::MAX - 15
}

/// [`AlignedVec::new`] makes an empty buffer.
pub assume_specification[ AlignedVec::new ]() -> (buffer: AlignedVec)
    ensures
        aligned_contents(buffer) == Seq::<u8>::empty(),
;

/// [`AlignedVec::with_capacity`] makes an empty buffer. It panics beyond the
/// largest capacity.
pub assume_specification[ AlignedVec::with_capacity ](capacity: usize) -> (buffer: AlignedVec)
    requires
        capacity <= max_capacity(),
    ensures
        aligned_contents(buffer) == Seq::<u8>::empty(),
;

/// [`AlignedVec::len`] is the number of bytes held. Every growing method of the
/// type keeps it within the largest capacity.
pub assume_specification[ AlignedVec::len ](buffer: &AlignedVec) -> (len: usize)
    ensures
        len == aligned_contents(*buffer).len(),
        len <= max_capacity(),
;

/// [`AlignedVec::is_empty`] tells whether no byte is held.
pub assume_specification[ AlignedVec::is_empty ](buffer: &AlignedVec) -> (empty: bool)
    ensures
        empty == (aligned_contents(*buffer).len() == 0),
;

/// [`AlignedVec::clear`] removes every byte.
pub assume_specification[ AlignedVec::clear ](buffer: &mut AlignedVec)
    ensures
        aligned_contents(*final(buffer)) == Seq::<u8>::empty(),
;

/// [`AlignedVec::extend_from_slice`] appends the bytes of the slice. It panics
/// when the result would exceed the largest capacity.
pub assume_specification[ AlignedVec::extend_from_slice ](buffer: &mut AlignedVec, other: &[u8])
    requires
        aligned_contents(*old(buffer)).len() + other@.len() <= max_capacity(),
    ensures
        aligned_contents(*final(buffer)) == aligned_contents(*old(buffer)) + other@,
;

/// A sequence brought to length `len`: cut off, or filled up with `value`.
pub open spec fn resized(bytes: Seq<u8>, len: int, value: u8) -> Seq<u8> {
    Seq::new(
        len as nat,
        |i: int|
            if i < bytes.len() {
                bytes[i]
            } else {
                value
            },
    )
}

/// [`AlignedVec::resize`] truncates the buffer, or fills it up with `value`. It
/// panics beyond the largest capacity.
pub assume_specification[ AlignedVec::resize ](buffer: &mut AlignedVec, new_len: usize, value: u8)
    requires
        new_len <= max_capacity(),
    ensures
        aligned_contents(*final(buffer)) == resized(
            aligned_contents(*old(buffer)),
            new_len as int,
            value,
        ),
;

/// [`AlignedVec::as_slice`] shows all the bytes held.
pub assume_specification[ AlignedVec::as_slice ](buffer: &AlignedVec) -> (bytes: &[u8])
    ensures
        bytes@ == aligned_contents(*buffer),
;

/// [`AlignedVec::as_mut_slice`] lends all the bytes held; what the borrower leaves
/// in the slice is what the buffer holds afterwards.
pub assume_specification[ AlignedVec::as_mut_slice ](buffer: &mut AlignedVec) -> (bytes: &mut [u8])
    ensures
        bytes@ == aligned_contents(*old(buffer)),
        aligned_contents(*final(buffer)) == final(bytes)@,
;

/// `AlignedVec`'s [`Write::write`] appends the whole slice and never fails: it
/// returns the slice's length. It panics when the result would exceed the largest
/// capacity.
#[verifier::external_body]
pub(crate) fn aligned_write(buffer: &mut AlignedVec, bytes: &[u8]) -> (result: Result<usize, std::io::Error>)
    requires
        aligned_contents(*old(buffer)).len() + bytes@.len() <= max_capacity(),
    ensures
        aligned_contents(*final(buffer)) == aligned_contents(*old(buffer)) + bytes@,
        result is Ok,
        result->Ok_0 == bytes@.len(),
{
    buffer.write(bytes)
}

} // verus!
