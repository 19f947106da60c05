//! The byte buffers of the bytes crate, [`Bytes`] and [`BytesMut`]: their declarations,
//! names for what they hold, and the contracts of the two calls that are made of them.
//!
//! Nothing in this file is proved.

use bytes::{Bytes, BytesMut};
use vstd::prelude::*;

verus! {

/// A buffer of bytes that can be shared.
#[verifier::external_type_specification]
#[verifier::external_body]
pub struct ExBytes(Bytes);

/// A buffer of bytes that has one owner.
#[verifier::external_type_specification]
#[verifier::external_body]
pub struct ExBytesMut(BytesMut);

/// The bytes that a [`Bytes`] holds, in order.
pub uninterp spec fn bytes_contents(bytes: Bytes) -> Seq<u8>;

/// The bytes that a [`BytesMut`] holds, in order.
pub uninterp spec fn bytes_mut_contents(bytes: BytesMut) -> Seq<u8>;

/// `Bytes::from` makes the bytes of a vector into a shared buffer.
#[verifier::external_body]
pub(crate) fn bytes_from_vec(vec: Vec<u8>) -> (bytes: Bytes)
    ensures
        bytes_contents(bytes) == vec@,
{
    Bytes::from(vec)
}

/// `BytesMut::as_ref` shows all the bytes held.
#[verifier::external_body]
pub(crate) fn bytes_mut_as_slice(bytes: &BytesMut) -> (slice: &[u8])
    ensures
        slice@ == bytes_mut_contents(*bytes),
{
    bytes.as_ref()
}

} // verus!
