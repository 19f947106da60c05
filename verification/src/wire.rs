//! The layout of a frame: a header of [`HEADER_LEN`] bytes, then the payload. The
//! first [`LENGTH_LEN`] bytes of the header hold the length of the whole frame,
//! header included; the rest of the header is zero.

use vstd::bytes::{spec_u64_from_le_bytes, spec_u64_to_le_bytes};
use vstd::endian::{endianness, Endian};
use vstd::prelude::*;

verus! {

/// Bytes in the header of a frame. The header is as wide as the alignment that rkyv
/// gives its buffers, so the payload behind it has that alignment too.
pub const HEADER_LEN: usize = 16;

/// Bytes of the header that hold the length of the frame.
pub const LENGTH_LEN: usize = 8;

/// A length as the encoder writes it: in the byte order of the machine.
pub open spec fn native_bytes(x: u64) -> Seq<u8> {
    match endianness() {
        Endian::Little => spec_u64_to_le_bytes(x),
        Endian::Big => spec_u64_to_le_bytes(x).reverse(),
    }
}

/// [`u64::to_ne_bytes`] gives the bytes of the number in the byte order of the
/// machine.
#[verifier::external_body]
pub(crate) fn to_native_bytes(x: u64) -> (bytes: [u8; 8])
    ensures
        bytes@ == native_bytes(x),
{
    x.to_ne_bytes()
}

/// The header of a frame whose length field is `length`.
pub open spec fn header(length: Seq<u8>) -> Seq<u8> {
    length + Seq::new((HEADER_LEN - LENGTH_LEN) as nat, |i: int| 0u8)
}

/// The frame that carries `payload`.
pub open spec fn frame(payload: Seq<u8>) -> Seq<u8> {
    header(native_bytes((HEADER_LEN + payload.len()) as u64)) + payload
}

/// The length that the header at the front of `bytes` announces.
pub open spec fn announced(bytes: Seq<u8>) -> usize {
    spec_u64_from_le_bytes(bytes.subrange(0, LENGTH_LEN as int)) as usize
}

/// Whether `bytes` is one whole frame: a header, and as many bytes as it announces.
pub open spec fn is_frame(bytes: Seq<u8>) -> bool {
    &&& HEADER_LEN <= bytes.len()
    &&& announced(bytes) == bytes.len()
}

} // verus!
