//! How the bytes of a received frame become an item of the stream.
//!
//! An [`Unpacker`] decides this from what is known of the bytes: from the bytes alone,
//! or from what validation and deserialization have made of them.

use crate::error::FrameError;
use crate::packet::{bytes_mut_as_slice, bytes_mut_contents};
use crate::transport::RkyvBytes;
use bytes::BytesMut;
use std::marker::PhantomData;
use vstd::prelude::*;

verus! {

/// Makes items out of frames.
pub trait Unpacker {
    /// What the stream yields.
    type Item;

    /// What is known of the bytes of a frame.
    type Input;

    /// The item, or the error, that `input` leads to.
    spec fn unpacked(input: Self::Input) -> Result<Self::Item, FrameError>;

    /// Makes an item.
    fn unpack(input: Self::Input) -> (item: Result<Self::Item, FrameError>)
        ensures
            item == Self::unpacked(input),
    ;
}

/// Yields the bytes of the frame as they are, unchecked.
pub struct ZeroCopyUnpacker<I> {
    item: PhantomData<I>,
}

/// Yields the value that the frame was deserialized to, unchecked.
pub struct DeserUnpacker<I> {
    item: PhantomData<I>,
}

/// Yields the bytes of the frame if they were found to be a valid archive.
pub struct CheckedZeroCopyUnpacker<I> {
    item: PhantomData<I>,
}

/// Yields the value that the frame was deserialized to if its bytes were found to be a
/// valid archive.
pub struct CheckedDeserUnpacker<I> {
    item: PhantomData<I>,
}

/// The bytes of a frame, with the verdict of their validation.
pub struct Checked {
    /// The bytes of the frame.
    pub bytes: BytesMut,
    /// Whether they are a valid archive.
    pub valid: bool,
}

/// Whether `value` is what `f` may return for the bytes that `bytes` holds.
pub open spec fn returns_for<V, F: Fn(&[u8]) -> V>(f: F, bytes: BytesMut, value: V) -> bool {
    exists|slice: &[u8]| #[trigger]
        call_ensures(f, (slice,), value) && slice@ == bytes_mut_contents(bytes)
}

/// Whether `f` may be called with the bytes that `bytes` holds.
pub open spec fn accepts<V, F: Fn(&[u8]) -> V>(f: F, bytes: BytesMut) -> bool {
    forall|slice: &[u8]|
        slice@ == bytes_mut_contents(bytes) ==> #[trigger] call_requires(f, (slice,))
}

impl<I> ZeroCopyUnpacker<I> {
    /// The unpacker, which holds nothing.
    pub closed spec fn made() -> Self {
        ZeroCopyUnpacker { item: PhantomData }
    }

    /// The unpacker, which holds nothing.
    pub(crate) fn new() -> (unpacker: Self)
        ensures
            unpacker == Self::made(),
    {
        ZeroCopyUnpacker { item: PhantomData }
    }
}

impl<I> Unpacker for ZeroCopyUnpacker<I> {
    type Item = RkyvBytes<I>;

    type Input = BytesMut;

    open spec fn unpacked(bytes: BytesMut) -> Result<RkyvBytes<I>, FrameError> {
        Ok(RkyvBytes::made_of(bytes))
    }

    fn unpack(bytes: BytesMut) -> (item: Result<RkyvBytes<I>, FrameError>)
        ensures
            item is Ok,
            item->Ok_0@ == bytes_mut_contents(bytes),
    {
        Ok(RkyvBytes::new(bytes))
    }
}

impl<I> DeserUnpacker<I> {
    /// Deserializes the bytes of a frame.
    pub fn prepare<D: Fn(&[u8]) -> I>(bytes: BytesMut, deserialize: D) -> (value: I)
        requires
            accepts(deserialize, bytes),
        ensures
            returns_for(deserialize, bytes, value),
            exists|slice: &[u8]| #[trigger]
                call_ensures(deserialize, (slice,), value) && slice@ == bytes_mut_contents(bytes),
    {
        deserialize(bytes_mut_as_slice(&bytes))
    }
}

impl<I> Unpacker for DeserUnpacker<I> {
    type Item = I;

    type Input = I;

    open spec fn unpacked(value: I) -> Result<I, FrameError> {
        Ok(value)
    }

    fn unpack(value: I) -> (item: Result<I, FrameError>)
        ensures
            item is Ok,
            item->Ok_0 == value,
    {
        Ok(value)
    }
}

impl<I> CheckedZeroCopyUnpacker<I> {
    /// Validates the bytes of a frame.
    pub fn prepare<C: Fn(&[u8]) -> bool>(bytes: BytesMut, check: C) -> (checked: Checked)
        requires
            accepts(check, bytes),
        ensures
            checked.bytes == bytes,
            returns_for(check, bytes, checked.valid),
            exists|slice: &[u8]| #[trigger]
                call_ensures(check, (slice,), checked.valid) && slice@ == bytes_mut_contents(bytes),
    {
        let valid = check(bytes_mut_as_slice(&bytes));
        Checked { bytes, valid }
    }
}

impl<I> Unpacker for CheckedZeroCopyUnpacker<I> {
    type Item = RkyvBytes<I>;

    type Input = Checked;

    open spec fn unpacked(checked: Checked) -> Result<RkyvBytes<I>, FrameError> {
        if checked.valid {
            Ok(RkyvBytes::made_of(checked.bytes))
        } else {
            Err(FrameError::InvalidArchive)
        }
    }

    fn unpack(checked: Checked) -> (item: Result<RkyvBytes<I>, FrameError>)
        ensures
            item is Ok <==> checked.valid,
            item is Ok ==> item->Ok_0@ == bytes_mut_contents(checked.bytes),
            item is Err ==> item->Err_0 is InvalidArchive,
    {
        if checked.valid {
            Ok(RkyvBytes::new(checked.bytes))
        } else {
            Err(FrameError::InvalidArchive)
        }
    }
}

impl<I> CheckedDeserUnpacker<I> {
    /// Validates the bytes of a frame, and deserializes them if they are valid.
    pub fn prepare<C: Fn(&[u8]) -> bool, D: Fn(&[u8]) -> I>(
        bytes: BytesMut,
        check: C,
        deserialize: D,
    ) -> (value: Option<I>)
        requires
            accepts(check, bytes),
            returns_for(check, bytes, true) ==> accepts(deserialize, bytes),
        ensures
            returns_for(check, bytes, value is Some),
            value is Some ==> returns_for(deserialize, bytes, value->Some_0),
            value is Some ==> exists|slice: &[u8]| #[trigger]
                call_ensures(check, (slice,), true) && slice@ == bytes_mut_contents(bytes),
            value is None ==> exists|slice: &[u8]| #[trigger]
                call_ensures(check, (slice,), false) && slice@ == bytes_mut_contents(bytes),
            value is Some ==> exists|slice: &[u8]| #[trigger]
                call_ensures(deserialize, (slice,), value->Some_0) && slice@ == bytes_mut_contents(
                    bytes,
                ),
    {
        let slice = bytes_mut_as_slice(&bytes);
        if check(slice) {
            Some(deserialize(slice))
        } else {
            None
        }
    }
}

impl<I> Unpacker for CheckedDeserUnpacker<I> {
    type Item = I;

    type Input = Option<I>;

    open spec fn unpacked(value: Option<I>) -> Result<I, FrameError> {
        match value {
            Some(value) => Ok(value),
            None => Err(FrameError::InvalidArchive),
        }
    }

    fn unpack(value: Option<I>) -> (item: Result<I, FrameError>)
        ensures
            item is Ok <==> value is Some,
            item is Ok ==> item->Ok_0 == value->Some_0,
            item is Err ==> item->Err_0 is InvalidArchive,
    {
        match value {
            Some(value) => Ok(value),
            None => Err(FrameError::InvalidArchive),
        }
    }
}

} // verus!
