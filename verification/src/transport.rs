//! A transport of buffers, each of which holds one serialized value, as a sink and a
//! stream of values.

use crate::error::FrameError;
use crate::packet::{bytes_contents, bytes_from_vec, bytes_mut_as_slice, bytes_mut_contents};
use crate::unpacker::{
    CheckedDeserUnpacker, CheckedZeroCopyUnpacker, DeserUnpacker, Unpacker, ZeroCopyUnpacker,
};
use bytes::{Bytes, BytesMut};
use std::marker::PhantomData;
use vstd::prelude::*;

verus! {

/// The bytes of a frame that hold an archived `T` at their end.
pub struct RkyvBytes<T> {
    bytes: BytesMut,
    _phantom: PhantomData<T>,
}

impl<T> View for RkyvBytes<T> {
    type V = Seq<u8>;

    closed spec fn view(&self) -> Seq<u8> {
        bytes_mut_contents(self.bytes)
    }
}

impl<T> RkyvBytes<T> {
    /// The frame made of `bytes`.
    pub closed spec fn made_of(bytes: BytesMut) -> Self {
        RkyvBytes { bytes, _phantom: PhantomData }
    }

    /// A frame made of the given bytes.
    pub fn new(bytes: BytesMut) -> (frame: Self)
        ensures
            frame == Self::made_of(bytes),
            frame@ == bytes_mut_contents(bytes),
    {
        Self { bytes, _phantom: PhantomData }
    }

    /// The bytes of the frame.
    pub fn as_slice(&self) -> (bytes: &[u8])
        ensures
            bytes@ == self@,
    {
        bytes_mut_as_slice(&self.bytes)
    }
}

/// Adapts a transport to a value sink by serializing the values and to a stream of
/// values by deserializing them.
///
/// It is expected that the buffers yielded by the supplied transport be framed. In
/// other words, each yielded buffer must represent exactly one serialized value. The
/// provided transport will receive buffers of which each contains exactly one value.
///
/// `N` is the size of the scratch space in which values are serialized.
#[derive(Debug)]
pub struct Framed<Transport, Item, SinkItem, UP, const N: usize> {
    inner: Transport,
    packer: UP,
    item: PhantomData<(Item, SinkItem)>,
}

/// What a transport, or a stream, has to say when it is asked.
pub enum Polled<T> {
    /// An answer.
    Ready(T),
    /// That it is to be asked again.
    Pending,
}

/// Why a stream of values yields an error.
pub enum StreamError<E> {
    /// The transport yielded this error.
    Transport(E),
    /// A buffer could not be unpacked.
    Frame(FrameError),
}

impl<Transport, Item, SinkItem> Framed<
    Transport,
    Item,
    SinkItem,
    ZeroCopyUnpacker<Item>,
    1024,
> {
    /// Creates a new `Framed` with the given transport.
    pub fn new(inner: Transport) -> (framed: Self)
        ensures
            framed.transport() == inner,
            framed.unpacker() == ZeroCopyUnpacker::<Item>::made(),
    {
        Self { inner, packer: ZeroCopyUnpacker::new(), item: PhantomData }
    }
}

impl<Transport, Item, SinkItem, const N: usize> Framed<
    Transport,
    Item,
    SinkItem,
    ZeroCopyUnpacker<Item>,
    N,
> {
    /// Creates a new `Framed` with the given transport and scratch space.
    pub fn new_with_size(inner: Transport) -> (framed: Self)
        ensures
            framed.transport() == inner,
            framed.unpacker() == ZeroCopyUnpacker::<Item>::made(),
    {
        Self { inner, packer: ZeroCopyUnpacker::new(), item: PhantomData }
    }
}

impl<Transport, Item, SinkItem, UP, const N: usize> Framed<Transport, Item, SinkItem, UP, N> {
    /// The underlying transport.
    pub closed spec fn transport(&self) -> Transport {
        self.inner
    }

    /// The unpacker.
    pub closed spec fn unpacker(&self) -> UP {
        self.packer
    }

    /// Returns a reference to the underlying transport wrapped by `Framed`.
    ///
    /// Note that care should be taken to not tamper with the underlying transport as
    /// it may corrupt the sequence of frames otherwise being worked with.
    pub fn get_ref(&self) -> (inner: &Transport)
        ensures
            *inner == self.transport(),
    {
        &self.inner
    }

    /// Returns a mutable reference to the underlying transport wrapped by `Framed`.
    ///
    /// Note that care should be taken to not tamper with the underlying transport as
    /// it may corrupt the sequence of frames otherwise being worked with.
    pub fn get_mut(&mut self) -> (inner: &mut Transport)
        ensures
            *inner == old(self).transport(),
            final(self).transport() == *final(inner),
            final(self).unpacker() == old(self).unpacker(),
    {
        &mut self.inner
    }

    /// Consumes the `Framed`, returning its underlying transport.
    ///
    /// Note that care should be taken to not tamper with the underlying transport as
    /// it may corrupt the sequence of frames otherwise being worked with.
    pub fn into_inner(self) -> (inner: Transport)
        ensures
            inner == self.transport(),
    {
        self.inner
    }

    /// The buffer in which the transport is sent a value that was serialized to `vec`.
    pub fn start_send(vec: Vec<u8>) -> (bytes: Bytes)
        ensures
            bytes_contents(bytes) == vec@,
    {
        bytes_from_vec(vec)
    }
}

/// A frame holds the bytes that it is made of, whatever the type of its value.
pub proof fn law_frame_keeps_its_bytes<T>(bytes: BytesMut)
    ensures
        RkyvBytes::<T>::made_of(bytes)@ == bytes_mut_contents(bytes),
{
}

/// A [`Framed`] is its transport and its unpacker, and nothing else. So, for the size that
/// [`Framed::new`] takes, [`Framed::new_with_size`] gives the same value.
pub proof fn law_framed_is_transport_and_unpacker<Transport, Item, SinkItem, UP, const N: usize>(
    one: Framed<Transport, Item, SinkItem, UP, N>,
    other: Framed<Transport, Item, SinkItem, UP, N>,
)
    requires
        one.transport() == other.transport(),
        one.unpacker() == other.unpacker(),
    ensures
        one == other,
{
}

/// What the stream of values says if the transport says `polled`.
pub open spec fn next_item<UP: Unpacker, E>(
    polled: Polled<Option<Result<UP::Input, E>>>,
) -> Polled<Option<Result<UP::Item, StreamError<E>>>> {
    match polled {
        Polled::Pending => Polled::Pending,
        Polled::Ready(None) => Polled::Ready(None),
        Polled::Ready(Some(Err(error))) => Polled::Ready(Some(Err(StreamError::Transport(error)))),
        Polled::Ready(Some(Ok(input))) => match UP::unpacked(input) {
            Ok(item) => Polled::Ready(Some(Ok(item))),
            Err(error) => Polled::Ready(Some(Err(StreamError::Frame(error)))),
        },
    }
}

impl<Transport, Item, SinkItem, UP: Unpacker, const N: usize> Framed<
    Transport,
    Item,
    SinkItem,
    UP,
    N,
> {
    /// Decides what the stream of values says, from what the transport says.
    pub fn poll_next<E>(polled: Polled<Option<Result<UP::Input, E>>>) -> (next: Polled<
        Option<Result<UP::Item, StreamError<E>>>,
    >)
        ensures
            next == next_item::<UP, E>(polled),
            next is Pending <==> polled is Pending,
            polled is Ready ==> (next->Ready_0 is None <==> polled->Ready_0 is None),
            polled matches Polled::Ready(Some(Err(error))) ==> next->Ready_0->Some_0 is Err,
            polled matches Polled::Ready(Some(Err(error))) ==> next->Ready_0->Some_0->Err_0
                == StreamError::<E>::Transport(error),
            polled matches Polled::Ready(Some(Ok(input))) ==> (next->Ready_0->Some_0 is Ok
                <==> UP::unpacked(input) is Ok),
            polled matches Polled::Ready(Some(Ok(input))) ==> (UP::unpacked(input) is Ok
                ==> next->Ready_0->Some_0->Ok_0 == UP::unpacked(input)->Ok_0),
            polled matches Polled::Ready(Some(Ok(input))) ==> (UP::unpacked(input) is Err
                ==> next->Ready_0->Some_0->Err_0 == StreamError::<E>::Frame(
                UP::unpacked(input)->Err_0,
            )),
    {
        match polled {
            Polled::Pending => Polled::Pending,
            Polled::Ready(None) => Polled::Ready(None),
            Polled::Ready(Some(Err(error))) => Polled::Ready(
                Some(Err(StreamError::Transport(error))),
            ),
            Polled::Ready(Some(Ok(input))) => match UP::unpack(input) {
                Ok(item) => Polled::Ready(Some(Ok(item))),
                Err(error) => Polled::Ready(Some(Err(StreamError::Frame(error)))),
            },
        }
    }
}

/// A [`Framed`] that sends and receives values of one type.
pub type SymmetricallyFramed<Transport, Value, UP, const N: usize> = Framed<
    Transport,
    Value,
    Value,
    UP,
    N,
>;

/// A [`Framed`] that yields the bytes of values.
pub type ZeroCopyFramed<Transport, Value, const N: usize> = Framed<
    Transport,
    Value,
    Value,
    ZeroCopyUnpacker<Value>,
    N,
>;

/// A [`Framed`] that yields values.
pub type DeserFramed<Transport, Value, const N: usize> = Framed<
    Transport,
    Value,
    Value,
    DeserUnpacker<Value>,
    N,
>;

/// A [`Framed`] that yields the bytes of values after it has validated them.
pub type CheckedZeroCopyFramed<Transport, Value, const N: usize> = Framed<
    Transport,
    Value,
    Value,
    CheckedZeroCopyUnpacker<Value>,
    N,
>;

/// A [`Framed`] that yields values after it has validated their bytes.
pub type CheckedDeserFramed<Transport, Value, const N: usize> = Framed<
    Transport,
    Value,
    Value,
    CheckedDeserUnpacker<Value>,
    N,
>;

} // verus!
