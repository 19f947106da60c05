//! A transport of bytes together with the state of the frames that go over it.

use crate::decoder::{Decoding, RkyvDecoder};
use crate::encoder::{EncoderState, RkyvLengthEncoder};
use std::borrow::{Borrow, BorrowMut};
use std::marker::PhantomData;
use vstd::prelude::*;

verus! {

/// The state of a transport that is both read and written.
pub struct RWFrames {
    read: RkyvDecoder,
    write: RkyvLengthEncoder,
}

impl RWFrames {
    /// The state of the reading half.
    pub closed spec fn reading(&self) -> RkyvDecoder {
        self.read
    }

    /// The state of the writing half.
    pub closed spec fn writing(&self) -> RkyvLengthEncoder {
        self.write
    }

    /// Whether the halves come out as `after` when the decoder `lent` of these halves is
    /// given back as `returned`: the writing half stays as it is.
    pub open spec fn lends_decoder(
        &self,
        after: RWFrames,
        lent: RkyvDecoder,
        returned: RkyvDecoder,
    ) -> bool {
        &&& lent == self.reading()
        &&& after.reading() == returned
        &&& after.writing() == self.writing()
    }

    /// Whether the halves come out as `after` when the encoder `lent` of these halves is
    /// given back as `returned`: the reading half stays as it is.
    pub open spec fn lends_encoder(
        &self,
        after: RWFrames,
        lent: RkyvLengthEncoder,
        returned: RkyvLengthEncoder,
    ) -> bool {
        &&& lent == self.writing()
        &&& after.writing() == returned
        &&& after.reading() == self.reading()
    }

    /// The decoder of the reading half.
    pub fn decoder(&self) -> (decoder: &RkyvDecoder)
        ensures
            *decoder == self.reading(),
    {
        &self.read
    }

    /// The decoder of the reading half, to be changed. The writing half stays as it is.
    pub fn decoder_mut(&mut self) -> (decoder: &mut RkyvDecoder)
        ensures
            *decoder == old(self).reading(),
            final(self).reading() == *final(decoder),
            final(self).writing() == old(self).writing(),
    {
        &mut self.read
    }

    /// The encoder of the writing half.
    pub fn encoder(&self) -> (encoder: &RkyvLengthEncoder)
        ensures
            *encoder == self.writing(),
    {
        &self.write
    }

    /// The encoder of the writing half, to be changed. The reading half stays as it is.
    pub fn encoder_mut(&mut self) -> (encoder: &mut RkyvLengthEncoder)
        ensures
            *encoder == old(self).writing(),
            final(self).writing() == *final(encoder),
            final(self).reading() == old(self).reading(),
    {
        &mut self.write
    }
}

impl Borrow<RkyvDecoder> for RWFrames {
    fn borrow(&self) -> &RkyvDecoder
        returns
            &self.reading(),
    {
        self.decoder()
    }
}

impl BorrowMut<RkyvDecoder> for RWFrames {
    fn borrow_mut(&mut self) -> (decoder: &mut RkyvDecoder)
        ensures
            old(self).lends_decoder(*final(self), *decoder, *final(decoder)),
            *decoder == old(self).reading(),
            final(self).reading() == *final(decoder),
            final(self).writing() == old(self).writing(),
    {
        self.decoder_mut()
    }
}

impl Borrow<RkyvLengthEncoder> for RWFrames {
    fn borrow(&self) -> &RkyvLengthEncoder
        returns
            &self.writing(),
    {
        self.encoder()
    }
}

impl BorrowMut<RkyvLengthEncoder> for RWFrames {
    fn borrow_mut(&mut self) -> (encoder: &mut RkyvLengthEncoder)
        ensures
            old(self).lends_encoder(*final(self), *encoder, *final(encoder)),
            *encoder == old(self).writing(),
            final(self).writing() == *final(encoder),
            final(self).reading() == old(self).reading(),
    {
        self.encoder_mut()
    }
}

/// A transport `T` for frames that carry values of type `I`, with the state of the
/// frame that is under way.
pub struct Framed<T, I, State> {
    /// The transport.
    pub inner: T,
    /// The state of the frame that is under way.
    pub state: State,
    /// The type of the values.
    pub data: PhantomData<I>,
}

/// A transport that is read.
pub type RkyvStream<T, I> = Framed<T, I, RkyvDecoder>;

/// A transport that is written.
pub type RkyvSink<T, I> = Framed<T, I, RkyvLengthEncoder>;

/// A transport that is both read and written.
pub type RkyvTransport<T, I> = Framed<T, I, RWFrames>;

impl<T, I> RkyvStream<T, I> {
    /// A stream that has received nothing.
    pub fn new(inner: T) -> (stream: Self)
        ensures
            stream.inner == inner,
            stream.state@ == Decoding::fresh(),
    {
        Self { inner, state: RkyvDecoder::new(), data: PhantomData }
    }
}

impl<T, I> RkyvSink<T, I> {
    /// A sink that has been given nothing.
    pub fn new(inner: T) -> (sink: Self)
        ensures
            sink.inner == inner,
            sink.state@ == EncoderState::fresh(),
    {
        Self { inner, state: RkyvLengthEncoder::new(), data: PhantomData }
    }
}

impl<T, I> RkyvTransport<T, I> {
    /// A transport that has received nothing and been given nothing.
    pub fn new(inner: T) -> (transport: Self)
        ensures
            transport.inner == inner,
            transport.state.reading()@ == Decoding::fresh(),
            transport.state.writing()@ == EncoderState::fresh(),
    {
        Self {
            inner,
            state: RWFrames { read: RkyvDecoder::new(), write: RkyvLengthEncoder::new() },
            data: PhantomData,
        }
    }
}

} // verus!
