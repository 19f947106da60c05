//! The writing half: an encoder that holds one frame and hands its bytes to a
//! transport piece by piece.

use crate::aligned::{aligned_contents, aligned_write, max_capacity};
use crate::error::FrameError;
use crate::wire::{frame, native_bytes, to_native_bytes, HEADER_LEN, LENGTH_LEN};
use rkyv::AlignedVec;
use vstd::bytes::spec_u64_to_le_bytes;
use vstd::endian::endianness;
use vstd::prelude::*;
use vstd::slice::slice_subrange;

verus! {

/// Bytes for which a new encoder has room, and the length of a frame from which on
/// the encoder is flushed before it takes another one.
pub const INITIAL_CAPACITY: usize = 8192;

/// An encoder of frames.
#[derive(Debug)]
pub struct RkyvLengthEncoder {
    buffer: AlignedVec,
    written: usize,
    backpressure_boundary: usize,
}

/// What an encoder holds.
#[verifier::ext_equal]
pub struct EncoderState {
    /// The bytes of the frame.
    pub bytes: Seq<u8>,
    /// How many bytes the transport has taken.
    pub written: nat,
    /// The length from which on the encoder must be flushed.
    pub boundary: nat,
}

impl View for RkyvLengthEncoder {
    type V = EncoderState;

    closed spec fn view(&self) -> EncoderState {
        EncoderState {
            bytes: aligned_contents(self.buffer),
            written: self.written as nat,
            boundary: self.backpressure_boundary as nat,
        }
    }
}

impl EncoderState {
    /// An encoder that holds no frame.
    pub open spec fn fresh() -> EncoderState {
        EncoderState { bytes: Seq::empty(), written: 0, boundary: INITIAL_CAPACITY as nat }
    }

    /// The bytes that the transport has not taken yet.
    pub open spec fn remaining(self) -> Seq<u8> {
        if self.written <= self.bytes.len() {
            self.bytes.skip(self.written as int)
        } else {
            Seq::empty()
        }
    }

    /// What is offered to the transport next: all the bytes that are left, once; nothing
    /// if none are left.
    pub open spec fn offer(self) -> Option<Seq<u8>> {
        if self.remaining().len() == 0 {
            None
        } else {
            Some(self.remaining())
        }
    }

    /// The state with a blank header and nothing else.
    pub open spec fn begun(self) -> EncoderState {
        EncoderState { bytes: Seq::new(HEADER_LEN as nat, |i: int| 0u8), written: 0, ..self }
    }

    /// The state with more bytes at the end.
    pub open spec fn appended(self, bytes: Seq<u8>) -> EncoderState {
        EncoderState { bytes: self.bytes + bytes, ..self }
    }

    /// The state with the length of what is held in the first bytes of it.
    pub open spec fn finished(self) -> EncoderState {
        EncoderState {
            bytes: native_bytes(self.bytes.len() as u64) + self.bytes.skip(LENGTH_LEN as int),
            ..self
        }
    }

    /// The state with the frame that carries `payload`, none of it written.
    pub open spec fn encoded(self, payload: Seq<u8>) -> EncoderState {
        EncoderState { bytes: frame(payload), written: 0, ..self }
    }

    /// The state after the transport has taken `n` more bytes.
    pub open spec fn advanced(self, n: nat) -> EncoderState {
        EncoderState { written: self.written + n, ..self }
    }
}

/// What a flush of the encoder does next.
#[derive(Debug, Clone, Copy, PartialEq, Eq)]
pub enum FlushStep<'a> {
    /// Offer these bytes to the transport, and report how many it took.
    Write(&'a [u8]),
    /// Flush the transport itself; the flush ends as that does.
    Transport,
}

impl<'a> View for FlushStep<'a> {
    type V = Option<Seq<u8>>;

    /// The bytes that are offered to the transport, if any.
    open spec fn view(&self) -> Option<Seq<u8>> {
        match self {
            FlushStep::Write(bytes) => Some(bytes@),
            FlushStep::Transport => None,
        }
    }
}

impl RkyvLengthEncoder {
    /// An encoder that holds no frame.
    pub fn new() -> (encoder: Self)
        ensures
            encoder@ == EncoderState::fresh(),
            encoder@.bytes.len() == 0,
            encoder@.written == 0,
            encoder@.boundary == 8192,
    {
        Self {
            buffer: AlignedVec::with_capacity(INITIAL_CAPACITY),
            written: 0,
            backpressure_boundary: INITIAL_CAPACITY,
        }
    }

    /// The length of the frame that the encoder holds, written or not.
    pub fn len(&self) -> (len: usize)
        ensures
            len == self@.bytes.len(),
    {
        self.buffer.len()
    }

    /// Whether the encoder has never been given a frame.
    pub fn is_empty(&self) -> (empty: bool)
        ensures
            empty == (self@.bytes.len() == 0),
    {
        self.buffer.is_empty()
    }

    /// Whether the transport has yet to take some bytes of the frame.
    pub fn has_remaining(&self) -> (more: bool)
        ensures
            more == (self@.remaining().len() > 0),
            more == (self@.written < self@.bytes.len()),
    {
        self.written < self.buffer.len()
    }

    /// The bytes that the transport has not taken yet.
    pub fn data(&self) -> (bytes: &[u8])
        requires
            self@.written <= self@.bytes.len(),
        ensures
            bytes@ == self@.remaining(),
            bytes@ == self@.bytes.subrange(self@.written as int, self@.bytes.len() as int),
    {
        let all = self.buffer.as_slice();
        slice_subrange(all, self.written, all.len())
    }

    /// Notes that the transport has taken `n` more bytes.
    pub fn advance(&mut self, n: usize)
        requires
            old(self)@.written + n <= usize::MAX,
        ensures
            final(self)@ == old(self)@.advanced(n as nat),
            final(self)@.bytes == old(self)@.bytes,
            final(self)@.written == old(self)@.written + n,
            final(self)@.boundary == old(self)@.boundary,
    {
        self.written += n;
    }

    /// The current position of a value that is serialized into the encoder: the number of
    /// bytes that the encoder holds.
    pub fn pos(&self) -> (pos: usize)
        ensures
            pos == self@.bytes.len(),
    {
        self.buffer.len()
    }

    /// Appends bytes of a serialized value.
    pub fn write(&mut self, bytes: &[u8]) -> (result: Result<(), std::io::Error>)
        requires
            old(self)@.bytes.len() + bytes@.len() <= max_capacity(),
        ensures
            result is Ok,
            final(self)@ == old(self)@.appended(bytes@),
            final(self)@.bytes == old(self)@.bytes + bytes@,
            final(self)@.written == old(self)@.written,
            final(self)@.boundary == old(self)@.boundary,
    {
        match aligned_write(&mut self.buffer, bytes) {
            Ok(_) => Ok(()),
            Err(error) => Err(error),
        }
    }

    /// Forgets the frame that the encoder held and starts another one with a blank
    /// header.
    pub fn begin(&mut self)
        ensures
            final(self)@ == old(self)@.begun(),
            final(self)@.bytes.len() == 16,
            forall|i: int| 0 <= i < 16 ==> final(self)@.bytes[i] == 0,
            final(self)@.written == 0,
            final(self)@.boundary == old(self)@.boundary,
    {
        self.buffer.clear();
        let blank: [u8; HEADER_LEN] = [0u8; HEADER_LEN];
        self.buffer.extend_from_slice(&blank);
        self.written = 0;
        assert(self@.bytes =~= Seq::new(HEADER_LEN as nat, |i: int| 0u8));
    }

    /// Writes the length of what the encoder holds into the first bytes of it.
    pub fn finish(&mut self)
        requires
            LENGTH_LEN <= old(self)@.bytes.len(),
        ensures
            final(self)@ == old(self)@.finished(),
            final(self)@.bytes.len() == old(self)@.bytes.len(),
            endianness() is Little ==> final(self)@.bytes.subrange(0, 8) == spec_u64_to_le_bytes(
                old(self)@.bytes.len() as u64,
            ),
            endianness() is Big ==> final(self)@.bytes.subrange(0, 8) == spec_u64_to_le_bytes(
                old(self)@.bytes.len() as u64,
            ).reverse(),
            forall|i: int|
                8 <= i < old(self)@.bytes.len() ==> final(self)@.bytes[i] == old(self)@.bytes[i],
            final(self)@.written == old(self)@.written,
            final(self)@.boundary == old(self)@.boundary,
    {
        let len_bytes = to_native_bytes(self.buffer.len() as u64);
        let bytes = self.buffer.as_mut_slice();
        let ghost before = bytes@;
        let mut i: usize = 0;
        while i < LENGTH_LEN
            invariant
                i <= LENGTH_LEN,
                LENGTH_LEN <= before.len(),
                bytes@ == len_bytes@.take(i as int) + before.skip(i as int),
            decreases LENGTH_LEN - i,
        {
            bytes[i] = len_bytes[i];
            i += 1;
            assert(bytes@ =~= len_bytes@.take(i as int) + before.skip(i as int));
        }
        assert(len_bytes@.take(LENGTH_LEN as int) =~= len_bytes@);
    }

    /// Replaces the frame that the encoder holds by the one that carries `data`, the
    /// bytes that a value was serialized to.
    pub fn encode(&mut self, data: &[u8]) -> (result: Result<(), std::io::Error>)
        requires
            HEADER_LEN + data@.len() <= max_capacity(),
        ensures
            result is Ok,
            final(self)@ == old(self)@.encoded(data@),
            final(self)@.bytes.len() == 16 + data@.len(),
            endianness() is Little ==> final(self)@.bytes.subrange(0, 8) == spec_u64_to_le_bytes(
                (16 + data@.len()) as u64,
            ),
            endianness() is Big ==> final(self)@.bytes.subrange(0, 8) == spec_u64_to_le_bytes(
                (16 + data@.len()) as u64,
            ).reverse(),
            forall|i: int| 8 <= i < 16 ==> final(self)@.bytes[i] == 0,
            forall|i: int| 0 <= i < data@.len() ==> final(self)@.bytes[16 + i] == data@[i],
            final(self)@.written == 0,
            final(self)@.boundary == old(self)@.boundary,
    {
        self.begin();
        let result = self.write(data);
        self.finish();
        result
    }

    /// Whether the encoder must be flushed before it takes another frame.
    pub fn needs_flush(&self) -> (flush: bool)
        ensures
            flush == (self@.bytes.len() >= self@.boundary),
    {
        self.len() >= self.backpressure_boundary
    }

    /// What to offer to the transport next: all the bytes that are left, once; nothing if
    /// none are left.
    pub fn offer(&self) -> (offer: Option<&[u8]>)
        ensures
            offer is Some == self@.offer() is Some,
            offer is Some ==> offer->Some_0@ == self@.offer()->Some_0,
            offer is Some <==> self@.written < self@.bytes.len(),
            offer is Some ==> offer->Some_0@ == self@.bytes.subrange(
                self@.written as int,
                self@.bytes.len() as int,
            ),
    {
        if self.has_remaining() {
            Some(self.data())
        } else {
            None
        }
    }

    /// What to do next in order to flush the encoder: to write as long as bytes are left,
    /// and then to flush the transport.
    pub fn flush_step(&self) -> (step: FlushStep<'_>)
        ensures
            step@ == self@.offer(),
            step is Transport <==> self@.bytes.len() <= self@.written,
            step matches FlushStep::Write(bytes) ==> bytes@ == self@.bytes.subrange(
                self@.written as int,
                self@.bytes.len() as int,
            ),
    {
        match self.offer() {
            Some(bytes) => FlushStep::Write(bytes),
            None => FlushStep::Transport,
        }
    }

    /// Notes that the transport took `n` bytes of what a flush offered to it. The
    /// flush goes on unless the transport took nothing.
    pub fn wrote(&mut self, n: usize) -> (result: Result<(), FrameError>)
        requires
            old(self)@.written + n <= usize::MAX,
        ensures
            final(self)@ == old(self)@.advanced(n as nat),
            final(self)@.bytes == old(self)@.bytes,
            final(self)@.written == old(self)@.written + n,
            final(self)@.boundary == old(self)@.boundary,
            result == (if n == 0 {
                Err::<(), FrameError>(FrameError::WriteZero)
            } else {
                Ok(())
            }),
    {
        self.advance(n);
        if n == 0 {
            Err(FrameError::WriteZero)
        } else {
            Ok(())
        }
    }
}

} // verus!
