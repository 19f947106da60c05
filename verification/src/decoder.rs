//! The reading half: a decoder that gathers the bytes of one frame and decides,
//! after each attempt to read from the transport, how the stream of frames goes on.

use crate::aligned::{aligned_contents, max_capacity, resized};
use crate::error::RkyvDecodeLengthError;
use crate::wire::{announced, HEADER_LEN, LENGTH_LEN};
use rkyv::AlignedVec;
use std::marker::PhantomData;
use vstd::bytes::{spec_u64_from_le_bytes, u64_from_le_bytes};
use vstd::prelude::*;
use vstd::slice::slice_subrange;

verus! {

/// Length to which the buffer is extended for a read while the header is incomplete.
pub const HEADER_WINDOW: usize = 1024;

/// A frame that was received: the aligned bytes of it, header included, which hold an
/// archived `T` at their end.
pub struct RkyvVec<T> {
    bytes: AlignedVec,
    _phantom: PhantomData<T>,
}

impl<T> View for RkyvVec<T> {
    type V = Seq<u8>;

    closed spec fn view(&self) -> Seq<u8> {
        aligned_contents(self.bytes)
    }
}

impl<T> RkyvVec<T> {
    /// A frame made of the given bytes.
    pub fn new(bytes: AlignedVec) -> (frame: Self)
        ensures
            frame@ == aligned_contents(bytes),
    {
        Self { bytes, _phantom: PhantomData }
    }

    /// The bytes of the frame.
    pub fn as_slice(&self) -> (bytes: &[u8])
        ensures
            bytes@ == self@,
    {
        self.bytes.as_slice()
    }
}

/// What a decoder is reading.
#[derive(Debug, Clone, Copy, PartialEq, Eq, Structural)]
pub enum DecoderState {
    /// The header of a frame.
    Header,
    /// A frame of this length.
    Body(usize),
}

/// A decoder of frames.
pub struct RkyvDecoder {
    buffer: AlignedVec,
    eof: bool,
    is_readable: bool,
    has_errored: bool,
    decoder_state: DecoderState,
    written_bytes: usize,
}

/// What a decoder holds.
#[verifier::ext_equal]
pub struct Decoding {
    /// The buffer: the bytes received, and behind them the room for the next ones
    /// while a read goes on.
    pub buffer: Seq<u8>,
    /// How many bytes of the buffer were received.
    pub written: nat,
    /// What the decoder is reading.
    pub state: DecoderState,
    /// Whether the last read brought nothing: the transport has ended, for now.
    pub eof: bool,
    /// Whether there was a read since the last frame.
    pub is_readable: bool,
    /// Whether the stream yielded an error since it was last asked.
    pub has_errored: bool,
}

impl View for RkyvDecoder {
    type V = Decoding;

    closed spec fn view(&self) -> Decoding {
        Decoding {
            buffer: aligned_contents(self.buffer),
            written: self.written_bytes as nat,
            state: self.decoder_state,
            eof: self.eof,
            is_readable: self.is_readable,
            has_errored: self.has_errored,
        }
    }
}

/// What the stream of frames does next.
pub enum StreamStep<T> {
    /// It is over, for now.
    Ended,
    /// It yields an error.
    Failed(RkyvDecodeLengthError),
    /// It yields a frame.
    Item(RkyvVec<T>),
    /// It has to read from the transport.
    Read,
}

/// What the stream of frames does next, with the bytes of the frame that it yields.
pub enum Next {
    Ended,
    Failed,
    Item(Seq<u8>),
    Read,
}

impl<T> View for StreamStep<T> {
    type V = Next;

    open spec fn view(&self) -> Next {
        match self {
            StreamStep::Ended => Next::Ended,
            StreamStep::Failed(_) => Next::Failed,
            StreamStep::Item(frame) => Next::Item(frame@),
            StreamStep::Read => Next::Read,
        }
    }
}

/// How an attempt to read from the transport went.
#[derive(Debug, Clone, Copy, PartialEq, Eq)]
pub enum ReadEvent {
    /// The transport has no bytes now.
    Pending,
    /// The transport failed.
    Failed,
    /// The transport put so many bytes at the front of the room offered to it.
    Ready(usize),
}

/// What the stream of frames does after an attempt to read.
#[derive(Debug, Clone, Copy, PartialEq, Eq)]
pub enum ReadStep {
    /// It waits until the transport has bytes.
    Pending,
    /// It yields the error of the transport.
    Failed,
    /// It is over, for now.
    Ended,
    /// It goes on with what it received.
    Again,
}

impl Decoding {
    /// A decoder that has received nothing.
    pub open spec fn fresh() -> Decoding {
        Decoding {
            buffer: Seq::empty(),
            written: 0,
            state: DecoderState::Header,
            eof: false,
            is_readable: false,
            has_errored: false,
        }
    }

    /// Whether the received bytes are in the buffer, and the buffer is possible.
    pub open spec fn wf(self) -> bool {
        self.written <= self.buffer.len() <= max_capacity()
    }

    /// Whether no read goes on: the buffer holds the received bytes and nothing else.
    pub open spec fn idle(self) -> bool {
        self.buffer.len() == self.written
    }

    /// What the bytes in the buffer are the beginning of.
    pub open spec fn recognized(self) -> DecoderState {
        if self.buffer.len() < HEADER_LEN {
            DecoderState::Header
        } else {
            DecoderState::Body(announced(self.buffer))
        }
    }

    /// How many bytes the header, or else the frame, lacks; an error if the buffer
    /// holds more than the frame.
    pub open spec fn lacking(self) -> Result<int, ()> {
        let len = self.buffer.len() as int;
        if len < HEADER_LEN {
            Ok(HEADER_LEN - len)
        } else if len <= announced(self.buffer) {
            Ok(announced(self.buffer) - len)
        } else {
            Err(())
        }
    }

    /// The decoder after it has looked at the bytes in its buffer.
    pub open spec fn looked(self) -> Decoding {
        Decoding { state: self.recognized(), ..self }
    }

    /// The decoder after it has given its buffer away.
    pub open spec fn emptied(self) -> Decoding {
        Decoding { buffer: Seq::empty(), written: 0, ..self }
    }

    /// The length to which the buffer is extended for a read.
    pub open spec fn window_end(self) -> int {
        match self.state {
            DecoderState::Header => HEADER_WINDOW as int,
            DecoderState::Body(n) => n + 1,
        }
    }

    /// The decoder after `n` bytes more were received and the room behind them was cut
    /// off.
    pub open spec fn settled(self, n: nat) -> Decoding {
        Decoding {
            buffer: self.buffer.take((self.written + n) as int),
            written: self.written + n,
            ..self
        }
    }

    /// What the stream of frames does next, and the decoder after that.
    pub open spec fn next(self) -> (Decoding, Next) {
        if self.has_errored {
            (Decoding { is_readable: false, has_errored: false, ..self }, Next::Ended)
        } else if self.lacking() is Err {
            (Decoding { has_errored: true, ..self.looked() }, Next::Failed)
        } else if self.is_readable && self.lacking() == Ok::<int, ()>(0) {
            (
                Decoding { is_readable: false, ..self.looked() }.emptied(),
                Next::Item(self.buffer),
            )
        } else {
            (self.looked(), Next::Read)
        }
    }

    /// What the stream of frames does after an attempt to read, and the decoder after
    /// that.
    pub open spec fn after_read(self, event: ReadEvent) -> (Decoding, ReadStep) {
        match event {
            ReadEvent::Pending => (self.settled(0), ReadStep::Pending),
            ReadEvent::Failed => (
                Decoding { has_errored: true, ..self.settled(0) },
                ReadStep::Failed,
            ),
            ReadEvent::Ready(n) => {
                let got = self.settled(n as nat);
                if n != 0 {
                    (Decoding { eof: false, is_readable: true, ..got }, ReadStep::Again)
                } else if got.eof {
                    (got, ReadStep::Ended)
                } else {
                    (Decoding { eof: true, is_readable: true, ..got }, ReadStep::Again)
                }
            },
        }
    }

    /// The decoder after the room that it lent for a read has been filled with `room`.
    pub open spec fn lent(self, room: Seq<u8>) -> Decoding {
        Decoding { buffer: self.buffer.take(self.written as int) + room, ..self }
    }

    /// Whether the buffer can be extended for a read.
    pub open spec fn can_read(self) -> bool {
        self.written <= self.window_end() <= max_capacity()
    }
}

impl RkyvDecoder {
    /// A decoder that has received nothing.
    pub fn new() -> (decoder: Self)
        ensures
            decoder@ == Decoding::fresh(),
            decoder@.buffer.len() == 0,
            decoder@.written == 0,
            decoder@.state == DecoderState::Header,
            !decoder@.eof,
            !decoder@.is_readable,
            !decoder@.has_errored,
    {
        Self {
            buffer: AlignedVec::new(),
            eof: false,
            is_readable: false,
            has_errored: false,
            decoder_state: DecoderState::Header,
            written_bytes: 0,
        }
    }

    /// Looks at the bytes in the buffer: how many more does the header, or else the
    /// frame, take?
    pub fn decodeable(&mut self) -> (result: Result<usize, RkyvDecodeLengthError>)
        ensures
            final(self)@ == old(self)@.looked(),
            match old(self)@.lacking() {
                Ok(n) => result is Ok && result->Ok_0 == n,
                Err(_) => result is Err,
            },
            final(self)@.buffer == old(self)@.buffer,
            final(self)@.written == old(self)@.written,
            final(self)@.eof == old(self)@.eof,
            final(self)@.is_readable == old(self)@.is_readable,
            final(self)@.has_errored == old(self)@.has_errored,
            old(self)@.buffer.len() < 16 ==> final(self)@.state == DecoderState::Header,
            old(self)@.buffer.len() < 16 ==> result is Ok,
            old(self)@.buffer.len() < 16 ==> result->Ok_0 + old(self)@.buffer.len() == 16,
            old(self)@.buffer.len() >= 16 ==> final(self)@.state == DecoderState::Body(
                spec_u64_from_le_bytes(old(self)@.buffer.subrange(0, 8)) as usize,
            ),
            old(self)@.buffer.len() >= 16 ==> (result is Ok <==> old(self)@.buffer.len()
                <= spec_u64_from_le_bytes(old(self)@.buffer.subrange(0, 8)) as usize),
            old(self)@.buffer.len() >= 16 && result is Ok ==> result->Ok_0
                + old(self)@.buffer.len() == spec_u64_from_le_bytes(
                old(self)@.buffer.subrange(0, 8),
            ) as usize,
    {
        let len = self.buffer.len();
        if len < HEADER_LEN {
            self.decoder_state = DecoderState::Header;
            return Ok(HEADER_LEN - len);
        }
        let len_bytes = slice_subrange(self.buffer.as_slice(), 0, LENGTH_LEN);
        let n: usize = u64_from_le_bytes(len_bytes) as usize;
        self.decoder_state = DecoderState::Body(n);
        if len <= n {
            Ok(n - len)
        } else {
            Err(RkyvDecodeLengthError)
        }
    }

    /// The length to which the buffer has to be extended for a read; `None` if no
    /// buffer can be that long, or if the bytes received are more already.
    pub fn window_end(&self) -> (end: Option<usize>)
        ensures
            self@.can_read() ==> end is Some && end->Some_0 == self@.window_end(),
            !self@.can_read() ==> end is None,
            self@.state is Header ==> (end is Some <==> self@.written <= 1024),
            self@.state is Header && end is Some ==> end->Some_0 == 1024,
            self@.state matches DecoderState::Body(n) ==> (end is Some <==> self@.written <= n + 1
                <= isize::MAX - 15),
            self@.state matches DecoderState::Body(n) ==> (end is Some ==> end->Some_0 == n + 1),
    {
        let end: usize = match self.decoder_state {
            DecoderState::Header => HEADER_WINDOW,
            DecoderState::Body(n) => if n == usize::MAX {
                return None;
            } else {
                n + 1
            },
        };
        if self.written_bytes <= end && end <= isize::MAX as usize - 15 {
            Some(end)
        } else {
            None
        }
    }

    /// Extends the buffer for a read and lends the room behind the bytes received.
    pub fn read_window(&mut self) -> (room: &mut [u8])
        requires
            old(self)@.wf(),
            old(self)@.can_read(),
        ensures
            room@ == resized(old(self)@.buffer, old(self)@.window_end(), 0).skip(
                old(self)@.written as int,
            ),
            final(self)@ == old(self)@.lent(final(room)@),
            old(self)@.state is Header ==> old(self)@.written + room@.len() == 1024,
            old(self)@.state matches DecoderState::Body(n) ==> old(self)@.written + room@.len()
                == n + 1,
            final(self)@.buffer == old(self)@.buffer.subrange(0, old(self)@.written as int)
                + final(room)@,
            final(self)@.written == old(self)@.written,
            final(self)@.state == old(self)@.state,
            final(self)@.eof == old(self)@.eof,
            final(self)@.is_readable == old(self)@.is_readable,
            final(self)@.has_errored == old(self)@.has_errored,
    {
        let end: usize = match self.decoder_state {
            DecoderState::Header => HEADER_WINDOW,
            DecoderState::Body(n) => n + 1,
        };
        self.buffer.resize(end, 0);
        let (_, room) = self.buffer.as_mut_slice().split_at_mut(self.written_bytes);
        room
    }

    /// Notes that `n` bytes more were received, and cuts off the room behind them.
    fn settle(&mut self, n: usize)
        requires
            old(self)@.wf(),
            old(self)@.written + n <= old(self)@.buffer.len(),
        ensures
            final(self)@ == old(self)@.settled(n as nat),
            final(self)@.written == old(self)@.written + n,
            final(self)@.buffer == old(self)@.buffer.subrange(0, old(self)@.written + n),
            final(self)@.state == old(self)@.state,
            final(self)@.eof == old(self)@.eof,
            final(self)@.is_readable == old(self)@.is_readable,
            final(self)@.has_errored == old(self)@.has_errored,
    {
        self.written_bytes += n;
        self.buffer.resize(self.written_bytes, 0);
        assert(self@.buffer =~= old(self)@.buffer.take((old(self)@.written + n) as int));
    }

    /// Gives the buffer away and starts over with an empty one.
    fn buffer<T>(&mut self) -> (frame: RkyvVec<T>)
        requires
            old(self)@.wf(),
        ensures
            frame@ == old(self)@.buffer,
            final(self)@ == old(self)@.emptied(),
            final(self)@.buffer.len() == 0,
            final(self)@.written == 0,
            final(self)@.state == old(self)@.state,
            final(self)@.eof == old(self)@.eof,
            final(self)@.is_readable == old(self)@.is_readable,
            final(self)@.has_errored == old(self)@.has_errored,
    {
        let mut bytes = AlignedVec::with_capacity(self.written_bytes);
        std::mem::swap(&mut self.buffer, &mut bytes);
        self.written_bytes = 0;
        RkyvVec::new(bytes)
    }

    /// Decides what the stream of frames does next. If it has to read, the transport
    /// reads into the room that [`RkyvDecoder::read_window`] lends, and
    /// [`RkyvDecoder::after_read`] is told how that went.
    pub fn poll_next<T>(&mut self) -> (step: StreamStep<T>)
        requires
            old(self)@.wf(),
        ensures
            final(self)@.wf(),
            (final(self)@, step@) == old(self)@.next(),
            final(self)@.eof == old(self)@.eof,
            step is Ended <==> old(self)@.has_errored,
            step is Failed <==> !old(self)@.has_errored && 16 <= old(self)@.buffer.len()
                && old(self)@.buffer.len() > spec_u64_from_le_bytes(
                old(self)@.buffer.subrange(0, 8),
            ) as usize,
            step is Item <==> !old(self)@.has_errored && old(self)@.is_readable && 16 <= old(
                self,
            )@.buffer.len() && spec_u64_from_le_bytes(old(self)@.buffer.subrange(0, 8)) as usize
                == old(self)@.buffer.len(),
            step is Item ==> step->Item_0@ == old(self)@.buffer,
            step is Item ==> final(self)@.buffer.len() == 0 && final(self)@.written == 0,
            step !is Item ==> final(self)@.buffer == old(self)@.buffer,
            step !is Item ==> final(self)@.written == old(self)@.written,
            final(self)@.has_errored == (step is Failed),
            final(self)@.is_readable == (old(self)@.is_readable && (step is Failed
                || step is Read)),
            step is Ended ==> final(self)@.state == old(self)@.state,
            step !is Ended && old(self)@.buffer.len() < 16 ==> final(self)@.state is Header,
            step !is Ended && old(self)@.buffer.len() >= 16 ==> final(self)@.state
                == DecoderState::Body(
                spec_u64_from_le_bytes(old(self)@.buffer.subrange(0, 8)) as usize,
            ),
    {
        if self.has_errored {
            self.is_readable = false;
            self.has_errored = false;
            return StreamStep::Ended;
        }
        let remaining: usize = match self.decodeable() {
            Ok(remaining) => remaining,
            Err(error) => {
                self.has_errored = true;
                return StreamStep::Failed(error);
            },
        };
        if self.is_readable && remaining == 0 {
            self.is_readable = false;
            return StreamStep::Item(self.buffer());
        }
        StreamStep::Read
    }

    /// Takes in how an attempt to read went, and decides what the stream of frames does
    /// next.
    pub fn after_read(&mut self, event: ReadEvent) -> (step: ReadStep)
        requires
            old(self)@.wf(),
            event matches ReadEvent::Ready(n) ==> old(self)@.written + n
                <= old(self)@.buffer.len(),
        ensures
            final(self)@.wf(),
            final(self)@.idle(),
            (final(self)@, step) == old(self)@.after_read(event),
            step is Pending <==> event is Pending,
            step is Failed <==> event is Failed,
            step is Ended <==> event == ReadEvent::Ready(0) && old(self)@.eof,
            final(self)@.state == old(self)@.state,
            final(self)@.has_errored == (event is Failed || old(self)@.has_errored),
            final(self)@.written == final(self)@.buffer.len(),
            event matches ReadEvent::Ready(n) ==> final(self)@.buffer == old(
                self,
            )@.buffer.subrange(0, old(self)@.written + n),
            event matches ReadEvent::Ready(n) ==> final(self)@.eof == (n == 0),
            event is Ready ==> final(self)@.is_readable == (old(self)@.is_readable
                || step is Again),
            event !is Ready ==> final(self)@.buffer == old(self)@.buffer.subrange(
                0,
                old(self)@.written as int,
            ),
            event !is Ready ==> final(self)@.eof == old(self)@.eof,
            event !is Ready ==> final(self)@.is_readable == old(self)@.is_readable,
    {
        match event {
            ReadEvent::Pending => {
                self.settle(0);
                ReadStep::Pending
            },
            ReadEvent::Failed => {
                self.settle(0);
                self.has_errored = true;
                ReadStep::Failed
            },
            ReadEvent::Ready(n) => {
                self.settle(n);
                if n == 0 {
                    if self.eof {
                        return ReadStep::Ended;
                    }
                    self.eof = true;
                } else {
                    self.eof = false;
                }
                self.is_readable = true;
                ReadStep::Again
            },
        }
    }
}

} // verus!
