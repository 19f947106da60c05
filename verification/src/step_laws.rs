//! What holds of every single step of a decoder and an encoder, said of the bytes that
//! they hold.

use crate::aligned::max_capacity;
use crate::decoder::{Decoding, DecoderState, Next, ReadEvent, ReadStep};
use crate::encoder::EncoderState;
use crate::frame::RWFrames;
use crate::laws::{read, Arrival};
use crate::wire::{announced, frame, is_frame};
use vstd::bytes::{
    lemma_auto_spec_u64_to_from_le_bytes, spec_u64_from_le_bytes, spec_u64_to_le_bytes,
};
use vstd::endian::{endianness, Endian};
use vstd::prelude::*;

verus! {

/// The stream waits exactly if the read was pending, and fails exactly if the read
/// failed. It is over exactly if the read brought nothing and so did the one before. A
/// read that brings any byte is always followed by another look at the buffer.
pub proof fn law_read_steps(decoder: Decoding, event: ReadEvent)
    ensures
        decoder.after_read(event).1 is Pending <==> event is Pending,
        decoder.after_read(event).1 is Failed <==> event is Failed,
        decoder.after_read(event).1 is Ended <==> event == ReadEvent::Ready(0) && decoder.eof,
        forall|n: usize|
            n > 0 ==> (#[trigger] decoder.after_read(ReadEvent::Ready(n))).1 == ReadStep::Again,
{
}

/// A read takes in the bytes that it reports, and no others; it is readable from then on,
/// and at an end exactly if it brought nothing.
pub proof fn law_read_takes_in_what_it_reports(decoder: Decoding, n: usize)
    requires
        decoder.written + n <= decoder.buffer.len(),
    ensures
        ({
            let (after, step) = decoder.after_read(ReadEvent::Ready(n));
            &&& after.buffer == decoder.buffer.subrange(0, decoder.written + n)
            &&& after.written == decoder.written + n
            &&& after.eof == (n == 0)
            &&& n > 0 ==> after.is_readable
            &&& step is Again ==> after.is_readable
            &&& after.state == decoder.state
            &&& after.has_errored == decoder.has_errored
        }),
{
}

/// Two reads, one behind the other, take in what one read of all their bytes does.
pub proof fn law_reads_add_up(decoder: Decoding, one: Seq<u8>, other: Seq<u8>)
    requires
        decoder.wf(),
        one.len() > 0,
        other.len() > 0,
        one.len() + other.len() <= usize::MAX,
    ensures
        read(read(decoder, Arrival::Bytes(one)).0, Arrival::Bytes(other)) == read(
            decoder,
            Arrival::Bytes(one + other),
        ),
{
    let twice = read(read(decoder, Arrival::Bytes(one)).0, Arrival::Bytes(other)).0;
    let once = read(decoder, Arrival::Bytes(one + other)).0;
    let front = decoder.buffer.subrange(0, decoder.written as int);
    assert(once.buffer =~= front + one + other);
    assert(twice.buffer =~= front + one + other);
}

/// A whole frame that one read brings is yielded as it is, in the poll that made the read,
/// and the decoder holds nothing after that.
pub proof fn law_whole_frame_is_yielded_at_once(decoder: Decoding, f: Seq<u8>)
    requires
        decoder.buffer.len() == 0,
        decoder.written == 0,
        !decoder.has_errored,
        16 <= f.len(),
        spec_u64_from_le_bytes(f.subrange(0, 8)) as usize == f.len(),
    ensures
        decoder.next().1 is Read,
        read(decoder.next().0, Arrival::Bytes(f)).1 is Again,
        read(decoder.next().0, Arrival::Bytes(f)).0.next().1 == Next::Item(f),
        read(decoder.next().0, Arrival::Bytes(f)).0.next().0.buffer.len() == 0,
        read(decoder.next().0, Arrival::Bytes(f)).0.next().0.written == 0,
{
    let got = read(decoder.next().0, Arrival::Bytes(f)).0;
    assert(got.buffer =~= f);
}

/// When asked, the stream is over exactly after it yielded an error. Else it fails exactly
/// if it holds more bytes than the header announces, and yields what it holds exactly if
/// that is as much as the header announces and a read was made. In all other cases it
/// reads.
pub proof fn law_stream_steps(decoder: Decoding)
    ensures
        decoder.next().1 is Ended <==> decoder.has_errored,
        decoder.next().1 is Failed <==> !decoder.has_errored && 16 <= decoder.buffer.len()
            && decoder.buffer.len() > spec_u64_from_le_bytes(
            decoder.buffer.subrange(0, 8),
        ) as usize,
        decoder.next().1 is Item <==> !decoder.has_errored && decoder.is_readable && 16
            <= decoder.buffer.len() && decoder.buffer.len() == spec_u64_from_le_bytes(
            decoder.buffer.subrange(0, 8),
        ) as usize,
        decoder.next().1 is Item ==> decoder.next().1 == Next::Item(decoder.buffer),
{
}

/// Being asked loses no byte: the stream yields all that the decoder holds, or the decoder
/// keeps all of it. It remembers an error until it is asked again, and nothing longer.
pub proof fn law_asking_loses_nothing(decoder: Decoding)
    ensures
        decoder.next().1 is Item ==> decoder.next().0.buffer.len() == 0,
        decoder.next().1 is Item ==> decoder.next().0.written == 0,
        decoder.next().1 !is Item ==> decoder.next().0.buffer == decoder.buffer,
        decoder.next().1 !is Item ==> decoder.next().0.written == decoder.written,
        decoder.next().0.has_errored == (decoder.next().1 is Failed),
        decoder.next().0.eof == decoder.eof,
        decoder.next().1 is Item || decoder.next().1 is Ended ==> !decoder.next().0.is_readable,
        decoder.next().1 is Read ==> decoder.next().0.is_readable == decoder.is_readable,
{
}

/// What is lacking, together with what is there, makes the header while that is incomplete
/// and the announced frame from then on; there is an error exactly if the frame is
/// exceeded.
pub proof fn law_lacking_completes(decoder: Decoding)
    ensures
        decoder.buffer.len() < 16 ==> decoder.lacking() == Ok::<int, ()>(
            16 - decoder.buffer.len(),
        ),
        decoder.buffer.len() < 16 ==> decoder.recognized() is Header,
        decoder.buffer.len() >= 16 ==> decoder.recognized() == DecoderState::Body(
            spec_u64_from_le_bytes(decoder.buffer.subrange(0, 8)) as usize,
        ),
        decoder.buffer.len() >= 16 ==> (decoder.lacking() is Ok <==> decoder.buffer.len()
            <= spec_u64_from_le_bytes(decoder.buffer.subrange(0, 8)) as usize),
        decoder.buffer.len() >= 16 && decoder.lacking() is Ok ==> decoder.lacking()->Ok_0
            + decoder.buffer.len() == spec_u64_from_le_bytes(
            decoder.buffer.subrange(0, 8),
        ) as usize,
{
}

/// Looking at the buffer and lending room change nothing but what they are for.
pub proof fn law_looking_and_lending(decoder: Decoding, room: Seq<u8>)
    ensures
        decoder.looked() == (Decoding { state: decoder.recognized(), ..decoder }),
        decoder.lent(room).buffer == decoder.buffer.subrange(0, decoder.written as int) + room,
        decoder.lent(room) == (Decoding { buffer: decoder.lent(room).buffer, ..decoder }),
        decoder.emptied() == (Decoding { buffer: Seq::empty(), written: 0, ..decoder }),
{
}

/// While the header is incomplete a read may fill the buffer up to 1024 bytes; after that,
/// up to one byte more than the frame. It can be had as long as a buffer can be that long.
pub proof fn law_room_of_a_read(decoder: Decoding)
    ensures
        decoder.state is Header ==> decoder.window_end() == 1024,
        decoder.state matches DecoderState::Body(n) ==> decoder.window_end() == n + 1,
        decoder.can_read() <==> decoder.written <= decoder.window_end() <= isize::MAX - 15,
        max_capacity() == isize::MAX - 15,
        decoder.wf() <==> decoder.written <= decoder.buffer.len() <= isize::MAX - 15,
        decoder.idle() <==> decoder.written == decoder.buffer.len(),
{
}

/// A new decoder has received nothing, and a new encoder holds nothing; it has to be
/// flushed before the next frame from 8192 bytes on.
pub proof fn law_new_ones_hold_nothing()
    ensures
        Decoding::fresh().buffer.len() == 0,
        Decoding::fresh().written == 0,
        Decoding::fresh().state is Header,
        !Decoding::fresh().eof,
        !Decoding::fresh().is_readable,
        !Decoding::fresh().has_errored,
        Decoding::fresh().next().1 is Read,
        EncoderState::fresh().bytes.len() == 0,
        EncoderState::fresh().written == 0,
        EncoderState::fresh().boundary == 8192,
        EncoderState::fresh().offer() is None,
{
}

/// A frame is 16 bytes longer than its payload. Its first 8 bytes hold its whole length in
/// the byte order of the machine, the next 8 are zero, and the payload follows.
pub proof fn law_frame_layout(payload: Seq<u8>)
    ensures
        frame(payload).len() == 16 + payload.len(),
        endianness() is Little ==> frame(payload).subrange(0, 8) == spec_u64_to_le_bytes(
            (16 + payload.len()) as u64,
        ),
        endianness() is Big ==> frame(payload).subrange(0, 8) == spec_u64_to_le_bytes(
            (16 + payload.len()) as u64,
        ).reverse(),
        forall|i: int| 8 <= i < 16 ==> frame(payload)[i] == 0,
        frame(payload).subrange(16, frame(payload).len() as int) == payload,
{
    lemma_auto_spec_u64_to_from_le_bytes();
    let bytes = spec_u64_to_le_bytes((16 + payload.len()) as u64);
    match endianness() {
        Endian::Little => {
            assert(frame(payload).subrange(0, 8) =~= bytes);
        },
        Endian::Big => {
            assert(frame(payload).subrange(0, 8) =~= bytes.reverse());
        },
    }
    assert(frame(payload).subrange(16, frame(payload).len() as int) =~= payload);
}

/// Two payloads that make the same frame are the same.
pub proof fn law_frame_tells_its_payload(one: Seq<u8>, other: Seq<u8>)
    requires
        frame(one) == frame(other),
    ensures
        one == other,
{
    law_frame_layout(one);
    law_frame_layout(other);
}

/// The length that a header announces is the number that its first 8 bytes hold, the low
/// byte first; a frame is as long as its header announces.
pub proof fn law_announced_length(bytes: Seq<u8>)
    ensures
        announced(bytes) == spec_u64_from_le_bytes(bytes.subrange(0, 8)) as usize,
        is_frame(bytes) <==> 16 <= bytes.len() && bytes.len() == spec_u64_from_le_bytes(
            bytes.subrange(0, 8),
        ) as usize,
{
}

/// What is left of a frame is what follows the bytes that were taken; it is offered as a
/// whole as long as there is any.
pub proof fn law_offer_is_what_was_not_taken(encoder: EncoderState)
    ensures
        encoder.offer() is Some <==> encoder.written < encoder.bytes.len(),
        encoder.offer() is Some ==> encoder.offer()->Some_0 == encoder.bytes.subrange(
            encoder.written as int,
            encoder.bytes.len() as int,
        ),
        encoder.written <= encoder.bytes.len() ==> encoder.remaining() == encoder.bytes.subrange(
            encoder.written as int,
            encoder.bytes.len() as int,
        ),
        encoder.written >= encoder.bytes.len() ==> encoder.remaining().len() == 0,
{
    if encoder.written <= encoder.bytes.len() {
        assert(encoder.remaining() =~= encoder.bytes.subrange(
            encoder.written as int,
            encoder.bytes.len() as int,
        ));
    }
}

/// Bytes that the transport takes are gone from the front of what is left, and nothing
/// else changes.
pub proof fn law_taken_bytes_leave(encoder: EncoderState, n: nat)
    requires
        encoder.written + n <= encoder.bytes.len(),
    ensures
        encoder.remaining() == encoder.remaining().subrange(0, n as int) + encoder.advanced(
            n,
        ).remaining(),
        encoder.advanced(n).remaining().len() == encoder.remaining().len() - n,
        encoder.advanced(n).bytes == encoder.bytes,
        encoder.advanced(n).written == encoder.written + n,
{
    assert(encoder.remaining() =~= encoder.remaining().subrange(0, n as int) + encoder.advanced(
        n,
    ).remaining());
}

/// A frame is begun with 16 zeros, grows by exactly what is appended, and is finished by a
/// change of its first 8 bytes only. The whole of it waits to be written.
pub proof fn law_frame_grows(encoder: EncoderState, bytes: Seq<u8>)
    ensures
        encoder.begun().bytes.len() == 16,
        forall|i: int| 0 <= i < 16 ==> encoder.begun().bytes[i] == 0,
        encoder.begun().written == 0,
        encoder.appended(bytes).bytes == encoder.bytes + bytes,
        encoder.appended(bytes).written == encoder.written,
        encoder.finished().written == encoder.written,
        8 <= encoder.bytes.len() ==> encoder.finished().bytes.len() == encoder.bytes.len(),
        forall|i: int|
            8 <= i < encoder.bytes.len() ==> encoder.finished().bytes[i] == encoder.bytes[i],
        encoder.encoded(bytes).bytes == frame(bytes),
        encoder.encoded(bytes).written == 0,
{
    lemma_auto_spec_u64_to_from_le_bytes();
}

/// A half that is lent out comes back as the borrower leaves it; the other half stays as
/// it is.
pub proof fn law_halves_are_lent_apart(before: RWFrames, after: RWFrames)
    ensures
        forall|lent, returned|
            before.lends_decoder(after, lent, returned) <==> lent == before.reading() && returned
                == after.reading() && after.writing() == before.writing(),
        forall|lent, returned|
            before.lends_encoder(after, lent, returned) <==> lent == before.writing() && returned
                == after.writing() && after.reading() == before.reading(),
{
}

} // verus!
