//! What holds of encoder, decoder and frames taken together.

use crate::aligned::max_capacity;
use crate::decoder::{Decoding, Next, ReadEvent, ReadStep};
use crate::encoder::EncoderState;
use crate::error::FrameError;
use crate::wire::{announced, frame, is_frame, HEADER_LEN, LENGTH_LEN};
use vstd::bytes::{lemma_auto_spec_u64_to_from_le_bytes, spec_u64_to_le_bytes};
use vstd::endian::{endianness, Endian};
use vstd::prelude::*;

verus! {

/// How a read from the transport turns out, with the bytes that it brings.
pub enum Arrival {
    /// The transport has no bytes now.
    Pending,
    /// The transport fails.
    Failed,
    /// The transport brings these bytes; none if it has ended.
    Bytes(Seq<u8>),
}

/// The decoder after a read that turns out as `arrival`, and what the stream does then.
pub open spec fn read(decoder: Decoding, arrival: Arrival) -> (Decoding, ReadStep) {
    match arrival {
        Arrival::Pending => decoder.after_read(ReadEvent::Pending),
        Arrival::Failed => decoder.after_read(ReadEvent::Failed),
        Arrival::Bytes(bytes) => decoder.lent(bytes).after_read(
            ReadEvent::Ready(bytes.len() as usize),
        ),
    }
}

/// The frames that the stream yields while the reads turn out as `arrivals`, until it
/// first yields an error or is over. A stream that waits without a transport that it
/// could wait for yields nothing any more.
pub open spec fn frames(decoder: Decoding, arrivals: Seq<Arrival>) -> Seq<Seq<u8>>
    decreases arrivals.len(), decoder.buffer.len(),
{
    let (after, next) = decoder.next();
    match next {
        Next::Item(bytes) => seq![bytes] + frames(after, arrivals),
        Next::Read => if arrivals.len() == 0 {
            Seq::empty()
        } else {
            let (reread, step) = read(after, arrivals[0]);
            match step {
                ReadStep::Again => frames(reread, arrivals.skip(1)),
                ReadStep::Pending => if arrivals[0] is Pending {
                    frames(reread, arrivals.skip(1))
                } else {
                    Seq::empty()
                },
                ReadStep::Failed => Seq::empty(),
                ReadStep::Ended => Seq::empty(),
            }
        },
        Next::Ended => Seq::empty(),
        Next::Failed => Seq::empty(),
    }
}

/// The bytes that `arrivals` bring, one behind the other.
pub open spec fn brought(arrivals: Seq<Arrival>) -> Seq<u8>
    decreases arrivals.len(),
{
    if arrivals.len() == 0 {
        Seq::empty()
    } else {
        match arrivals[0] {
            Arrival::Bytes(bytes) => bytes + brought(arrivals.skip(1)),
            _ => brought(arrivals.skip(1)),
        }
    }
}

/// Whether `arrivals` bring exactly `bytes`, in pieces of any size with any waiting
/// before each of them, and nothing fails.
pub open spec fn delivers(arrivals: Seq<Arrival>, bytes: Seq<u8>) -> bool {
    &&& arrivals.len() > 0
    &&& arrivals.last() is Bytes
    &&& forall|i: int|
        0 <= i < arrivals.len() ==> #[trigger] arrivals[i] is Pending || (arrivals[i] is Bytes
            && arrivals[i]->Bytes_0.len() > 0)
    &&& brought(arrivals) == bytes
}

/// Whether the decoder waits for a frame of which it has received nothing.
pub open spec fn awaits_frame(decoder: Decoding) -> bool {
    &&& decoder.buffer.len() == 0
    &&& decoder.written == 0
    &&& !decoder.has_errored
}

/// What comes behind the first read of a delivery is calm too.
proof fn lemma_delivery_tail(arrivals: Seq<Arrival>)
    requires
        arrivals.len() > 1,
        delivers(arrivals, brought(arrivals)),
    ensures
        delivers(arrivals.skip(1), brought(arrivals.skip(1))),
{
    let tail = arrivals.skip(1);
    assert forall|i: int| 0 <= i < tail.len() implies #[trigger] tail[i] is Pending || (
    tail[i] is Bytes && tail[i]->Bytes_0.len() > 0) by {
        assert(tail[i] == arrivals[i + 1]);
    }
}

/// A delivery brings at least one byte.
proof fn lemma_brought_something(arrivals: Seq<Arrival>)
    requires
        delivers(arrivals, brought(arrivals)),
    ensures
        brought(arrivals).len() > 0,
    decreases arrivals.len(),
{
    if !(arrivals[0] is Bytes) {
        lemma_delivery_tail(arrivals);
        lemma_brought_something(arrivals.skip(1));
    }
}

/// A decoder that holds the front of a frame reads on until the frame is complete,
/// yields it, and goes on with what comes behind it.
proof fn lemma_one_frame(decoder: Decoding, arrivals: Seq<Arrival>, rest: Seq<Arrival>, f: Seq<u8>)
    requires
        decoder.idle(),
        !decoder.has_errored,
        is_frame(f),
        decoder.buffer.len() < f.len(),
        decoder.buffer == f.take(decoder.buffer.len() as int),
        delivers(arrivals, f.skip(decoder.buffer.len() as int)),
    ensures
        exists|after: Decoding| #[trigger]
            awaits_frame(after) && frames(decoder, arrivals + rest) == seq![f] + frames(after, rest),
    decreases arrivals.len(),
{
    let all = arrivals + rest;
    let len = decoder.buffer.len() as int;
    if len >= HEADER_LEN {
        assert(decoder.buffer.subrange(0, LENGTH_LEN as int) =~= f.subrange(0, LENGTH_LEN as int));
    }
    assert(decoder.next() == (decoder.looked(), Next::Read));
    assert(all[0] == arrivals[0]);
    assert(all.skip(1) =~= arrivals.skip(1) + rest);
    let (reread, step) = read(decoder.looked(), arrivals[0]);
    match arrivals[0] {
        Arrival::Bytes(bytes) => {
            let more = brought(arrivals.skip(1));
            assert(bytes + more == f.skip(len));
            assert(reread.buffer =~= decoder.buffer + bytes);
            assert(reread.buffer =~= f.take(len + bytes.len())) by {
                assert(f =~= decoder.buffer + (bytes + more));
            }
            if arrivals.len() == 1 {
                assert(reread.buffer =~= f);
                assert(arrivals.skip(1) + rest =~= rest);
                let after = reread.next().0;
                assert(reread.next().1 == Next::Item(f));
                assert(awaits_frame(after));
                assert(frames(reread, rest) == seq![f] + frames(after, rest));
            } else {
                let tail = arrivals.skip(1);
                lemma_delivery_tail(arrivals);
                lemma_brought_something(tail);
                assert(f.skip(len + bytes.len()) =~= more) by {
                    assert(f =~= decoder.buffer + (bytes + more));
                }
                lemma_one_frame(reread, tail, rest, f);
            }
        },
        _ => {
            let tail = arrivals.skip(1);
            assert(arrivals[0] is Pending);
            lemma_delivery_tail(arrivals);
            assert(reread.buffer =~= decoder.buffer);
            lemma_one_frame(reread, tail, rest, f);
        },
    }
}

/// Every frame that is delivered comes out of the stream as it was, in the order in
/// which they were delivered: however each is cut into reads, and however often the
/// transport has to be waited for in between.
pub proof fn law_delivered_frames_are_yielded(
    decoder: Decoding,
    deliveries: Seq<Seq<Arrival>>,
    sent: Seq<Seq<u8>>,
)
    requires
        awaits_frame(decoder),
        deliveries.len() == sent.len(),
        forall|i: int|
            0 <= i < sent.len() ==> is_frame(#[trigger] sent[i]) && delivers(deliveries[i], sent[i]),
    ensures
        frames(decoder, deliveries.flatten()) == sent,
    decreases sent.len(),
{
    if sent.len() == 0 {
        assert(deliveries.flatten() =~= Seq::<Arrival>::empty());
        assert(frames(decoder, deliveries.flatten()) =~= sent);
    } else {
        let rest = deliveries.drop_first();
        let f = sent[0];
        assert(deliveries.flatten() == deliveries.first() + rest.flatten());
        assert(decoder.buffer =~= f.take(0));
        assert(f.skip(0) =~= f);
        assert(is_frame(f));
        lemma_one_frame(decoder, deliveries.first(), rest.flatten(), f);
        let after = choose|after: Decoding| #[trigger]
            awaits_frame(after) && frames(decoder, deliveries.first() + rest.flatten()) == seq![f]
                + frames(after, rest.flatten());
        let others = sent.drop_first();
        assert forall|i: int| 0 <= i < others.len() implies is_frame(#[trigger] others[i])
            && delivers(rest[i], others[i]) by {
            assert(others[i] == sent[i + 1]);
            assert(rest[i] == deliveries[i + 1]);
        }
        law_delivered_frames_are_yielded(after, rest, others);
        assert(seq![f] + others =~= sent);
    }
}

/// A frame of which the decoder holds the front, however the reads before went, is
/// yielded when the rest of it is delivered.
pub proof fn law_interrupted_frame_is_completed(
    decoder: Decoding,
    arrivals: Seq<Arrival>,
    f: Seq<u8>,
)
    requires
        decoder.idle(),
        !decoder.has_errored,
        is_frame(f),
        decoder.buffer.len() < f.len(),
        decoder.buffer == f.take(decoder.buffer.len() as int),
        delivers(arrivals, f.skip(decoder.buffer.len() as int)),
    ensures
        frames(decoder, arrivals) == seq![f],
{
    let none = Seq::<Arrival>::empty();
    lemma_one_frame(decoder, arrivals, none, f);
    assert(arrivals + none =~= arrivals);
    let after = choose|after: Decoding| #[trigger]
        awaits_frame(after) && frames(decoder, arrivals + none) == seq![f] + frames(after, none);
    assert(frames(after, none) =~= Seq::<Seq<u8>>::empty());
    assert(seq![f] + Seq::<Seq<u8>>::empty() =~= seq![f]);
}

/// Whatever the transport does, the stream yields whole frames only, and the frames that
/// it yields, one behind the other, are the first of the bytes that it received: none
/// is lost, changed or made up.
pub proof fn law_yielded_bytes_were_received(decoder: Decoding, arrivals: Seq<Arrival>)
    requires
        decoder.idle(),
        forall|i: int|
            0 <= i < arrivals.len() && #[trigger] arrivals[i] is Bytes
                ==> arrivals[i]->Bytes_0.len() <= usize::MAX,
    ensures
        forall|i: int|
            0 <= i < frames(decoder, arrivals).len() ==> is_frame(
                #[trigger] frames(decoder, arrivals)[i],
            ),
        frames(decoder, arrivals).flatten().is_prefix_of(decoder.buffer + brought(arrivals)),
    decreases arrivals.len(), decoder.buffer.len(),
{
    let (after, next) = decoder.next();
    let all = frames(decoder, arrivals);
    match next {
        Next::Item(bytes) => {
            let others = frames(after, arrivals);
            law_yielded_bytes_were_received(after, arrivals);
            assert(all == seq![bytes] + others);
            assert(all.drop_first() =~= others);
            assert(all.flatten() == bytes + others.flatten());
            assert(after.buffer + brought(arrivals) =~= brought(arrivals));
            assert forall|i: int| 0 <= i < all.len() implies is_frame(#[trigger] all[i]) by {
                if i > 0 {
                    assert(all[i] == others[i - 1]);
                }
            }
        },
        Next::Read => {
            if arrivals.len() > 0 {
                let (reread, step) = read(after, arrivals[0]);
                let rest = arrivals.skip(1);
                assert forall|i: int|
                    0 <= i < rest.len() && #[trigger] rest[i] is Bytes implies rest[i]->Bytes_0.len()
                    <= usize::MAX by {
                    assert(rest[i] == arrivals[i + 1]);
                }
                assert(reread.idle() && reread.buffer + brought(rest) =~= decoder.buffer + brought(
                    arrivals,
                ));
                if step is Again || (step is Pending && arrivals[0] is Pending) {
                    law_yielded_bytes_were_received(reread, rest);
                }
            }
        },
        _ => {},
    }
}

/// After a frame was yielded the decoder waits for the next one.
pub proof fn law_decoder_starts_over(decoder: Decoding)
    requires
        decoder.next().1 is Item,
    ensures
        awaits_frame(decoder.next().0),
        decoder.next().0.wf(),
{
}

/// On a machine that stores the low byte of a number first, what the encoder makes of
/// a payload is a whole frame, and the payload is what follows its header.
pub proof fn law_encoded_payload_is_a_frame(payload: Seq<u8>)
    requires
        endianness() == Endian::Little,
        HEADER_LEN + payload.len() <= max_capacity(),
    ensures
        is_frame(frame(payload)),
        frame(payload).len() == HEADER_LEN + payload.len(),
        frame(payload).skip(HEADER_LEN as int) == payload,
{
    let length = (HEADER_LEN + payload.len()) as u64;
    lemma_auto_spec_u64_to_from_le_bytes();
    let bytes = spec_u64_to_le_bytes(length);
    assert(bytes.len() == LENGTH_LEN);
    assert(frame(payload).subrange(0, LENGTH_LEN as int) =~= bytes);
    assert(frame(payload).skip(HEADER_LEN as int) =~= payload);
}

/// On a machine that stores the low byte of a number first, the stream yields exactly
/// the frames that were encoded, in order, however they are cut into reads.
pub proof fn law_encoded_payloads_are_yielded(
    decoder: Decoding,
    deliveries: Seq<Seq<Arrival>>,
    payloads: Seq<Seq<u8>>,
)
    requires
        endianness() == Endian::Little,
        awaits_frame(decoder),
        deliveries.len() == payloads.len(),
        forall|i: int|
            0 <= i < payloads.len() ==> HEADER_LEN + #[trigger] payloads[i].len() <= max_capacity()
                && delivers(deliveries[i], frame(payloads[i])),
    ensures
        frames(decoder, deliveries.flatten()) == payloads.map_values(|p: Seq<u8>| frame(p)),
{
    let sent = payloads.map_values(|p: Seq<u8>| frame(p));
    assert forall|i: int| 0 <= i < sent.len() implies is_frame(#[trigger] sent[i]) && delivers(
        deliveries[i],
        sent[i],
    ) by {
        assert(HEADER_LEN + payloads[i].len() <= max_capacity());
        law_encoded_payload_is_a_frame(payloads[i]);
    }
    law_delivered_frames_are_yielded(decoder, deliveries, sent);
}

/// A value may be serialized into the encoder in any number of pieces: the frame is
/// the one that carries all of them, one behind the other.
pub proof fn law_pieces_make_one_frame(encoder: EncoderState, pieces: Seq<Seq<u8>>)
    requires
        HEADER_LEN + pieces.flatten().len() <= max_capacity(),
    ensures
        pieces.fold_left(
            encoder.begun(),
            |state: EncoderState, piece: Seq<u8>| state.appended(piece),
        ).finished() == encoder.encoded(pieces.flatten()),
{
    lemma_pieces(encoder.begun(), pieces);
    let whole = encoder.begun().appended(pieces.flatten());
    assert(whole.finished().bytes =~= encoder.encoded(pieces.flatten()).bytes) by {
        assert(whole.bytes.len() == HEADER_LEN + pieces.flatten().len());
    }
}

/// Pieces that are appended one by one are appended all together.
proof fn lemma_pieces(encoder: EncoderState, pieces: Seq<Seq<u8>>)
    ensures
        pieces.fold_left(
            encoder,
            |state: EncoderState, piece: Seq<u8>| state.appended(piece),
        ) == encoder.appended(pieces.flatten()),
    decreases pieces.len(),
{
    if pieces.len() == 0 {
        assert(encoder.appended(pieces.flatten()).bytes =~= encoder.bytes);
    } else {
        let front = pieces.drop_last();
        lemma_pieces(encoder, front);
        pieces.lemma_flatten_and_flatten_alt_are_equivalent();
        front.lemma_flatten_and_flatten_alt_are_equivalent();
        assert(pieces.flatten() == front.flatten() + pieces.last());
        assert(encoder.appended(pieces.flatten()).bytes =~= encoder.appended(
            front.flatten(),
        ).appended(pieces.last()).bytes);
    }
}

/// A new frame replaces the one before, whatever of that was written.
pub proof fn law_new_frame_replaces_the_last(one: EncoderState, other: EncoderState, p: Seq<u8>)
    requires
        one.boundary == other.boundary,
    ensures
        one.encoded(p) == other.encoded(p),
        one.encoded(p).remaining() == frame(p),
{
    assert(one.encoded(p).remaining() =~= frame(p));
}

/// Nothing changes the length from which on an encoder must be flushed.
pub proof fn law_boundary_is_kept(encoder: EncoderState, bytes: Seq<u8>, n: nat)
    ensures
        encoder.begun().boundary == encoder.boundary,
        encoder.appended(bytes).boundary == encoder.boundary,
        encoder.finished().boundary == encoder.boundary,
        encoder.encoded(bytes).boundary == encoder.boundary,
        encoder.advanced(n).boundary == encoder.boundary,
{
}

/// Only the bytes at the front of the room that the transport reports to have filled
/// are received; what the rest of the room holds does not matter.
pub proof fn law_only_reported_bytes_count(decoder: Decoding, bytes: Seq<u8>, rest: Seq<u8>)
    requires
        decoder.wf(),
        bytes.len() <= usize::MAX,
    ensures
        decoder.lent(bytes + rest).after_read(ReadEvent::Ready(bytes.len() as usize)) == read(
            decoder,
            Arrival::Bytes(bytes),
        ),
{
    let front = decoder.buffer.take(decoder.written as int);
    let n = (decoder.written + bytes.len()) as int;
    assert((front + (bytes + rest)).take(n) =~= (front + bytes).take(n));
}

/// If a read is pending or fails, nothing of the room that was lent for it is received,
/// whatever it was filled with.
pub proof fn law_unreported_room_is_dropped(decoder: Decoding, room: Seq<u8>)
    requires
        decoder.wf(),
    ensures
        decoder.lent(room).after_read(ReadEvent::Pending) == read(decoder, Arrival::Pending),
        decoder.lent(room).after_read(ReadEvent::Failed) == read(decoder, Arrival::Failed),
{
    assert(decoder.lent(room).settled(0).buffer =~= decoder.settled(0).buffer);
}

/// Whenever the stream has to read, there is room for at least one byte, so that a read
/// of no bytes always means that the transport has ended. The room can be had unless
/// the header announces a length that no buffer can have.
pub proof fn law_reads_have_room(decoder: Decoding)
    requires
        decoder.wf(),
        decoder.idle(),
        decoder.next().1 is Read,
    ensures
        decoder.next().0.written < decoder.next().0.window_end(),
        decoder.buffer.len() < HEADER_LEN ==> decoder.next().0.can_read(),
        decoder.buffer.len() >= HEADER_LEN && announced(decoder.buffer) < max_capacity()
            ==> decoder.next().0.can_read(),
{
}

/// A stream that has received more bytes than the header announces yields the length
/// error, and then is over once.
pub proof fn law_length_error_ends_once(decoder: Decoding)
    requires
        !decoder.has_errored,
        HEADER_LEN <= decoder.buffer.len(),
        announced(decoder.buffer) < decoder.buffer.len(),
    ensures
        decoder.next().1 is Failed,
        decoder.next().0.next() == (
            (Decoding { is_readable: false, ..decoder.looked() }),
            Next::Ended,
        ),
{
}

/// Bytes of another frame that come with the last bytes of a frame are refused: the
/// stream yields the length error, not the frame.
pub proof fn law_frames_must_come_apart(decoder: Decoding, f: Seq<u8>, extra: Seq<u8>)
    requires
        awaits_frame(decoder),
        is_frame(f),
        extra.len() > 0,
        f.len() + extra.len() <= usize::MAX,
    ensures
        decoder.next().1 is Read,
        read(decoder.next().0, Arrival::Bytes(f + extra)).0.next().1 is Failed,
{
    let got = read(decoder.next().0, Arrival::Bytes(f + extra)).0;
    assert(got.buffer =~= f + extra);
    assert(got.buffer.subrange(0, LENGTH_LEN as int) =~= f.subrange(0, LENGTH_LEN as int));
}

/// After a failed read the stream is over once, and then goes on with the bytes that it
/// had received before, whatever the room that was lent for the read was filled with.
pub proof fn law_failed_read_ends_once(decoder: Decoding, room: Seq<u8>)
    requires
        decoder.wf(),
        !decoder.has_errored,
    ensures
        ({
            let (failed, step) = decoder.lent(room).after_read(ReadEvent::Failed);
            &&& step == ReadStep::Failed
            &&& failed.next() == (
                (Decoding { is_readable: false, ..decoder.settled(0) }),
                Next::Ended,
            )
        }),
        read(decoder, Arrival::Failed) == decoder.lent(room).after_read(ReadEvent::Failed),
{
    law_unreported_room_is_dropped(decoder, room);
}

/// Waiting for the transport changes nothing: the next read starts where the last one
/// did, whatever the room that was lent for it was filled with.
pub proof fn law_waiting_changes_nothing(decoder: Decoding, room: Seq<u8>)
    requires
        decoder.wf(),
        decoder.idle(),
    ensures
        decoder.lent(room).after_read(ReadEvent::Pending) == (decoder, ReadStep::Pending),
        read(decoder, Arrival::Pending) == (decoder, ReadStep::Pending),
{
    law_unreported_room_is_dropped(decoder, room);
    assert(decoder.settled(0).buffer =~= decoder.buffer);
}

/// A transport that has ended ends the stream at the second read in a row that brings
/// nothing, and at each one after that, inside a frame as well as between two frames.
/// The bytes that were received are kept.
pub proof fn law_end_of_input_ends_the_stream(decoder: Decoding)
    requires
        decoder.wf(),
        decoder.idle(),
        decoder.next().1 is Read,
        decoder.lacking() != Ok::<int, ()>(0),
    ensures
        ({
            let (first, again) = read(decoder.next().0, Arrival::Bytes(Seq::empty()));
            let (second, over) = read(first.next().0, Arrival::Bytes(Seq::empty()));
            &&& again == (if decoder.eof {
                ReadStep::Ended
            } else {
                ReadStep::Again
            })
            &&& first.next().1 is Read
            &&& over == ReadStep::Ended
            &&& second.eof && second.idle() && !second.has_errored
            &&& second.buffer == decoder.buffer
        }),
{
    let first = read(decoder.next().0, Arrival::Bytes(Seq::empty())).0;
    assert(first.buffer =~= decoder.buffer);
    let second = read(first.next().0, Arrival::Bytes(Seq::empty())).0;
    assert(second.buffer =~= decoder.buffer);
}

/// How a flush ends.
pub enum FlushEnd {
    /// It waits until the transport takes more bytes.
    Waiting,
    /// It flushes the transport, and ends as that does.
    Transport,
    /// It fails.
    Failed(FrameError),
}

/// How a flush ends if the transport takes as many bytes in each write as `writes` says.
pub open spec fn flush_end(encoder: EncoderState, writes: Seq<nat>) -> FlushEnd
    decreases writes.len(),
{
    match encoder.offer() {
        None => FlushEnd::Transport,
        Some(_) => if writes.len() == 0 {
            FlushEnd::Waiting
        } else if writes[0] == 0 {
            FlushEnd::Failed(FrameError::WriteZero)
        } else {
            flush_end(encoder.advanced(writes[0]), writes.skip(1))
        },
    }
}

/// What the transport receives in such a flush.
pub open spec fn flush_sent(encoder: EncoderState, writes: Seq<nat>) -> Seq<u8>
    decreases writes.len(),
{
    if writes.len() == 0 {
        Seq::empty()
    } else {
        match encoder.offer() {
            None => Seq::empty(),
            Some(bytes) => if writes[0] == 0 {
                Seq::empty()
            } else {
                bytes.take(writes[0] as int) + flush_sent(
                    encoder.advanced(writes[0]),
                    writes.skip(1),
                )
            },
        }
    }
}

/// How many bytes the transport takes in all.
pub open spec fn taken(writes: Seq<nat>) -> nat
    decreases writes.len(),
{
    if writes.len() == 0 {
        0
    } else {
        writes[0] + taken(writes.skip(1))
    }
}

/// As long as the transport takes some bytes in each write, and never more than it is
/// offered, it receives the bytes that were left in order, each once, and no others. The
/// flush waits until all of them are taken, and then flushes the transport.
pub proof fn law_flush_sends_what_is_left(encoder: EncoderState, writes: Seq<nat>)
    requires
        encoder.written <= encoder.bytes.len(),
        forall|i: int| 0 <= i < writes.len() ==> #[trigger] writes[i] > 0,
        taken(writes) <= encoder.remaining().len(),
    ensures
        flush_sent(encoder, writes) == encoder.remaining().take(taken(writes) as int),
        flush_end(encoder, writes) == (if taken(writes) == encoder.remaining().len() {
            FlushEnd::Transport
        } else {
            FlushEnd::Waiting
        }),
    decreases writes.len(),
{
    let remaining = encoder.remaining();
    if writes.len() == 0 {
        assert(remaining.take(0) =~= Seq::<u8>::empty());
    } else {
        let n = writes[0];
        let rest = writes.skip(1);
        assert forall|i: int| 0 <= i < rest.len() implies #[trigger] rest[i] > 0 by {
            assert(rest[i] == writes[i + 1]);
        }
        let after = encoder.advanced(n);
        assert(after.remaining() =~= remaining.skip(n as int));
        law_flush_sends_what_is_left(after, rest);
        assert(remaining.take(n as int) + remaining.skip(n as int).take(taken(rest) as int)
            =~= remaining.take(taken(writes) as int));
    }
}

/// A flush that all the bytes that were left are taken in succeeds with the flush of the
/// transport, which has received exactly those bytes.
pub proof fn law_flush_completes(encoder: EncoderState, writes: Seq<nat>)
    requires
        encoder.written <= encoder.bytes.len(),
        forall|i: int| 0 <= i < writes.len() ==> #[trigger] writes[i] > 0,
        taken(writes) == encoder.remaining().len(),
    ensures
        flush_end(encoder, writes) == FlushEnd::Transport,
        flush_sent(encoder, writes) == encoder.remaining(),
{
    law_flush_sends_what_is_left(encoder, writes);
    assert(encoder.remaining().take(taken(writes) as int) =~= encoder.remaining());
}

/// A value that is sent and flushed is one frame at the transport, whatever the encoder
/// held before, and the next flush writes nothing.
pub proof fn law_sent_value_is_one_frame(
    encoder: EncoderState,
    payload: Seq<u8>,
    writes: Seq<nat>,
    more: Seq<nat>,
)
    requires
        forall|i: int| 0 <= i < writes.len() ==> #[trigger] writes[i] > 0,
        taken(writes) == frame(payload).len(),
    ensures
        flush_end(encoder.encoded(payload), writes) == FlushEnd::Transport,
        flush_sent(encoder.encoded(payload), writes) == frame(payload),
        flush_end(encoder.encoded(payload).advanced(taken(writes)), more) == FlushEnd::Transport,
        flush_sent(encoder.encoded(payload).advanced(taken(writes)), more) == Seq::<u8>::empty(),
{
    let sent = encoder.encoded(payload);
    assert(sent.remaining() =~= frame(payload));
    law_flush_completes(sent, writes);
    law_flush_with_nothing_left(sent.advanced(taken(writes)), more);
}

/// A flush for which no bytes are left, because all were taken or because the encoder was
/// never given a frame, flushes the transport and writes nothing.
pub proof fn law_flush_with_nothing_left(encoder: EncoderState, writes: Seq<nat>)
    requires
        encoder.remaining().len() == 0,
    ensures
        flush_end(encoder, writes) == FlushEnd::Transport,
        flush_sent(encoder, writes) == Seq::<u8>::empty(),
{
}

/// A flush fails when the transport takes nothing of what it is offered, and for no other
/// reason.
pub proof fn law_flush_fails_on_empty_writes(encoder: EncoderState, writes: Seq<nat>)
    ensures
        encoder.remaining().len() > 0 && writes.len() > 0 && writes[0] == 0 ==> flush_end(
            encoder,
            writes,
        ) == FlushEnd::Failed(FrameError::WriteZero),
        flush_end(encoder, writes) is Failed ==> writes.contains(0),
    decreases writes.len(),
{
    if writes.len() > 0 {
        if writes[0] == 0 {
            assert(writes.contains(0));
        } else {
            let rest = writes.skip(1);
            law_flush_fails_on_empty_writes(encoder.advanced(writes[0]), rest);
            if rest.contains(0) {
                let i = choose|i: int| 0 <= i < rest.len() && rest[i] == 0;
                assert(writes[i + 1] == 0);
            }
        }
    }
}

} // verus!
