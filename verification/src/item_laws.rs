//! What holds of the items that a stream of values yields, for every type of value, of
//! transport error and of unpacker.

use crate::error::{ErrorKind, FrameError};
use crate::packet::bytes_mut_contents;
use crate::transport::{law_frame_keeps_its_bytes, next_item, Polled, StreamError};
use crate::unpacker::{
    accepts, returns_for, Checked, CheckedDeserUnpacker, CheckedZeroCopyUnpacker, DeserUnpacker,
    Unpacker, ZeroCopyUnpacker,
};
use bytes::BytesMut;
use vstd::prelude::*;

verus! {

/// The unchecked unpackers never fail: they yield the bytes, or the value, that they are
/// given.
pub proof fn law_unchecked_unpackers_never_fail<I>(bytes: BytesMut, value: I)
    ensures
        ZeroCopyUnpacker::<I>::unpacked(bytes) is Ok,
        ZeroCopyUnpacker::<I>::unpacked(bytes)->Ok_0@ == bytes_mut_contents(bytes),
        DeserUnpacker::<I>::unpacked(value) is Ok,
        DeserUnpacker::<I>::unpacked(value)->Ok_0 == value,
{
    law_frame_keeps_its_bytes::<I>(bytes);
}

/// The checked unpacker of bytes yields them exactly if they were found to be a valid
/// archive, and else the error for invalid archives.
pub proof fn law_verdict_decides_on_bytes<I>(checked: Checked)
    ensures
        CheckedZeroCopyUnpacker::<I>::unpacked(checked) is Ok <==> checked.valid,
        checked.valid ==> CheckedZeroCopyUnpacker::<I>::unpacked(checked)->Ok_0@
            == bytes_mut_contents(checked.bytes),
        !checked.valid ==> CheckedZeroCopyUnpacker::<I>::unpacked(checked)->Err_0
            is InvalidArchive,
{
    law_frame_keeps_its_bytes::<I>(checked.bytes);
}

/// The checked unpacker of values yields every value that was deserialized from a valid
/// archive, and the error for invalid archives if there is none.
pub proof fn law_verdict_decides_on_values<I>(value: I)
    ensures
        CheckedDeserUnpacker::<I>::unpacked(Some(value)) is Ok,
        CheckedDeserUnpacker::<I>::unpacked(Some(value))->Ok_0 == value,
        CheckedDeserUnpacker::<I>::unpacked(None) is Err,
        CheckedDeserUnpacker::<I>::unpacked(None)->Err_0 is InvalidArchive,
{
}

/// On valid archives the checked unpackers yield what the unchecked ones do.
pub proof fn law_checks_do_not_change_valid_items<I>(bytes: BytesMut, value: I)
    ensures
        CheckedZeroCopyUnpacker::<I>::unpacked((Checked { bytes, valid: true }))
            == ZeroCopyUnpacker::<I>::unpacked(bytes),
        CheckedDeserUnpacker::<I>::unpacked(Some(value)) == DeserUnpacker::<I>::unpacked(value),
{
}

/// The stream waits exactly if the transport does, and is over exactly if the transport
/// is.
pub proof fn law_stream_follows_its_transport<UP: Unpacker, E>(
    polled: Polled<Option<Result<UP::Input, E>>>,
)
    ensures
        next_item::<UP, E>(polled) is Pending <==> polled is Pending,
        next_item::<UP, E>(polled) == Polled::<Option<Result<UP::Item, StreamError<E>>>>::Ready(
            None,
        ) <==> polled == Polled::<Option<Result<UP::Input, E>>>::Ready(None),
{
}

/// Every buffer that can be unpacked gives its item, and every one that cannot gives the
/// error of the unpacker.
pub proof fn law_every_buffer_gives_its_item<UP: Unpacker, E>(input: UP::Input)
    ensures
        ({
            let polled = Polled::<Option<Result<UP::Input, E>>>::Ready(Some(Ok(input)));
            let next = next_item::<UP, E>(polled);
            &&& next is Ready
            &&& next->Ready_0 is Some
            &&& next->Ready_0->Some_0 is Ok <==> UP::unpacked(input) is Ok
            &&& UP::unpacked(input) is Ok ==> next->Ready_0->Some_0->Ok_0 == UP::unpacked(
                input,
            )->Ok_0
            &&& UP::unpacked(input) is Err ==> next->Ready_0->Some_0->Err_0
                == StreamError::<E>::Frame(UP::unpacked(input)->Err_0)
        }),
{
}

/// Every error of the transport comes out of the stream as it is.
pub proof fn law_transport_errors_come_through<UP: Unpacker, E>(error: E)
    ensures
        ({
            let polled = Polled::<Option<Result<UP::Input, E>>>::Ready(Some(Err(error)));
            let next = next_item::<UP, E>(polled);
            &&& next is Ready
            &&& next->Ready_0 is Some
            &&& next->Ready_0->Some_0 is Err
            &&& next->Ready_0->Some_0->Err_0 == StreamError::<E>::Transport(error)
        }),
{
}

/// The item of a buffer does not depend on what the errors of the transport are.
pub proof fn law_items_do_not_depend_on_errors<UP: Unpacker, E, F>(input: UP::Input)
    requires
        UP::unpacked(input) is Ok,
    ensures
        ({
            let one = next_item::<UP, E>(
                Polled::<Option<Result<UP::Input, E>>>::Ready(Some(Ok(input))),
            );
            let other = next_item::<UP, F>(
                Polled::<Option<Result<UP::Input, F>>>::Ready(Some(Ok(input))),
            );
            &&& one->Ready_0->Some_0 is Ok && other->Ready_0->Some_0 is Ok
            &&& one->Ready_0->Some_0->Ok_0 == other->Ready_0->Some_0->Ok_0
        }),
{
}

/// Where validation, or deserialization, gives the one result `expected` for the bytes of
/// a frame, that is the result for the frame.
pub proof fn law_outcome_is_that_of_the_bytes<V, F: Fn(&[u8]) -> V>(
    f: F,
    bytes: BytesMut,
    value: V,
    expected: V,
)
    requires
        returns_for(f, bytes, value),
        forall|slice: &[u8], v: V| #[trigger]
            call_ensures(f, (slice,), v) && slice@ == bytes_mut_contents(bytes) ==> v == expected,
    ensures
        value == expected,
{
}

/// A function that may be called with any bytes is accepted for every frame.
pub proof fn law_total_functions_are_accepted<V, F: Fn(&[u8]) -> V>(f: F, bytes: BytesMut)
    requires
        forall|slice: &[u8]| #[trigger] call_requires(f, (slice,)),
    ensures
        accepts(f, bytes),
{
}

/// Each error has a kind of its own, and the text that says what went wrong.
pub proof fn law_errors_are_told_apart(error: FrameError)
    ensures
        error.spec_kind() == ErrorKind::InvalidInput <==> error is Length,
        error.spec_kind() == ErrorKind::WriteZero <==> error is WriteZero,
        error.spec_kind() == ErrorKind::InvalidData <==> error is InvalidArchive,
        error is Length ==> error.spec_message() == "frame size too big"@,
        error is WriteZero ==> error.spec_message() == "failed to write frame to transport"@,
        error is InvalidArchive ==> error.spec_message() == "Invalid rkyv archive"@,
{
}

} // verus!
