use bytes::BytesMut;
use rkyv::AlignedVec;
use tokio_rkyv::decoder::RkyvVec;
use tokio_rkyv::error::{ErrorKind, FrameError};
use tokio_rkyv::transport::{
    CheckedDeserFramed, CheckedZeroCopyFramed, DeserFramed, Framed, Polled, RkyvBytes, StreamError,
    ZeroCopyFramed,
};
use tokio_rkyv::unpacker::{
    Checked, CheckedDeserUnpacker, CheckedZeroCopyUnpacker, DeserUnpacker, Unpacker,
    ZeroCopyUnpacker,
};

fn packet(bytes: &[u8]) -> BytesMut {
    BytesMut::from(bytes)
}

fn is_valid(bytes: &[u8]) -> bool {
    rkyv::check_archived_root::<u32>(bytes).is_ok()
}

fn first_byte(bytes: &[u8]) -> u8 {
    bytes[0]
}

#[test]
fn frames_keep_their_bytes() {
    let mut aligned = AlignedVec::new();
    aligned.extend_from_slice(&[1, 2, 3]);
    assert_eq!(RkyvVec::<()>::new(aligned).as_slice(), &[1, 2, 3]);
    assert_eq!(RkyvBytes::<()>::new(packet(&[4, 5])).as_slice(), &[4, 5]);
}

#[test]
fn zero_copy_unpacker_yields_the_bytes() {
    let item = ZeroCopyUnpacker::<u32>::unpack(packet(&[1, 2])).unwrap();
    assert_eq!(item.as_slice(), &[1, 2]);
}

#[test]
fn deser_unpacker_yields_the_value() {
    let value = DeserUnpacker::<u8>::prepare(packet(&[9, 8]), first_byte);
    assert_eq!(DeserUnpacker::<u8>::unpack(value), Ok(9));
}

#[test]
fn checked_zero_copy_unpacker_follows_the_verdict() {
    let good = CheckedZeroCopyUnpacker::<u32>::prepare(packet(&[1, 0, 0, 0]), is_valid);
    assert!(good.valid);
    let item = CheckedZeroCopyUnpacker::<u32>::unpack(good).unwrap();
    assert_eq!(item.as_slice(), &[1, 0, 0, 0]);
    let bad = CheckedZeroCopyUnpacker::<u32>::prepare(packet(&[1, 0]), is_valid);
    assert!(!bad.valid);
    assert_eq!(bad.bytes, packet(&[1, 0]));
    let error = match CheckedZeroCopyUnpacker::<u32>::unpack(bad) {
        Ok(_) => panic!("the archive is not valid"),
        Err(error) => error,
    };
    assert_eq!(error, FrameError::InvalidArchive);
    assert_eq!(error.kind(), ErrorKind::InvalidData);
    assert_eq!(error.message(), "Invalid rkyv archive");
}

#[test]
fn checked_deser_unpacker_deserializes_valid_bytes_only() {
    let good = CheckedDeserUnpacker::<u8>::prepare(packet(&[6, 0, 0, 0]), is_valid, first_byte);
    assert_eq!(CheckedDeserUnpacker::<u8>::unpack(good), Ok(6));
    let bad = CheckedDeserUnpacker::<u8>::prepare(packet(&[]), is_valid, first_byte);
    assert_eq!(CheckedDeserUnpacker::<u8>::unpack(bad), Err(FrameError::InvalidArchive));
}

#[test]
fn framed_gives_its_transport_back() {
    let mut framed: ZeroCopyFramed<Vec<u8>, u32, 1024> = Framed::new(vec![1]);
    assert_eq!(framed.get_ref(), &vec![1]);
    framed.get_mut().push(2);
    assert_eq!(framed.into_inner(), vec![1, 2]);
    let sized: ZeroCopyFramed<u8, u32, 16> = Framed::new_with_size(7);
    assert_eq!(sized.into_inner(), 7);
    let unsized_scratch: ZeroCopyFramed<u8, u32, 0> = Framed::new_with_size(8);
    assert_eq!(unsized_scratch.get_ref(), &8);
    let one: ZeroCopyFramed<u8, u32, 1024> = Framed::new(9);
    let other: ZeroCopyFramed<u8, u32, 1024> = Framed::new_with_size(9);
    assert_eq!(one.into_inner(), other.into_inner());
}

#[test]
fn start_send_keeps_the_bytes() {
    let bytes = ZeroCopyFramed::<(), u32, 16>::start_send(vec![3, 2, 1]);
    assert_eq!(&bytes[..], &[3, 2, 1]);
    let mut spare = Vec::with_capacity(100);
    spare.push(4);
    assert_eq!(&ZeroCopyFramed::<(), u32, 16>::start_send(spare)[..], &[4]);
}

#[test]
fn stream_passes_on_what_the_transport_says() {
    type Values = DeserFramed<(), u8, 16>;
    assert!(matches!(Values::poll_next::<i32>(Polled::Pending), Polled::Pending));
    assert!(matches!(Values::poll_next::<i32>(Polled::Ready(None)), Polled::Ready(None)));
    assert!(matches!(
        Values::poll_next::<i32>(Polled::Ready(Some(Err(5)))),
        Polled::Ready(Some(Err(StreamError::Transport(5))))
    ));
    assert!(matches!(
        Values::poll_next::<i32>(Polled::Ready(Some(Ok(8)))),
        Polled::Ready(Some(Ok(8)))
    ));
}

#[test]
fn stream_reports_invalid_archives() {
    let checked = Checked { bytes: packet(&[1]), valid: false };
    assert!(matches!(
        CheckedZeroCopyFramed::<(), u32, 16>::poll_next::<i32>(Polled::Ready(Some(Ok(checked)))),
        Polled::Ready(Some(Err(StreamError::Frame(FrameError::InvalidArchive))))
    ));
    assert!(matches!(
        CheckedDeserFramed::<(), u8, 16>::poll_next::<i32>(Polled::Ready(Some(Ok(None)))),
        Polled::Ready(Some(Err(StreamError::Frame(FrameError::InvalidArchive))))
    ));
}
