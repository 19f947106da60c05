use std::borrow::{Borrow, BorrowMut};
use tokio_rkyv::decoder::{ReadEvent, ReadStep, RkyvDecoder, StreamStep};
use tokio_rkyv::encoder::RkyvLengthEncoder;
use tokio_rkyv::error::{ErrorKind, FrameError, RkyvDecodeLengthError};
use tokio_rkyv::frame::{RWFrames, RkyvSink, RkyvStream, RkyvTransport};

fn frame_of(payload: &[u8]) -> Vec<u8> {
    let mut frame = ((16 + payload.len()) as u64).to_le_bytes().to_vec();
    frame.extend_from_slice(&[0; 8]);
    frame.extend_from_slice(payload);
    frame
}

fn must_read(decoder: &mut RkyvDecoder) {
    match decoder.poll_next::<()>() {
        StreamStep::Read => {}
        _ => panic!("the stream should read"),
    }
}

fn must_yield(decoder: &mut RkyvDecoder) -> Vec<u8> {
    match decoder.poll_next::<()>() {
        StreamStep::Item(frame) => frame.as_slice().to_vec(),
        _ => panic!("the stream should yield a frame"),
    }
}

fn must_fail(decoder: &mut RkyvDecoder) -> RkyvDecodeLengthError {
    match decoder.poll_next::<()>() {
        StreamStep::Failed(error) => error,
        _ => panic!("the stream should fail"),
    }
}

fn must_end(decoder: &mut RkyvDecoder) {
    match decoder.poll_next::<()>() {
        StreamStep::Ended => {}
        _ => panic!("the stream should be over"),
    }
}

fn feed(decoder: &mut RkyvDecoder, bytes: &[u8]) -> ReadStep {
    must_read(decoder);
    decoder.read_window()[..bytes.len()].copy_from_slice(bytes);
    decoder.after_read(ReadEvent::Ready(bytes.len()))
}

#[test]
fn frame_in_one_read() {
    let mut decoder = RkyvDecoder::new();
    let frame = frame_of(&[1, 2, 3]);
    assert_eq!(feed(&mut decoder, &frame), ReadStep::Again);
    assert_eq!(must_yield(&mut decoder), frame);
    must_read(&mut decoder);
}

#[test]
fn frames_in_single_bytes_with_waiting() {
    let mut decoder = RkyvDecoder::new();
    for payload in [vec![], vec![7; 40], vec![8]] {
        let frame = frame_of(&payload);
        for byte in &frame {
            must_read(&mut decoder);
            assert!(!decoder.read_window().is_empty());
            assert_eq!(decoder.after_read(ReadEvent::Pending), ReadStep::Pending);
            assert_eq!(feed(&mut decoder, &[*byte]), ReadStep::Again);
        }
        assert_eq!(must_yield(&mut decoder), frame);
    }
}

#[test]
fn long_frame_is_read_into_a_window_of_its_length() {
    let mut decoder = RkyvDecoder::new();
    let frame = frame_of(&[5; 5000]);
    must_read(&mut decoder);
    assert_eq!(decoder.window_end(), Some(1024));
    decoder.read_window().copy_from_slice(&frame[..1024]);
    assert_eq!(decoder.after_read(ReadEvent::Ready(1024)), ReadStep::Again);
    must_read(&mut decoder);
    assert_eq!(decoder.window_end(), Some(5017));
    assert_eq!(decoder.read_window().len(), 5017 - 1024);
    decoder.after_read(ReadEvent::Pending);
    assert_eq!(feed(&mut decoder, &frame[1024..]), ReadStep::Again);
    assert_eq!(must_yield(&mut decoder), frame);
}

#[test]
fn lacking_bytes_are_counted() {
    let mut decoder = RkyvDecoder::new();
    assert_eq!(decoder.decodeable(), Ok(16));
    let frame = frame_of(&[1, 2, 3]);
    feed(&mut decoder, &frame[..10]);
    assert_eq!(decoder.decodeable(), Ok(6));
    feed(&mut decoder, &frame[10..16]);
    assert_eq!(decoder.decodeable(), Ok(3));
    feed(&mut decoder, &frame[16..]);
    assert_eq!(decoder.decodeable(), Ok(0));
}

#[test]
fn encoded_frames_are_decoded() {
    let mut encoder = RkyvLengthEncoder::new();
    let mut decoder = RkyvDecoder::new();
    encoder.encode(b"archive").unwrap();
    if encoder.data()[0] == 23 {
        feed(&mut decoder, encoder.data());
        assert_eq!(must_yield(&mut decoder)[16..], *b"archive");
    }
}

#[test]
fn bytes_behind_the_frame_are_an_error_that_ends_the_stream_once() {
    let mut decoder = RkyvDecoder::new();
    let mut bytes = frame_of(&[1]);
    bytes.extend_from_slice(&frame_of(&[2]));
    feed(&mut decoder, &bytes);
    let error = must_fail(&mut decoder);
    assert_eq!(error.message(), "frame size too big");
    assert_eq!(format!("{:?}", error), "RkyvDecodeLengthError");
    must_end(&mut decoder);
    assert_eq!(decoder.decodeable(), Err(error));
    assert_eq!(must_fail(&mut decoder), error);
    let reported = FrameError::Length(error);
    assert_eq!(reported.kind(), ErrorKind::InvalidInput);
    assert_eq!(reported.message(), "frame size too big");
}

#[test]
fn length_shorter_than_the_header_is_an_error() {
    let mut decoder = RkyvDecoder::new();
    let mut bytes = 15u64.to_le_bytes().to_vec();
    bytes.extend_from_slice(&[0; 8]);
    feed(&mut decoder, &bytes);
    must_fail(&mut decoder);
    must_end(&mut decoder);
}

#[test]
fn length_beyond_every_buffer_has_no_window() {
    let mut decoder = RkyvDecoder::new();
    let mut bytes = u64::MAX.to_le_bytes().to_vec();
    bytes.extend_from_slice(&[0; 8]);
    feed(&mut decoder, &bytes);
    must_read(&mut decoder);
    assert_eq!(decoder.window_end(), None);
}

#[test]
fn end_between_frames_ends_the_stream() {
    let mut decoder = RkyvDecoder::new();
    assert_eq!(feed(&mut decoder, &[]), ReadStep::Again);
    assert_eq!(feed(&mut decoder, &[]), ReadStep::Ended);
    assert_eq!(feed(&mut decoder, &[]), ReadStep::Ended);
    let frame = frame_of(&[4]);
    assert_eq!(feed(&mut decoder, &frame), ReadStep::Again);
    assert_eq!(must_yield(&mut decoder), frame);
    assert_eq!(feed(&mut decoder, &[]), ReadStep::Again);
}

#[test]
fn end_inside_a_frame_ends_the_stream() {
    for held in [5, 16, 17] {
        let mut decoder = RkyvDecoder::new();
        let frame = frame_of(&[4, 5]);
        feed(&mut decoder, &frame[..held]);
        assert_eq!(feed(&mut decoder, &[]), ReadStep::Again);
        assert_eq!(feed(&mut decoder, &[]), ReadStep::Ended);
        assert_eq!(feed(&mut decoder, &[]), ReadStep::Ended);
        assert_eq!(feed(&mut decoder, &frame[held..]), ReadStep::Again);
        assert_eq!(must_yield(&mut decoder), frame);
    }
}

#[test]
fn single_empty_reads_do_not_end_the_stream() {
    let mut decoder = RkyvDecoder::new();
    let frame = frame_of(&[4]);
    for byte in &frame {
        assert_eq!(feed(&mut decoder, &[]), ReadStep::Again);
        assert_eq!(feed(&mut decoder, &[*byte]), ReadStep::Again);
    }
    assert_eq!(must_yield(&mut decoder), frame);
}

#[test]
fn failed_read_ends_the_stream_once() {
    let mut decoder = RkyvDecoder::new();
    let frame = frame_of(&[4, 5]);
    feed(&mut decoder, &frame[..17]);
    must_read(&mut decoder);
    decoder.read_window();
    assert_eq!(decoder.after_read(ReadEvent::Failed), ReadStep::Failed);
    must_end(&mut decoder);
    feed(&mut decoder, &frame[17..]);
    assert_eq!(must_yield(&mut decoder), frame);
}

#[test]
fn bytes_that_are_not_reported_do_not_count() {
    let mut decoder = RkyvDecoder::new();
    must_read(&mut decoder);
    for byte in decoder.read_window() {
        *byte = 0xff;
    }
    assert_eq!(decoder.after_read(ReadEvent::Ready(3)), ReadStep::Again);
    assert_eq!(decoder.decodeable(), Ok(13));
}

#[test]
fn room_of_a_pending_or_failed_read_is_dropped() {
    let mut decoder = RkyvDecoder::new();
    let frame = frame_of(&[4, 5]);
    feed(&mut decoder, &frame[..7]);
    must_read(&mut decoder);
    decoder.read_window().fill(0xff);
    assert_eq!(decoder.after_read(ReadEvent::Pending), ReadStep::Pending);
    assert_eq!(decoder.decodeable(), Ok(9));
    must_read(&mut decoder);
    decoder.read_window().fill(0xff);
    assert_eq!(decoder.after_read(ReadEvent::Failed), ReadStep::Failed);
    must_end(&mut decoder);
    assert_eq!(decoder.decodeable(), Ok(9));
    feed(&mut decoder, &frame[7..]);
    assert_eq!(must_yield(&mut decoder), frame);
}

#[test]
fn constructors_start_fresh() {
    let mut stream: RkyvStream<u8, ()> = RkyvStream::new(1);
    assert_eq!(stream.inner, 1);
    must_read(&mut stream.state);
    let sink: RkyvSink<u8, ()> = RkyvSink::new(2);
    assert_eq!(sink.inner, 2);
    assert!(sink.state.is_empty());
    let mut transport: RkyvTransport<u8, ()> = RkyvTransport::new(3);
    assert_eq!(transport.inner, 3);
    assert!(transport.state.encoder().is_empty());
    must_read(transport.state.decoder_mut());
}

#[test]
fn halves_are_borrowed_apart() {
    let transport: RkyvTransport<(), ()> = RkyvTransport::new(());
    let mut state: RWFrames = transport.state;
    let encoder: &mut RkyvLengthEncoder = state.borrow_mut();
    encoder.encode(&[1, 2]).unwrap();
    let encoder: &RkyvLengthEncoder = state.borrow();
    assert_eq!(encoder.len(), 18);
    assert_eq!(state.encoder().len(), 18);
    state.encoder_mut().advance(18);
    assert!(!state.encoder().has_remaining());
    let decoder: &mut RkyvDecoder = state.borrow_mut();
    assert_eq!(decoder.decodeable(), Ok(16));
    let decoder: &RkyvDecoder = state.borrow();
    assert_eq!(decoder.window_end(), Some(1024));
    assert_eq!(state.decoder().window_end(), Some(1024));
}
