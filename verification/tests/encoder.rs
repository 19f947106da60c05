use tokio_rkyv::encoder::{FlushStep, RkyvLengthEncoder, INITIAL_CAPACITY};
use tokio_rkyv::error::{ErrorKind, FrameError};
use tokio_rkyv::zero_copy::sink::RkyvSink;

fn frame_of(payload: &[u8]) -> Vec<u8> {
    let mut frame = ((16 + payload.len()) as u64).to_ne_bytes().to_vec();
    frame.extend_from_slice(&[0; 8]);
    frame.extend_from_slice(payload);
    frame
}

#[test]
fn new_encoder_is_empty() {
    let encoder = RkyvLengthEncoder::new();
    assert_eq!(encoder.len(), 0);
    assert!(encoder.is_empty());
    assert!(!encoder.has_remaining());
    assert!(!encoder.needs_flush());
    assert_eq!(encoder.data().len(), 0);
    assert_eq!(encoder.pos(), 0);
}

#[test]
fn encode_puts_length_and_zeros_before_payload() {
    let mut encoder = RkyvLengthEncoder::new();
    encoder.encode(&[1, 2, 3]).unwrap();
    assert_eq!(encoder.len(), 19);
    assert!(!encoder.is_empty());
    assert!(encoder.has_remaining());
    assert_eq!(encoder.data(), frame_of(&[1, 2, 3]).as_slice());
    assert_eq!(encoder.data()[0..8], 19u64.to_ne_bytes());
    assert_eq!(encoder.data()[8..16], [0; 8]);
}

#[test]
fn encode_of_nothing_is_a_header() {
    let mut encoder = RkyvLengthEncoder::new();
    encoder.encode(&[]).unwrap();
    assert_eq!(encoder.data(), frame_of(&[]).as_slice());
    assert_eq!(encoder.len(), 16);
}

#[test]
fn encode_replaces_the_frame_before() {
    let mut encoder = RkyvLengthEncoder::new();
    encoder.encode(&[9; 300]).unwrap();
    encoder.advance(20);
    encoder.encode(&[7]).unwrap();
    assert_eq!(encoder.data(), frame_of(&[7]).as_slice());
}

#[test]
fn pieces_make_the_same_frame_as_the_whole() {
    let mut pieces = RkyvLengthEncoder::new();
    pieces.begin();
    assert_eq!(pieces.pos(), 16);
    pieces.write(&[1, 2]).unwrap();
    assert_eq!(pieces.pos(), 18);
    pieces.write(&[]).unwrap();
    pieces.write(&[3]).unwrap();
    pieces.finish();
    let mut whole = RkyvLengthEncoder::new();
    whole.encode(&[1, 2, 3]).unwrap();
    assert_eq!(pieces.data(), whole.data());
}

#[test]
fn position_is_the_number_of_bytes_written() {
    let mut encoder = RkyvLengthEncoder::new();
    encoder.write(&[1, 2, 3]).unwrap();
    assert_eq!(encoder.pos(), 3);
    assert_eq!(encoder.data(), &[1, 2, 3]);
}

#[test]
fn advance_hides_written_bytes() {
    let mut encoder = RkyvLengthEncoder::new();
    encoder.encode(&[5, 6]).unwrap();
    encoder.advance(17);
    assert_eq!(encoder.data(), &[6]);
    assert_eq!(encoder.len(), 18);
    encoder.advance(1);
    assert!(!encoder.has_remaining());
    assert_eq!(encoder.data().len(), 0);
}

#[test]
fn flush_is_due_from_the_boundary_on() {
    let mut encoder = RkyvLengthEncoder::new();
    encoder.encode(&vec![0; INITIAL_CAPACITY - 17]).unwrap();
    assert!(!encoder.needs_flush());
    encoder.encode(&vec![0; INITIAL_CAPACITY - 16]).unwrap();
    assert_eq!(encoder.len(), 8192);
    assert!(encoder.needs_flush());
}

#[test]
fn bytes_that_are_left_are_offered_once() {
    let mut encoder = RkyvLengthEncoder::new();
    assert_eq!(encoder.offer(), None);
    encoder.encode(&[1]).unwrap();
    assert_eq!(encoder.offer(), Some(frame_of(&[1]).as_slice()));
    encoder.advance(16);
    assert_eq!(encoder.offer(), Some([1].as_slice()));
    encoder.advance(1);
    assert_eq!(encoder.offer(), None);
}

#[test]
fn flush_without_frame_flushes_the_transport() {
    let encoder = RkyvLengthEncoder::new();
    assert_eq!(encoder.flush_step(), FlushStep::Transport);
}

#[test]
fn flush_sends_the_frame_and_then_flushes_the_transport() {
    let mut encoder = RkyvLengthEncoder::new();
    encoder.encode(&[1, 2, 3, 4]).unwrap();
    let mut sent = Vec::new();
    while let FlushStep::Write(bytes) = encoder.flush_step() {
        let n = bytes.len().min(7);
        sent.extend_from_slice(&bytes[..n]);
        assert_eq!(encoder.wrote(n), Ok(()));
    }
    assert_eq!(sent, frame_of(&[1, 2, 3, 4]));
    assert_eq!(encoder.flush_step(), FlushStep::Transport);
}

#[test]
fn flush_in_one_write_sends_one_frame() {
    let mut encoder = RkyvLengthEncoder::new();
    for payload in [vec![1], vec![2; 9000]] {
        encoder.encode(&payload).unwrap();
        let frame = frame_of(&payload);
        assert_eq!(encoder.flush_step(), FlushStep::Write(&frame));
        assert_eq!(encoder.wrote(frame.len()), Ok(()));
        assert!(!encoder.has_remaining());
        assert_eq!(encoder.len(), frame.len());
        assert_eq!(encoder.flush_step(), FlushStep::Transport);
    }
}

#[test]
fn flush_fails_when_the_transport_takes_nothing() {
    let mut encoder = RkyvLengthEncoder::new();
    encoder.encode(&[1]).unwrap();
    assert_eq!(encoder.flush_step(), FlushStep::Write(&frame_of(&[1])));
    assert_eq!(encoder.wrote(0), Err(FrameError::WriteZero));
    assert_eq!(encoder.data(), frame_of(&[1]).as_slice());
}

#[test]
fn write_zero_error_is_reported() {
    assert_eq!(FrameError::WriteZero.kind(), ErrorKind::WriteZero);
    assert_eq!(FrameError::WriteZero.message(), "failed to write frame to transport");
}

#[test]
fn sink_starts_empty() {
    let sink = RkyvSink::new(3);
    assert_eq!(sink.inner, 3);
    assert!(sink.state.is_empty());
}
