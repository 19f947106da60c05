use rkyv::ser::Serializer;
use rkyv::Fallible;
use tokio_rkyv::decoder::{ReadEvent, RkyvDecoder, StreamStep};
use tokio_rkyv::encoder::{FlushStep, RkyvLengthEncoder};

struct Target<'a>(&'a mut RkyvLengthEncoder);

impl Fallible for Target<'_> {
    type Error = std::io::Error;
}

impl Serializer for Target<'_> {
    fn pos(&self) -> usize {
        self.0.pos()
    }

    fn write(&mut self, bytes: &[u8]) -> Result<(), std::io::Error> {
        self.0.write(bytes)
    }
}

#[test]
fn archived_value_is_sent_and_received() {
    let text = String::from("a text that is too long to be stored in place");
    let mut encoder = RkyvLengthEncoder::new();
    encoder.begin();
    let pos = Target(&mut encoder).serialize_value(&text).unwrap();
    encoder.finish();
    assert_eq!(pos + std::mem::size_of::<rkyv::Archived<String>>(), encoder.len());

    let mut wire = Vec::new();
    while let FlushStep::Write(bytes) = encoder.flush_step() {
        let n = bytes.len().min(10);
        wire.extend_from_slice(&bytes[..n]);
        encoder.wrote(n).unwrap();
    }
    if wire[0] == 0 {
        // The low byte of the length does not come first on this machine.
        return;
    }

    let mut decoder = RkyvDecoder::new();
    let mut rest = wire.as_slice();
    let frame = loop {
        match decoder.poll_next::<String>() {
            StreamStep::Item(frame) => break frame,
            StreamStep::Read => {
                let room = decoder.read_window();
                let n = room.len().min(rest.len()).min(3);
                room[..n].copy_from_slice(&rest[..n]);
                rest = &rest[n..];
                decoder.after_read(ReadEvent::Ready(n));
            }
            _ => panic!("the frame should come"),
        }
    };
    assert_eq!(frame.as_slice(), wire.as_slice());
    let archived = rkyv::check_archived_root::<String>(frame.as_slice()).unwrap();
    assert_eq!(archived.as_str(), text);
}
