# tokio-rkyv

Framing of rkyv archives on asynchronous transports.

A frame is a header of 16 bytes and a payload. The first 8 bytes of the header hold
the length of the whole frame; the other 8 are zero.

Frames are received in the `AlignedVec` of rkyv, whose documentation promises memory
that is aligned to 16 bytes. The header has that width, so the payload of a received
frame is aligned too, and its archive can be read in place. This rests on rkyv: the
library does not model addresses, and nothing is proved of the alignment.

- `src/` is the library, verified with Verus.
  - `wire`: the layout of a frame.
  - `encoder`: makes frames, and decides how a flush goes on.
  - `decoder`: gathers the bytes of a frame, and decides how a stream goes on.
  - `frame`, `zero_copy`: a transport together with an encoder, a decoder or both.
  - `transport`, `unpacker`: transports of buffers that are framed already.
  - `laws`: what holds of these parts taken together.
  - `aligned`, `packet`: the contracts of the buffers of rkyv and bytes.
  - `error`: the errors.
- `app/` implements `Stream` and `Sink` with the library: it polls the transport, and
  serializes, validates and reads archives through the traits of rkyv.
- `tests/` are the tests of the library.
