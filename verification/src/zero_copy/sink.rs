//! A transport of bytes to which frames of any type of value are written.

use crate::encoder::{EncoderState, RkyvLengthEncoder};
use vstd::prelude::*;

verus! {

/// A transport that is written, with the encoder of the frame that is under way.
#[derive(Debug)]
pub struct RkyvSink<T> {
    /// The transport.
    pub inner: T,
    /// The encoder of the frame that is under way.
    pub state: RkyvLengthEncoder,
}

impl<T> RkyvSink<T> {
    /// A sink that has been given nothing.
    pub fn new(inner: T) -> (sink: Self)
        ensures
            sink.inner == inner,
            sink.state@ == EncoderState::fresh(),
    {
        Self { inner, state: RkyvLengthEncoder::new() }
    }
}

} // verus!
