//! Adapters that leave the values of received frames in the bytes of the frames.

pub mod sink;

pub use crate::decoder::RkyvVec;
pub use crate::frame::RkyvStream;
pub use crate::transport::{Framed, SymmetricallyFramed};
pub use sink::RkyvSink;
