//! Length-delimited framing of rkyv archives.

pub mod aligned;
pub mod decoder;
pub mod encoder;
pub mod error;
pub mod frame;
pub mod item_laws;
pub mod laws;
pub mod packet;
pub mod step_laws;
pub mod transport;
pub mod unpacker;
pub mod wire;
pub mod zero_copy;

pub use decoder::RkyvVec;
pub use frame::{RkyvSink, RkyvStream, RkyvTransport};
