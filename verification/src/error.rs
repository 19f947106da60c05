//! The errors of the framing layer. Each has the kind and the message under which
//! it is reported as an I/O error.

use vstd::prelude::*;

verus! {

/// The kinds of I/O error that the framing layer reports.
#[derive(Debug, Clone, Copy, PartialEq, Eq, Structural)]
pub enum ErrorKind {
    InvalidInput,
    InvalidData,
    WriteZero,
}

/// An error when the number of bytes read is more than the length of the frame.
#[derive(Debug, Clone, Copy, PartialEq, Eq)]
#[non_exhaustive]
pub struct RkyvDecodeLengthError;

impl RkyvDecodeLengthError {
    /// The text under which the error is displayed.
    pub fn message(&self) -> (text: &'static str)
        ensures
            text@ == "frame size too big"@,
    {
        "frame size too big"
    }
}

/// What can go wrong while frames are encoded, decoded or unpacked.
#[derive(Debug, Clone, Copy, PartialEq, Eq)]
pub enum FrameError {
    /// More bytes were read than the header of the frame announces.
    Length(RkyvDecodeLengthError),
    /// The transport took none of the bytes of a frame.
    WriteZero,
    /// The bytes of a frame are no valid archive.
    InvalidArchive,
}

impl FrameError {
    /// The kind of I/O error that the error is reported as.
    pub open spec fn spec_kind(self) -> ErrorKind {
        match self {
            FrameError::Length(_) => ErrorKind::InvalidInput,
            FrameError::WriteZero => ErrorKind::WriteZero,
            FrameError::InvalidArchive => ErrorKind::InvalidData,
        }
    }

    /// The text that the error is reported with.
    pub open spec fn spec_message(self) -> Seq<char> {
        match self {
            FrameError::Length(_) => "frame size too big"@,
            FrameError::WriteZero => "failed to write frame to transport"@,
            FrameError::InvalidArchive => "Invalid rkyv archive"@,
        }
    }

    /// The kind of I/O error that the error is reported as.
    pub fn kind(&self) -> (kind: ErrorKind)
        ensures
            kind == self.spec_kind(),
            kind is InvalidInput <==> *self is Length,
            kind is InvalidData <==> *self is InvalidArchive,
            kind is WriteZero <==> *self is WriteZero,
    {
        match self {
            FrameError::Length(_) => ErrorKind::InvalidInput,
            FrameError::WriteZero => ErrorKind::WriteZero,
            FrameError::InvalidArchive => ErrorKind::InvalidData,
        }
    }

    /// The text that the error is reported with.
    pub fn message(&self) -> (text: &'static str)
        ensures
            text@ == self.spec_message(),
            *self is Length ==> text@ == "frame size too big"@,
            *self is WriteZero ==> text@ == "failed to write frame to transport"@,
            *self is InvalidArchive ==> text@ == "Invalid rkyv archive"@,
    {
        match self {
            FrameError::Length(error) => error.message(),
            FrameError::WriteZero => "failed to write frame to transport",
            FrameError::InvalidArchive => "Invalid rkyv archive",
        }
    }
}

} // verus!
