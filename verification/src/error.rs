//! The failure taxonomy shared by every operation of the crate.

use vstd::prelude::*;

verus! {

/// The class of a failure, without its diagnostic text.
#[derive(Clone, Copy, Debug, PartialEq, Eq, Structural)]
pub enum ErrorKind {
    /// The input carries no known container signature.
    UnrecognizedFormat,
    /// A codec rejected the encoded payload.
    Decode,
    /// The geometry of a transform is degenerate.
    Transform,
    /// A codec failed to produce output.
    Encode,
    /// Reading or writing at the boundary failed.
    Io,
}

/// A failure together with a human-readable diagnostic.
#[derive(Debug, PartialEq, Eq)]
pub enum Error {
    /// The input carries no known container signature.
    UnrecognizedFormat(String),
    /// A codec rejected the encoded payload: truncated, corrupt, or not of
    /// the announced container.
    Decode(String),
    /// The geometry of a transform is degenerate, such as a buffer without
    /// area.
    Transform(String),
    /// A codec failed to produce output.
    Encode(String),
    /// Reading or writing at the boundary failed. No operation of this crate
    /// produces it; callers that do I/O report through it.
    Io(String),
}

impl Error {
    /// The class of this failure.
    pub open spec fn spec_kind(self) -> ErrorKind {
        match self {
            Error::UnrecognizedFormat(_) => ErrorKind::UnrecognizedFormat,
            Error::Decode(_) => ErrorKind::Decode,
            Error::Transform(_) => ErrorKind::Transform,
            Error::Encode(_) => ErrorKind::Encode,
            Error::Io(_) => ErrorKind::Io,
        }
    }

    /// The diagnostic text of this failure.
    pub open spec fn spec_message(self) -> Seq<char> {
        match self {
            Error::UnrecognizedFormat(m) => m@,
            Error::Decode(m) => m@,
            Error::Transform(m) => m@,
            Error::Encode(m) => m@,
            Error::Io(m) => m@,
        }
    }

    /// The class of this failure.
    pub fn kind(&self) -> (kind: ErrorKind)
        ensures
            kind == self.spec_kind(),
    {
        match self {
            Error::UnrecognizedFormat(_) => ErrorKind::UnrecognizedFormat,
            Error::Decode(_) => ErrorKind::Decode,
            Error::Transform(_) => ErrorKind::Transform,
            Error::Encode(_) => ErrorKind::Encode,
            Error::Io(_) => ErrorKind::Io,
        }
    }

    /// The diagnostic text of this failure.
    pub fn message(&self) -> (text: &str)
        ensures
            text@ == self.spec_message(),
    {
        match self {
            Error::UnrecognizedFormat(m) => m.as_str(),
            Error::Decode(m) => m.as_str(),
            Error::Transform(m) => m.as_str(),
            Error::Encode(m) => m.as_str(),
            Error::Io(m) => m.as_str(),
        }
    }
}

/// Whether an outcome is a failure of the given class.
pub open spec fn fails_with<T>(outcome: Result<T, Error>, kind: ErrorKind) -> bool {
    match outcome {
        Ok(_) => false,
        Err(e) => e.spec_kind() == kind,
    }
}

} // verus!
