//! Container formats and their byte signatures.
//!
//! A format is recognised by the magic bytes at the start of the input,
//! never by a file name.

use vstd::prelude::*;
use crate::codec::guess_container;
use crate::error::{Error, ErrorKind, fails_with};

verus! {

/// The container formats this crate distinguishes.
#[derive(Clone, Copy, Debug, PartialEq, Eq, Structural)]
pub enum ContainerFormat {
    Jpeg,
    Png,
    WebP,
    /// No supported container. Never the outcome of a successful detection.
    Unknown,
}

/// The number of leading bytes a detection needs at least.
pub const MIN_PREFIX_LEN: usize = 10;

/// The input starts with the JPEG start-of-image marker and the lead byte
/// of the next marker.
pub open spec fn has_jpeg_signature(bytes: Seq<u8>) -> bool {
    &&& bytes.len() >= 3
    &&& bytes[0] == 0xFF
    &&& bytes[1] == 0xD8
    &&& bytes[2] == 0xFF
}

/// The input starts with the eight-byte PNG signature.
pub open spec fn has_png_signature(bytes: Seq<u8>) -> bool {
    &&& bytes.len() >= 8
    &&& bytes[0] == 0x89
    &&& bytes[1] == 0x50
    &&& bytes[2] == 0x4E
    &&& bytes[3] == 0x47
    &&& bytes[4] == 0x0D
    &&& bytes[5] == 0x0A
    &&& bytes[6] == 0x1A
    &&& bytes[7] == 0x0A
}

/// The input starts with a RIFF header whose form type is `WEBP`. The four
/// bytes of the chunk size in between are free.
pub open spec fn has_webp_signature(bytes: Seq<u8>) -> bool {
    &&& bytes.len() >= 12
    &&& bytes[0] == 0x52
    &&& bytes[1] == 0x49
    &&& bytes[2] == 0x46
    &&& bytes[3] == 0x46
    &&& bytes[8] == 0x57
    &&& bytes[9] == 0x45
    &&& bytes[10] == 0x42
    &&& bytes[11] == 0x50
}

/// The container whose signature the input starts with.
pub open spec fn signature_format(bytes: Seq<u8>) -> ContainerFormat {
    if has_png_signature(bytes) {
        ContainerFormat::Png
    } else if has_jpeg_signature(bytes) {
        ContainerFormat::Jpeg
    } else if has_webp_signature(bytes) {
        ContainerFormat::WebP
    } else {
        ContainerFormat::Unknown
    }
}

/// What a detection yields: the container of a long enough prefix with a
/// known signature, and nothing otherwise.
pub open spec fn detected_format(prefix: Seq<u8>) -> Option<ContainerFormat> {
    if prefix.len() < MIN_PREFIX_LEN || signature_format(prefix) == ContainerFormat::Unknown {
        None
    } else {
        Some(signature_format(prefix))
    }
}

/// Identifies the container format from the leading bytes of an input.
///
/// Fails with `UnrecognizedFormat` when fewer than [`MIN_PREFIX_LEN`] bytes
/// are given or when no known signature matches. The bytes are only read.
pub fn detect_format(prefix: &[u8]) -> (outcome: Result<ContainerFormat, Error>)
    ensures
        match detected_format(prefix@) {
            Some(format) => outcome == Ok::<ContainerFormat, Error>(format),
            None => fails_with(outcome, ErrorKind::UnrecognizedFormat),
        },
        outcome is Ok ==> outcome.unwrap() != ContainerFormat::Unknown,
{
    if prefix.len() < MIN_PREFIX_LEN {
        return Err(Error::UnrecognizedFormat("input is shorter than a format signature".to_owned()));
    }
    match guess_container(prefix) {
        ContainerFormat::Unknown => Err(
            Error::UnrecognizedFormat("no known format signature".to_owned()),
        ),
        format => Ok(format),
    }
}

} // verus!
