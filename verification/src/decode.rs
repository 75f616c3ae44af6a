//! Decoding of encoded bytes into pixel buffers.

use vstd::prelude::*;
use crate::buffer::{ColorModel, PixelBuffer, Raster};
use crate::codec::{decode_samples, decoded_parts};
use crate::error::{Error, ErrorKind, fails_with};
use crate::format::ContainerFormat;

verus! {

/// Width, height and samples, as a decoder hands them over.
pub type RawImage = (u32, u32, Vec<u8>);

/// The parts hold exactly the samples of an image of their dimensions in
/// the given colour model.
pub open spec fn is_consistent(raw: RawImage, model: ColorModel) -> bool {
    raw.2@.len() == raw.0 * raw.1 * model.spec_channels()
}

/// The raster that consistent parts make up.
pub open spec fn raster_of(raw: RawImage, model: ColorModel) -> Raster {
    Raster { width: raw.0 as nat, height: raw.1 as nat, model, samples: raw.2@ }
}

/// Turns what a decoder returned into the outcome of a decode.
///
/// Consistent parts become a buffer. A decoder's message becomes a `Decode`
/// failure that carries it, and so do parts that do not fit together.
pub fn decoded(raw: Result<RawImage, String>, model: ColorModel) -> (outcome: Result<PixelBuffer, Error>)
    ensures
        match raw {
            Ok(parts) => if is_consistent(parts, model) {
                outcome is Ok && outcome.unwrap()@ == raster_of(parts, model)
            } else {
                fails_with(outcome, ErrorKind::Decode)
            },
            Err(message) => fails_with(outcome, ErrorKind::Decode) && outcome.unwrap_err().spec_message()
                == message@,
        },
        outcome is Ok ==> outcome.unwrap()@.wf(),
{
    match raw {
        Ok((width, height, samples)) => {
            match PixelBuffer::from_raw(width, height, model, samples) {
                Some(buffer) => Ok(buffer),
                None => Err(Error::Decode("decoder returned an inconsistent buffer".to_owned())),
            }
        },
        Err(message) => Err(Error::Decode(message)),
    }
}

/// What a decode yields: the raster that the decoder's parts make up, or
/// the kind of the failure. An `Unknown` container is not recognised; a
/// decoder's error and parts that do not fit together fail to decode.
pub open spec fn decode_outcome(bytes: Seq<u8>, format: ContainerFormat, model: ColorModel) -> Result<
    Raster,
    ErrorKind,
> {
    if format == ContainerFormat::Unknown {
        Err(ErrorKind::UnrecognizedFormat)
    } else {
        match decoded_parts(bytes, format, model) {
            Ok(parts) => if parts.2.len() == parts.0 * parts.1 * model.spec_channels() {
                Ok(Raster { width: parts.0 as nat, height: parts.1 as nat, model, samples: parts.2 })
            } else {
                Err(ErrorKind::Decode)
            },
            Err(_) => Err(ErrorKind::Decode),
        }
    }
}

/// Every raster that a decode yields is well formed and of the colour
/// model asked for.
pub proof fn lemma_decode_outcome_wf(bytes: Seq<u8>, format: ContainerFormat, model: ColorModel)
    ensures
        match decode_outcome(bytes, format, model) {
            Ok(r) => r.wf() && r.model == model,
            Err(kind) => kind == ErrorKind::UnrecognizedFormat || kind == ErrorKind::Decode,
        },
{
}

/// Decodes an encoded image of the given container into a buffer of the
/// given colour model.
///
/// Indexed, greyscale and deeper images are converted to the colour model
/// asked for. Fails with `UnrecognizedFormat` for the `Unknown` container,
/// and with `Decode` whenever the codec rejects the payload; the failure
/// then carries the codec's message.
pub fn decode(bytes: &[u8], format: ContainerFormat, model: ColorModel) -> (outcome: Result<
    PixelBuffer,
    Error,
>)
    ensures
        match decode_outcome(bytes@, format, model) {
            Ok(r) => outcome is Ok && outcome.unwrap()@ == r,
            Err(kind) => fails_with(outcome, kind),
        },
        match decoded_parts(bytes@, format, model) {
            Err(message) => format != ContainerFormat::Unknown ==> outcome.unwrap_err().spec_message()
                == message,
            Ok(_) => true,
        },
        outcome is Ok ==> outcome.unwrap()@.wf() && outcome.unwrap()@.model == model,
{
    match format {
        ContainerFormat::Unknown => Err(
            Error::UnrecognizedFormat("cannot decode an unknown format".to_owned()),
        ),
        _ => decoded(decode_samples(bytes, format, model), model),
    }
}

} // verus!
