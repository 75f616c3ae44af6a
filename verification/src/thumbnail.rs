//! Thumbnails: decode, plan, resample, encode.

use vstd::prelude::*;
use crate::buffer::{ColorModel, PixelBuffer, Raster};
use crate::decode::{decode, decode_outcome};
use crate::encode::{EncodePolicy, HEADER_LEN, MAX_WEBP_SIDE, encode, is_encoding_of};
use crate::error::{Error, ErrorKind, fails_with};
use crate::format::{ContainerFormat, detect_format, detected_format};
use crate::plan::{Dimensions, plan_thumbnail_dimensions, planned_height, planned_width};
use crate::resample::{can_resample, resample, resampled};

verus! {

/// The dimensions planned for a thumbnail of a raster.
pub open spec fn planned_for(r: Raster, requested_w: u32, requested_h: u32) -> Dimensions {
    Dimensions {
        width: planned_width(
            r.width as int,
            r.height as int,
            requested_w as int,
            requested_h as int,
        ) as u32,
        height: planned_height(
            r.width as int,
            r.height as int,
            requested_w as int,
            requested_h as int,
        ) as u32,
    }
}

/// Both sides are within what the thumbnail codec accepts.
pub open spec fn within_codec_limit(d: Dimensions) -> bool {
    d.width <= MAX_WEBP_SIDE && d.height <= MAX_WEBP_SIDE
}

/// Why no thumbnail can be made of a raster, if anything stands in the
/// way: a source without area, a plan beyond the codec's limit, or a
/// geometry that cannot be resampled, in this order.
pub open spec fn thumbnail_obstacle(r: Raster, requested_w: u32, requested_h: u32) -> Option<
    ErrorKind,
> {
    if !r.has_area() {
        Some(ErrorKind::Transform)
    } else if !within_codec_limit(planned_for(r, requested_w, requested_h)) {
        Some(ErrorKind::Encode)
    } else if !can_resample(r, planned_for(r, requested_w, requested_h)) {
        Some(ErrorKind::Transform)
    } else {
        None
    }
}

/// Scales a decoded image down to the thumbnail planned for the requested
/// bounds.
///
/// The dimensions are those of [`plan_thumbnail_dimensions`]. A plan that
/// the thumbnail codec could not hold is refused before any pixel is
/// computed.
pub fn thumbnail_buffer(buffer: &PixelBuffer, requested_w: u32, requested_h: u32) -> (outcome:
    Result<PixelBuffer, Error>)
    ensures
        match thumbnail_obstacle(buffer@, requested_w, requested_h) {
            Some(kind) => fails_with(outcome, kind),
            None => outcome is Ok && outcome.unwrap()@ == resampled(
                buffer@,
                planned_for(buffer@, requested_w, requested_h),
            ),
        },
        outcome is Ok ==> outcome.unwrap()@.wf() && outcome.unwrap()@.has_area()
            && within_codec_limit(
            Dimensions {
                width: outcome.unwrap()@.width as u32,
                height: outcome.unwrap()@.height as u32,
            },
        ),
{
    if !buffer.has_area() {
        return Err(Error::Transform("image has no area".to_owned()));
    }
    let planned: Dimensions = plan_thumbnail_dimensions(
        buffer.width(),
        buffer.height(),
        requested_w,
        requested_h,
    );
    assert(planned == planned_for(buffer@, requested_w, requested_h));
    if planned.width > MAX_WEBP_SIDE || planned.height > MAX_WEBP_SIDE {
        return Err(Error::Encode("thumbnail is too large for WebP".to_owned()));
    }
    resample(buffer, planned)
}

/// The outcome is what a thumbnail request makes of the bytes: a failure
/// to recognise or to decode them, the failure that
/// [`thumbnail_obstacle`] names, and otherwise what an encode as WebP makes
/// of the decoded raster, resampled to the planned dimensions, under the
/// policy.
pub open spec fn is_thumbnail_outcome(
    outcome: Result<Vec<u8>, Error>,
    bytes: Seq<u8>,
    requested_w: u32,
    requested_h: u32,
    policy: EncodePolicy,
) -> bool {
    match detected_format(bytes) {
        None => fails_with(outcome, ErrorKind::UnrecognizedFormat),
        Some(format) => match decode_outcome(bytes, format, ColorModel::Rgba8) {
            Err(kind) => fails_with(outcome, kind),
            Ok(r) => match thumbnail_obstacle(r, requested_w, requested_h) {
                Some(kind) => fails_with(outcome, kind),
                None => is_encoding_of(
                    outcome,
                    resampled(r, planned_for(r, requested_w, requested_h)),
                    ContainerFormat::WebP,
                    policy,
                ),
            },
        },
    }
}

/// Two outcomes of the same thumbnail request agree: both succeed with the
/// same bytes, or both fail with the same kind of failure. No call leaves
/// anything behind that a later call could see.
pub proof fn lemma_thumbnail_outcome_is_unique(
    first: Result<Vec<u8>, Error>,
    second: Result<Vec<u8>, Error>,
    bytes: Seq<u8>,
    requested_w: u32,
    requested_h: u32,
    policy: EncodePolicy,
)
    requires
        is_thumbnail_outcome(first, bytes, requested_w, requested_h, policy),
        is_thumbnail_outcome(second, bytes, requested_w, requested_h, policy),
    ensures
        first is Ok <==> second is Ok,
        first is Ok ==> first.unwrap()@ == second.unwrap()@,
        first is Err ==> first.unwrap_err().spec_kind() == second.unwrap_err().spec_kind(),
{
}

/// Makes a WebP thumbnail of an encoded image.
///
/// The image is decoded with alpha, scaled to the dimensions that
/// [`plan_thumbnail_dimensions`] gives for the requested bounds, and
/// encoded under the policy that `quality` and `target_size` select: a
/// target size wins over a quality, and without either the default quality
/// applies.
///
/// Fails with `UnrecognizedFormat` exactly when the input carries no known
/// signature. Otherwise it fails with `Decode` when the codec rejects the
/// payload, with `Transform` or `Encode` as [`thumbnail_buffer`] tells, and
/// with `Encode` when the thumbnail codec fails. Requested bounds that both
/// exceed the codec's limit always fail. What it returns is detected as
/// WebP and is longer than its header.
pub fn make_thumbnail(
    bytes: &[u8],
    requested_w: u32,
    requested_h: u32,
    quality: Option<u8>,
    target_size: Option<u32>,
) -> (outcome: Result<Vec<u8>, Error>)
    ensures
        is_thumbnail_outcome(
            outcome,
            bytes@,
            requested_w,
            requested_h,
            EncodePolicy::selected(quality, target_size),
        ),
        detected_format(bytes@) is None <==> fails_with(outcome, ErrorKind::UnrecognizedFormat),
        outcome is Err ==> outcome.unwrap_err().spec_kind() != ErrorKind::Io,
        requested_w > MAX_WEBP_SIDE && requested_h > MAX_WEBP_SIDE ==> outcome is Err,
        outcome is Ok ==> detected_format(outcome.unwrap()@) == Some(ContainerFormat::WebP)
            && outcome.unwrap()@.len() > HEADER_LEN,
{
    let format: ContainerFormat = match detect_format(bytes) {
        Ok(format) => format,
        Err(e) => { return Err(e); },
    };
    let buffer: PixelBuffer = match decode(bytes, format, ColorModel::Rgba8) {
        Ok(buffer) => buffer,
        Err(e) => { return Err(e); },
    };
    let thumbnail: PixelBuffer = match thumbnail_buffer(&buffer, requested_w, requested_h) {
        Ok(thumbnail) => thumbnail,
        Err(e) => { return Err(e); },
    };
    encode(&thumbnail, ContainerFormat::WebP, EncodePolicy::select(quality, target_size))
}

} // verus!
