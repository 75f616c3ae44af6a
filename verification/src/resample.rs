//! Resampling of a pixel buffer to new dimensions.
//!
//! The filter averages, for each target pixel, the window of source pixels
//! that it covers, every channel alike. It corrects no aspect ratio: the
//! target is taken as planned.

use vstd::prelude::*;
use crate::buffer::{ColorModel, PixelBuffer, Raster};
use crate::codec::{MAX_SAMPLED_SIDE, MAX_WINDOW_PIXELS, sampling_window_fits, thumbnail_of,
    thumbnail_samples};
use crate::error::{Error, ErrorKind, fails_with};
use crate::plan::Dimensions;

verus! {

/// The raster resampled to the target dimensions.
pub open spec fn resampled(r: Raster, target: Dimensions) -> Raster {
    Raster {
        width: target.width as nat,
        height: target.height as nat,
        model: r.model,
        samples: thumbnail_samples(
            r.samples,
            r.channels(),
            r.width,
            r.height,
            target.width as nat,
            target.height as nat,
        ),
    }
}

/// The geometry of a resampling is sound: source and target have area, the
/// sampling windows stay within what the filter can sum up, and the target
/// fits in memory.
pub open spec fn can_resample(r: Raster, target: Dimensions) -> bool {
    &&& sampling_window_fits(r.width, r.height, target.width as nat, target.height as nat)
    &&& target.width * target.height * r.channels() <= usize::MAX
}

/// Resamples a buffer to exactly the target dimensions.
///
/// Fails with `Transform` when source or target has no area, and when the
/// ratio between them is beyond what the filter can compute.
pub fn resample(buffer: &PixelBuffer, target: Dimensions) -> (outcome: Result<PixelBuffer, Error>)
    ensures
        can_resample(buffer@, target) ==> outcome is Ok && outcome.unwrap()@ == resampled(
            buffer@,
            target,
        ) && outcome.unwrap()@.wf(),
        !can_resample(buffer@, target) ==> fails_with(outcome, ErrorKind::Transform),
{
    let width: u32 = buffer.width();
    let height: u32 = buffer.height();
    let model: ColorModel = buffer.model();
    if width == 0 || height == 0 {
        return Err(Error::Transform("image has no area".to_owned()));
    }
    if target.width == 0 || target.height == 0 {
        return Err(Error::Transform("target has no area".to_owned()));
    }
    if width > MAX_SAMPLED_SIDE || height > MAX_SAMPLED_SIDE || target.width > MAX_SAMPLED_SIDE
        || target.height > MAX_SAMPLED_SIDE {
        return Err(Error::Transform("image is too large to resample".to_owned()));
    }
    let across: u64 = (width / target.width) as u64 + 3;
    let down: u64 = (height / target.height) as u64 + 3;
    assert(across * down <= 0x100_0002 * 0x100_0002) by (nonlinear_arith)
        requires
            0 <= across <= 0x100_0002,
            0 <= down <= 0x100_0002,
    ;
    if across * down > MAX_WINDOW_PIXELS {
        return Err(Error::Transform("image is too large for this target".to_owned()));
    }
    assert(target.width * target.height <= 0xFF_FFFF * 0xFF_FFFF) by (nonlinear_arith)
        requires
            0 <= target.width <= 0xFF_FFFF,
            0 <= target.height <= 0xFF_FFFF,
    ;
    let pixels: u64 = target.width as u64 * target.height as u64;
    let wanted: u64 = pixels * model.channels() as u64;
    assert(wanted == target.width * target.height * model.spec_channels());
    if wanted > usize::MAX as u64 {
        return Err(Error::Transform("target does not fit in memory".to_owned()));
    }
    let samples: Vec<u8> = thumbnail_of(
        buffer.samples(),
        model,
        width,
        height,
        target.width,
        target.height,
    );
    match PixelBuffer::from_raw(target.width, target.height, model, samples) {
        Some(out) => Ok(out),
        None => Err(Error::Transform("resampler returned an inconsistent buffer".to_owned())),
    }
}

} // verus!
