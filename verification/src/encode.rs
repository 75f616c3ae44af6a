//! Encoding policies and the settings of the lossy thumbnail codec.

use vstd::prelude::*;
use crate::buffer::{ColorModel, PixelBuffer, Raster, without_alpha};
use crate::codec::{is_named, jpeg_bytes, jpeg_encode, png_bytes, png_encode, webp_bytes, webp_encode};
use crate::error::{Error, ErrorKind, fails_with};
use crate::format::{ContainerFormat, detected_format};

verus! {

/// The quality used when a caller supplies none that is valid.
pub const DEFAULT_QUALITY: u8 = 60;

/// The top of the quality scale.
pub const MAX_QUALITY: u8 = 100;

/// The quality at which rotated images are written as JPEG.
pub const ROTATION_QUALITY: u8 = 85;

/// The quality from which a search for a target size starts: the preset
/// default of the thumbnail codec.
pub const SEARCH_START_QUALITY: u8 = 75;

/// The number of passes a search for a target size may take.
pub const SEARCH_PASSES: i32 = 5;

/// The largest target size the thumbnail codec can be asked for. A larger
/// target counts as this one.
pub const MAX_TARGET_SIZE: u32 = 0x7FFF_FFFF;

/// The largest width or height the thumbnail codec accepts.
pub const MAX_WEBP_SIDE: u32 = 16383;

/// The largest width or height a JPEG image can have.
pub const MAX_JPEG_SIDE: u32 = 65535;

/// How the quality of a lossy encode is chosen.
#[derive(Clone, Copy, Debug, PartialEq, Eq, Structural)]
pub enum EncodePolicy {
    /// Encode once at this quality, from 0 (smallest) to 100 (best).
    FixedQuality(u8),
    /// Search for the quality whose output comes close to this many bytes.
    TargetSize(u32),
}

impl EncodePolicy {
    /// The policy is one a codec can be configured with as it stands: a
    /// quality on the scale, or any target size.
    pub open spec fn is_valid(self) -> bool {
        match self {
            EncodePolicy::FixedQuality(q) => q <= MAX_QUALITY,
            EncodePolicy::TargetSize(_) => true,
        }
    }

    /// The policy that a pair of optional parameters selects: a target size
    /// wins over a quality whenever it is given, a quality on the scale wins
    /// over the fallback, and the default stands in for a fallback that is
    /// itself off the scale.
    pub open spec fn selected_or(quality: Option<u8>, target_size: Option<u32>, fallback: u8) -> EncodePolicy {
        if target_size is Some {
            EncodePolicy::TargetSize(target_size.unwrap())
        } else if quality is Some && quality.unwrap() <= MAX_QUALITY {
            EncodePolicy::FixedQuality(quality.unwrap())
        } else if fallback <= MAX_QUALITY {
            EncodePolicy::FixedQuality(fallback)
        } else {
            EncodePolicy::FixedQuality(DEFAULT_QUALITY)
        }
    }

    /// The policy that a pair of optional parameters selects when the
    /// fallback is [`DEFAULT_QUALITY`].
    pub open spec fn selected(quality: Option<u8>, target_size: Option<u32>) -> EncodePolicy {
        Self::selected_or(quality, target_size, DEFAULT_QUALITY)
    }

    /// Selects the policy for a pair of optional parameters, with the
    /// quality to fall back on given by the caller.
    ///
    /// A missing or out-of-range quality is passed over: it never fails.
    pub fn select_or(quality: Option<u8>, target_size: Option<u32>, fallback: u8) -> (policy:
        EncodePolicy)
        ensures
            policy == Self::selected_or(quality, target_size, fallback),
            policy.is_valid(),
    {
        if let Some(bytes) = target_size {
            return EncodePolicy::TargetSize(bytes);
        }
        if let Some(q) = quality {
            if q <= MAX_QUALITY {
                return EncodePolicy::FixedQuality(q);
            }
        }
        if fallback <= MAX_QUALITY {
            EncodePolicy::FixedQuality(fallback)
        } else {
            EncodePolicy::FixedQuality(DEFAULT_QUALITY)
        }
    }

    /// Selects the policy for a pair of optional parameters, falling back
    /// on [`DEFAULT_QUALITY`].
    pub fn select(quality: Option<u8>, target_size: Option<u32>) -> (policy: EncodePolicy)
        ensures
            policy == Self::selected(quality, target_size),
            policy.is_valid(),
    {
        Self::select_or(quality, target_size, DEFAULT_QUALITY)
    }

    /// The quality of a single-pass encode under this policy: the fixed
    /// quality if it is on the scale, the default otherwise.
    pub open spec fn single_pass_quality(self) -> u8 {
        match self {
            EncodePolicy::FixedQuality(q) => if q <= MAX_QUALITY {
                q
            } else {
                DEFAULT_QUALITY
            },
            EncodePolicy::TargetSize(_) => DEFAULT_QUALITY,
        }
    }

    /// The quality for codecs that cannot search for a target size.
    pub fn fixed_quality(self) -> (q: u8)
        ensures
            q == self.single_pass_quality(),
            q <= MAX_QUALITY,
    {
        match self {
            EncodePolicy::FixedQuality(q) => if q <= MAX_QUALITY {
                q
            } else {
                DEFAULT_QUALITY
            },
            EncodePolicy::TargetSize(_) => DEFAULT_QUALITY,
        }
    }
}

/// With a target size, the quality plays no part in the choice of the
/// policy.
pub proof fn lemma_target_size_overrides_quality(
    first: Option<u8>,
    second: Option<u8>,
    target_size: u32,
    fallback: u8,
)
    ensures
        EncodePolicy::selected_or(first, Some(target_size), fallback) == EncodePolicy::selected_or(
            second,
            Some(target_size),
            fallback,
        ),
        EncodePolicy::selected(first, Some(target_size)) == EncodePolicy::TargetSize(target_size),
{
}

/// Without a target size, no quality and the default quality select the
/// same policy.
pub proof fn lemma_missing_quality_is_default()
    ensures
        EncodePolicy::selected(None, None) == EncodePolicy::selected(Some(DEFAULT_QUALITY), None),
        EncodePolicy::selected(None, None) == EncodePolicy::FixedQuality(60),
{
}

/// What kind of content the thumbnail codec should tune itself for.
#[derive(Clone, Copy, Debug, PartialEq, Eq, Structural)]
pub enum ContentHint {
    Default,
    Picture,
    Photo,
    Graph,
}

/// The settings handed to the thumbnail codec.
#[derive(Clone, Copy, Debug, PartialEq, Eq, Structural)]
pub struct WebpSettings {
    /// Speed against quality, from 0 (fast) to 6 (slow and small).
    pub method: i32,
    /// The kind of content.
    pub hint: ContentHint,
    /// Strength of the spatial noise shaping, from 0 to 100.
    pub sns_strength: i32,
    /// Sharpness of the deblocking filter, from 0 (sharpest) to 7.
    pub filter_sharpness: i32,
    /// Strength of the deblocking filter, from 0 to 100.
    pub filter_strength: i32,
    /// Quality of a single pass, or the start of a search.
    pub quality: u8,
    /// The size in bytes to search for; zero for no search.
    pub target_size: i32,
    /// The number of passes the codec may take.
    pub passes: i32,
}

/// The target size as the codec takes it: the bytes asked for, or the
/// largest the codec can be asked for if they exceed it.
pub open spec fn saturated_target(bytes: u32) -> i32 {
    if bytes <= MAX_TARGET_SIZE {
        bytes as i32
    } else {
        MAX_TARGET_SIZE as i32
    }
}

impl WebpSettings {
    /// Every setting lies in the range the codec accepts.
    pub open spec fn is_valid(self) -> bool {
        &&& 0 <= self.method <= 6
        &&& 0 <= self.sns_strength <= 100
        &&& 0 <= self.filter_sharpness <= 7
        &&& 0 <= self.filter_strength <= 100
        &&& self.quality <= MAX_QUALITY
        &&& 0 <= self.target_size
        &&& 1 <= self.passes <= 10
    }

    /// The settings for a policy. The tuning for photographic thumbnails is
    /// the same under every policy; only quality, target size and the number
    /// of passes follow the policy. A search starts from
    /// [`SEARCH_START_QUALITY`] whatever quality was given beside it.
    pub open spec fn for_policy(policy: EncodePolicy) -> WebpSettings {
        match policy {
            EncodePolicy::TargetSize(bytes) => WebpSettings {
                method: 2,
                hint: ContentHint::Photo,
                sns_strength: 70,
                filter_sharpness: 2,
                filter_strength: 25,
                quality: SEARCH_START_QUALITY,
                target_size: saturated_target(bytes),
                passes: SEARCH_PASSES,
            },
            EncodePolicy::FixedQuality(_) => WebpSettings {
                method: 2,
                hint: ContentHint::Photo,
                sns_strength: 70,
                filter_sharpness: 2,
                filter_strength: 25,
                quality: policy.single_pass_quality(),
                target_size: 0,
                passes: 1,
            },
        }
    }

    /// Builds the settings for a policy.
    pub fn from_policy(policy: EncodePolicy) -> (settings: WebpSettings)
        ensures
            settings == Self::for_policy(policy),
            settings.is_valid(),
    {
        match policy {
            EncodePolicy::TargetSize(bytes) => WebpSettings {
                method: 2,
                hint: ContentHint::Photo,
                sns_strength: 70,
                filter_sharpness: 2,
                filter_strength: 25,
                quality: SEARCH_START_QUALITY,
                target_size: if bytes <= MAX_TARGET_SIZE {
                    bytes as i32
                } else {
                    MAX_TARGET_SIZE as i32
                },
                passes: SEARCH_PASSES,
            },
            EncodePolicy::FixedQuality(_) => WebpSettings {
                method: 2,
                hint: ContentHint::Photo,
                sns_strength: 70,
                filter_sharpness: 2,
                filter_strength: 25,
                quality: policy.fixed_quality(),
                target_size: 0,
                passes: 1,
            },
        }
    }
}

/// Configures the thumbnail codec from the two optional parameters of a
/// thumbnail request.
///
/// A target size takes precedence over a quality whenever it is given;
/// without either, the default quality applies. With a target size the
/// codec searches within [`SEARCH_PASSES`] passes, and the quality given
/// beside it has no effect; otherwise it encodes once. It never fails.
pub fn webp_config(quality: Option<u8>, target_size: Option<u32>) -> (settings: WebpSettings)
    ensures
        settings == WebpSettings::for_policy(EncodePolicy::selected(quality, target_size)),
        settings.is_valid(),
        settings.method == 2 && settings.hint == ContentHint::Photo && settings.sns_strength == 70
            && settings.filter_sharpness == 2 && settings.filter_strength == 25,
        target_size is Some ==> settings.target_size == saturated_target(target_size.unwrap())
            && settings.passes == SEARCH_PASSES && settings.quality == SEARCH_START_QUALITY,
        target_size is None ==> settings.target_size == 0 && settings.passes == 1
            && settings.quality == (if quality is Some && quality.unwrap() <= MAX_QUALITY {
            quality.unwrap()
        } else {
            DEFAULT_QUALITY
        }),
{
    WebpSettings::from_policy(EncodePolicy::select(quality, target_size))
}

/// The container can hold an image of this shape: the image has area, its
/// sides are within what the container can record, and the container is
/// known.
pub open spec fn encodable(r: Raster, format: ContainerFormat) -> bool {
    &&& r.has_area()
    &&& match format {
        ContainerFormat::Jpeg => r.width <= MAX_JPEG_SIDE && r.height <= MAX_JPEG_SIDE,
        ContainerFormat::Png => true,
        ContainerFormat::WebP => r.width <= MAX_WEBP_SIDE && r.height <= MAX_WEBP_SIDE,
        ContainerFormat::Unknown => false,
    }
}

/// The length of the longest container signature. An encoding that is no
/// longer holds no image.
pub const HEADER_LEN: usize = 12;

/// What the thumbnail codec returned, with a refused initialisation put in
/// words.
pub open spec fn reported(named: Result<Seq<u8>, Option<Seq<char>>>) -> Result<Seq<u8>, Seq<char>> {
    match named {
        Ok(bytes) => Ok(bytes),
        Err(Some(code)) => Err(code),
        Err(None) => Err("failed to create WebP config"@),
    }
}

/// Puts a refused initialisation of the thumbnail codec in words, and
/// leaves every other result of the codec as it is.
pub fn webp_reported(raw: Result<Vec<u8>, Option<String>>) -> (outcome: Result<Vec<u8>, String>)
    ensures
        match raw {
            Ok(bytes) => outcome == Ok::<Vec<u8>, String>(bytes),
            Err(Some(code)) => outcome == Err::<Vec<u8>, String>(code),
            Err(None) => outcome is Err && outcome.unwrap_err()@ == "failed to create WebP config"@,
        },
        forall|named: Result<Seq<u8>, Option<Seq<char>>>|
            (match raw {
                Ok(bytes) => named == Ok::<Seq<u8>, Option<Seq<char>>>(bytes@),
                Err(Some(code)) => named == Err::<Seq<u8>, Option<Seq<char>>>(Some(code@)),
                Err(None) => named == Err::<Seq<u8>, Option<Seq<char>>>(None),
            }) ==> is_named(outcome, reported(named)),
{
    match raw {
        Ok(bytes) => Ok(bytes),
        Err(Some(code)) => Err(code),
        Err(None) => Err("failed to create WebP config".to_owned()),
    }
}

/// What the codec of a container returns for a raster under a policy: the
/// file, or the codec's message.
///
/// PNG ignores the policy. JPEG is written without alpha at the policy's
/// single-pass quality. WebP follows the policy in full, with the settings
/// of [`WebpSettings::for_policy`]. No codec writes an unknown container.
pub open spec fn written(r: Raster, format: ContainerFormat, policy: EncodePolicy) -> Result<
    Seq<u8>,
    Seq<char>,
> {
    match format {
        ContainerFormat::Jpeg => jpeg_bytes(
            without_alpha(r).samples,
            r.width,
            r.height,
            policy.single_pass_quality() as nat,
        ),
        ContainerFormat::WebP => reported(
            webp_bytes(r.samples, r.width, r.height, r.channels(), WebpSettings::for_policy(policy)),
        ),
        ContainerFormat::Png => png_bytes(r.samples, r.width, r.height, r.channels()),
        ContainerFormat::Unknown => Err("unsupported image format"@),
    }
}

/// The outcome is what an encode makes of a codec's result: the file if it
/// is longer than a signature, and an `Encode` failure otherwise, with the
/// codec's message where the codec gave one.
pub open spec fn is_encoded(outcome: Result<Vec<u8>, Error>, named: Result<Seq<u8>, Seq<char>>) -> bool {
    match named {
        Ok(bytes) => if bytes.len() > HEADER_LEN {
            outcome is Ok && outcome.unwrap()@ == bytes
        } else {
            fails_with(outcome, ErrorKind::Encode)
        },
        Err(message) => fails_with(outcome, ErrorKind::Encode) && outcome.unwrap_err().spec_message()
            == message,
    }
}

/// The outcome is what an encode makes of a raster: an `Encode` failure if
/// the container cannot hold the raster, and otherwise what it makes of the
/// codec's result.
pub open spec fn is_encoding_of(
    outcome: Result<Vec<u8>, Error>,
    r: Raster,
    format: ContainerFormat,
    policy: EncodePolicy,
) -> bool {
    if encodable(r, format) {
        is_encoded(outcome, written(r, format, policy))
    } else {
        fails_with(outcome, ErrorKind::Encode)
    }
}

/// Turns what a codec returned into the outcome of an encode: its bytes
/// as they are if they are longer than a signature, and an `Encode`
/// failure otherwise, which carries the codec's message where it gave one.
pub fn encoded(raw: Result<Vec<u8>, String>) -> (outcome: Result<Vec<u8>, Error>)
    ensures
        match raw {
            Ok(bytes) => if bytes@.len() > HEADER_LEN {
                outcome == Ok::<Vec<u8>, Error>(bytes)
            } else {
                fails_with(outcome, ErrorKind::Encode)
            },
            Err(message) => fails_with(outcome, ErrorKind::Encode) && outcome.unwrap_err().spec_message()
                == message@,
        },
        forall|named: Result<Seq<u8>, Seq<char>>| is_named(raw, named) ==> is_encoded(outcome, named),
{
    match raw {
        Ok(bytes) => {
            if bytes.len() > HEADER_LEN {
                Ok(bytes)
            } else {
                Err(Error::Encode("codec wrote no image".to_owned()))
            }
        },
        Err(message) => Err(Error::Encode(message)),
    }
}

/// Encodes a buffer into a container under a policy.
///
/// PNG is lossless and ignores the policy. JPEG has no alpha channel and
/// no search for a target size: the buffer is written in the `Rgb8` model
/// at the policy's single-pass quality. WebP follows the policy in full,
/// with the tuning of [`WebpSettings::for_policy`].
///
/// Fails with `Encode`, and with nothing else: on an image that the
/// container cannot hold, and when the codec fails or writes no more than a
/// signature. What it returns is what the codec wrote, and is detected as
/// the container asked for.
pub fn encode(buffer: &PixelBuffer, format: ContainerFormat, policy: EncodePolicy) -> (outcome:
    Result<Vec<u8>, Error>)
    ensures
        is_encoding_of(outcome, buffer@, format, policy),
        outcome is Ok || fails_with(outcome, ErrorKind::Encode),
        outcome is Ok ==> detected_format(outcome.unwrap()@) == Some(format) && outcome.unwrap()@.len()
            > HEADER_LEN,
{
    let width: u32 = buffer.width();
    let height: u32 = buffer.height();
    if !buffer.has_area() {
        return Err(Error::Encode("image has no area".to_owned()));
    }
    match format {
        ContainerFormat::Png => encoded(png_encode(buffer.samples(), width, height, buffer.model())),
        ContainerFormat::Jpeg => {
            if width > MAX_JPEG_SIDE || height > MAX_JPEG_SIDE {
                return Err(Error::Encode("image is too large for JPEG".to_owned()));
            }
            let opaque: PixelBuffer = buffer.to_rgb8();
            encoded(jpeg_encode(opaque.samples(), width, height, policy.fixed_quality()))
        },
        ContainerFormat::WebP => {
            if width > MAX_WEBP_SIDE || height > MAX_WEBP_SIDE {
                return Err(Error::Encode("image is too large for WebP".to_owned()));
            }
            let settings: WebpSettings = WebpSettings::from_policy(policy);
            let raw = webp_encode(buffer.samples(), width, height, buffer.model(), &settings);
            proof {
                let named = webp_bytes(
                    buffer@.samples,
                    buffer@.width,
                    buffer@.height,
                    buffer@.channels(),
                    settings,
                );
                assert(written(buffer@, format, policy) == reported(named));
            }
            encoded(webp_reported(raw))
        },
        ContainerFormat::Unknown => Err(Error::Encode("unsupported image format".to_owned())),
    }
}

} // verus!
