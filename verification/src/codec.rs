//! The trusted boundary to the codec crates.
//!
//! Each function here makes one call into an outside crate. Verus does not
//! read the bodies: what a contract claims is taken from the outside
//! crate's source and stated in the doc comment above it.

use vstd::prelude::*;
use crate::buffer::ColorModel;
use crate::encode::{ContentHint, MAX_WEBP_SIDE, WebpSettings};
use crate::format::{ContainerFormat, detected_format, signature_format};
use libwebp_sys::WebPImageHint;
use webp::{Encoder, PixelLayout, WebPConfig};

verus! {

/// What `image::load_from_memory_with_format` makes of the bytes when they
/// are read as the given container and the image is converted to the given
/// colour model: width, height and samples, or the decoder's message.
pub uninterp spec fn decoded_parts(bytes: Seq<u8>, format: ContainerFormat, model: ColorModel) -> Result<
    (u32, u32, Seq<u8>),
    Seq<char>,
>;

/// What the PNG encoder of the `image` crate writes for an image of
/// `channels` interleaved 8-bit channels: the file, or the encoder's
/// message.
pub uninterp spec fn png_bytes(samples: Seq<u8>, width: nat, height: nat, channels: nat) -> Result<
    Seq<u8>,
    Seq<char>,
>;

/// What the JPEG encoder of the `image` crate writes for an 8-bit RGB
/// image at a quality: the file, or the encoder's message.
pub uninterp spec fn jpeg_bytes(samples: Seq<u8>, width: nat, height: nat, quality: nat) -> Result<
    Seq<u8>,
    Seq<char>,
>;

/// What the encoder of the `webp` crate writes for an image of `channels`
/// interleaved 8-bit channels under the settings: the file, the codec's
/// error code as text, or no text at all where the codec refuses to
/// initialise a configuration.
pub uninterp spec fn webp_bytes(
    samples: Seq<u8>,
    width: nat,
    height: nat,
    channels: nat,
    settings: WebpSettings,
) -> Result<Seq<u8>, Option<Seq<char>>>;

/// What a codec returned is what the name of its result says.
pub open spec fn is_named(outcome: Result<Vec<u8>, String>, named: Result<Seq<u8>, Seq<char>>) -> bool {
    match outcome {
        Ok(bytes) => named == Ok::<Seq<u8>, Seq<char>>(bytes@),
        Err(message) => named == Err::<Seq<u8>, Seq<char>>(message@),
    }
}

/// The samples that `image::imageops::thumbnail` computes for an image of
/// `channels` interleaved 8-bit channels and the given dimensions when it is
/// asked for the new dimensions.
pub uninterp spec fn thumbnail_samples(
    samples: Seq<u8>,
    channels: nat,
    width: nat,
    height: nat,
    new_width: nat,
    new_height: nat,
) -> Seq<u8>;

/// The largest side for which the sampling windows of a thumbnail are
/// computed without rounding of the coordinates.
pub const MAX_SAMPLED_SIDE: u32 = 0xFF_FFFF;

/// The largest number of source pixels that one thumbnail pixel may
/// average: with more, the sum of their samples, to which half their number
/// is added for rounding, could exceed 32 bits.
pub const MAX_WINDOW_PIXELS: u64 = 16_810_048;

/// The sampling windows of a thumbnail stay within what the resampler can
/// sum up: all four sides are exactly representable as coordinates, and a
/// window, which is at most three pixels longer on each side than the ratio
/// of source to target, holds at most [`MAX_WINDOW_PIXELS`] pixels.
pub open spec fn sampling_window_fits(width: nat, height: nat, new_width: nat, new_height: nat) -> bool {
    &&& 0 < width <= MAX_SAMPLED_SIDE
    &&& 0 < height <= MAX_SAMPLED_SIDE
    &&& 0 < new_width <= MAX_SAMPLED_SIDE
    &&& 0 < new_height <= MAX_SAMPLED_SIDE
    &&& (width / new_width + 3) * (height / new_height + 3) <= MAX_WINDOW_PIXELS
}

/// Calls `image::guess_format` and keeps the three containers this crate
/// handles.
///
/// `image::guess_format` walks a table of magic numbers and returns the
/// first entry the input starts with. The claim is that it answers PNG,
/// JPEG or WebP exactly on inputs that start with the PNG signature, with
/// `FF D8 FF`, or with `RIFF`, four free bytes and `WEBP`; every other
/// answer, and its error, is mapped to `Unknown` here.
#[verifier::external_body]
pub(crate) fn guess_container(bytes: &[u8]) -> (format: ContainerFormat)
    ensures
        format == signature_format(bytes@),
{
    match image::guess_format(bytes) {
        Ok(image::ImageFormat::Png) => ContainerFormat::Png,
        Ok(image::ImageFormat::Jpeg) => ContainerFormat::Jpeg,
        Ok(image::ImageFormat::WebP) => ContainerFormat::WebP,
        _ => ContainerFormat::Unknown,
    }
}

/// Calls `image::load_from_memory_with_format` and converts the image to
/// the requested colour model with `DynamicImage::into_rgb8` or
/// `into_rgba8`.
///
/// Returns width, height and samples, or the decoder's message. The
/// result is named, not described: it is a function of the arguments alone.
/// Nothing more is claimed of it: the caller checks the shape of what
/// comes back.
#[verifier::external_body]
pub(crate) fn decode_samples(bytes: &[u8], format: ContainerFormat, model: ColorModel) -> (outcome:
    Result<(u32, u32, Vec<u8>), String>)
    requires
        format != ContainerFormat::Unknown,
    ensures
        match outcome {
            Ok(parts) => decoded_parts(bytes@, format, model) == Ok::<(u32, u32, Seq<u8>), Seq<char>>(
                (parts.0, parts.1, parts.2@),
            ),
            Err(message) => decoded_parts(bytes@, format, model) == Err::<
                (u32, u32, Seq<u8>),
                Seq<char>,
            >(message@),
        },
{
    let kind = match format {
        ContainerFormat::Jpeg => image::ImageFormat::Jpeg,
        ContainerFormat::Png => image::ImageFormat::Png,
        _ => image::ImageFormat::WebP,
    };
    match (image::load_from_memory_with_format(bytes, kind), model) {
        (Ok(img), ColorModel::Rgb8) => Ok((img.width(), img.height(), img.into_rgb8().into_raw())),
        (Ok(img), ColorModel::Rgba8) => Ok((img.width(), img.height(), img.into_rgba8().into_raw())),
        (Err(e), _) => Err(e.to_string()),
    }
}

/// Calls `image::imageops::thumbnail` on the samples, viewed as an
/// `ImageBuffer` of the given shape.
///
/// The result is named, not described: it is a function of the arguments
/// alone. The one fact claimed of it is its length, that of a buffer of the
/// new dimensions. The preconditions keep out what makes the outside code
/// panic: a sample count that does not match the shape, a target buffer
/// whose length overflows, and windows whose sums overflow.
#[verifier::external_body]
pub(crate) fn thumbnail_of(
    samples: &[u8],
    model: ColorModel,
    width: u32,
    height: u32,
    new_width: u32,
    new_height: u32,
) -> (out: Vec<u8>)
    requires
        samples@.len() == width * height * model.spec_channels(),
        sampling_window_fits(width as nat, height as nat, new_width as nat, new_height as nat),
        new_width * new_height * model.spec_channels() <= usize::MAX,
    ensures
        out@ == thumbnail_samples(
            samples@,
            model.spec_channels(),
            width as nat,
            height as nat,
            new_width as nat,
            new_height as nat,
        ),
        out@.len() == new_width * new_height * model.spec_channels(),
{
    match model {
        ColorModel::Rgb8 => {
            let source = image::ImageBuffer::<image::Rgb<u8>, &[u8]>::from_raw(width, height, samples);
            image::imageops::thumbnail(&source.unwrap(), new_width, new_height).into_raw()
        },
        ColorModel::Rgba8 => {
            let source = image::ImageBuffer::<image::Rgba<u8>, &[u8]>::from_raw(width, height, samples);
            image::imageops::thumbnail(&source.unwrap(), new_width, new_height).into_raw()
        },
    }
}

/// Calls `JpegEncoder::new_with_quality` and `JpegEncoder::encode` of the
/// `image` crate on 8-bit RGB samples.
///
/// Returns the encoded bytes or the encoder's message. The result is
/// named, not described: it is a function of the arguments alone. Of the
/// bytes one thing more is claimed: they begin as the encoder begins every
/// file, with the start-of-image marker and a JFIF segment, so that a
/// detection on them finds JPEG. The encoder panics on a sample count that
/// does not match the shape, which the precondition keeps out; callers pass
/// images with area.
#[verifier::external_body]
pub(crate) fn jpeg_encode(samples: &[u8], width: u32, height: u32, quality: u8) -> (outcome: Result<
    Vec<u8>,
    String,
>)
    requires
        width > 0,
        height > 0,
        samples@.len() == width * height * 3,
    ensures
        is_named(outcome, jpeg_bytes(samples@, width as nat, height as nat, quality as nat)),
        outcome is Ok ==> detected_format(outcome.unwrap()@) == Some(ContainerFormat::Jpeg),
{
    let mut out = Vec::new();
    let written = image::codecs::jpeg::JpegEncoder::new_with_quality(&mut out, quality).encode(
        samples,
        width,
        height,
        image::ExtendedColorType::Rgb8,
    );
    match written {
        Ok(()) => Ok(out),
        Err(e) => Err(e.to_string()),
    }
}

/// Calls `PngEncoder::new` and `ImageEncoder::write_image` of the `image`
/// crate.
///
/// Returns the encoded bytes or the encoder's message. The result is
/// named, not described: it is a function of the arguments alone. Of the
/// bytes one thing more is claimed: they begin as the encoder begins every
/// file, with the PNG signature and the header chunk, so that a detection
/// on them finds PNG. The encoder panics on a sample count that does not
/// match the shape, which the precondition keeps out; callers pass images
/// with area.
#[verifier::external_body]
pub(crate) fn png_encode(samples: &[u8], width: u32, height: u32, model: ColorModel) -> (outcome:
    Result<Vec<u8>, String>)
    requires
        width > 0,
        height > 0,
        samples@.len() == width * height * model.spec_channels(),
    ensures
        is_named(outcome, png_bytes(samples@, width as nat, height as nat, model.spec_channels())),
        outcome is Ok ==> detected_format(outcome.unwrap()@) == Some(ContainerFormat::Png),
{
    let color = match model {
        ColorModel::Rgb8 => image::ExtendedColorType::Rgb8,
        ColorModel::Rgba8 => image::ExtendedColorType::Rgba8,
    };
    let mut out = Vec::new();
    let encoder = image::codecs::png::PngEncoder::new(&mut out);
    match image::ImageEncoder::write_image(encoder, samples, width, height, color) {
        Ok(()) => Ok(out),
        Err(e) => Err(e.to_string()),
    }
}

/// Calls `WebPConfig::new`, stores the settings in the fields of the same
/// names, and calls `Encoder::new` and `Encoder::encode_advanced` of the
/// `webp` crate.
///
/// Returns the encoded bytes, the codec's error code as text, or no text
/// where the codec refuses to initialise a configuration. The result is
/// named, not described: it is a function of the arguments alone. Of the
/// bytes one thing more is claimed: they begin as the codec begins every
/// file, with a RIFF header of the form type `WEBP`, so that a detection on
/// them finds WebP. The preconditions keep out what makes the outside code
/// panic: too few samples for the shape, and a row stride that overflows,
/// which sides within the codec's limit cannot cause.
#[verifier::external_body]
pub(crate) fn webp_encode(
    samples: &[u8],
    width: u32,
    height: u32,
    model: ColorModel,
    settings: &WebpSettings,
) -> (outcome: Result<Vec<u8>, Option<String>>)
    requires
        0 < width <= MAX_WEBP_SIDE,
        0 < height <= MAX_WEBP_SIDE,
        samples@.len() == width * height * model.spec_channels(),
    ensures
        match outcome {
            Ok(bytes) => webp_bytes(
                samples@,
                width as nat,
                height as nat,
                model.spec_channels(),
                *settings,
            ) == Ok::<Seq<u8>, Option<Seq<char>>>(bytes@),
            Err(None) => webp_bytes(
                samples@,
                width as nat,
                height as nat,
                model.spec_channels(),
                *settings,
            ) == Err::<Seq<u8>, Option<Seq<char>>>(None),
            Err(Some(code)) => webp_bytes(
                samples@,
                width as nat,
                height as nat,
                model.spec_channels(),
                *settings,
            ) == Err::<Seq<u8>, Option<Seq<char>>>(Some(code@)),
        },
        outcome is Ok ==> detected_format(outcome.unwrap()@) == Some(ContainerFormat::WebP),
{
    let mut config = WebPConfig::new().map_err(|_| None)?;
    config.method = settings.method;
    config.image_hint = match settings.hint {
        ContentHint::Default => WebPImageHint::WEBP_HINT_DEFAULT,
        ContentHint::Picture => WebPImageHint::WEBP_HINT_PICTURE,
        ContentHint::Photo => WebPImageHint::WEBP_HINT_PHOTO,
        ContentHint::Graph => WebPImageHint::WEBP_HINT_GRAPH,
    };
    config.sns_strength = settings.sns_strength;
    config.filter_sharpness = settings.filter_sharpness;
    config.filter_strength = settings.filter_strength;
    config.quality = settings.quality.into();
    (config.target_size, config.pass) = (settings.target_size, settings.passes);
    let layout = match model { ColorModel::Rgb8 => PixelLayout::Rgb, ColorModel::Rgba8 => PixelLayout::Rgba };
    Encoder::new(samples, layout, width, height).encode_advanced(&config).map(|m| m.to_vec()).map_err(|e| Some(format!("{:?}", e)))
}

} // verus!
