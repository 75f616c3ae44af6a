//! Rotation by quarter turns.
//!
//! A quarter turn moves every pixel to a new position and changes none of
//! its samples, so it loses nothing. Turning right or left swaps width and
//! height; a half turn keeps them.

use vstd::prelude::*;
use crate::buffer::{ColorModel, PixelBuffer, Raster, lemma_offset_in_bounds, lemma_offset_steps,
    lemma_offset_unique, lemma_raster_ext};
use crate::decode::{decode, decode_outcome};
use crate::encode::{EncodePolicy, HEADER_LEN, ROTATION_QUALITY, encode, is_encoding_of};
use crate::error::{Error, ErrorKind, fails_with};
use crate::format::{ContainerFormat, detect_format, detected_format};

verus! {

/// A rotation by a multiple of ninety degrees.
#[derive(Clone, Copy, Debug, PartialEq, Eq, Structural)]
pub enum Direction {
    /// A quarter turn clockwise.
    Right,
    /// A quarter turn counter-clockwise.
    Left,
    /// A half turn.
    Flip,
}

impl Direction {
    /// The direction that a name stands for: `left` and `flip` for
    /// themselves, every other name for `Right`.
    pub open spec fn named(name: Seq<char>) -> Direction {
        if name == "left"@ {
            Direction::Left
        } else if name == "flip"@ {
            Direction::Flip
        } else {
            Direction::Right
        }
    }

    /// Reads a direction from its name. An unknown name turns right.
    pub fn from_name(name: &str) -> (direction: Direction)
        ensures
            direction == Self::named(name@),
    {
        let given: String = name.to_owned();
        if given == "left".to_owned() {
            Direction::Left
        } else if given == "flip".to_owned() {
            Direction::Flip
        } else {
            Direction::Right
        }
    }
}

/// Width of a raster after the rotation.
pub open spec fn rotated_width(r: Raster, direction: Direction) -> nat {
    match direction {
        Direction::Flip => r.width,
        _ => r.height,
    }
}

/// Height of a raster after the rotation.
pub open spec fn rotated_height(r: Raster, direction: Direction) -> nat {
    match direction {
        Direction::Flip => r.height,
        _ => r.width,
    }
}

/// Column in the source of the pixel that the rotation moves to column `x`
/// of row `y`.
pub open spec fn source_column(r: Raster, direction: Direction, x: int, y: int) -> int {
    match direction {
        Direction::Right => y,
        Direction::Left => r.width - 1 - y,
        Direction::Flip => r.width - 1 - x,
    }
}

/// Row in the source of the pixel that the rotation moves to column `x` of
/// row `y`.
pub open spec fn source_row(r: Raster, direction: Direction, x: int, y: int) -> int {
    match direction {
        Direction::Right => r.height - 1 - x,
        Direction::Left => x,
        Direction::Flip => r.height - 1 - y,
    }
}

/// The raster turned in the given direction.
pub open spec fn rotated(r: Raster, direction: Direction) -> Raster {
    Raster {
        width: rotated_width(r, direction),
        height: rotated_height(r, direction),
        model: r.model,
        samples: Seq::new(
            r.samples.len(),
            |i: int|
                {
                    let c = i % (r.channels() as int);
                    let p = i / (r.channels() as int);
                    let x = p % (rotated_width(r, direction) as int);
                    let y = p / (rotated_width(r, direction) as int);
                    r.sample(source_column(r, direction, x, y), source_row(r, direction, x, y), c)
                },
        ),
    }
}

/// A rotated raster is well formed, and each of its samples is the sample
/// of the source pixel that the rotation moved there.
pub proof fn lemma_rotated_sample(r: Raster, direction: Direction, x: int, y: int, c: int)
    requires
        r.wf(),
        rotated(r, direction).contains(x, y),
        0 <= c < r.channels(),
    ensures
        rotated(r, direction).wf(),
        r.contains(source_column(r, direction, x, y), source_row(r, direction, x, y)),
        rotated(r, direction).sample(x, y, c) == r.sample(
            source_column(r, direction, x, y),
            source_row(r, direction, x, y),
            c,
        ),
{
    lemma_rotated_wf(r, direction);
    let t = rotated(r, direction);
    lemma_offset_in_bounds(t, x, y, c);
    lemma_offset_unique(t, x, y, c);
}

/// A rotated raster holds as many samples as its new dimensions call for.
pub proof fn lemma_rotated_wf(r: Raster, direction: Direction)
    requires
        r.wf(),
    ensures
        rotated(r, direction).wf(),
        rotated(r, direction).has_area() == r.has_area(),
{
    let w = r.width as int;
    let h = r.height as int;
    let n = r.channels() as int;
    assert(h * w * n == w * h * n) by (nonlinear_arith);
}

/// A quarter turn swaps width and height; a half turn keeps both.
pub proof fn lemma_rotation_dimensions(r: Raster, direction: Direction)
    ensures
        direction != Direction::Flip ==> rotated(r, direction).width == r.height && rotated(
            r,
            direction,
        ).height == r.width,
        direction == Direction::Flip ==> rotated(r, direction).width == r.width && rotated(
            r,
            direction,
        ).height == r.height,
        rotated(r, direction).model == r.model,
        rotated(r, direction).samples.len() == r.samples.len(),
{
}

/// Two quarter turns to the right are a half turn.
pub proof fn lemma_two_right_turns_flip(r: Raster)
    requires
        r.wf(),
    ensures
        rotated(rotated(r, Direction::Right), Direction::Right) == rotated(r, Direction::Flip),
{
    let once = rotated(r, Direction::Right);
    let twice = rotated(once, Direction::Right);
    let flipped = rotated(r, Direction::Flip);
    lemma_rotated_wf(r, Direction::Right);
    lemma_rotated_wf(once, Direction::Right);
    lemma_rotated_wf(r, Direction::Flip);
    assert forall|x: int, y: int, c: int|
        twice.contains(x, y) && 0 <= c < twice.channels() implies twice.sample(x, y, c)
        == flipped.sample(x, y, c) by {
        lemma_rotated_sample(once, Direction::Right, x, y, c);
        lemma_rotated_sample(r, Direction::Right, y, once.height - 1 - x, c);
        lemma_rotated_sample(r, Direction::Flip, x, y, c);
    }
    lemma_raster_ext(twice, flipped);
}

/// Two half turns restore the raster.
pub proof fn lemma_flip_twice_restores(r: Raster)
    requires
        r.wf(),
    ensures
        rotated(rotated(r, Direction::Flip), Direction::Flip) == r,
{
    let once = rotated(r, Direction::Flip);
    let twice = rotated(once, Direction::Flip);
    lemma_rotated_wf(r, Direction::Flip);
    lemma_rotated_wf(once, Direction::Flip);
    assert forall|x: int, y: int, c: int|
        twice.contains(x, y) && 0 <= c < twice.channels() implies twice.sample(x, y, c)
        == r.sample(x, y, c) by {
        lemma_rotated_sample(once, Direction::Flip, x, y, c);
        lemma_rotated_sample(r, Direction::Flip, once.width - 1 - x, once.height - 1 - y, c);
    }
    lemma_raster_ext(twice, r);
}

/// A quarter turn to the left undoes a quarter turn to the right, and the
/// other way round.
pub proof fn lemma_opposite_turns_cancel(r: Raster)
    requires
        r.wf(),
    ensures
        rotated(rotated(r, Direction::Right), Direction::Left) == r,
        rotated(rotated(r, Direction::Left), Direction::Right) == r,
{
    let right = rotated(r, Direction::Right);
    let back = rotated(right, Direction::Left);
    lemma_rotated_wf(r, Direction::Right);
    lemma_rotated_wf(right, Direction::Left);
    assert forall|x: int, y: int, c: int|
        back.contains(x, y) && 0 <= c < back.channels() implies back.sample(x, y, c) == r.sample(
        x,
        y,
        c,
    ) by {
        lemma_rotated_sample(right, Direction::Left, x, y, c);
        lemma_rotated_sample(r, Direction::Right, right.width - 1 - y, x, c);
    }
    lemma_raster_ext(back, r);
    let left = rotated(r, Direction::Left);
    let forth = rotated(left, Direction::Right);
    lemma_rotated_wf(r, Direction::Left);
    lemma_rotated_wf(left, Direction::Right);
    assert forall|x: int, y: int, c: int|
        forth.contains(x, y) && 0 <= c < forth.channels() implies forth.sample(x, y, c)
        == r.sample(x, y, c) by {
        lemma_rotated_sample(left, Direction::Right, x, y, c);
        lemma_rotated_sample(r, Direction::Left, y, left.height - 1 - x, c);
    }
    lemma_raster_ext(forth, r);
}

/// Four quarter turns to the right restore the raster: the same
/// dimensions and the same samples.
pub proof fn lemma_four_right_turns_restore(r: Raster)
    requires
        r.wf(),
    ensures
        rotated(
            rotated(rotated(rotated(r, Direction::Right), Direction::Right), Direction::Right),
            Direction::Right,
        ) == r,
{
    let once = rotated(r, Direction::Right);
    let twice = rotated(once, Direction::Right);
    lemma_rotated_wf(r, Direction::Right);
    lemma_rotated_wf(once, Direction::Right);
    lemma_two_right_turns_flip(r);
    lemma_two_right_turns_flip(twice);
    lemma_flip_twice_restores(r);
}

/// Turns a buffer by a multiple of ninety degrees.
///
/// Fails with `Transform` on a buffer without area, and on nothing else.
pub fn rotate_buffer(buffer: &PixelBuffer, direction: Direction) -> (outcome: Result<
    PixelBuffer,
    Error,
>)
    ensures
        buffer@.has_area() ==> outcome is Ok && outcome.unwrap()@ == rotated(buffer@, direction),
        !buffer@.has_area() ==> fails_with(outcome, ErrorKind::Transform),
{
    if !buffer.has_area() {
        return Err(Error::Transform("image has no area".to_owned()));
    }
    let w: u32 = buffer.width();
    let h: u32 = buffer.height();
    let model: ColorModel = buffer.model();
    let n: usize = model.channels();
    let src: &[u8] = buffer.samples();
    let new_w: u32 = match direction {
        Direction::Flip => w,
        _ => h,
    };
    let new_h: u32 = match direction {
        Direction::Flip => h,
        _ => w,
    };
    let ghost source = buffer@;
    let ghost target = rotated(source, direction);
    proof {
        lemma_rotated_wf(source, direction);
    }
    let mut out: Vec<u8> = Vec::new();
    let mut oy: u32 = 0;
    while oy < new_h
        invariant
            source == buffer@,
            source.wf(),
            source.has_area(),
            target == rotated(source, direction),
            target.wf(),
            src@ == source.samples,
            w == source.width,
            h == source.height,
            n == source.channels(),
            new_w == target.width,
            new_h == target.height,
            oy <= new_h,
            out@.len() == oy * new_w * n,
            forall|j: int| 0 <= j < out@.len() ==> out@[j] == target.samples[j],
        decreases new_h - oy,
    {
        let mut ox: u32 = 0;
        assert(oy * new_w * n == (oy * new_w + 0) * n) by (nonlinear_arith);
        while ox < new_w
            invariant
                source == buffer@,
                source.wf(),
                source.has_area(),
                target == rotated(source, direction),
                target.wf(),
                src@ == source.samples,
                w == source.width,
                h == source.height,
                n == source.channels(),
                new_w == target.width,
                new_h == target.height,
                oy < new_h,
                ox <= new_w,
                out@.len() == (oy * new_w + ox) * n,
                forall|j: int| 0 <= j < out@.len() ==> out@[j] == target.samples[j],
            decreases new_w - ox,
        {
            let sx: u32 = match direction {
                Direction::Right => oy,
                Direction::Left => w - 1 - oy,
                Direction::Flip => w - 1 - ox,
            };
            let sy: u32 = match direction {
                Direction::Right => h - 1 - ox,
                Direction::Left => ox,
                Direction::Flip => h - 1 - oy,
            };
            proof {
                lemma_rotated_sample(source, direction, ox as int, oy as int, 0);
                lemma_offset_in_bounds(source, sx as int, sy as int, 0);
                lemma_offset_steps(source, sx as int, sy as int, 0);
                assert(src@.len() == src.len());
            }
            let base: usize = (sy as usize * w as usize + sx as usize) * n;
            let mut c: usize = 0;
            while c < n
                invariant
                    source.wf(),
                    target == rotated(source, direction),
                    target.wf(),
                    src@ == source.samples,
                    n == source.channels(),
                    oy < new_h,
                    ox < new_w,
                    new_w == target.width,
                    new_h == target.height,
                    c <= n,
                    sx == source_column(source, direction, ox as int, oy as int),
                    sy == source_row(source, direction, ox as int, oy as int),
                    source.contains(sx as int, sy as int),
                    base == source.offset(sx as int, sy as int, 0),
                    out@.len() == (oy * new_w + ox) * n + c,
                    forall|j: int| 0 <= j < out@.len() ==> out@[j] == target.samples[j],
                decreases n - c,
            {
                proof {
                    lemma_rotated_sample(source, direction, ox as int, oy as int, c as int);
                    lemma_offset_in_bounds(source, sx as int, sy as int, c as int);
                    lemma_offset_in_bounds(target, ox as int, oy as int, c as int);
                    assert(src@.len() == src.len());
                }
                out.push(src[base + c]);
                c += 1;
            }
            assert((oy * new_w + ox) * n + n == (oy * new_w + (ox + 1)) * n) by (nonlinear_arith);
            ox += 1;
        }
        assert((oy * new_w + new_w) * n == (oy + 1) * new_w * n) by (nonlinear_arith);
        oy += 1;
    }
    proof {
        assert(new_h * new_w * n == new_w * new_h * n) by (nonlinear_arith);
        assert(out@ =~= target.samples);
    }
    let rotated_buffer = PixelBuffer::from_raw(new_w, new_h, model, out);
    Ok(rotated_buffer.unwrap())
}

/// Encodes a rotated image in the container of its source: PNG without
/// loss, JPEG and WebP at [`ROTATION_QUALITY`].
///
/// Fails with `Encode`, and with nothing else: on an image that the
/// container cannot hold, and when the codec fails. What it returns is what
/// the codec wrote.
pub fn encode_rotated(buffer: &PixelBuffer, format: ContainerFormat) -> (outcome: Result<
    Vec<u8>,
    Error,
>)
    ensures
        is_encoding_of(outcome, buffer@, format, EncodePolicy::FixedQuality(ROTATION_QUALITY)),
        outcome is Ok || fails_with(outcome, ErrorKind::Encode),
        outcome is Ok ==> detected_format(outcome.unwrap()@) == Some(format) && outcome.unwrap()@.len()
            > HEADER_LEN,
{
    encode(buffer, format, EncodePolicy::FixedQuality(ROTATION_QUALITY))
}

/// The outcome is what an orthogonal rotation makes of the bytes: a failure
/// to recognise or to decode them, a `Transform` failure for an image
/// without area, and otherwise what an encode makes of the rotated raster
/// in the container of the input.
pub open spec fn is_rotation_outcome(
    outcome: Result<Vec<u8>, Error>,
    bytes: Seq<u8>,
    direction: Direction,
) -> bool {
    match detected_format(bytes) {
        None => fails_with(outcome, ErrorKind::UnrecognizedFormat),
        Some(format) => match decode_outcome(bytes, format, ColorModel::Rgb8) {
            Err(kind) => fails_with(outcome, kind),
            Ok(r) => if r.has_area() {
                is_encoding_of(
                    outcome,
                    rotated(r, direction),
                    format,
                    EncodePolicy::FixedQuality(ROTATION_QUALITY),
                )
            } else {
                fails_with(outcome, ErrorKind::Transform)
            },
        },
    }
}

/// Two outcomes of the same rotation agree: both succeed with the same
/// bytes, or both fail with the same kind of failure.
pub proof fn lemma_rotation_outcome_is_unique(
    first: Result<Vec<u8>, Error>,
    second: Result<Vec<u8>, Error>,
    bytes: Seq<u8>,
    direction: Direction,
)
    requires
        is_rotation_outcome(first, bytes, direction),
        is_rotation_outcome(second, bytes, direction),
    ensures
        first is Ok <==> second is Ok,
        first is Ok ==> first.unwrap()@ == second.unwrap()@,
        first is Err ==> first.unwrap_err().spec_kind() == second.unwrap_err().spec_kind(),
{
}

/// Rotates an encoded image by a multiple of ninety degrees and encodes it
/// again in the container it came in, whichever of the three it is.
///
/// The image is decoded without alpha, turned by [`rotate_buffer`] and
/// written by [`encode_rotated`].
///
/// Fails with `UnrecognizedFormat` exactly when the input carries no known
/// signature. Otherwise it fails with `Decode` when the codec rejects the
/// payload, with `Transform` when the image has no area, and with `Encode`
/// when the container cannot hold the rotated image or the codec fails.
/// What it returns is detected as the container of the input.
pub fn rotate_orthogonal(bytes: &[u8], direction: Direction) -> (outcome: Result<Vec<u8>, Error>)
    ensures
        is_rotation_outcome(outcome, bytes@, direction),
        detected_format(bytes@) is None <==> fails_with(outcome, ErrorKind::UnrecognizedFormat),
        outcome is Err ==> outcome.unwrap_err().spec_kind() != ErrorKind::Io,
        outcome is Ok ==> detected_format(outcome.unwrap()@) == detected_format(bytes@),
{
    let format: ContainerFormat = match detect_format(bytes) {
        Ok(format) => format,
        Err(e) => { return Err(e); },
    };
    let buffer: PixelBuffer = match decode(bytes, format, ColorModel::Rgb8) {
        Ok(buffer) => buffer,
        Err(e) => { return Err(e); },
    };
    let turned: PixelBuffer = match rotate_buffer(&buffer, direction) {
        Ok(turned) => turned,
        Err(e) => { return Err(e); },
    };
    encode_rotated(&turned, format)
}

} // verus!
