//! Rotation by an arbitrary angle.
//!
//! The image is turned clockwise about its geometric centre on a canvas of
//! its own size: what leaves the canvas is cut off, and what no source
//! pixel reaches is left at zero in every channel, transparent where there
//! is an alpha channel. Each target sample is interpolated between the
//! four source samples around the point it comes from.
//!
//! All arithmetic is exact. The angle is given by its cosine and sine in
//! fixed point with sixteen fractional bits; positions are kept with
//! seventeen, so that the centre of an image of even width is exact too.

use vstd::prelude::*;
use crate::buffer::{ColorModel, PixelBuffer, Raster, lemma_offset_in_bounds, lemma_offset_split,
    lemma_offset_steps};
use crate::decode::{decode, decode_outcome};
use crate::encode::{EncodePolicy, HEADER_LEN, MAX_JPEG_SIDE, ROTATION_QUALITY, encode, is_encoding_of};
use crate::error::{Error, ErrorKind, fails_with};
use crate::format::{ContainerFormat, detect_format, detected_format};
use crate::rotate::{Direction, lemma_rotated_sample, lemma_rotated_wf, rotate_buffer, rotated};

verus! {

/// One, as a cosine or sine in fixed point.
pub const UNIT: i32 = 65536;

/// One pixel, as a position in fixed point.
pub const SCALE: i64 = 131072;

/// How far the squared length of a cosine and sine pair may be off from
/// one: what rounding both to the nearest fixed-point value can cause.
pub const UNIT_SLACK: i64 = 131072;

/// The mathematical model of a [`Turn`]: cosine and sine of the angle,
/// scaled by [`UNIT`].
pub struct Spin {
    pub cos: int,
    pub sin: int,
}

impl Spin {
    /// The pair is the cosine and sine of some angle, up to rounding.
    pub open spec fn is_rotation(self) -> bool {
        &&& -UNIT <= self.cos <= UNIT
        &&& -UNIT <= self.sin <= UNIT
        &&& UNIT * UNIT - UNIT_SLACK <= self.cos * self.cos + self.sin * self.sin <= UNIT * UNIT
            + UNIT_SLACK
    }

    /// The turn by no angle at all.
    pub open spec fn zero() -> Spin {
        Spin { cos: UNIT as int, sin: 0 }
    }
}

/// A clockwise rotation by some angle.
#[derive(Clone, Copy, Debug)]
pub struct Turn {
    cos: i32,
    sin: i32,
}

impl View for Turn {
    type V = Spin;

    closed spec fn view(&self) -> Spin {
        Spin { cos: self.cos as int, sin: self.sin as int }
    }
}

impl Turn {
    #[verifier::type_invariant]
    spec fn well_formed(self) -> bool {
        self@.is_rotation()
    }

    /// The rotation whose angle has this cosine and sine, both scaled by
    /// [`UNIT`] and rounded; nothing if the pair is not of unit length.
    pub fn new(cos: i32, sin: i32) -> (turn: Option<Turn>)
        ensures
            turn is Some <==> (Spin { cos: cos as int, sin: sin as int }).is_rotation(),
            turn is Some ==> turn.unwrap()@ == (Spin { cos: cos as int, sin: sin as int }),
    {
        if cos < -UNIT || cos > UNIT || sin < -UNIT || sin > UNIT {
            return None;
        }
        assert(0 <= cos * cos <= 65536 * 65536 && 0 <= sin * sin <= 65536 * 65536)
            by (nonlinear_arith)
            requires
                -65536 <= cos <= 65536,
                -65536 <= sin <= 65536,
        ;
        let length: i64 = (cos as i64) * (cos as i64) + (sin as i64) * (sin as i64);
        let one: i64 = (UNIT as i64) * (UNIT as i64);
        if length < one - UNIT_SLACK || length > one + UNIT_SLACK {
            return None;
        }
        Some(Turn { cos, sin })
    }

    /// The rotation by no angle at all.
    pub fn identity() -> (turn: Turn)
        ensures
            turn@ == Spin::zero(),
    {
        Turn { cos: UNIT, sin: 0 }
    }

    /// The cosine of the angle, scaled by [`UNIT`].
    pub fn cos(&self) -> (cos: i32)
        ensures
            cos == self@.cos,
            self@.is_rotation(),
    {
        proof {
            use_type_invariant(self);
        }
        self.cos
    }

    /// The sine of the angle, scaled by [`UNIT`].
    pub fn sin(&self) -> (sin: i32)
        ensures
            sin == self@.sin,
            self@.is_rotation(),
    {
        proof {
            use_type_invariant(self);
        }
        self.sin
    }
}

/// Column, in fixed point, of the point in the source that the turn moves
/// to column `x` of row `y`.
pub open spec fn source_column(r: Raster, spin: Spin, x: int, y: int) -> int {
    (2 * x - (r.width - 1)) * spin.cos + (2 * y - (r.height - 1)) * spin.sin + (r.width - 1) * UNIT
}

/// Row, in fixed point, of the point in the source that the turn moves to
/// column `x` of row `y`.
pub open spec fn source_row(r: Raster, spin: Spin, x: int, y: int) -> int {
    (2 * y - (r.height - 1)) * spin.cos - (2 * x - (r.width - 1)) * spin.sin + (r.height - 1) * UNIT
}

/// The point that the turn moves to column `x` of row `y` lies among the
/// pixels of the source.
pub open spec fn has_source(r: Raster, spin: Spin, x: int, y: int) -> bool {
    &&& 0 <= source_column(r, spin, x, y) <= (r.width - 1) * SCALE
    &&& 0 <= source_row(r, spin, x, y) <= (r.height - 1) * SCALE
}

/// The value between four neighbouring samples at the fractions `fx` and
/// `fy` of a pixel from the first, rounded to the nearest integer.
pub open spec fn blend(p00: int, p10: int, p01: int, p11: int, fx: int, fy: int) -> int {
    ((SCALE - fx) * (SCALE - fy) * p00 + fx * (SCALE - fy) * p10 + (SCALE - fx) * fy * p01 + fx * fy
        * p11 + SCALE * SCALE / 2) / (SCALE * SCALE)
}

/// The neighbour after `i` on a side of length `side`, or `i` itself at the
/// far edge.
pub open spec fn next_within(i: int, side: int) -> int {
    if i + 1 < side {
        i + 1
    } else {
        i
    }
}

/// Channel `c` of the turned raster in column `x` of row `y`.
pub open spec fn turned_sample(r: Raster, spin: Spin, x: int, y: int, c: int) -> int {
    if has_source(r, spin, x, y) {
        let sx = source_column(r, spin, x, y);
        let sy = source_row(r, spin, x, y);
        let x0 = sx / (SCALE as int);
        let y0 = sy / (SCALE as int);
        let x1 = next_within(x0, r.width as int);
        let y1 = next_within(y0, r.height as int);
        blend(
            r.sample(x0, y0, c) as int,
            r.sample(x1, y0, c) as int,
            r.sample(x0, y1, c) as int,
            r.sample(x1, y1, c) as int,
            sx % (SCALE as int),
            sy % (SCALE as int),
        )
    } else {
        0
    }
}

/// The raster turned about its centre, on a canvas of its own size.
pub open spec fn turned(r: Raster, spin: Spin) -> Raster {
    Raster {
        width: r.width,
        height: r.height,
        model: r.model,
        samples: Seq::new(
            r.samples.len(),
            |i: int|
                {
                    let c = i % (r.channels() as int);
                    let p = i / (r.channels() as int);
                    turned_sample(r, spin, p % (r.width as int), p / (r.width as int), c) as u8
                },
        ),
    }
}

/// A blend of four samples is a sample: it lies between 0 and 255. With no
/// fraction on either axis it is the first of the four.
pub proof fn lemma_blend_bounded(p00: int, p10: int, p01: int, p11: int, fx: int, fy: int)
    requires
        0 <= p00 <= 255,
        0 <= p10 <= 255,
        0 <= p01 <= 255,
        0 <= p11 <= 255,
        0 <= fx < SCALE,
        0 <= fy < SCALE,
    ensures
        0 <= blend(p00, p10, p01, p11, fx, fy) <= 255,
        fx == 0 && fy == 0 ==> blend(p00, p10, p01, p11, fx, fy) == p00,
{
    let f = SCALE as int;
    let a = f - fx;
    let b = f - fy;
    let w00 = a * b;
    let w10 = fx * b;
    let w01 = a * fy;
    let w11 = fx * fy;
    assert(w00 >= 0 && w10 >= 0 && w01 >= 0 && w11 >= 0) by (nonlinear_arith)
        requires
            a >= 0,
            b >= 0,
            fx >= 0,
            fy >= 0,
            w00 == a * b,
            w10 == fx * b,
            w01 == a * fy,
            w11 == fx * fy,
    ;
    assert(w00 + w10 + w01 + w11 == f * f) by (nonlinear_arith)
        requires
            a == f - fx,
            b == f - fy,
            w00 == a * b,
            w10 == fx * b,
            w01 == a * fy,
            w11 == fx * fy,
    ;
    let total = w00 * p00 + w10 * p10 + w01 * p01 + w11 * p11;
    assert(0 <= total <= 255 * (f * f)) by (nonlinear_arith)
        requires
            total == w00 * p00 + w10 * p10 + w01 * p01 + w11 * p11,
            w00 >= 0,
            w10 >= 0,
            w01 >= 0,
            w11 >= 0,
            w00 + w10 + w01 + w11 == f * f,
            0 <= p00 <= 255,
            0 <= p10 <= 255,
            0 <= p01 <= 255,
            0 <= p11 <= 255,
    ;
    let d = f * f;
    assert(d == 17179869184) by (nonlinear_arith)
        requires
            d == f * f,
            f == 131072,
    ;
    assert(f * f / 2 == 8589934592);
    assert(blend(p00, p10, p01, p11, fx, fy) == (total + 8589934592) / d);
    if fx == 0 && fy == 0 {
        assert(w10 == 0 && w01 == 0 && w11 == 0 && w00 == d) by (nonlinear_arith)
            requires
                fx == 0,
                fy == 0,
                a == f,
                b == f,
                d == f * f,
                w00 == a * b,
                w10 == fx * b,
                w01 == a * fy,
                w11 == fx * fy,
        ;
        assert(w10 * p10 == 0 && w01 * p01 == 0 && w11 * p11 == 0) by (nonlinear_arith)
            requires
                w10 == 0,
                w01 == 0,
                w11 == 0,
        ;
        assert(total == d * p00) by (nonlinear_arith)
            requires
                total == w00 * p00 + w10 * p10 + w01 * p01 + w11 * p11,
                w10 * p10 == 0,
                w01 * p01 == 0,
                w11 * p11 == 0,
                w00 == d,
        ;
        vstd::arithmetic::div_mod::lemma_fundamental_div_mod_converse(
            total + 8589934592,
            d,
            p00,
            8589934592,
        );
    }
}

/// A product is bounded by the product of the bounds of its factors.
proof fn lemma_product_bounded(a: int, b: int, bound_a: int, bound_b: int)
    requires
        -bound_a <= a <= bound_a,
        -bound_b <= b <= bound_b,
    ensures
        -(bound_a * bound_b) <= a * b <= bound_a * bound_b,
{
    assert(-(bound_a * bound_b) <= a * b <= bound_a * bound_b) by (nonlinear_arith)
        requires
            -bound_a <= a <= bound_a,
            -bound_b <= b <= bound_b,
    ;
}

/// A turned raster has the shape of its source.
pub proof fn lemma_turned_wf(r: Raster, spin: Spin)
    requires
        r.wf(),
    ensures
        turned(r, spin).wf(),
        turned(r, spin).width == r.width,
        turned(r, spin).height == r.height,
        turned(r, spin).model == r.model,
{
}

/// The sample of a turned raster at a position is the one that
/// [`turned_sample`] describes.
pub proof fn lemma_turned_sample(r: Raster, spin: Spin, x: int, y: int, c: int)
    requires
        r.wf(),
        r.contains(x, y),
        0 <= c < r.channels(),
    ensures
        turned(r, spin).sample(x, y, c) == turned_sample(r, spin, x, y, c) as u8,
        0 <= r.offset(x, y, c) < r.samples.len(),
        turned(r, spin).samples[r.offset(x, y, c)] == turned_sample(r, spin, x, y, c) as u8,
{
    let t = turned(r, spin);
    lemma_offset_in_bounds(r, x, y, c);
    crate::buffer::lemma_offset_unique(r, x, y, c);
    assert(t.offset(x, y, c) == r.offset(x, y, c));
}

/// Turning by no angle changes nothing: the same dimensions and the same
/// samples.
pub proof fn lemma_zero_turn_restores(r: Raster)
    requires
        r.wf(),
    ensures
        turned(r, Spin::zero()) == r,
{
    let spin = Spin::zero();
    let t = turned(r, spin);
    let w = r.width as int;
    let h = r.height as int;
    assert forall|i: int| 0 <= i < r.samples.len() implies t.samples[i] == r.samples[i] by {
        lemma_offset_split(r, i);
        let n = r.channels() as int;
        let c = i % n;
        let p = i / n;
        let x = p % w;
        let y = p / w;
        let sx = source_column(r, spin, x, y);
        let sy = source_row(r, spin, x, y);
        assert(sx == x * 131072) by (nonlinear_arith)
            requires
                sx == (2 * x - (w - 1)) * 65536 + (2 * y - (h - 1)) * 0 + (w - 1) * 65536,
        ;
        assert(sy == y * 131072) by (nonlinear_arith)
            requires
                sy == (2 * y - (h - 1)) * 65536 - (2 * x - (w - 1)) * 0 + (h - 1) * 65536,
        ;
        assert(has_source(r, spin, x, y));
        assert(sx / 131072 == x && sx % 131072 == 0);
        assert(sy / 131072 == y && sy % 131072 == 0);
        let x1 = next_within(x, w);
        let y1 = next_within(y, h);
        lemma_blend_bounded(
            r.sample(x, y, c) as int,
            r.sample(x1, y, c) as int,
            r.sample(x, y1, c) as int,
            r.sample(x1, y1, c) as int,
            0,
            0,
        );
        assert(turned_sample(r, spin, x, y, c) == r.sample(x, y, c));
    }
    assert(t.samples =~= r.samples);
}

/// On a square raster, the turn by a right angle is the quarter turn to
/// the right: the two rotations of this crate agree where both are exact.
pub proof fn lemma_right_angle_turn_of_square(r: Raster)
    requires
        r.wf(),
        r.width == r.height,
    ensures
        turned(r, Spin { cos: 0, sin: UNIT as int }) == rotated(r, Direction::Right),
{
    let spin = Spin { cos: 0, sin: UNIT as int };
    let t = turned(r, spin);
    let q = rotated(r, Direction::Right);
    let w = r.width as int;
    let h = r.height as int;
    lemma_rotated_wf(r, Direction::Right);
    assert forall|i: int| 0 <= i < r.samples.len() implies t.samples[i] == q.samples[i] by {
        lemma_offset_split(r, i);
        let n = r.channels() as int;
        let c = i % n;
        let p = i / n;
        let x = p % w;
        let y = p / w;
        let sx = source_column(r, spin, x, y);
        let sy = source_row(r, spin, x, y);
        assert(sx == y * 131072) by (nonlinear_arith)
            requires
                sx == (2 * x - (w - 1)) * 0 + (2 * y - (h - 1)) * 65536 + (w - 1) * 65536,
                w == h,
        ;
        assert(sy == (h - 1 - x) * 131072) by (nonlinear_arith)
            requires
                sy == (2 * y - (h - 1)) * 0 - (2 * x - (w - 1)) * 65536 + (h - 1) * 65536,
                w == h,
        ;
        assert(has_source(r, spin, x, y));
        assert(sx / 131072 == y && sx % 131072 == 0);
        assert(sy / 131072 == h - 1 - x && sy % 131072 == 0);
        let x0 = y;
        let y0 = h - 1 - x;
        let x1 = next_within(x0, w);
        let y1 = next_within(y0, h);
        lemma_blend_bounded(
            r.sample(x0, y0, c) as int,
            r.sample(x1, y0, c) as int,
            r.sample(x0, y1, c) as int,
            r.sample(x1, y1, c) as int,
            0,
            0,
        );
        assert(turned_sample(r, spin, x, y, c) == r.sample(y, h - 1 - x, c));
        lemma_rotated_sample(r, Direction::Right, x, y, c);
        assert(q.offset(x, y, c) == i);
    }
    assert(t.samples =~= q.samples);
}

/// The turn by a straight angle is the half turn, whatever the shape of
/// the raster.
pub proof fn lemma_straight_angle_turn_is_flip(r: Raster)
    requires
        r.wf(),
    ensures
        turned(r, Spin { cos: -(UNIT as int), sin: 0 }) == rotated(r, Direction::Flip),
{
    let spin = Spin { cos: -(UNIT as int), sin: 0 };
    let t = turned(r, spin);
    let q = rotated(r, Direction::Flip);
    let w = r.width as int;
    let h = r.height as int;
    lemma_rotated_wf(r, Direction::Flip);
    assert forall|i: int| 0 <= i < r.samples.len() implies t.samples[i] == q.samples[i] by {
        lemma_offset_split(r, i);
        let n = r.channels() as int;
        let c = i % n;
        let p = i / n;
        let x = p % w;
        let y = p / w;
        let sx = source_column(r, spin, x, y);
        let sy = source_row(r, spin, x, y);
        assert(sx == (w - 1 - x) * 131072) by (nonlinear_arith)
            requires
                sx == (2 * x - (w - 1)) * (-65536) + (2 * y - (h - 1)) * 0 + (w - 1) * 65536,
        ;
        assert(sy == (h - 1 - y) * 131072) by (nonlinear_arith)
            requires
                sy == (2 * y - (h - 1)) * (-65536) - (2 * x - (w - 1)) * 0 + (h - 1) * 65536,
        ;
        assert(has_source(r, spin, x, y));
        assert(sx / 131072 == w - 1 - x && sx % 131072 == 0);
        assert(sy / 131072 == h - 1 - y && sy % 131072 == 0);
        let x0 = w - 1 - x;
        let y0 = h - 1 - y;
        let x1 = next_within(x0, w);
        let y1 = next_within(y0, h);
        lemma_blend_bounded(
            r.sample(x0, y0, c) as int,
            r.sample(x1, y0, c) as int,
            r.sample(x0, y1, c) as int,
            r.sample(x1, y1, c) as int,
            0,
            0,
        );
        assert(turned_sample(r, spin, x, y, c) == r.sample(w - 1 - x, h - 1 - y, c));
        lemma_rotated_sample(r, Direction::Flip, x, y, c);
        assert(q.offset(x, y, c) == i);
    }
    assert(t.samples =~= q.samples);
}

/// Turns a buffer clockwise about its centre, on a canvas of its own size.
///
/// Each target sample is interpolated between the four source samples
/// around the point it comes from; where that point lies outside the
/// source, every channel is zero.
///
/// Fails with `Transform` on a buffer without area, and on nothing else.
pub fn rotate_about_center(buffer: &PixelBuffer, turn: Turn) -> (outcome: Result<PixelBuffer, Error>)
    ensures
        buffer@.has_area() ==> outcome is Ok && outcome.unwrap()@ == turned(buffer@, turn@),
        !buffer@.has_area() ==> fails_with(outcome, ErrorKind::Transform),
{
    if !buffer.has_area() {
        return Err(Error::Transform("image has no area".to_owned()));
    }
    let w: u32 = buffer.width();
    let h: u32 = buffer.height();
    let model: ColorModel = buffer.model();
    let n: usize = model.channels();
    let src: &[u8] = buffer.samples();
    let cos: i64 = turn.cos() as i64;
    let sin: i64 = turn.sin() as i64;
    let wm: i64 = w as i64 - 1;
    let hm: i64 = h as i64 - 1;
    let ghost source = buffer@;
    let ghost spin = turn@;
    let ghost target = turned(source, spin);
    let mut out: Vec<u8> = Vec::new();
    let mut y: u32 = 0;
    while y < h
        invariant
            source == buffer@,
            source.wf(),
            source.has_area(),
            spin.is_rotation(),
            target == turned(source, spin),
            src@ == source.samples,
            w == source.width,
            h == source.height,
            n == source.channels(),
            cos == spin.cos,
            sin == spin.sin,
            wm == w - 1,
            hm == h - 1,
            y <= h,
            out@.len() == y * w * n,
            forall|j: int| 0 <= j < out@.len() ==> out@[j] == target.samples[j],
        decreases h - y,
    {
        let mut x: u32 = 0;
        assert(y * w * n == (y * w + 0) * n) by (nonlinear_arith);
        while x < w
            invariant
                source == buffer@,
                source.wf(),
                source.has_area(),
                spin.is_rotation(),
                target == turned(source, spin),
                src@ == source.samples,
                w == source.width,
                h == source.height,
                n == source.channels(),
                cos == spin.cos,
                sin == spin.sin,
                wm == w - 1,
                hm == h - 1,
                y < h,
                x <= w,
                out@.len() == (y * w + x) * n,
                forall|j: int| 0 <= j < out@.len() ==> out@[j] == target.samples[j],
            decreases w - x,
        {
            let dx: i64 = 2 * (x as i64) - wm;
            let dy: i64 = 2 * (y as i64) - hm;
            proof {
                lemma_product_bounded(dx as int, cos as int, 0x1_0000_0000, 65536);
                lemma_product_bounded(dy as int, sin as int, 0x1_0000_0000, 65536);
                lemma_product_bounded(dy as int, cos as int, 0x1_0000_0000, 65536);
                lemma_product_bounded(dx as int, sin as int, 0x1_0000_0000, 65536);
                lemma_product_bounded(wm as int, 131072, 0x1_0000_0000, 131072);
                lemma_product_bounded(hm as int, 131072, 0x1_0000_0000, 131072);
                lemma_offset_in_bounds(source, x as int, y as int, 0);
                assert(src@.len() == src.len());
            }
            let sx: i64 = dx * cos + dy * sin + wm * (UNIT as i64);
            let sy: i64 = dy * cos - dx * sin + hm * (UNIT as i64);
            assert(sx == source_column(source, spin, x as int, y as int));
            assert(sy == source_row(source, spin, x as int, y as int));
            let inside: bool = 0 <= sx && sx <= wm * SCALE && 0 <= sy && sy <= hm * SCALE;
            assert(inside == has_source(source, spin, x as int, y as int));
            if inside {
                let x0: u32 = ((sx as u64) / (SCALE as u64)) as u32;
                let y0: u32 = ((sy as u64) / (SCALE as u64)) as u32;
                let fx: u64 = (sx as u64) % (SCALE as u64);
                let fy: u64 = (sy as u64) % (SCALE as u64);
                let x1: u32 = if x0 + 1 < w {
                    x0 + 1
                } else {
                    x0
                };
                let y1: u32 = if y0 + 1 < h {
                    y0 + 1
                } else {
                    y0
                };
                assert(x0 == (sx as int) / (SCALE as int) && y0 == (sy as int) / (SCALE as int));
                assert(x1 == next_within(x0 as int, w as int) && y1 == next_within(
                    y0 as int,
                    h as int,
                ));
                proof {
                    lemma_offset_in_bounds(source, x0 as int, y0 as int, 0);
                    lemma_offset_in_bounds(source, x1 as int, y0 as int, 0);
                    lemma_offset_in_bounds(source, x0 as int, y1 as int, 0);
                    lemma_offset_in_bounds(source, x1 as int, y1 as int, 0);
                    lemma_offset_steps(source, x0 as int, y0 as int, 0);
                    lemma_offset_steps(source, x1 as int, y0 as int, 0);
                    lemma_offset_steps(source, x0 as int, y1 as int, 0);
                    lemma_offset_steps(source, x1 as int, y1 as int, 0);
                }
                let o00: usize = (y0 as usize * w as usize + x0 as usize) * n;
                let o10: usize = (y0 as usize * w as usize + x1 as usize) * n;
                let o01: usize = (y1 as usize * w as usize + x0 as usize) * n;
                let o11: usize = (y1 as usize * w as usize + x1 as usize) * n;
                let scale: u64 = SCALE as u64;
                proof {
                    lemma_product_bounded((scale - fx) as int, (scale - fy) as int, 131072, 131072);
                    lemma_product_bounded(fx as int, (scale - fy) as int, 131072, 131072);
                    lemma_product_bounded((scale - fx) as int, fy as int, 131072, 131072);
                    lemma_product_bounded(fx as int, fy as int, 131072, 131072);
                }
                let w00: u64 = (scale - fx) * (scale - fy);
                let w10: u64 = fx * (scale - fy);
                let w01: u64 = (scale - fx) * fy;
                let w11: u64 = fx * fy;
                let mut c: usize = 0;
                while c < n
                    invariant
                        source.wf(),
                        spin.is_rotation(),
                        target == turned(source, spin),
                        src@ == source.samples,
                        w == source.width,
                        h == source.height,
                        n == source.channels(),
                        y < h,
                        x < w,
                        c <= n,
                        has_source(source, spin, x as int, y as int),
                        x0 == source_column(source, spin, x as int, y as int) / (SCALE as int),
                        y0 == source_row(source, spin, x as int, y as int) / (SCALE as int),
                        fx == source_column(source, spin, x as int, y as int) % (SCALE as int),
                        fy == source_row(source, spin, x as int, y as int) % (SCALE as int),
                        x1 == next_within(x0 as int, w as int),
                        y1 == next_within(y0 as int, h as int),
                        source.contains(x0 as int, y0 as int),
                        source.contains(x1 as int, y1 as int),
                        o00 == source.offset(x0 as int, y0 as int, 0),
                        o10 == source.offset(x1 as int, y0 as int, 0),
                        o01 == source.offset(x0 as int, y1 as int, 0),
                        o11 == source.offset(x1 as int, y1 as int, 0),
                        w00 == (SCALE - fx) * (SCALE - fy),
                        w10 == fx * (SCALE - fy),
                        w01 == (SCALE - fx) * fy,
                        w11 == fx * fy,
                        0 <= w00 <= 17179869184,
                        0 <= w10 <= 17179869184,
                        0 <= w01 <= 17179869184,
                        0 <= w11 <= 17179869184,
                        out@.len() == (y * w + x) * n + c,
                        forall|j: int| 0 <= j < out@.len() ==> out@[j] == target.samples[j],
                    decreases n - c,
                {
                    proof {
                        lemma_offset_in_bounds(source, x0 as int, y0 as int, c as int);
                        lemma_offset_in_bounds(source, x1 as int, y0 as int, c as int);
                        lemma_offset_in_bounds(source, x0 as int, y1 as int, c as int);
                        lemma_offset_in_bounds(source, x1 as int, y1 as int, c as int);
                        assert(src@.len() == src.len());
                    }
                    let p00: u64 = src[o00 + c] as u64;
                    let p10: u64 = src[o10 + c] as u64;
                    let p01: u64 = src[o01 + c] as u64;
                    let p11: u64 = src[o11 + c] as u64;
                    proof {
                        lemma_product_bounded(w00 as int, p00 as int, 17179869184, 255);
                        lemma_product_bounded(w10 as int, p10 as int, 17179869184, 255);
                        lemma_product_bounded(w01 as int, p01 as int, 17179869184, 255);
                        lemma_product_bounded(w11 as int, p11 as int, 17179869184, 255);
                        lemma_blend_bounded(
                            p00 as int,
                            p10 as int,
                            p01 as int,
                            p11 as int,
                            fx as int,
                            fy as int,
                        );
                        lemma_turned_sample(source, spin, x as int, y as int, c as int);
                        assert(SCALE * SCALE == 17179869184 && SCALE * SCALE / 2 == 8589934592);
                    }
                    let total: u64 = w00 * p00 + w10 * p10 + w01 * p01 + w11 * p11 + 8589934592;
                    let value: u64 = total / 17179869184;
                    assert(value == blend(
                        p00 as int,
                        p10 as int,
                        p01 as int,
                        p11 as int,
                        fx as int,
                        fy as int,
                    ));
                    assert(value == turned_sample(source, spin, x as int, y as int, c as int));
                    out.push(value as u8);
                    c += 1;
                }
            } else {
                let mut c: usize = 0;
                while c < n
                    invariant
                        source.wf(),
                        target == turned(source, spin),
                        w == source.width,
                        h == source.height,
                        n == source.channels(),
                        y < h,
                        x < w,
                        c <= n,
                        !has_source(source, spin, x as int, y as int),
                        out@.len() == (y * w + x) * n + c,
                        forall|j: int| 0 <= j < out@.len() ==> out@[j] == target.samples[j],
                    decreases n - c,
                {
                    proof {
                        lemma_turned_sample(source, spin, x as int, y as int, c as int);
                    }
                    out.push(0);
                    c += 1;
                }
            }
            assert((y * w + x) * n + n == (y * w + (x + 1)) * n) by (nonlinear_arith);
            x += 1;
        }
        assert((y * w + w) * n == (y + 1) * w * n) by (nonlinear_arith);
        y += 1;
    }
    proof {
        assert(h * w * n == w * h * n) by (nonlinear_arith);
        assert(out@ =~= target.samples);
    }
    let turned_buffer = PixelBuffer::from_raw(w, h, model, out);
    Ok(turned_buffer.unwrap())
}

/// What a rotation is asked to do: a lossless turn by a multiple of ninety
/// degrees, or an interpolated turn by any angle.
#[derive(Clone, Copy, Debug)]
pub enum RotationRequest {
    /// Move the pixels; the canvas follows the image.
    Orthogonal(Direction),
    /// Interpolate; the canvas keeps its size.
    Angle(Turn),
}

/// The raster rotated as requested.
pub open spec fn rotated_as(r: Raster, request: RotationRequest) -> Raster {
    match request {
        RotationRequest::Orthogonal(direction) => rotated(r, direction),
        RotationRequest::Angle(turn) => turned(r, turn@),
    }
}

/// Rotates a buffer as requested, by [`rotate_buffer`] or by
/// [`rotate_about_center`]: the shape of the request alone decides.
///
/// Fails with `Transform` on a buffer without area, and on nothing else.
pub fn rotate(buffer: &PixelBuffer, request: RotationRequest) -> (outcome: Result<PixelBuffer, Error>)
    ensures
        buffer@.has_area() ==> outcome is Ok && outcome.unwrap()@ == rotated_as(buffer@, request),
        !buffer@.has_area() ==> fails_with(outcome, ErrorKind::Transform),
{
    match request {
        RotationRequest::Orthogonal(direction) => rotate_buffer(buffer, direction),
        RotationRequest::Angle(turn) => rotate_about_center(buffer, turn),
    }
}

/// The bytes of an outcome that carries the sides of the canvas beside
/// them.
pub open spec fn bytes_of(outcome: Result<(Vec<u8>, u32, u32), Error>) -> Result<Vec<u8>, Error> {
    match outcome {
        Ok(parts) => Ok(parts.0),
        Err(e) => Err(e),
    }
}

/// The outcome is what a rotation by an angle makes of the bytes: a failure
/// to recognise or to decode them, a `Transform` failure for an image
/// without area, and otherwise what an encode as JPEG at
/// [`ROTATION_QUALITY`] makes of the turned raster, with the sides of the
/// decoded image beside it.
pub open spec fn is_turn_outcome(
    outcome: Result<(Vec<u8>, u32, u32), Error>,
    bytes: Seq<u8>,
    spin: Spin,
) -> bool {
    match detected_format(bytes) {
        None => fails_with(outcome, ErrorKind::UnrecognizedFormat),
        Some(format) => match decode_outcome(bytes, format, ColorModel::Rgba8) {
            Err(kind) => fails_with(outcome, kind),
            Ok(r) => if r.has_area() {
                &&& is_encoding_of(
                    bytes_of(outcome),
                    turned(r, spin),
                    ContainerFormat::Jpeg,
                    EncodePolicy::FixedQuality(ROTATION_QUALITY),
                )
                &&& outcome is Ok ==> outcome.unwrap().1 == r.width && outcome.unwrap().2 == r.height
            } else {
                fails_with(outcome, ErrorKind::Transform)
            },
        },
    }
}

/// Two outcomes of the same rotation by an angle agree: both succeed with
/// the same bytes and sides, or both fail with the same kind of failure.
pub proof fn lemma_turn_outcome_is_unique(
    first: Result<(Vec<u8>, u32, u32), Error>,
    second: Result<(Vec<u8>, u32, u32), Error>,
    bytes: Seq<u8>,
    spin: Spin,
)
    requires
        is_turn_outcome(first, bytes, spin),
        is_turn_outcome(second, bytes, spin),
    ensures
        first is Ok <==> second is Ok,
        first is Ok ==> first.unwrap().0@ == second.unwrap().0@ && first.unwrap().1
            == second.unwrap().1 && first.unwrap().2 == second.unwrap().2,
        first is Err ==> first.unwrap_err().spec_kind() == second.unwrap_err().spec_kind(),
{
}

/// Rotates an encoded image clockwise by an arbitrary angle and encodes it
/// as JPEG. Returns the bytes with the width and height of the canvas,
/// which are those of the source.
///
/// The image is decoded with alpha, turned by [`rotate_about_center`] and
/// written without alpha at [`ROTATION_QUALITY`]: what the turn left
/// transparent comes out black.
///
/// Fails with `UnrecognizedFormat` exactly when the input carries no known
/// signature. Otherwise it fails with `Decode` when the codec rejects the
/// payload, with `Transform` when the image has no area, and with `Encode`
/// when the image is too large for JPEG or the codec fails.
pub fn rotate_arbitrary(bytes: &[u8], turn: Turn) -> (outcome: Result<(Vec<u8>, u32, u32), Error>)
    ensures
        is_turn_outcome(outcome, bytes@, turn@),
        detected_format(bytes@) is None <==> fails_with(outcome, ErrorKind::UnrecognizedFormat),
        outcome is Err ==> outcome.unwrap_err().spec_kind() != ErrorKind::Io,
        outcome is Ok ==> 0 < outcome.unwrap().1 <= MAX_JPEG_SIDE && 0 < outcome.unwrap().2
            <= MAX_JPEG_SIDE,
        outcome is Ok ==> detected_format(outcome.unwrap().0@) == Some(ContainerFormat::Jpeg)
            && outcome.unwrap().0@.len() > HEADER_LEN,
{
    let format: ContainerFormat = match detect_format(bytes) {
        Ok(format) => format,
        Err(e) => { return Err(e); },
    };
    let buffer: PixelBuffer = match decode(bytes, format, ColorModel::Rgba8) {
        Ok(buffer) => buffer,
        Err(e) => { return Err(e); },
    };
    let canvas: PixelBuffer = match rotate_about_center(&buffer, turn) {
        Ok(canvas) => canvas,
        Err(e) => { return Err(e); },
    };
    match encode(&canvas, ContainerFormat::Jpeg, EncodePolicy::FixedQuality(ROTATION_QUALITY)) {
        Ok(jpeg) => Ok((jpeg, canvas.width(), canvas.height())),
        Err(e) => Err(e),
    }
}

} // verus!
