//! Decoded pixel data.
//!
//! A [`PixelBuffer`] owns interleaved 8-bit samples in row-major order. Its
//! mathematical model is a [`Raster`]; every buffer that exists holds as
//! many samples as its dimensions and colour model call for.

use vstd::prelude::*;

verus! {

/// The layout of one pixel.
#[derive(Clone, Copy, Debug, PartialEq, Eq, Structural)]
pub enum ColorModel {
    /// Red, green, blue; one byte each.
    Rgb8,
    /// Red, green, blue, alpha; one byte each.
    Rgba8,
}

impl ColorModel {
    /// The number of samples per pixel.
    pub open spec fn spec_channels(self) -> nat {
        match self {
            ColorModel::Rgb8 => 3,
            ColorModel::Rgba8 => 4,
        }
    }

    /// The number of samples per pixel.
    pub fn channels(self) -> (n: usize)
        ensures
            n == self.spec_channels(),
    {
        match self {
            ColorModel::Rgb8 => 3,
            ColorModel::Rgba8 => 4,
        }
    }
}

/// The mathematical model of a pixel buffer.
pub struct Raster {
    pub width: nat,
    pub height: nat,
    pub model: ColorModel,
    pub samples: Seq<u8>,
}

impl Raster {
    /// The number of samples per pixel.
    pub open spec fn channels(self) -> nat {
        self.model.spec_channels()
    }

    /// The raster holds exactly the samples of `width * height` pixels.
    pub open spec fn wf(self) -> bool {
        self.samples.len() == self.width * self.height * self.channels()
    }

    /// Neither side is zero.
    pub open spec fn has_area(self) -> bool {
        self.width > 0 && self.height > 0
    }

    /// The pixel position lies inside the raster.
    pub open spec fn contains(self, x: int, y: int) -> bool {
        0 <= x < self.width && 0 <= y < self.height
    }

    /// The index of channel `c` of the pixel in column `x` of row `y`.
    pub open spec fn offset(self, x: int, y: int, c: int) -> int {
        (y * self.width + x) * self.channels() + c
    }

    /// Channel `c` of the pixel in column `x` of row `y`.
    pub open spec fn sample(self, x: int, y: int, c: int) -> u8 {
        self.samples[self.offset(x, y, c)]
    }
}

/// The offset of a sample inside a raster lies inside its sample sequence.
pub proof fn lemma_offset_in_bounds(r: Raster, x: int, y: int, c: int)
    requires
        r.wf(),
        r.contains(x, y),
        0 <= c < r.channels(),
    ensures
        0 <= r.offset(x, y, c) < r.samples.len(),
{
    let w = r.width as int;
    let h = r.height as int;
    let n = r.channels() as int;
    assert(0 <= y * w + x < w * h) by (nonlinear_arith)
        requires
            0 <= x < w,
            0 <= y < h,
    ;
    assert(0 <= (y * w + x) * n + c < w * h * n) by (nonlinear_arith)
        requires
            0 <= y * w + x < w * h,
            0 <= c < n,
    ;
}

/// The partial sums that lead to an offset grow towards it, so computing an
/// offset step by step never exceeds the offset itself.
pub proof fn lemma_offset_steps(r: Raster, x: int, y: int, c: int)
    requires
        0 <= x,
        0 <= y,
        0 <= c,
    ensures
        0 <= y * r.width <= y * r.width + x <= (y * r.width + x) * r.channels() <= r.offset(x, y, c),
{
    let w = r.width as int;
    let n = r.channels() as int;
    assert(n >= 1);
    assert(0 <= y * w) by (nonlinear_arith)
        requires
            0 <= y,
            0 <= w,
    ;
    assert(y * w + x <= (y * w + x) * n) by (nonlinear_arith)
        requires
            0 <= y * w + x,
            1 <= n,
    ;
}

/// Two well-formed rasters of the same shape that agree on every sample
/// are the same raster.
pub proof fn lemma_raster_ext(a: Raster, b: Raster)
    requires
        a.wf(),
        b.wf(),
        a.width == b.width,
        a.height == b.height,
        a.model == b.model,
        forall|x: int, y: int, c: int|
            a.contains(x, y) && 0 <= c < a.channels() ==> a.sample(x, y, c) == b.sample(x, y, c),
    ensures
        a == b,
{
    let w = a.width as int;
    let n = a.channels() as int;
    assert forall|i: int| 0 <= i < a.samples.len() implies a.samples[i] == b.samples[i] by {
        lemma_offset_split(a, i);
        let c = i % n;
        let p = i / n;
        let x = p % w;
        let y = p / w;
        assert(a.sample(x, y, c) == b.sample(x, y, c));
    }
    assert(a.samples =~= b.samples);
}

/// Every index into the samples of a well-formed raster is the offset of
/// exactly one channel of one pixel inside it.
pub proof fn lemma_offset_split(r: Raster, i: int)
    requires
        r.wf(),
        0 <= i < r.samples.len(),
    ensures
        r.width > 0,
        r.contains((i / r.channels() as int) % (r.width as int), (i / r.channels() as int) / (r.width as int)),
        0 <= i % (r.channels() as int) < r.channels(),
        r.offset(
            (i / r.channels() as int) % (r.width as int),
            (i / r.channels() as int) / (r.width as int),
            i % (r.channels() as int),
        ) == i,
{
    let w = r.width as int;
    let h = r.height as int;
    let n = r.channels() as int;
    assert(n == 3 || n == 4);
    assert(w > 0 && h > 0) by (nonlinear_arith)
        requires
            0 < w * h * n,
            0 <= w,
            0 <= h,
            0 < n,
    ;
    let p = i / n;
    let c = i % n;
    assert(i == p * n + c && 0 <= c < n) by {
        vstd::arithmetic::div_mod::lemma_fundamental_div_mod(i, n);
        vstd::arithmetic::div_mod::lemma_mod_bound(i, n);
        assert(n * p == p * n) by (nonlinear_arith);
    }
    assert(0 <= p < w * h) by (nonlinear_arith)
        requires
            i == p * n + c,
            0 <= c < n,
            0 <= i < w * h * n,
    ;
    let x = p % w;
    let y = p / w;
    assert(p == y * w + x && 0 <= x < w) by {
        vstd::arithmetic::div_mod::lemma_fundamental_div_mod(p, w);
        vstd::arithmetic::div_mod::lemma_mod_bound(p, w);
        assert(w * y == y * w) by (nonlinear_arith);
    }
    assert(0 <= y < h) by (nonlinear_arith)
        requires
            p == y * w + x,
            0 <= x < w,
            0 <= p < w * h,
    ;
}

/// The pixel position and channel of an offset are recovered by division.
pub proof fn lemma_offset_unique(r: Raster, x: int, y: int, c: int)
    requires
        r.wf(),
        r.contains(x, y),
        0 <= c < r.channels(),
    ensures
        r.offset(x, y, c) % (r.channels() as int) == c,
        (r.offset(x, y, c) / (r.channels() as int)) % (r.width as int) == x,
        (r.offset(x, y, c) / (r.channels() as int)) / (r.width as int) == y,
{
    let w = r.width as int;
    let n = r.channels() as int;
    let p = y * w + x;
    let i = p * n + c;
    assert(0 <= p) by (nonlinear_arith)
        requires
            p == y * w + x,
            0 <= x,
            0 <= y,
            0 <= w,
    ;
    vstd::arithmetic::div_mod::lemma_fundamental_div_mod_converse(i, n, p, c);
    vstd::arithmetic::div_mod::lemma_fundamental_div_mod_converse(p, w, y, x);
}

/// The raster without its alpha channel: the same pixels in the `Rgb8`
/// model. A raster that has no alpha channel is left as it is.
pub open spec fn without_alpha(r: Raster) -> Raster {
    Raster {
        width: r.width,
        height: r.height,
        model: ColorModel::Rgb8,
        samples: Seq::new(
            r.width * r.height * 3,
            |i: int| r.samples[(i / 3) * (r.channels() as int) + i % 3],
        ),
    }
}

/// Dropping the alpha channel keeps the three colour samples of every
/// pixel, and changes nothing in a raster that has none.
pub proof fn lemma_without_alpha(r: Raster)
    requires
        r.wf(),
    ensures
        without_alpha(r).wf(),
        without_alpha(r).has_area() == r.has_area(),
        r.model == ColorModel::Rgb8 ==> without_alpha(r) == r,
        forall|x: int, y: int, c: int|
            r.contains(x, y) && 0 <= c < 3 ==> without_alpha(r).sample(x, y, c) == r.sample(x, y, c),
{
    let t = without_alpha(r);
    let w = r.width as int;
    let n = r.channels() as int;
    assert forall|x: int, y: int, c: int| r.contains(x, y) && 0 <= c < 3 implies t.sample(x, y, c)
        == r.sample(x, y, c) by {
        lemma_offset_in_bounds(t, x, y, c);
        lemma_offset_unique(t, x, y, c);
    }
    if r.model == ColorModel::Rgb8 {
        assert forall|i: int| 0 <= i < t.samples.len() implies t.samples[i] == r.samples[i] by {
            assert((i / 3) * 3 + i % 3 == i) by {
                vstd::arithmetic::div_mod::lemma_fundamental_div_mod(i, 3);
            }
        }
        assert(t.samples =~= r.samples);
    }
}

/// An owned, decoded image: interleaved 8-bit samples, row by row.
#[derive(Debug)]
pub struct PixelBuffer {
    width: u32,
    height: u32,
    model: ColorModel,
    samples: Vec<u8>,
}

impl View for PixelBuffer {
    type V = Raster;

    closed spec fn view(&self) -> Raster {
        Raster {
            width: self.width as nat,
            height: self.height as nat,
            model: self.model,
            samples: self.samples@,
        }
    }
}

impl PixelBuffer {
    #[verifier::type_invariant]
    spec fn well_formed(self) -> bool {
        self@.wf()
    }

    /// Builds a buffer from its parts, or nothing if the number of samples
    /// does not match the dimensions and the colour model.
    pub fn from_raw(width: u32, height: u32, model: ColorModel, samples: Vec<u8>) -> (buffer: Option<
        PixelBuffer,
    >)
        ensures
            buffer is Some <==> samples@.len() == width * height * model.spec_channels(),
            buffer is Some ==> buffer.unwrap()@ == (Raster {
                width: width as nat,
                height: height as nat,
                model,
                samples: samples@,
            }),
    {
        assert(0 <= width * height <= 0xFFFF_FFFF * 0xFFFF_FFFF) by (nonlinear_arith)
            requires
                0 <= width <= 0xFFFF_FFFF,
                0 <= height <= 0xFFFF_FFFF,
        ;
        let pixels: u128 = (width as u128) * (height as u128);
        let expected: u128 = pixels * (model.channels() as u128);
        assert(expected == width * height * model.spec_channels());
        if samples.len() as u128 == expected {
            Some(PixelBuffer { width, height, model, samples })
        } else {
            None
        }
    }

    /// Width in pixels.
    pub fn width(&self) -> (w: u32)
        ensures
            w == self@.width,
    {
        self.width
    }

    /// Height in pixels.
    pub fn height(&self) -> (h: u32)
        ensures
            h == self@.height,
    {
        self.height
    }

    /// The layout of each pixel.
    pub fn model(&self) -> (m: ColorModel)
        ensures
            m == self@.model,
    {
        self.model
    }

    /// Whether the buffer holds at least one pixel.
    pub fn has_area(&self) -> (b: bool)
        ensures
            b == self@.has_area(),
    {
        self.width > 0 && self.height > 0
    }

    /// The samples, row by row.
    pub fn samples(&self) -> (s: &[u8])
        ensures
            s@ == self@.samples,
            self@.wf(),
    {
        proof {
            use_type_invariant(self);
        }
        self.samples.as_slice()
    }

    /// Gives up the buffer for its samples.
    pub fn into_raw(self) -> (s: Vec<u8>)
        ensures
            s@ == self@.samples,
            self@.wf(),
    {
        proof {
            use_type_invariant(&self);
        }
        self.samples
    }

    /// Copies the buffer into the `Rgb8` model, dropping the alpha channel
    /// if there is one.
    pub fn to_rgb8(&self) -> (out: PixelBuffer)
        ensures
            out@ == without_alpha(self@),
            out@.wf(),
    {
        proof {
            use_type_invariant(self);
            lemma_without_alpha(self@);
        }
        let n: usize = self.model.channels();
        let ghost target = without_alpha(self@);
        let count: usize = self.samples.len() / n;
        assert(count == self@.width * self@.height) by (nonlinear_arith)
            requires
                self.samples.len() == self@.width * self@.height * n,
                count == self.samples.len() / n,
                n == 3 || n == 4,
        ;
        let mut out: Vec<u8> = Vec::new();
        let mut p: usize = 0;
        while p < count
            invariant
                n == self@.channels(),
                self@.wf(),
                self@.samples == self.samples@,
                target == without_alpha(self@),
                count == self@.width * self@.height,
                p <= count,
                out@.len() == p * 3,
                forall|j: int| 0 <= j < out@.len() ==> out@[j] == target.samples[j],
            decreases count - p,
        {
            assert(p * n + n <= self.samples.len()) by (nonlinear_arith)
                requires
                    p < count,
                    self.samples.len() == count * n,
                    n >= 3,
            ;
            let base: usize = p * n;
            let ghost before = out@;
            proof {
                vstd::arithmetic::div_mod::lemma_fundamental_div_mod_converse(p * 3, 3, p as int, 0);
                vstd::arithmetic::div_mod::lemma_fundamental_div_mod_converse(
                    p * 3 + 1,
                    3,
                    p as int,
                    1,
                );
                vstd::arithmetic::div_mod::lemma_fundamental_div_mod_converse(
                    p * 3 + 2,
                    3,
                    p as int,
                    2,
                );
                assert(p * 3 + 3 <= count * 3) by (nonlinear_arith)
                    requires
                        p < count,
                ;
            }
            out.push(self.samples[base]);
            out.push(self.samples[base + 1]);
            out.push(self.samples[base + 2]);
            p += 1;
        }
        proof {
            assert(out@ =~= target.samples);
        }
        PixelBuffer { width: self.width, height: self.height, model: ColorModel::Rgb8, samples: out }
    }

    /// Channel `c` of the pixel in column `x` of row `y`, if there is one.
    pub fn sample_at(&self, x: u32, y: u32, c: usize) -> (value: Option<u8>)
        ensures
            self@.wf(),
            value == if self@.contains(x as int, y as int) && c < self@.channels() {
                Some(self@.sample(x as int, y as int, c as int))
            } else {
                None
            },
    {
        proof {
            use_type_invariant(self);
        }
        if x < self.width && y < self.height && c < self.model.channels() {
            proof {
                lemma_offset_in_bounds(self@, x as int, y as int, c as int);
                lemma_offset_steps(self@, x as int, y as int, c as int);
                assert(self@.samples.len() == self.samples.len());
            }
            let row: usize = y as usize * self.width as usize;
            let index: usize = (row + x as usize) * self.model.channels() + c;
            Some(self.samples[index])
        } else {
            None
        }
    }
}

} // verus!
