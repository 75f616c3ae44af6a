//! Thumbnail dimension planning.
//!
//! A thumbnail keeps the aspect ratio of its source. Exactly one of the two
//! requested bounds is honoured as given; the other side is derived from the
//! source's aspect ratio and rounded to the nearest pixel.

use vstd::prelude::*;

verus! {

/// A width and a height in pixels.
#[derive(Clone, Copy, Debug, PartialEq, Eq, Structural)]
pub struct Dimensions {
    pub width: u32,
    pub height: u32,
}

impl Dimensions {
    /// Both sides are at least one pixel long.
    pub open spec fn is_positive(self) -> bool {
        self.width >= 1 && self.height >= 1
    }
}

/// `num / den` rounded to the nearest integer, halves rounding up.
/// A zero denominator yields zero.
pub open spec fn rounded_quotient(num: int, den: int) -> int {
    if den <= 0 {
        0
    } else {
        (2 * num + den) / (2 * den)
    }
}

/// The larger of `v` and one.
pub open spec fn at_least_one(v: int) -> int {
    if v < 1 {
        1
    } else {
        v
    }
}

/// A source at least as wide as it is tall; squares count as landscape.
pub open spec fn is_landscape(source_w: int, source_h: int) -> bool {
    source_w >= source_h
}

/// Width of the thumbnail planned for a source and a pair of requested bounds.
pub open spec fn planned_width(source_w: int, source_h: int, requested_w: int, requested_h: int) -> int {
    if is_landscape(source_w, source_h) {
        at_least_one(requested_w)
    } else {
        at_least_one(rounded_quotient(requested_h * source_w, source_h))
    }
}

/// Height of the thumbnail planned for a source and a pair of requested bounds.
pub open spec fn planned_height(source_w: int, source_h: int, requested_w: int, requested_h: int) -> int {
    if is_landscape(source_w, source_h) {
        at_least_one(rounded_quotient(requested_w * source_h, source_w))
    } else {
        at_least_one(requested_h)
    }
}

/// `side` is `num / den` rounded to the nearest integer, halves rounding
/// up, and lifted to at least one: stated without a division.
pub open spec fn is_nearest_side(side: int, num: int, den: int) -> bool {
    &&& side >= 1
    &&& 2 * den * side <= 2 * num + den || side == 1
    &&& 2 * num + den < 2 * den * (side + 1)
}

/// The rounded quotient lies within half of the exact quotient, and no
/// other integer lifted to at least one does.
pub proof fn lemma_rounded_quotient_is_nearest(num: int, den: int)
    requires
        0 <= num,
        0 < den,
    ensures
        is_nearest_side(at_least_one(rounded_quotient(num, den)), num, den),
        forall|side: int| is_nearest_side(side, num, den) ==> side == at_least_one(rounded_quotient(num, den)),
{
    let n = 2 * num + den;
    let d = 2 * den;
    let q = n / d;
    assert(d * q <= n < d * (q + 1) && 0 <= q) by (nonlinear_arith)
        requires
            q == n / d,
            0 <= n,
            0 < d,
    ;
    assert(2 * den * q == d * q && 2 * den * (q + 1) == d * (q + 1)) by (nonlinear_arith)
        requires
            d == 2 * den,
    ;
    let t = at_least_one(q);
    assert(2 * den * (t + 1) >= 2 * den * (q + 1)) by (nonlinear_arith)
        requires
            t >= q,
            den > 0,
    ;
    assert forall|side: int| is_nearest_side(side, num, den) implies side == t by {
        assert(side < q + 1 || side == 1) by (nonlinear_arith)
            requires
                2 * den * side <= n || side == 1,
                n < 2 * den * (q + 1),
                den > 0,
        ;
        assert(q < side + 1) by (nonlinear_arith)
            requires
                n < 2 * den * (side + 1),
                2 * den * q <= n,
                den > 0,
        ;
    }
}

/// The rounded quotient of a product `bound * minor / major` never exceeds
/// `bound` when `minor <= major`.
pub proof fn lemma_rounded_quotient_bounded(bound: int, minor: int, major: int)
    requires
        0 <= bound,
        0 <= minor <= major,
    ensures
        0 <= rounded_quotient(bound * minor, major) <= bound,
{
    if major > 0 {
        assert(bound * minor <= bound * major) by (nonlinear_arith)
            requires
                0 <= bound,
                0 <= minor <= major,
        ;
        assert(0 <= bound * minor) by (nonlinear_arith)
            requires
                0 <= bound,
                0 <= minor,
        ;
        let n = 2 * (bound * minor) + major;
        let d = 2 * major;
        assert(n < d * (bound + 1)) by (nonlinear_arith)
            requires
                n == 2 * (bound * minor) + major,
                d == 2 * major,
                bound * minor <= bound * major,
                major > 0,
        ;
        assert(0 <= n / d <= bound) by (nonlinear_arith)
            requires
                0 <= n < d * (bound + 1),
                d > 0,
                0 <= bound,
        ;
    }
}

/// For a source and requested bounds that are all positive, both planned
/// sides are at least one, and the orientation of the source alone decides
/// which requested bound is kept unchanged: the width for a landscape or
/// square source, the height for a portrait one. The derived side never
/// exceeds the kept one.
pub proof fn lemma_plan_keeps_one_bound(source_w: int, source_h: int, requested_w: int, requested_h: int)
    requires
        source_w > 0,
        source_h > 0,
        requested_w > 0,
        requested_h > 0,
    ensures
        planned_width(source_w, source_h, requested_w, requested_h) >= 1,
        planned_height(source_w, source_h, requested_w, requested_h) >= 1,
        source_w >= source_h ==> planned_width(source_w, source_h, requested_w, requested_h)
            == requested_w && planned_height(source_w, source_h, requested_w, requested_h)
            <= requested_w,
        source_w < source_h ==> planned_height(source_w, source_h, requested_w, requested_h)
            == requested_h && planned_width(source_w, source_h, requested_w, requested_h)
            <= requested_h,
{
    if source_w >= source_h {
        lemma_rounded_quotient_bounded(requested_w, source_h, source_w);
    } else {
        lemma_rounded_quotient_bounded(requested_h, source_w, source_h);
    }
}

/// Rounds `bound * minor / major` to the nearest integer and lifts the
/// result to at least one.
fn scale_side(bound: u32, minor: u32, major: u32) -> (side: u32)
    requires
        minor <= major,
    ensures
        side == at_least_one(rounded_quotient(bound * minor, major as int)),
        1 <= side,
        bound >= 1 ==> side <= bound,
        major > 0 ==> is_nearest_side(side as int, bound * minor, major as int),
{
    proof {
        lemma_rounded_quotient_bounded(bound as int, minor as int, major as int);
        if major > 0 {
            assert(0 <= bound * minor) by (nonlinear_arith)
                requires
                    0 <= bound,
                    0 <= minor,
            ;
            lemma_rounded_quotient_is_nearest(bound * minor, major as int);
        }
    }
    if major == 0 {
        return 1;
    }
    assert(0 <= bound * minor <= 0xFFFF_FFFF * 0xFFFF_FFFF) by (nonlinear_arith)
        requires
            0 <= bound <= 0xFFFF_FFFF,
            0 <= minor <= 0xFFFF_FFFF,
    ;
    let product: u128 = (bound as u128) * (minor as u128);
    let rounded: u128 = (2 * product + major as u128) / (2 * (major as u128));
    if rounded < 1 {
        1
    } else {
        rounded as u32
    }
}

/// Plans the dimensions of a thumbnail.
///
/// For a landscape or square source the requested width is kept and the
/// height follows from the aspect ratio; for a portrait source the requested
/// height is kept and the width follows. The derived side is rounded to the
/// nearest pixel, halves rounding up, and neither side is ever zero: a
/// requested bound of zero counts as one, and so does a derived side that
/// rounds to zero or that a source without area leaves undefined.
pub fn plan_thumbnail_dimensions(
    source_w: u32,
    source_h: u32,
    requested_w: u32,
    requested_h: u32,
) -> (planned: Dimensions)
    ensures
        planned.width == planned_width(source_w as int, source_h as int, requested_w as int, requested_h as int),
        planned.height == planned_height(source_w as int, source_h as int, requested_w as int, requested_h as int),
        planned.is_positive(),
        source_w >= source_h && requested_w >= 1 ==> planned.width == requested_w && planned.height
            <= requested_w,
        source_w < source_h && requested_h >= 1 ==> planned.height == requested_h && planned.width
            <= requested_h,
        source_w >= source_h && source_w > 0 ==> is_nearest_side(
            planned.height as int,
            requested_w * source_h,
            source_w as int,
        ),
        source_w < source_h ==> is_nearest_side(
            planned.width as int,
            requested_h * source_w,
            source_h as int,
        ),
{
    if source_w >= source_h {
        let height: u32 = scale_side(requested_w, source_h, source_w);
        let width: u32 = if requested_w < 1 { 1 } else { requested_w };
        Dimensions { width, height }
    } else {
        let width: u32 = scale_side(requested_h, source_w, source_h);
        let height: u32 = if requested_h < 1 { 1 } else { requested_h };
        Dimensions { width, height }
    }
}

} // verus!
