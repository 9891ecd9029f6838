use vstd::prelude::*;

verus! {

/// `a / b` rounded to the nearest integer, halves rounded up.
pub open spec fn round_div(a: int, b: int) -> int {
    (2 * a + b) / (2 * b)
}

/// A scaled side that rounded to zero is kept at one pixel, bounds permitting.
pub open spec fn at_least_one(r: int, bound: int) -> int {
    if r == 0 && bound > 0 {
        1
    } else {
        r
    }
}

/// Size of the preview of a `w` by `h` image that must fit in `mw` by `mh`.
/// An image that fits already keeps its size; a larger one is scaled down so
/// that its tighter side meets the bound and the other side follows the
/// aspect ratio, rounded to the nearest pixel.
pub open spec fn fit_dims(w: int, h: int, mw: int, mh: int) -> (int, int) {
    if w <= mw && h <= mh {
        (w, h)
    } else if w * mh >= h * mw {
        (mw, at_least_one(round_div(h * mw, w), mh))
    } else {
        (at_least_one(round_div(w * mh, h), mw), mh)
    }
}

/// The sides `nw` by `nh` keep the ratio of `w` by `h` up to one pixel of
/// rounding on one side: `|nw/nh - w/h|`, scaled to pixels, is at most one.
pub open spec fn same_aspect_within_one_pixel(w: int, h: int, nw: int, nh: int) -> bool {
    let d = nw * h - nh * w;
    (-w <= d <= w) || (-h <= d <= h)
}

proof fn lemma_round_div_bounds(a: int, b: int)
    requires
        a >= 0,
        b > 0,
    ensures
        2 * b * round_div(a, b) <= 2 * a + b,
        2 * a + b < 2 * b * round_div(a, b) + 2 * b,
        round_div(a, b) >= 0,
{
    let x = 2 * a + b;
    let d = 2 * b;
    let q = x / d;
    vstd::arithmetic::div_mod::lemma_fundamental_div_mod(x, d);
    vstd::arithmetic::div_mod::lemma_mod_bound(x, d);
    vstd::arithmetic::div_mod::lemma_div_pos_is_pos(x, d);
    assert(d * q <= x && x < d * q + d);
    assert(2 * b * q == d * q) by (nonlinear_arith)
        requires
            d == 2 * b,
    ;
}

/// One scaled side: rounded, kept within `bound` and `side`, and within one
/// pixel of the exact value `side * bound_other / other`.
proof fn lemma_scaled_side(side: int, other: int, bound: int, bound_other: int)
    requires
        side >= 1,
        other >= 1,
        bound >= 0,
        bound_other >= 0,
        other * bound >= side * bound_other,
        other > bound_other,
    ensures
        ({
            let n = at_least_one(round_div(side * bound_other, other), bound);
            &&& 0 <= n <= bound
            &&& n <= side
            &&& -other <= bound_other * side - n * other <= other
        }),
{
    let a = side * bound_other;
    assert(a >= 0) by (nonlinear_arith)
        requires
            side >= 1,
            bound_other >= 0,
            a == side * bound_other,
    ;
    lemma_round_div_bounds(a, other);
    let q = round_div(a, other);
    assert(q <= bound) by (nonlinear_arith)
        requires
            2 * other * q <= 2 * a + other,
            2 * a + other < 2 * other * q + 2 * other,
            a <= other * bound,
            other >= 1,
    ;
    assert(q <= side) by (nonlinear_arith)
        requires
            2 * other * q <= 2 * a + other,
            a == side * bound_other,
            bound_other < other,
            side >= 1,
            other >= 1,
    ;
    assert(-other <= a - q * other <= other) by (nonlinear_arith)
        requires
            2 * other * q <= 2 * a + other,
            2 * a + other < 2 * other * q + 2 * other,
    ;
    assert(bound_other * side == a) by (nonlinear_arith)
        requires
            a == side * bound_other,
    ;
    if q == 0 && bound > 0 {
        assert(-other <= a - 1 * other <= other) by (nonlinear_arith)
            requires
                2 * a + other < 2 * other * q + 2 * other,
                q == 0,
                a >= 0,
        ;
    }
}

/// Both sides of the preview fit the bounds, no side grows, and the aspect
/// ratio of the source is kept up to one pixel of rounding.
pub proof fn lemma_fit_dims_bounded_and_proportional(w: int, h: int, mw: int, mh: int)
    requires
        w >= 1,
        h >= 1,
        mw >= 0,
        mh >= 0,
    ensures
        ({
            let (nw, nh) = fit_dims(w, h, mw, mh);
            &&& 0 <= nw <= mw
            &&& 0 <= nh <= mh
            &&& nw <= w
            &&& nh <= h
            &&& same_aspect_within_one_pixel(w, h, nw, nh)
        }),
{
    if w <= mw && h <= mh {
        assert(w * h - h * w == 0) by (nonlinear_arith);
    } else if w * mh >= h * mw {
        assert(w > mw) by (nonlinear_arith)
            requires
                !(w <= mw && h <= mh),
                w * mh >= h * mw,
                w >= 1,
                h >= 1,
                mh >= 0,
        ;
        lemma_scaled_side(h, w, mh, mw);
    } else {
        assert(h > mh) by (nonlinear_arith)
            requires
                !(w <= mw && h <= mh),
                w * mh < h * mw,
                w >= 1,
                h >= 1,
                mw >= 0,
        ;
        lemma_scaled_side(w, h, mw, mh);
        let nw = at_least_one(round_div(w * mh, h), mw);
        assert(nw * h - mh * w == -(mh * w - nw * h)) by (nonlinear_arith);
    }
}

/// An image that already fits the bounds keeps its size.
pub proof fn lemma_fit_dims_no_upscaling(w: int, h: int, mw: int, mh: int)
    requires
        0 <= w <= mw,
        0 <= h <= mh,
    ensures
        fit_dims(w, h, mw, mh) == (w, h),
{
}

/// Size of the preview of a `width` by `height` image within
/// `max_width` by `max_height`; see `fit_dims`.
pub fn thumbnail_dims(width: u32, height: u32, max_width: u32, max_height: u32) -> (r: (u32, u32))
    requires
        width >= 1,
        height >= 1,
    ensures
        (r.0 as int, r.1 as int) == fit_dims(
            width as int,
            height as int,
            max_width as int,
            max_height as int,
        ),
        r.0 <= max_width,
        r.1 <= max_height,
        r.0 <= width,
        r.1 <= height,
{
    proof {
        lemma_fit_dims_bounded_and_proportional(
            width as int,
            height as int,
            max_width as int,
            max_height as int,
        );
    }
    if width <= max_width && height <= max_height {
        return (width, height);
    }
    let w = width as u128;
    let h = height as u128;
    let mw = max_width as u128;
    let mh = max_height as u128;
    assert(w * mh <= 0xffff_ffff * 0xffff_ffff && h * mw <= 0xffff_ffff * 0xffff_ffff)
        by (nonlinear_arith)
        requires
            w <= 0xffff_ffff,
            h <= 0xffff_ffff,
            mw <= 0xffff_ffff,
            mh <= 0xffff_ffff,
    ;
    if w * mh >= h * mw {
        let q = (2 * (h * mw) + w) / (2 * w);
        let nh = if q == 0 && mh > 0 {
            1
        } else {
            q
        };
        (max_width, nh as u32)
    } else {
        let q = (2 * (w * mh) + h) / (2 * h);
        let nw = if q == 0 && mw > 0 {
            1
        } else {
            q
        };
        (nw as u32, max_height)
    }
}

} // verus!
