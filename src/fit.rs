//! Scale-to-fit and centring of a source image inside a canvas.
use vstd::prelude::*;
use vstd::arithmetic::div_mod::{
    lemma_div_is_ordered, lemma_div_multiples_vanish, lemma_fundamental_div_mod, lemma_mod_pos_bound,
};
use vstd::arithmetic::mul::lemma_mul_is_commutative;

verus! {

/// Where the scaled source lands on the canvas: its size and its top-left corner.
#[derive(Clone, Copy, Debug, PartialEq, Eq, Structural)]
pub struct Placement {
    pub width: u32,
    pub height: u32,
    pub x: u32,
    pub y: u32,
}

/// `floor(src_w * s)` with `s = min(dst_w / src_w, dst_h / src_h)`, written as
/// the smaller of the two candidate floors.
pub open spec fn scaled_width(src_w: u32, src_h: u32, dst_w: u32, dst_h: u32) -> int
    recommends
        src_w > 0,
        src_h > 0,
{
    let by_height = (src_w as int * dst_h as int) / (src_h as int);
    if by_height < dst_w as int { by_height } else { dst_w as int }
}

/// `floor(src_h * s)` with `s = min(dst_w / src_w, dst_h / src_h)`.
pub open spec fn scaled_height(src_w: u32, src_h: u32, dst_w: u32, dst_h: u32) -> int
    recommends
        src_w > 0,
        src_h > 0,
{
    let by_width = (src_h as int * dst_w as int) / (src_w as int);
    if by_width < dst_h as int { by_width } else { dst_h as int }
}

/// The placement of a `src_w` x `src_h` image on a `dst_w` x `dst_h` canvas.
pub open spec fn spec_place(src_w: u32, src_h: u32, dst_w: u32, dst_h: u32) -> Placement
    recommends
        src_w > 0,
        src_h > 0,
{
    let w = scaled_width(src_w, src_h, dst_w, dst_h);
    let h = scaled_height(src_w, src_h, dst_w, dst_h);
    Placement {
        width: w as u32,
        height: h as u32,
        x: ((dst_w - w) / 2) as u32,
        y: ((dst_h - h) / 2) as u32,
    }
}

proof fn lemma_product_fits(a: u32, b: u32)
    ensures
        a as int * b as int <= u64::MAX,
{
    assert(a as int * b as int <= u32::MAX as int * u32::MAX as int) by (nonlinear_arith)
        requires
            a <= u32::MAX,
            b <= u32::MAX,
    ;
}

/// Scales the source by the largest factor that keeps it inside the canvas,
/// truncating each side, and centres it with floor division of the margins.
pub fn place(src_w: u32, src_h: u32, dst_w: u32, dst_h: u32) -> (r: Placement)
    requires
        src_w > 0,
        src_h > 0,
    ensures
        r == spec_place(src_w, src_h, dst_w, dst_h),
        r.width as int == scaled_width(src_w, src_h, dst_w, dst_h),
        r.height as int == scaled_height(src_w, src_h, dst_w, dst_h),
        r.x + r.width <= dst_w,
        r.y + r.height <= dst_h,
{
    proof {
        lemma_product_fits(src_w, dst_h);
        lemma_product_fits(src_h, dst_w);
    }
    let by_height: u64 = (src_w as u64 * dst_h as u64) / src_h as u64;
    let by_width: u64 = (src_h as u64 * dst_w as u64) / src_w as u64;
    let width: u32 = if by_height < dst_w as u64 { by_height as u32 } else { dst_w };
    let height: u32 = if by_width < dst_h as u64 { by_width as u32 } else { dst_h };
    Placement { width, height, x: (dst_w - width) / 2, y: (dst_h - height) / 2 }
}

/// `n / d` is the floor of the quotient.
proof fn lemma_floor_bounds(n: int, d: int)
    requires
        n >= 0,
        d > 0,
    ensures
        (n / d) * d <= n < (n / d + 1) * d,
{
    lemma_fundamental_div_mod(n, d);
    lemma_mod_pos_bound(n, d);
    lemma_mul_is_commutative(d, n / d);
    assert((n / d + 1) * d == (n / d) * d + d) by (nonlinear_arith);
}

/// When the canvas is relatively narrower than the source, the width is the
/// binding side: the scaled width fills the canvas and the scaled height is the
/// truncated proportional height.
proof fn lemma_width_bound(src_w: u32, src_h: u32, dst_w: u32, dst_h: u32)
    requires
        src_w > 0,
        src_h > 0,
        dst_w as int * src_h as int <= dst_h as int * src_w as int,
    ensures
        scaled_width(src_w, src_h, dst_w, dst_h) == dst_w,
        scaled_height(src_w, src_h, dst_w, dst_h) == (src_h as int * dst_w as int) / (src_w as int),
{
    let (sw, sh, dw, dh) = (src_w as int, src_h as int, dst_w as int, dst_h as int);
    lemma_mul_is_commutative(dw, sh);
    lemma_mul_is_commutative(dh, sw);
    lemma_div_is_ordered(sh * dw, dh * sw, sw);
    lemma_div_multiples_vanish(dh, sw);
    lemma_mul_is_commutative(sw, dh);
    lemma_div_is_ordered(dw * sh, sw * dh, sh);
    lemma_div_multiples_vanish(dw, sh);
    lemma_mul_is_commutative(sh, dw);
}

/// The scaled image keeps the source's aspect ratio up to the truncation of one
/// side: one side fills the canvas exactly and the other is the floor of the
/// length that keeps the ratio.
pub proof fn lemma_fit_keeps_aspect(src_w: u32, src_h: u32, dst_w: u32, dst_h: u32)
    requires
        src_w > 0,
        src_h > 0,
    ensures
        ({
            let p = spec_place(src_w, src_h, dst_w, dst_h);
            ||| (p.width == dst_w && p.height as int * src_w as int <= dst_w as int * src_h as int
                && (dst_w as int * src_h as int) < (p.height as int + 1) * src_w as int)
            ||| (p.height == dst_h && p.width as int * src_h as int <= dst_h as int * src_w as int
                && (dst_h as int * src_w as int) < (p.width as int + 1) * src_h as int)
        }),
{
    let (sw, sh, dw, dh) = (src_w as int, src_h as int, dst_w as int, dst_h as int);
    if dw * sh <= dh * sw {
        lemma_width_bound(src_w, src_h, dst_w, dst_h);
        lemma_floor_bounds(sh * dw, sw);
        lemma_mul_is_commutative(sh, dw);
    } else {
        lemma_mul_is_commutative(dw, sh);
        lemma_mul_is_commutative(dh, sw);
        lemma_width_bound(src_h, src_w, dst_h, dst_w);
        lemma_floor_bounds(sw * dh, sh);
        lemma_mul_is_commutative(sw, dh);
    }
}

/// The scaled image, placed at its offsets, lies inside the canvas.
pub proof fn lemma_fit_inside_canvas(src_w: u32, src_h: u32, dst_w: u32, dst_h: u32)
    requires
        src_w > 0,
        src_h > 0,
    ensures
        spec_place(src_w, src_h, dst_w, dst_h).x + spec_place(src_w, src_h, dst_w, dst_h).width
            <= dst_w,
        spec_place(src_w, src_h, dst_w, dst_h).y + spec_place(src_w, src_h, dst_w, dst_h).height
            <= dst_h,
{
}

} // verus!
