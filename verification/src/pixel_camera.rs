//! The low-resolution picture and how it is blown up to fill a window.

use vstd::prelude::*;

verus! {

/// Width of the low-resolution picture, in pixels.
pub const LOW_W: u32 = 160;

/// Height of the low-resolution picture, in pixels.
pub const LOW_H: u32 = 144;

/// The size at which the picture is shown.
#[derive(Clone, Copy, Debug, PartialEq, Eq, Structural)]
pub struct SpriteFit {
    /// How many window pixels one picture pixel covers along each side.
    pub scale: u32,
    pub width: u32,
    pub height: u32,
}

/// How often `base` goes into `window`, but at least once.
pub open spec fn whole_scale(window: u32, base: u32) -> int {
    if window / base >= 1 {
        (window / base) as int
    } else {
        1
    }
}

/// The scale of a picture of `base_w` by `base_h` pixels in a window of
/// `win_w` by `win_h`: the smaller of the two sides' whole scales.
pub open spec fn fit_scale(win_w: u32, win_h: u32, base_w: u32, base_h: u32) -> int {
    if whole_scale(win_w, base_w) <= whole_scale(win_h, base_h) {
        whole_scale(win_w, base_w)
    } else {
        whole_scale(win_h, base_h)
    }
}

fn side_scale(window: u32, base: u32) -> (s: u32)
    requires
        base > 0,
    ensures
        s == whole_scale(window, base),
{
    let s = window / base;
    if s >= 1 {
        s
    } else {
        1
    }
}

/// Fits the picture into the window: every picture pixel becomes a square
/// of whole window pixels, as large as both sides of the window allow and
/// never smaller than one pixel.
pub fn fit_sprite_to_window(win_w: u32, win_h: u32, base_w: u32, base_h: u32) -> (fit: SpriteFit)
    requires
        base_w > 0,
        base_h > 0,
    ensures
        fit.scale == fit_scale(win_w, win_h, base_w, base_h),
        fit.width == base_w * fit.scale,
        fit.height == base_h * fit.scale,
{
    let scale_x = side_scale(win_w, base_w);
    let scale_y = side_scale(win_h, base_h);
    let scale = if scale_x <= scale_y {
        scale_x
    } else {
        scale_y
    };
    proof {
        fit_is_largest(win_w, win_h, base_w, base_h);
        if scale == 1 {
            assert(base_w * scale == base_w);
            assert(base_h * scale == base_h);
        }
    }
    SpriteFit { scale, width: base_w * scale, height: base_h * scale }
}

/// The fitted picture is the largest whole multiple that the window holds:
/// above scale one it fits into the window on both sides, and one step
/// larger it would stick out on one of them. The scale is never below one.
pub proof fn fit_is_largest(win_w: u32, win_h: u32, base_w: u32, base_h: u32)
    requires
        base_w > 0,
        base_h > 0,
    ensures
        ({
            let scale = fit_scale(win_w, win_h, base_w, base_h);
            &&& scale >= 1
            &&& scale > 1 ==> base_w * scale <= win_w && base_h * scale <= win_h
            &&& base_w * (scale + 1) > win_w || base_h * (scale + 1) > win_h
        }),
{
    let sx = whole_scale(win_w, base_w);
    let sy = whole_scale(win_h, base_h);
    let scale = fit_scale(win_w, win_h, base_w, base_h);
    lemma_whole_scale(win_w, base_w);
    lemma_whole_scale(win_h, base_h);
    assert(base_w * scale <= base_w * sx) by (nonlinear_arith)
        requires
            scale <= sx,
            base_w > 0,
    ;
    assert(base_h * scale <= base_h * sy) by (nonlinear_arith)
        requires
            scale <= sy,
            base_h > 0,
    ;
}

proof fn lemma_whole_scale(window: u32, base: u32)
    requires
        base > 0,
    ensures
        ({
            let s = whole_scale(window, base);
            &&& s >= 1
            &&& s > 1 ==> base * s <= window
            &&& base * (s + 1) > window
        }),
{
    let q = (window / base) as int;
    let r = (window % base) as int;
    assert(window == base * q + r && 0 <= r < base) by (nonlinear_arith)
        requires
            base > 0,
            q == window as int / base as int,
            r == window as int % base as int,
    ;
    let s = whole_scale(window, base);
    if q >= 1 {
        assert(base * (s + 1) == base * q + base) by (nonlinear_arith)
            requires
                s == q,
        ;
    } else {
        assert(q == 0) by (nonlinear_arith)
            requires
                q < 1,
                q == window as int / base as int,
                base > 0,
                window >= 0,
        ;
        assert(base * q == 0) by (nonlinear_arith)
            requires
                q == 0,
        ;
        assert(base * (s + 1) == base + base) by (nonlinear_arith)
            requires
                s == 1,
        ;
    }
}

} // verus!
