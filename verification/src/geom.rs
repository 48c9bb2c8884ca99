//! Curve-space coordinates and the pixel-to-curve transform.
//!
//! The visible plane region is roughly `[-3, 3]` in curve space.  A
//! coordinate is stored as a signed integer counting units of
//! `1 / COORD_SCALE`, so the value `3` of the continuous model is the
//! integer `3 * COORD_SCALE`.

use vstd::arithmetic::div_mod::lemma_div_multiples_vanish;
use vstd::prelude::*;

verus! {

/// Number of fixed-point units per curve-space unit.
pub const COORD_SCALE: i64 = 1000;

/// Bound on the curve-space coordinates the library operates on; wide
/// enough for every point the pixel transform can produce.
pub const MAX_COORD: i64 = 1_000_000_000;

/// Largest supported viewport side length, in device pixels.
pub const MAX_DIM: u32 = 100_000;

/// Margin subtracted from the host container on each axis, in pixels.
pub const MARGIN: u32 = 20;

/// A point of the curve-space plane, in units of `1 / COORD_SCALE`.
#[derive(Clone, Copy, PartialEq, Eq, Structural, Debug)]
pub struct Point {
    pub x: i64,
    pub y: i64,
}

impl Point {
    /// Both coordinates lie within the range the library works over.
    pub open spec fn in_bounds(self) -> bool {
        -MAX_COORD <= self.x <= MAX_COORD && -MAX_COORD <= self.y <= MAX_COORD
    }
}

/// Drawable-surface dimensions in device pixels.
#[derive(Clone, Copy, PartialEq, Eq, Structural, Debug)]
pub struct Viewport {
    pub width: u32,
    pub height: u32,
}

impl Viewport {
    /// A viewport usable for the pixel transform: positive and bounded.
    pub open spec fn wf(self) -> bool {
        1 <= self.width <= MAX_DIM && 1 <= self.height <= MAX_DIM
    }

    /// The viewport derived from a host container: the container size
    /// minus the fixed margin on each axis.
    pub fn from_container(container_width: u32, container_height: u32) -> (r: Viewport)
        requires
            MARGIN < container_width <= MAX_DIM + MARGIN,
            MARGIN < container_height <= MAX_DIM + MARGIN,
        ensures
            r.width == container_width - MARGIN,
            r.height == container_height - MARGIN,
            r.wf(),
    {
        Viewport { width: container_width - MARGIN, height: container_height - MARGIN }
    }
}

/// Curve-space x for pixel column `px` of a `w` by `h` viewport:
/// `((px / w) * 2 - 1) * 3 * (w / h)` of the continuous model, which is
/// `3 * (2 * px - w) / h`, scaled by `COORD_SCALE` and rounded toward zero.
pub open spec fn spec_screen_x(w: int, h: int, px: int) -> int {
    if 2 * px >= w {
        (3 * COORD_SCALE * (2 * px - w)) / h
    } else {
        -((3 * COORD_SCALE * (w - 2 * px)) / h)
    }
}

/// Curve-space y for pixel row `py`: `((py / h) * 2 - 1) * -3` of the
/// continuous model, which is `3 * (h - 2 * py) / h`, scaled by
/// `COORD_SCALE` and rounded toward zero.  Pixel rows grow downward,
/// curve-space y grows upward.
pub open spec fn spec_screen_y(h: int, py: int) -> int {
    if 2 * py <= h {
        (3 * COORD_SCALE * (h - 2 * py)) / h
    } else {
        -((3 * COORD_SCALE * (2 * py - h)) / h)
    }
}

/// Converts a device-pixel position on the drawable surface into
/// curve-space coordinates, preserving aspect ratio: the vertical span of
/// the viewport always maps onto `[-3, 3]`, the horizontal span onto
/// `[-3, 3]` stretched by `width / height`.
pub fn screen_coords(viewport: Viewport, px: u32, py: u32) -> (r: Point)
    requires
        viewport.wf(),
        px <= viewport.width,
        py <= viewport.height,
    ensures
        r.x == spec_screen_x(viewport.width as int, viewport.height as int, px as int),
        r.y == spec_screen_y(viewport.height as int, py as int),
        r.in_bounds(),
        viewport.width <= viewport.height ==> -3 * COORD_SCALE <= r.x <= 3 * COORD_SCALE,
        -3 * COORD_SCALE <= r.y <= 3 * COORD_SCALE,
{
    let w: u64 = viewport.width as u64;
    let h: u64 = viewport.height as u64;
    let sc: u64 = (3 * COORD_SCALE) as u64;
    let tx: u64 = 2 * (px as u64);
    let ty: u64 = 2 * (py as u64);

    let x: i64 = if tx >= w {
        ((sc * (tx - w)) / h) as i64
    } else {
        -(((sc * (w - tx)) / h) as i64)
    };
    let y: i64 = if ty <= h {
        ((sc * (h - ty)) / h) as i64
    } else {
        -(((sc * (ty - h)) / h) as i64)
    };

    proof {
        lemma_scaled_ratio_bounds(sc as int, viewport.width as int, viewport.height as int,
            2 * px - viewport.width);
        lemma_scaled_ratio_bounds(sc as int, viewport.width as int, viewport.height as int,
            2 * py - viewport.height);
    }
    Point { x, y }
}

/// For `|d| <= max(w, h)`, the scaled ratio `s * |d| / h` stays within
/// `s * w / 1` horizontally and within `s` when `|d| <= h`.
proof fn lemma_scaled_ratio_bounds(s: int, w: int, h: int, d: int)
    requires
        0 < s,
        1 <= w,
        1 <= h,
        -w <= d || -h <= d,
        d <= w || d <= h,
    ensures
        d >= 0 && d <= w ==> (s * d) / h <= s * w,
        d >= 0 && d <= h ==> (s * d) / h <= s,
        d < 0 && -d <= w ==> (s * (-d)) / h <= s * w,
        d < 0 && -d <= h ==> (s * (-d)) / h <= s,
{
    let a = if d >= 0 { d } else { -d };
    assert(0 <= a);
    assert((s * a) / h <= s * a) by {
        vstd::arithmetic::div_mod::lemma_div_nonincreasing(s * a, h);
        assert(0 <= s * a) by (nonlinear_arith)
            requires 0 <= a, 0 < s;
    }
    if a <= w {
        assert(s * a <= s * w) by (nonlinear_arith)
            requires a <= w, 0 < s;
    }
    if a <= h {
        assert((s * a) / h <= s) by {
            assert(s * a <= h * s) by (nonlinear_arith)
                requires a <= h, 0 < s;
            vstd::arithmetic::div_mod::lemma_multiply_divide_le(s * a, h, s);
        }
    }
}

/// For an even-sized viewport the center pixel maps exactly to the
/// curve-space origin.
pub proof fn lemma_screen_coords_center(w: int, h: int)
    requires
        2 <= w,
        2 <= h,
        w % 2 == 0,
        h % 2 == 0,
    ensures
        spec_screen_x(w, h, w / 2) == 0,
        spec_screen_y(h, h / 2) == 0,
{
    assert(2 * (w / 2) == w);
    assert(2 * (h / 2) == h);
    assert((3 * COORD_SCALE * 0) / h == 0) by {
        lemma_div_multiples_vanish(0, h);
    }
}

/// The top-left pixel maps to `(-3 * width / height, 3)` in curve space
/// (scaled by `COORD_SCALE`, the x component rounded toward zero).
pub proof fn lemma_screen_coords_top_left(w: int, h: int)
    requires
        1 <= w,
        1 <= h,
    ensures
        spec_screen_x(w, h, 0) == -((3 * COORD_SCALE * w) / h),
        spec_screen_y(h, 0) == 3 * COORD_SCALE,
{
    assert((3 * COORD_SCALE * h) / h == 3 * COORD_SCALE) by {
        lemma_div_multiples_vanish(3 * COORD_SCALE, h);
    }
}

} // verus!
