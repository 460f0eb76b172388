//! Pixel-space rectangles and their exact conversion to normalized device
//! coordinates (NDC).
//!
//! The host delivers rectangle geometry in pixel space: origin at the top-left
//! corner of the surface, y growing downward. The renderer lays its quads out
//! in NDC: origin at the center, y growing upward, both axes covering
//! [-1, 1]. The conversion keeps the aspect ratio by measuring both axes in
//! units of half the surface height, so every NDC coordinate is an exact
//! rational with the surface height as denominator; no precision is lost and
//! the conversion can be inverted algebraically.

use vstd::prelude::*;

verus! {

/// A rectangle in pixel space: origin at the top-left corner of the surface,
/// y growing downward, as delivered by the host in flat coordinate arrays.
#[derive(Clone, Copy, Debug, PartialEq, Eq, Structural)]
pub struct PixelRect {
    pub left: i32,
    pub top: i32,
    pub right: i32,
    pub bottom: i32,
}

/// A rectangle in normalized device coordinates, held exactly: each side is
/// the rational `num / den`, where `den` is the pixel height of the surface.
/// The y axis is flipped relative to pixel space, so `top` comes from the
/// pixel top edge and carries the larger NDC value.
#[derive(Clone, Copy, Debug, PartialEq, Eq, Structural, Default)]
pub struct NdcRect {
    pub left_num: i64,
    pub top_num: i64,
    pub right_num: i64,
    pub bottom_num: i64,
    pub den: i64,
}

impl NdcRect {
    /// A rectangle is well formed when its denominator is a positive height.
    pub open spec fn wf(self) -> bool {
        self.den >= 1
    }
}

/// The NDC numerator of a pixel x coordinate on a surface of width `w`:
/// the signed distance from the vertical center line, in half-height units.
pub open spec fn ndc_x_num(x: int, w: int) -> int {
    2 * x - w
}

/// The NDC numerator of a pixel y coordinate on a surface of height `h`:
/// the y axis is flipped, so pixel y = 0 maps to the numerator `h` (NDC 1).
pub open spec fn ndc_y_num(y: int, h: int) -> int {
    h - 2 * y
}

/// The exact NDC rectangle for a pixel rectangle on a `w` by `h` surface.
pub open spec fn transform_rect_spec(p: PixelRect, w: u32, h: u32) -> NdcRect {
    NdcRect {
        left_num: ndc_x_num(p.left as int, w as int) as i64,
        top_num: ndc_y_num(p.top as int, h as int) as i64,
        right_num: ndc_x_num(p.right as int, w as int) as i64,
        bottom_num: ndc_y_num(p.bottom as int, h as int) as i64,
        den: h as i64,
    }
}

/// The algebraic inverse of `transform_rect_spec`: recovers the pixel
/// rectangle from an NDC rectangle, given the surface width (the height is
/// the rectangle's own denominator).
pub open spec fn invert_rect_spec(n: NdcRect, w: u32) -> PixelRect {
    PixelRect {
        left: (((n.left_num as int) + (w as int)) / 2) as i32,
        top: (((n.den as int) - (n.top_num as int)) / 2) as i32,
        right: (((n.right_num as int) + (w as int)) / 2) as i32,
        bottom: (((n.den as int) - (n.bottom_num as int)) / 2) as i32,
    }
}

/// Converts one pixel rectangle to its exact NDC rectangle.
pub fn transform_rect(p: PixelRect, w: u32, h: u32) -> (r: NdcRect)
    requires
        1 <= h,
    ensures
        r == transform_rect_spec(p, w, h),
        r.wf(),
{
    NdcRect {
        left_num: 2 * (p.left as i64) - (w as i64),
        top_num: (h as i64) - 2 * (p.top as i64),
        right_num: 2 * (p.right as i64) - (w as i64),
        bottom_num: (h as i64) - 2 * (p.bottom as i64),
        den: h as i64,
    }
}

/// Law: converting a pixel rectangle to NDC and inverting the conversion
/// algebraically recovers the pixel rectangle exactly, for every pixel
/// rectangle and every surface with a positive height.
pub proof fn lemma_transform_round_trip(p: PixelRect, w: u32, h: u32)
    requires
        1 <= h,
    ensures
        invert_rect_spec(transform_rect_spec(p, w, h), w) == p,
{
    let n = transform_rect_spec(p, w, h);
    assert(n.left_num == 2 * (p.left as int) - (w as int));
    assert((n.left_num + w) / 2 == p.left as int);
    assert(n.top_num == (h as int) - 2 * (p.top as int));
    assert((n.den - n.top_num) / 2 == p.top as int);
    assert((n.right_num + w) / 2 == p.right as int);
    assert((n.den - n.bottom_num) / 2 == p.bottom as int);
}

/// Why a flat coordinate array cannot be read as a rectangle list: it is
/// empty, or its length is not a multiple of four.
#[derive(Clone, Copy, Debug, PartialEq, Eq, Structural)]
pub enum RectArrayError {
    Empty,
    NotMultipleOfFour,
}

/// A flat coordinate array that can be read as a rectangle list: it is not
/// empty and holds four coordinates per rectangle.
pub open spec fn rect_array_ok(a: Seq<i32>) -> bool {
    a.len() > 0 && a.len() % 4 == 0
}

/// The exact condition under which reading a flat coordinate array fails
/// with `e`.
pub open spec fn rect_array_err_cond(a: Seq<i32>, e: RectArrayError) -> bool {
    match e {
        RectArrayError::Empty => a.len() == 0,
        RectArrayError::NotMultipleOfFour => a.len() > 0 && a.len() % 4 != 0,
    }
}

/// The `i`-th rectangle of a flat coordinate array laid out as
/// `[left0, top0, right0, bottom0, left1, ...]`.
pub open spec fn rect_at(flat: Seq<i32>, i: int) -> PixelRect {
    PixelRect {
        left: flat[4 * i],
        top: flat[4 * i + 1],
        right: flat[4 * i + 2],
        bottom: flat[4 * i + 3],
    }
}

/// Converts a flat pixel coordinate array into the ordered list of exact NDC
/// rectangles. An empty array, or one whose length is not a multiple of
/// four, is a host contract violation and is rejected before any rectangle
/// is converted.
pub fn transform_rects(flat: &Vec<i32>, w: u32, h: u32) -> (r: Result<
    Vec<NdcRect>,
    RectArrayError,
>)
    requires
        1 <= h,
    ensures
        match r {
            Ok(v) => rect_array_ok(flat@) && v.len() == flat.len() / 4 && forall|i: int|
                0 <= i < v.len() ==> #[trigger] v[i] == transform_rect_spec(
                    rect_at(flat@, i),
                    w,
                    h,
                ),
            Err(e) => rect_array_err_cond(flat@, e),
        },
{
    if flat.len() == 0 {
        return Err(RectArrayError::Empty);
    }
    if flat.len() % 4 != 0 {
        return Err(RectArrayError::NotMultipleOfFour);
    }
    let n: usize = flat.len() / 4;
    assert(flat.len() == 4 * n);
    let mut out: Vec<NdcRect> = Vec::new();
    let mut i: usize = 0;
    while i < n
        invariant
            1 <= h,
            flat.len() == 4 * n,
            i <= n,
            out.len() == i,
            forall|j: int|
                0 <= j < i ==> #[trigger] out[j] == transform_rect_spec(rect_at(flat@, j), w, h),
        decreases n - i,
    {
        let base: usize = 4 * i;
        let p = PixelRect {
            left: flat[base],
            top: flat[base + 1],
            right: flat[base + 2],
            bottom: flat[base + 3],
        };
        assert(p == rect_at(flat@, i as int));
        out.push(transform_rect(p, w, h));
        i += 1;
    }
    Ok(out)
}

} // verus!
