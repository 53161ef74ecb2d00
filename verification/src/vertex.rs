//! Per-glyph quad records and the bounds-clipping transform.
//!
//! The layout engine hands over, for each visible glyph, a screen-space
//! pixel rectangle, an atlas texture rectangle and a bounds rectangle.
//! Where the pixel rectangle sticks out of the bounds on a side, it is cut
//! back to the bound and the texture rectangle is shrunk proportionally on
//! the matching side, each of the four sides independently.
//!
//! Coordinates are fixed-point integers: the host picks a subunit scale
//! (for example 256 subunits per pixel) and converts once at the edge. The
//! clipping arithmetic below is exact integer arithmetic on those values.

use vstd::prelude::*;
use vstd::arithmetic::div_mod::{
    lemma_div_is_ordered, lemma_div_multiples_vanish, lemma_div_pos_is_pos,
    lemma_fundamental_div_mod, lemma_mod_division_less_than_divisor,
};
use vstd::arithmetic::mul::{
    lemma_mul_inequality, lemma_mul_is_commutative, lemma_mul_nonnegative,
};

verus! {

/// Magnitude bound on every fixed-point coordinate, so that the products
/// taken while clipping fit comfortably in 64 bits.
pub const COORD_LIMIT: i64 = 0x4000_0000;

/// An axis-aligned rectangle in fixed-point coordinates, `min` inclusive
/// toward the top-left, `max` toward the bottom-right.
#[derive(Clone, Copy, Debug, PartialEq, Eq, Structural)]
pub struct Rect {
    pub min_x: i64,
    pub min_y: i64,
    pub max_x: i64,
    pub max_y: i64,
}

/// What the layout engine reports for one glyph, already converted to
/// fixed-point coordinates; `z` and the color channels are carried as the
/// bit patterns of the 32-bit floats the GPU will read, since no arithmetic
/// is ever done on them.
#[derive(Clone, Copy, Debug, PartialEq, Eq, Structural)]
pub struct GlyphData {
    pub tex_coords: Rect,
    pub pixel_coords: Rect,
    pub bounds: Rect,
    pub z_bits: u32,
    pub color_r_bits: u32,
    pub color_g_bits: u32,
    pub color_b_bits: u32,
    pub color_a_bits: u32,
}

/// One quad-instance record of the GPU vertex buffer: screen corners,
/// texture corners, depth and color, laid out as the input layout expects
/// (`left_top` pairs with the glyph's top edge, which carries the larger
/// `y` of the pixel rectangle in this y-grows-down convention).
#[derive(Clone, Copy, Debug, PartialEq, Eq, Structural)]
pub struct Vertex {
    pub left_top_x: i64,
    pub left_top_y: i64,
    pub z_bits: u32,
    pub right_bottom_x: i64,
    pub right_bottom_y: i64,
    pub tex_left_top_u: i64,
    pub tex_left_top_v: i64,
    pub tex_right_bottom_u: i64,
    pub tex_right_bottom_v: i64,
    pub color_r_bits: u32,
    pub color_g_bits: u32,
    pub color_b_bits: u32,
    pub color_a_bits: u32,
}

/// The inputs of one clipping axis are sane: the glyph has positive width,
/// the rectangles are ordered, glyph and bounds overlap, and every value is
/// small enough that the proportionality products fit in 64 bits.
pub open spec fn axis_wf(
    px_min: int,
    px_max: int,
    b_min: int,
    b_max: int,
    t_min: int,
    t_max: int,
) -> bool {
    &&& -COORD_LIMIT <= px_min < px_max <= COORD_LIMIT
    &&& -COORD_LIMIT <= b_min <= b_max <= COORD_LIMIT
    &&& -COORD_LIMIT <= t_min <= t_max <= COORD_LIMIT
    &&& px_min < b_max
    &&& b_min < px_max
}

/// The pixel coordinate of the max side after clipping: cut to the bound
/// exactly when it exceeds it.
pub open spec fn spec_clip_px_max(px_max: int, b_max: int) -> int {
    if px_max > b_max {
        b_max
    } else {
        px_max
    }
}

/// A texture span scaled by the ratio of the surviving pixel width to the
/// original pixel width, rounded down.
pub open spec fn spec_shrink(span: int, new_w: int, old_w: int) -> int {
    (span * new_w) / old_w
}

/// The texture coordinate of the max side after clipping: shrunk from the
/// min side in proportion to the surviving pixel width. Takes no min-side
/// bound: the max side never depends on it.
pub open spec fn spec_clip_tex_max(
    px_min: int,
    px_max: int,
    b_max: int,
    t_min: int,
    t_max: int,
) -> int {
    if px_max > b_max {
        t_min + spec_shrink(t_max - t_min, b_max - px_min, px_max - px_min)
    } else {
        t_max
    }
}

/// The pixel coordinate of the min side after clipping.
pub open spec fn spec_clip_px_min(px_min: int, b_min: int) -> int {
    if px_min < b_min {
        b_min
    } else {
        px_min
    }
}

/// The texture coordinate of the min side after clipping: shrunk from the
/// (already clipped) max side in proportion to the surviving pixel width,
/// exactly as the max side was handled first.
pub open spec fn spec_clip_tex_min(
    px_min: int,
    px_max: int,
    b_min: int,
    b_max: int,
    t_min: int,
    t_max: int,
) -> int {
    let pmax1 = spec_clip_px_max(px_max, b_max);
    let tmax1 = spec_clip_tex_max(px_min, px_max, b_max, t_min, t_max);
    if px_min < b_min {
        tmax1 - spec_shrink(tmax1 - t_min, pmax1 - b_min, pmax1 - px_min)
    } else {
        t_min
    }
}

/// A proportional shrink never overshoots: scaling a non-negative span by
/// `new_w / old_w` with `new_w <= old_w` stays between zero and the span.
proof fn lemma_shrink_quotient(dt: int, new_w: int, old_w: int)
    requires
        0 <= dt,
        0 <= new_w <= old_w,
        0 < old_w,
    ensures
        0 <= (dt * new_w) / old_w <= dt,
{
    lemma_mul_nonnegative(dt, new_w);
    lemma_div_pos_is_pos(dt * new_w, old_w);
    lemma_mul_inequality(new_w, old_w, dt);
    lemma_mul_is_commutative(dt, new_w);
    lemma_div_is_ordered(dt * new_w, old_w * dt, old_w);
    lemma_div_multiples_vanish(dt, old_w);
}

/// Clips one axis of a glyph rectangle against the bounds, adjusting the
/// texture interval proportionally; the max side first, then the min side
/// against the already-clipped values. Returns
/// `(px_min, px_max, t_min, t_max)` after clipping.
pub fn clip_axis(px_min: i64, px_max: i64, b_min: i64, b_max: i64, t_min: i64, t_max: i64) -> (r: (
    i64,
    i64,
    i64,
    i64,
))
    requires
        axis_wf(px_min as int, px_max as int, b_min as int, b_max as int, t_min as int,
            t_max as int),
    ensures
        r.0 as int == spec_clip_px_min(px_min as int, b_min as int),
        r.1 as int == spec_clip_px_max(px_max as int, b_max as int),
        r.2 as int == spec_clip_tex_min(px_min as int, px_max as int, b_min as int, b_max as int,
            t_min as int, t_max as int),
        r.3 as int == spec_clip_tex_max(px_min as int, px_max as int, b_max as int, t_min as int,
            t_max as int),
        b_min <= r.0 && r.0 >= px_min,
        r.1 <= b_max && r.1 <= px_max,
        t_min <= r.2 <= r.3 <= t_max,
{
    let mut pmin = px_min;
    let mut pmax = px_max;
    let mut tmin = t_min;
    let mut tmax = t_max;

    if pmax > b_max {
        let dt = (tmax - tmin) as u64;
        let new_w = (b_max - pmin) as u64;
        let old_w = (pmax - pmin) as u64;
        proof {
            assert((dt as int) * (new_w as int) <= 0x4000_0000_0000_0000) by (nonlinear_arith)
                requires
                    0 <= dt as int <= 0x8000_0000,
                    0 <= new_w as int <= 0x8000_0000,
            ;
            lemma_shrink_quotient(dt as int, new_w as int, old_w as int);
        }
        let q = (dt * new_w / old_w) as i64;
        tmax = tmin + q;
        pmax = b_max;
    }

    if pmin < b_min {
        let dt = (tmax - tmin) as u64;
        let new_w = (pmax - b_min) as u64;
        let old_w = (pmax - pmin) as u64;
        proof {
            assert((dt as int) * (new_w as int) <= 0x4000_0000_0000_0000) by (nonlinear_arith)
                requires
                    0 <= dt as int <= 0x8000_0000,
                    0 <= new_w as int <= 0x8000_0000,
            ;
            lemma_shrink_quotient(dt as int, new_w as int, old_w as int);
        }
        let q = (dt * new_w / old_w) as i64;
        tmin = tmax - q;
        pmin = b_min;
    }

    (pmin, pmax, tmin, tmax)
}

/// Both axes of a glyph's rectangles are sane in the sense of [`axis_wf`].
pub open spec fn glyph_wf(g: GlyphData) -> bool {
    &&& axis_wf(g.pixel_coords.min_x as int, g.pixel_coords.max_x as int, g.bounds.min_x as int,
        g.bounds.max_x as int, g.tex_coords.min_x as int, g.tex_coords.max_x as int)
    &&& axis_wf(g.pixel_coords.min_y as int, g.pixel_coords.max_y as int, g.bounds.min_y as int,
        g.bounds.max_y as int, g.tex_coords.min_y as int, g.tex_coords.max_y as int)
}

/// Builds the quad-instance record for one glyph: clips each axis against
/// the bounds and lays the corners out as the GPU input layout expects,
/// carrying depth and color through untouched.
pub fn vertex_from_glyph(g: &GlyphData) -> (v: Vertex)
    requires
        glyph_wf(*g),
    ensures
        v.left_top_x as int == spec_clip_px_min(g.pixel_coords.min_x as int, g.bounds.min_x as int),
        v.right_bottom_x as int == spec_clip_px_max(g.pixel_coords.max_x as int,
            g.bounds.max_x as int),
        v.tex_left_top_u as int == spec_clip_tex_min(g.pixel_coords.min_x as int,
            g.pixel_coords.max_x as int, g.bounds.min_x as int, g.bounds.max_x as int,
            g.tex_coords.min_x as int, g.tex_coords.max_x as int),
        v.tex_right_bottom_u as int == spec_clip_tex_max(g.pixel_coords.min_x as int,
            g.pixel_coords.max_x as int, g.bounds.max_x as int, g.tex_coords.min_x as int,
            g.tex_coords.max_x as int),
        v.right_bottom_y as int == spec_clip_px_min(g.pixel_coords.min_y as int,
            g.bounds.min_y as int),
        v.left_top_y as int == spec_clip_px_max(g.pixel_coords.max_y as int, g.bounds.max_y as int),
        v.tex_right_bottom_v as int == spec_clip_tex_min(g.pixel_coords.min_y as int,
            g.pixel_coords.max_y as int, g.bounds.min_y as int, g.bounds.max_y as int,
            g.tex_coords.min_y as int, g.tex_coords.max_y as int),
        v.tex_left_top_v as int == spec_clip_tex_max(g.pixel_coords.min_y as int,
            g.pixel_coords.max_y as int, g.bounds.max_y as int, g.tex_coords.min_y as int,
            g.tex_coords.max_y as int),
        v.z_bits == g.z_bits,
        v.color_r_bits == g.color_r_bits,
        v.color_g_bits == g.color_g_bits,
        v.color_b_bits == g.color_b_bits,
        v.color_a_bits == g.color_a_bits,
        g.bounds.min_x <= v.left_top_x && v.right_bottom_x <= g.bounds.max_x,
        g.bounds.min_y <= v.right_bottom_y && v.left_top_y <= g.bounds.max_y,
        g.tex_coords.min_x <= v.tex_left_top_u <= v.tex_right_bottom_u <= g.tex_coords.max_x,
        g.tex_coords.min_y <= v.tex_right_bottom_v <= v.tex_left_top_v <= g.tex_coords.max_y,
{
    let (px_min_x, px_max_x, t_min_u, t_max_u) = clip_axis(
        g.pixel_coords.min_x,
        g.pixel_coords.max_x,
        g.bounds.min_x,
        g.bounds.max_x,
        g.tex_coords.min_x,
        g.tex_coords.max_x,
    );
    let (px_min_y, px_max_y, t_min_v, t_max_v) = clip_axis(
        g.pixel_coords.min_y,
        g.pixel_coords.max_y,
        g.bounds.min_y,
        g.bounds.max_y,
        g.tex_coords.min_y,
        g.tex_coords.max_y,
    );
    Vertex {
        left_top_x: px_min_x,
        left_top_y: px_max_y,
        z_bits: g.z_bits,
        right_bottom_x: px_max_x,
        right_bottom_y: px_min_y,
        tex_left_top_u: t_min_u,
        tex_left_top_v: t_max_v,
        tex_right_bottom_u: t_max_u,
        tex_right_bottom_v: t_min_v,
        color_r_bits: g.color_r_bits,
        color_g_bits: g.color_g_bits,
        color_b_bits: g.color_b_bits,
        color_a_bits: g.color_a_bits,
    }
}

/// The four clipped coordinates of one axis, bundled:
/// `(px_min, px_max, t_min, t_max)` after clipping.
pub open spec fn spec_clip_axis(
    px_min: int,
    px_max: int,
    b_min: int,
    b_max: int,
    t_min: int,
    t_max: int,
) -> (int, int, int, int) {
    (
        spec_clip_px_min(px_min, b_min),
        spec_clip_px_max(px_max, b_max),
        spec_clip_tex_min(px_min, px_max, b_min, b_max, t_min, t_max),
        spec_clip_tex_max(px_min, px_max, b_max, t_min, t_max),
    )
}

/// Law: clipping on opposite sides of an axis is independent — the min-side
/// bound has no effect on the max side's pixel or texture coordinate — and
/// a side that overflows its bound is cut exactly to that bound.
pub proof fn lemma_clip_sides_independent(
    px_min: int,
    px_max: int,
    b_min_a: int,
    b_min_b: int,
    b_max: int,
    t_min: int,
    t_max: int,
)
    ensures
        spec_clip_axis(px_min, px_max, b_min_a, b_max, t_min, t_max).1 == spec_clip_axis(px_min,
            px_max, b_min_b, b_max, t_min, t_max).1,
        spec_clip_axis(px_min, px_max, b_min_a, b_max, t_min, t_max).3 == spec_clip_axis(px_min,
            px_max, b_min_b, b_max, t_min, t_max).3,
        px_max > b_max ==> spec_clip_axis(px_min, px_max, b_min_a, b_max, t_min, t_max).1 == b_max,
        px_min < b_min_a ==> spec_clip_axis(px_min, px_max, b_min_a, b_max, t_min, t_max).0
            == b_min_a,
{
}

/// Law: the texture shrink is proportional — the shrunk span times the old
/// pixel width equals the old span times the surviving pixel width, up to
/// the one rounding that integer division makes, and it never grows.
pub proof fn lemma_shrink_proportional(span: int, new_w: int, old_w: int)
    requires
        0 <= span,
        0 <= new_w <= old_w,
        0 < old_w,
    ensures
        spec_shrink(span, new_w, old_w) * old_w <= span * new_w,
        span * new_w < (spec_shrink(span, new_w, old_w) + 1) * old_w,
        0 <= spec_shrink(span, new_w, old_w) <= span,
{
    lemma_shrink_quotient(span, new_w, old_w);
    lemma_fundamental_div_mod(span * new_w, old_w);
    lemma_mod_division_less_than_divisor(span * new_w, old_w);
    lemma_mul_nonnegative(span, new_w);
    let q = spec_shrink(span, new_w, old_w);
    assert(q * old_w <= span * new_w && span * new_w < (q + 1) * old_w) by (nonlinear_arith)
        requires
            span * new_w == old_w * q + (span * new_w) % old_w,
            0 <= (span * new_w) % old_w < old_w,
    ;
}

} // verus!
