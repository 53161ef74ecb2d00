//! Concrete checks of the bounds-clipping transform.

use glyph_pipeline::vertex::{clip_axis, vertex_from_glyph, GlyphData, Rect};

fn rect(min_x: i64, min_y: i64, max_x: i64, max_y: i64) -> Rect {
    Rect {
        min_x,
        min_y,
        max_x,
        max_y,
    }
}

fn glyph(pixel: Rect, tex: Rect, bounds: Rect) -> GlyphData {
    GlyphData {
        tex_coords: tex,
        pixel_coords: pixel,
        bounds,
        z_bits: 0f32.to_bits(),
        color_r_bits: 0f32.to_bits(),
        color_g_bits: 0f32.to_bits(),
        color_b_bits: 0f32.to_bits(),
        color_a_bits: 1f32.to_bits(),
    }
}

#[test]
fn clip_right_shrinks_tex_proportionally() {
    // Glyph 100 wide, 20 of it beyond the right bound: the texture span
    // keeps exactly 80/100 of its width.
    let r = clip_axis(0, 100, 0, 80, 0, 1000);
    assert_eq!(r, (0, 80, 0, 800));
}

#[test]
fn clip_left_shrinks_tex_proportionally() {
    // Glyph from -20 to 100 clipped on the left at 0: 100/120 of the
    // texture span survives, anchored at the right side.
    let r = clip_axis(-20, 100, 0, 120, 0, 1200);
    assert_eq!(r, (0, 100, 200, 1200));
}

#[test]
fn clip_nothing_passes_through() {
    let r = clip_axis(10, 90, 0, 100, 300, 700);
    assert_eq!(r, (10, 90, 300, 700));
}

#[test]
fn clip_both_sides_is_sequential() {
    // Right side first: 100 of 120 survive, tex max becomes 1000.
    // Then the left: 80 of the remaining 100 survive, anchored right:
    // tex min becomes 1000 - 1000 * 80 / 100 = 200.
    let r = clip_axis(-20, 100, 0, 80, 0, 1200);
    assert_eq!(r, (0, 80, 200, 1000));
}

#[test]
fn clip_left_does_not_move_right_side() {
    // Same right-side overflow, three different left bounds: the clipped
    // right pixel and texture coordinates never move.
    let a = clip_axis(0, 100, -50, 80, 0, 1000);
    let b = clip_axis(0, 100, 0, 80, 0, 1000);
    let c = clip_axis(0, 100, 30, 80, 0, 1000);
    assert_eq!((a.1, a.3), (80, 800));
    assert_eq!((b.1, b.3), (80, 800));
    assert_eq!((c.1, c.3), (80, 800));
}

#[test]
fn clip_rounds_toward_smaller_tex_span() {
    // 1 of 3 pixels survives of a 10-wide texture span: 10/3 rounds down.
    let r = clip_axis(0, 3, 0, 1, 0, 10);
    assert_eq!(r, (0, 1, 0, 3));
}

#[test]
fn vertex_corners_follow_the_layout() {
    // No clipping: corners land as the input layout expects, y flipped.
    let g = glyph(rect(10, 20, 110, 220), rect(0, 0, 64, 128), rect(0, 0, 1000, 1000));
    let v = vertex_from_glyph(&g);
    assert_eq!((v.left_top_x, v.left_top_y), (10, 220));
    assert_eq!((v.right_bottom_x, v.right_bottom_y), (110, 20));
    assert_eq!((v.tex_left_top_u, v.tex_left_top_v), (0, 128));
    assert_eq!((v.tex_right_bottom_u, v.tex_right_bottom_v), (64, 0));
    assert_eq!(v.z_bits, 0f32.to_bits());
    assert_eq!(v.color_a_bits, 1f32.to_bits());
}

#[test]
fn vertex_clips_each_axis_independently() {
    // Exceeds the bounds on the right and the bottom (small y) only.
    let g = glyph(
        rect(0, -40, 120, 80),
        rect(0, 0, 1200, 1200),
        rect(0, 0, 100, 100),
    );
    let v = vertex_from_glyph(&g);
    // x: 100 of 120 survive on the right.
    assert_eq!((v.left_top_x, v.right_bottom_x), (0, 100));
    assert_eq!((v.tex_left_top_u, v.tex_right_bottom_u), (0, 1000));
    // y: min clipped from -40 to 0, so 80 of 120 survive anchored at max.
    assert_eq!((v.right_bottom_y, v.left_top_y), (0, 80));
    assert_eq!((v.tex_right_bottom_v, v.tex_left_top_v), (1200 - 800, 1200));
}
