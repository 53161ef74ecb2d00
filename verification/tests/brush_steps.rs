//! Concrete checks of the brush orchestration steps.

use glyph_pipeline::brush::{BrushEvent, BrushStep, GlyphBrush};
use glyph_pipeline::builder::{GlyphBrushBuilder, DEFAULT_CACHE_DIMENSION, DEFAULT_FILTER_METHOD};
use glyph_pipeline::pipeline::DepthStencilDesc;
use glyph_pipeline::vbuffer::UploadAction;
use glyph_pipeline::vertex::Vertex;
use glyph_pipeline::MAX_TEXTURE_DIMENSION;

fn vert(tag: i64) -> Vertex {
    Vertex {
        left_top_x: tag,
        left_top_y: 0,
        z_bits: 0,
        right_bottom_x: tag + 1,
        right_bottom_y: 0,
        tex_left_top_u: 0,
        tex_left_top_v: 0,
        tex_right_bottom_u: 0,
        tex_right_bottom_v: 0,
        color_r_bits: 0,
        color_g_bits: 0,
        color_b_bits: 0,
        color_a_bits: 0,
    }
}

fn brush(w: u32, h: u32) -> GlyphBrush {
    GlyphBrushBuilder::new().initial_cache_size(w, h).build()
}

#[test]
fn builder_defaults() {
    let b = GlyphBrushBuilder::new();
    assert_eq!(b.initial_cache_width, DEFAULT_CACHE_DIMENSION);
    assert_eq!(b.initial_cache_height, DEFAULT_CACHE_DIMENSION);
    assert_eq!(b.texture_filter_method, DEFAULT_FILTER_METHOD);
    assert_eq!(b.depth_stencil, None);
    let g = b.build();
    assert_eq!(g.pipeline.cache.width, 256);
    assert_eq!(g.pipeline.cache.height, 256);
}

#[test]
fn builder_carries_configuration() {
    let ds = DepthStencilDesc {
        depth_enable: true,
        depth_write_all: true,
        depth_func: 4,
        stencil_enable: false,
        stencil_read_mask: 0,
        stencil_write_mask: 0,
    };
    let g = GlyphBrushBuilder::new()
        .texture_filter_method(0x55)
        .depth_stencil_state(ds)
        .initial_cache_size(64, 32)
        .build();
    assert_eq!(g.pipeline.filter_method, 0x55);
    assert_eq!(g.pipeline.depth_stencil, Some(ds));
    assert_eq!(g.pipeline.cache.width, 64);
    assert_eq!(g.pipeline.cache.height, 32);
}

#[test]
fn draw_event_uploads_all_vertices() {
    let mut g = brush(16, 16);
    let vs = vec![vert(0), vert(1), vert(2)];
    let step = g.process_event(BrushEvent::Draw(vs.clone()));
    assert_eq!(step, BrushStep::Drawn(UploadAction::WriteExisting));
    assert_eq!(g.pipeline.vertex_buffer.records, vs);
}

#[test]
fn redraw_event_changes_nothing() {
    let mut g = brush(16, 16);
    let vs = vec![vert(0), vert(1)];
    g.process_event(BrushEvent::Draw(vs.clone()));
    let step = g.process_event(BrushEvent::ReDraw);
    assert_eq!(step, BrushStep::Redrawn);
    assert_eq!(g.pipeline.vertex_buffer.records, vs);
    assert_eq!(g.pipeline.cache.width, 16);
}

#[test]
fn too_small_resizes_at_the_suggestion() {
    let mut g = brush(16, 16);
    g.process_event(BrushEvent::Draw(vec![vert(0)]));
    let step = g.process_event(BrushEvent::TextureTooSmall {
        suggested_width: 32,
        suggested_height: 32,
    });
    assert_eq!(
        step,
        BrushStep::Resized {
            width: 32,
            height: 32
        }
    );
    assert_eq!(g.pipeline.cache.width, 32);
    assert_eq!(g.pipeline.cache.height, 32);
    // The fresh atlas is zeroed and the pending buffer survives.
    assert_eq!(g.pipeline.cache.texel(31, 31), 0);
    assert_eq!(g.pipeline.vertex_buffer.records, vec![vert(0)]);
}

#[test]
fn oversized_suggestion_clamps_to_device_maximum() {
    // The current atlas is below the maximum, so the brush gives it one
    // more chance at exactly the largest legal size.
    let mut g = brush(16, 16);
    let step = g.process_event(BrushEvent::TextureTooSmall {
        suggested_width: MAX_TEXTURE_DIMENSION * 2,
        suggested_height: MAX_TEXTURE_DIMENSION * 2,
    });
    assert_eq!(
        step,
        BrushStep::Resized {
            width: MAX_TEXTURE_DIMENSION,
            height: MAX_TEXTURE_DIMENSION
        }
    );
}

#[test]
fn oversized_suggestion_at_the_maximum_is_fatal() {
    let mut g = brush(MAX_TEXTURE_DIMENSION, MAX_TEXTURE_DIMENSION);
    let step = g.process_event(BrushEvent::TextureTooSmall {
        suggested_width: MAX_TEXTURE_DIMENSION * 2,
        suggested_height: MAX_TEXTURE_DIMENSION,
    });
    assert_eq!(
        step,
        BrushStep::AtlasExhausted {
            width: MAX_TEXTURE_DIMENSION * 2,
            height: MAX_TEXTURE_DIMENSION
        }
    );
    // Nothing was torn down: the atlas is still at the maximum.
    assert_eq!(g.pipeline.cache.width, MAX_TEXTURE_DIMENSION);
    assert_eq!(g.pipeline.cache.height, MAX_TEXTURE_DIMENSION);
}
