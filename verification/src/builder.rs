//! Configuration for a brush, gathered before construction.
//!
//! The host builds the layout engine separately (fonts and section hasher
//! live there); this builder carries what the pipeline itself needs: the
//! initial atlas dimensions shared with the engine, the sampler filter
//! code of the host graphics API, and the optional depth-stencil state.

use crate::brush::GlyphBrush;
use crate::pipeline::DepthStencilDesc;
use crate::MAX_TEXTURE_DIMENSION;
use vstd::prelude::*;

verus! {

/// Atlas edge, in texels, a builder starts with on both axes.
pub const DEFAULT_CACHE_DIMENSION: u32 = 256;

/// Filter code a builder starts with: the host API's trilinear
/// (linear min/mag/mip) sampler filter.
pub const DEFAULT_FILTER_METHOD: u32 = 0x15;

/// Builder for a [`GlyphBrush`].
#[derive(Clone, Copy, Debug, PartialEq, Eq, Structural)]
pub struct GlyphBrushBuilder {
    pub initial_cache_width: u32,
    pub initial_cache_height: u32,
    pub texture_filter_method: u32,
    pub depth_stencil: Option<DepthStencilDesc>,
}

impl GlyphBrushBuilder {
    /// The configured atlas dimensions are positive and within the device
    /// limit.
    pub open spec fn wf(self) -> bool {
        &&& 1 <= self.initial_cache_width <= MAX_TEXTURE_DIMENSION
        &&& 1 <= self.initial_cache_height <= MAX_TEXTURE_DIMENSION
    }

    /// A builder with the default atlas size, trilinear filtering and the
    /// depth test disabled.
    pub fn new() -> (b: GlyphBrushBuilder)
        ensures
            b.wf(),
            b.initial_cache_width == DEFAULT_CACHE_DIMENSION,
            b.initial_cache_height == DEFAULT_CACHE_DIMENSION,
            b.texture_filter_method == DEFAULT_FILTER_METHOD,
            b.depth_stencil is None,
    {
        GlyphBrushBuilder {
            initial_cache_width: DEFAULT_CACHE_DIMENSION,
            initial_cache_height: DEFAULT_CACHE_DIMENSION,
            texture_filter_method: DEFAULT_FILTER_METHOD,
            depth_stencil: None,
        }
    }

    /// Sets the initial atlas dimensions; they must match the layout
    /// engine's initial texture dimensions.
    pub fn initial_cache_size(self, width: u32, height: u32) -> (b: GlyphBrushBuilder)
        requires
            1 <= width <= MAX_TEXTURE_DIMENSION,
            1 <= height <= MAX_TEXTURE_DIMENSION,
        ensures
            b == (GlyphBrushBuilder {
                initial_cache_width: width,
                initial_cache_height: height,
                ..self
            }),
            b.wf(),
    {
        GlyphBrushBuilder { initial_cache_width: width, initial_cache_height: height, ..self }
    }

    /// Sets the texture filtering method, as the host API's filter code.
    pub fn texture_filter_method(self, filter_method: u32) -> (b: GlyphBrushBuilder)
        ensures
            b == (GlyphBrushBuilder { texture_filter_method: filter_method, ..self }),
    {
        GlyphBrushBuilder { texture_filter_method: filter_method, ..self }
    }

    /// Enables the depth-stencil state the pipeline is to be built with.
    pub fn depth_stencil_state(self, depth_stencil: DepthStencilDesc) -> (b: GlyphBrushBuilder)
        ensures
            b == (GlyphBrushBuilder { depth_stencil: Some(depth_stencil), ..self }),
    {
        GlyphBrushBuilder { depth_stencil: Some(depth_stencil), ..self }
    }

    /// Builds the brush: a zeroed atlas at the configured size, an empty
    /// vertex buffer and the identity transform.
    pub fn build(self) -> (b: GlyphBrush)
        requires
            self.wf(),
        ensures
            b.wf(),
            b@.cache_width == self.initial_cache_width,
            b@.cache_height == self.initial_cache_height,
            b@.buffer.records.len() == 0,
            b.pipeline.filter_method == self.texture_filter_method,
            b.pipeline.depth_stencil == self.depth_stencil,
    {
        GlyphBrush::new(
            self.texture_filter_method,
            self.depth_stencil,
            self.initial_cache_width,
            self.initial_cache_height,
        )
    }
}

} // verus!
