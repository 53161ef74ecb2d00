//! Verified core of a GPU glyph renderer.
//!
//! The crate models the state that a glyph renderer must keep in sync with
//! the GPU: the alpha-channel atlas texture, the instanced vertex buffer,
//! the transform constant buffer, and the resize-and-retry protocol driven
//! by the text-layout engine. A host shell performs the actual device calls
//! and the float conversions; every decision it acts on is computed here.

pub mod brush;
pub mod builder;
pub mod cache;
pub mod pipeline;
pub mod vbuffer;
pub mod vertex;

use vstd::prelude::*;

verus! {

/// Largest texel dimension a conforming device guarantees for a 2D texture.
pub const MAX_TEXTURE_DIMENSION: u32 = 16384;

/// Bit pattern of the 32-bit float `1.0`, used for the identity transform.
pub const F32_ONE_BITS: u32 = 0x3F80_0000;

} // verus!
