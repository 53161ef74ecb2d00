//! The render pipeline state: the atlas, the vertex buffer and the
//! transform constant buffer, with the decisions the host executes on the
//! device each frame.
//!
//! The transform is kept as the bit patterns of the sixteen 32-bit floats
//! of the matrix: change detection is the exact bit-for-bit comparison the
//! design asks for, so handing the same matrix twice uploads nothing.

use crate::cache::{Cache, Region};
use crate::vbuffer::{spec_upload, UploadAction, VertexBuffer};
use crate::vertex::Vertex;
use crate::{F32_ONE_BITS, MAX_TEXTURE_DIMENSION};
use vstd::prelude::*;

verus! {

/// Device buffer capacity, in records, that a fresh pipeline starts with.
pub const INITIAL_VERTEX_CAPACITY: usize = 1024;

/// Strip vertices the shader expands per instance: one quad.
pub const VERTICES_PER_INSTANCE: u32 = 4;

/// A scissor rectangle in screen coordinates, passed through to the device
/// when supplied.
#[derive(Clone, Copy, Debug, PartialEq, Eq, Structural)]
pub struct ScissorRect {
    pub left: i32,
    pub top: i32,
    pub right: i32,
    pub bottom: i32,
}

/// Depth-stencil configuration, mirroring the fixed-function state the
/// host creates at build time; `None` leaves the depth test disabled.
#[derive(Clone, Copy, Debug, PartialEq, Eq, Structural)]
pub struct DepthStencilDesc {
    pub depth_enable: bool,
    pub depth_write_all: bool,
    pub depth_func: u32,
    pub stencil_enable: bool,
    pub stencil_read_mask: u8,
    pub stencil_write_mask: u8,
}

/// Everything the host must do for one draw call: whether the transform
/// constant buffer needs a rewrite, how many instances to draw, and the
/// scissor to set, if any.
#[derive(Clone, Copy, Debug, PartialEq, Eq)]
pub struct DrawCommand {
    pub upload_transform: bool,
    pub instance_count: u32,
    pub scissor: Option<ScissorRect>,
}

/// The bit patterns of the identity matrix.
pub open spec fn spec_identity_transform() -> Seq<u32> {
    seq![
        F32_ONE_BITS, 0u32, 0u32, 0u32,
        0u32, F32_ONE_BITS, 0u32, 0u32,
        0u32, 0u32, F32_ONE_BITS, 0u32,
        0u32, 0u32, 0u32, F32_ONE_BITS,
    ]
}

/// One draw, as a function of the transform in the constant buffer, the
/// requested transform, the visible record count and the scissor request:
/// the transform afterwards and the command the host executes. The
/// constant buffer is rewritten exactly when the requested matrix differs
/// bit-for-bit from the current one; the draw itself is always issued.
pub open spec fn spec_draw_step(
    current: Seq<u32>,
    requested: Seq<u32>,
    visible: nat,
    scissor: Option<ScissorRect>,
) -> (Seq<u32>, DrawCommand) {
    (
        requested,
        DrawCommand {
            upload_transform: current != requested,
            instance_count: visible as u32,
            scissor,
        },
    )
}

/// The render pipeline: fixed configuration plus the three pieces of
/// mutable device-visible state.
pub struct Pipeline {
    pub cache: Cache,
    pub vertex_buffer: VertexBuffer,
    pub transform: [u32; 16],
    pub filter_method: u32,
    pub depth_stencil: Option<DepthStencilDesc>,
}

impl Pipeline {
    /// The parts are well-formed and the record count fits the instance
    /// count of a draw call.
    pub open spec fn wf(self) -> bool {
        &&& self.cache.wf()
        &&& self.vertex_buffer.wf()
        &&& self.vertex_buffer@.records.len() <= u32::MAX
    }

    /// A fresh pipeline: a zeroed atlas of the given dimensions, an empty
    /// vertex buffer of the initial capacity, and the identity transform
    /// already in the constant buffer.
    pub fn new(
        filter_method: u32,
        depth_stencil: Option<DepthStencilDesc>,
        cache_width: u32,
        cache_height: u32,
    ) -> (p: Pipeline)
        requires
            1 <= cache_width <= MAX_TEXTURE_DIMENSION,
            1 <= cache_height <= MAX_TEXTURE_DIMENSION,
        ensures
            p.wf(),
            p.cache.width == cache_width,
            p.cache.height == cache_height,
            forall|x: int, y: int|
                0 <= x < cache_width && 0 <= y < cache_height ==> p.cache.spec_texel(x, y) == 0,
            p.vertex_buffer@.capacity == INITIAL_VERTEX_CAPACITY,
            p.vertex_buffer@.records.len() == 0,
            p.transform@ == spec_identity_transform(),
            p.filter_method == filter_method,
            p.depth_stencil == depth_stencil,
    {
        let transform: [u32; 16] = [
            F32_ONE_BITS, 0u32, 0u32, 0u32,
            0u32, F32_ONE_BITS, 0u32, 0u32,
            0u32, 0u32, F32_ONE_BITS, 0u32,
            0u32, 0u32, 0u32, F32_ONE_BITS,
        ];
        proof {
            assert(transform@ =~= spec_identity_transform());
        }
        Pipeline {
            cache: Cache::new(cache_width, cache_height),
            vertex_buffer: VertexBuffer::with_capacity(INITIAL_VERTEX_CAPACITY),
            transform,
            filter_method,
            depth_stencil,
        }
    }

    /// Forwards one atlas update from the layout engine into the texel
    /// model; the host mirrors the same rectangle onto the device texture.
    pub fn update_cache(&mut self, rect: Region, data: &[u8])
        requires
            old(self).wf(),
            rect.wf(),
            rect.max_x <= old(self).cache.width,
            rect.max_y <= old(self).cache.height,
            data@.len() == rect.spec_width() * rect.spec_height(),
        ensures
            final(self).wf(),
            final(self).cache.width == old(self).cache.width,
            final(self).cache.height == old(self).cache.height,
            forall|x: int, y: int|
                rect.contains(x, y) ==> final(self).cache.spec_texel(x, y) == data@[rect.data_index(
                    x,
                    y,
                )],
            forall|x: int, y: int|
                0 <= x < old(self).cache.width && 0 <= y < old(self).cache.height && !rect.contains(
                    x,
                    y,
                ) ==> final(self).cache.spec_texel(x, y) == old(self).cache.spec_texel(x, y),
            final(self).vertex_buffer == old(self).vertex_buffer,
            final(self).transform == old(self).transform,
            final(self).filter_method == old(self).filter_method,
            final(self).depth_stencil == old(self).depth_stencil,
    {
        self.cache.update(rect, data);
    }

    /// Replaces the atlas by a freshly zeroed one of the given dimensions;
    /// the vertex buffer and the transform are untouched, so in particular
    /// the buffer capacity survives a resize.
    pub fn increase_cache_size(&mut self, width: u32, height: u32)
        requires
            old(self).wf(),
            1 <= width <= MAX_TEXTURE_DIMENSION,
            1 <= height <= MAX_TEXTURE_DIMENSION,
        ensures
            final(self).wf(),
            final(self).cache.width == width,
            final(self).cache.height == height,
            forall|x: int, y: int|
                0 <= x < width && 0 <= y < height ==> final(self).cache.spec_texel(x, y) == 0,
            final(self).vertex_buffer == old(self).vertex_buffer,
            final(self).transform == old(self).transform,
            final(self).filter_method == old(self).filter_method,
            final(self).depth_stencil == old(self).depth_stencil,
    {
        self.cache = Cache::new(width, height);
    }

    /// Replaces the visible records; see [`VertexBuffer::upload`]. The
    /// atlas and the transform are untouched.
    pub fn upload(&mut self, vertices: Vec<Vertex>) -> (action: UploadAction)
        requires
            old(self).wf(),
            vertices@.len() <= u32::MAX,
        ensures
            final(self).wf(),
            (final(self).vertex_buffer@, action) == spec_upload(
                old(self).vertex_buffer@,
                vertices@,
            ),
            old(self).vertex_buffer@.capacity <= final(self).vertex_buffer@.capacity,
            final(self).cache == old(self).cache,
            final(self).transform == old(self).transform,
            final(self).filter_method == old(self).filter_method,
            final(self).depth_stencil == old(self).depth_stencil,
    {
        self.vertex_buffer.upload(vertices)
    }

    /// Decides one draw call: rewrites the stored transform when the
    /// requested one differs bit-for-bit, and reports the instance count
    /// and scissor for the host to bind and draw.
    pub fn draw(&mut self, transform: &[u32; 16], scissor: Option<ScissorRect>) -> (cmd:
        DrawCommand)
        requires
            old(self).wf(),
        ensures
            final(self).wf(),
            (final(self).transform@, cmd) == spec_draw_step(
                old(self).transform@,
                transform@,
                old(self).vertex_buffer@.records.len(),
                scissor,
            ),
            final(self).cache == old(self).cache,
            final(self).vertex_buffer == old(self).vertex_buffer,
            final(self).filter_method == old(self).filter_method,
            final(self).depth_stencil == old(self).depth_stencil,
    {
        let differs = !transforms_equal(&self.transform, transform);
        if differs {
            self.transform = *transform;
        }
        proof {
            if !differs {
                assert(self.transform@ =~= transform@);
            }
        }
        DrawCommand {
            upload_transform: differs,
            instance_count: self.vertex_buffer.len() as u32,
            scissor,
        }
    }
}

/// Bit-for-bit equality of two transform matrices.
fn transforms_equal(a: &[u32; 16], b: &[u32; 16]) -> (r: bool)
    ensures
        r == (a@ == b@),
{
    let mut i: usize = 0;
    while i < 16
        invariant
            i <= 16,
            forall|j: int| 0 <= j < i ==> a@[j] == b@[j],
        decreases 16 - i,
    {
        if a[i] != b[i] {
            return false;
        }
        i = i + 1;
    }
    proof {
        assert(a@ =~= b@);
    }
    true
}

/// Law: requesting the same transform as the previous frame skips the
/// constant-buffer upload, while the draw itself is still issued with the
/// same instance count; the first draw leaves exactly the requested
/// transform behind.
pub proof fn lemma_repeat_transform_skips_upload(
    current: Seq<u32>,
    requested: Seq<u32>,
    visible: nat,
    scissor: Option<ScissorRect>,
)
    ensures
        ({
            let (t1, c1) = spec_draw_step(current, requested, visible, scissor);
            let (t2, c2) = spec_draw_step(t1, requested, visible, scissor);
            &&& t1 == requested
            &&& !c2.upload_transform
            &&& t2 == t1
            &&& c2.instance_count == c1.instance_count
        }),
{
}

} // verus!
