//! The brush orchestrator: drives the pipeline from what the layout
//! engine reports each frame.
//!
//! The host asks the engine to process the queued sections and converts
//! the outcome into a [`BrushEvent`]; this module decides what follows.
//! New vertices replace the buffer contents wholesale, an unchanged frame
//! touches nothing, and an overflowing atlas is reallocated larger — at
//! the engine's suggested size, or clamped to the device maximum when the
//! suggestion exceeds it while the current atlas is still below it — and
//! the host must then resize the engine's texture and process again. Only
//! a suggestion beyond the device maximum when the atlas is already at the
//! maximum is reported as a failure; glyphs are never silently dropped.

use crate::cache::Region;
use crate::pipeline::{DepthStencilDesc, DrawCommand, Pipeline, ScissorRect, spec_draw_step};
use crate::vbuffer::{BufferModel, UploadAction, spec_upload};
use crate::vertex::Vertex;
use crate::MAX_TEXTURE_DIMENSION;
use vstd::prelude::*;

verus! {

/// The outcome of one processing pass of the layout engine, converted to
/// plain values by the host.
pub enum BrushEvent {
    /// New vertex data was produced this frame.
    Draw(Vec<Vertex>),
    /// Nothing changed since the last processed frame.
    ReDraw,
    /// The atlas cannot hold this frame's glyphs even after updates; the
    /// engine suggests larger dimensions.
    TextureTooSmall { suggested_width: u32, suggested_height: u32 },
}

/// Mathematical shape of a [`BrushEvent`].
pub enum EventModel {
    Draw(Seq<Vertex>),
    ReDraw,
    TextureTooSmall { suggested_width: u32, suggested_height: u32 },
}

impl View for BrushEvent {
    type V = EventModel;

    open spec fn view(&self) -> EventModel {
        match self {
            BrushEvent::Draw(vs) => EventModel::Draw(vs@),
            BrushEvent::ReDraw => EventModel::ReDraw,
            BrushEvent::TextureTooSmall { suggested_width, suggested_height } => {
                EventModel::TextureTooSmall {
                    suggested_width: *suggested_width,
                    suggested_height: *suggested_height,
                }
            },
        }
    }
}

/// What one processing step decided, for the host to act on.
#[derive(Clone, Copy, Debug, PartialEq, Eq)]
pub enum BrushStep {
    /// New vertices are in place: perform the action on the device buffer;
    /// processing is finished.
    Drawn(UploadAction),
    /// Last frame's buffer still stands: nothing to do; finished.
    Redrawn,
    /// The atlas was reallocated at this size: resize the engine's texture
    /// to match and process the queue again.
    Resized { width: u32, height: u32 },
    /// The engine needs a texture of this size but the device cannot
    /// provide it: allocation failure, fatal for the frame.
    AtlasExhausted { width: u32, height: u32 },
}

/// The atlas dimensions to reallocate at after an overflow: the engine's
/// suggestion, except that a suggestion beyond the device maximum is
/// clamped to exactly the maximum while the current atlas is still below
/// the maximum on either axis — one more chance at the largest legal size.
pub open spec fn spec_grow_target(sw: u32, sh: u32, cw: u32, ch: u32) -> (u32, u32) {
    if (sw > MAX_TEXTURE_DIMENSION || sh > MAX_TEXTURE_DIMENSION) && (cw < MAX_TEXTURE_DIMENSION
        || ch < MAX_TEXTURE_DIMENSION) {
        (MAX_TEXTURE_DIMENSION, MAX_TEXTURE_DIMENSION)
    } else {
        (sw, sh)
    }
}

/// Mathematical state of the brush: the atlas dimensions the engine and
/// the device share, the vertex buffer, and the transform bits.
#[verifier::ext_equal]
pub struct BrushModel {
    pub cache_width: u32,
    pub cache_height: u32,
    pub buffer: BufferModel,
    pub transform: Seq<u32>,
}

/// One step of the cache-sync protocol, as a function of the brush state
/// and the engine's outcome: the state afterwards and the decision.
pub open spec fn spec_process_event(m: BrushModel, ev: EventModel) -> (BrushModel, BrushStep) {
    match ev {
        EventModel::Draw(vs) => {
            let (b, action) = spec_upload(m.buffer, vs);
            (
                BrushModel { buffer: b, ..m },
                BrushStep::Drawn(action),
            )
        },
        EventModel::ReDraw => (m, BrushStep::Redrawn),
        EventModel::TextureTooSmall { suggested_width, suggested_height } => {
            let (nw, nh) = spec_grow_target(suggested_width, suggested_height, m.cache_width,
                m.cache_height);
            if 1 <= nw <= MAX_TEXTURE_DIMENSION && 1 <= nh <= MAX_TEXTURE_DIMENSION {
                (
                    BrushModel { cache_width: nw, cache_height: nh, ..m },
                    BrushStep::Resized { width: nw, height: nh },
                )
            } else {
                (m, BrushStep::AtlasExhausted { width: nw, height: nh })
            }
        },
    }
}

/// The brush: the pipeline it keeps in sync with the layout engine.
pub struct GlyphBrush {
    pub pipeline: Pipeline,
}

impl View for GlyphBrush {
    type V = BrushModel;

    open spec fn view(&self) -> BrushModel {
        BrushModel {
            cache_width: self.pipeline.cache.width,
            cache_height: self.pipeline.cache.height,
            buffer: self.pipeline.vertex_buffer@,
            transform: self.pipeline.transform@,
        }
    }
}

impl GlyphBrush {
    pub open spec fn wf(self) -> bool {
        self.pipeline.wf()
    }

    /// A brush over a fresh pipeline; the atlas dimensions must match what
    /// the layout engine was built with.
    pub fn new(
        filter_method: u32,
        depth_stencil: Option<DepthStencilDesc>,
        cache_width: u32,
        cache_height: u32,
    ) -> (b: GlyphBrush)
        requires
            1 <= cache_width <= MAX_TEXTURE_DIMENSION,
            1 <= cache_height <= MAX_TEXTURE_DIMENSION,
        ensures
            b.wf(),
            b@.cache_width == cache_width,
            b@.cache_height == cache_height,
            b@.buffer.records.len() == 0,
            b.pipeline.filter_method == filter_method,
            b.pipeline.depth_stencil == depth_stencil,
    {
        GlyphBrush { pipeline: Pipeline::new(filter_method, depth_stencil, cache_width,
            cache_height) }
    }

    /// Forwards one atlas-update callback from the layout engine; see
    /// [`Pipeline::update_cache`].
    pub fn update_cache(&mut self, rect: Region, data: &[u8])
        requires
            old(self).wf(),
            rect.wf(),
            rect.max_x <= old(self)@.cache_width,
            rect.max_y <= old(self)@.cache_height,
            data@.len() == rect.spec_width() * rect.spec_height(),
        ensures
            final(self).wf(),
            final(self)@ == old(self)@,
            forall|x: int, y: int|
                rect.contains(x, y) ==> final(self).pipeline.cache.spec_texel(x, y)
                    == data@[rect.data_index(x, y)],
            forall|x: int, y: int|
                0 <= x < old(self)@.cache_width && 0 <= y < old(self)@.cache_height
                    && !rect.contains(x, y) ==> final(self).pipeline.cache.spec_texel(x, y)
                    == old(self).pipeline.cache.spec_texel(x, y),
            final(self).pipeline.filter_method == old(self).pipeline.filter_method,
            final(self).pipeline.depth_stencil == old(self).pipeline.depth_stencil,
    {
        self.pipeline.update_cache(rect, data);
        proof {
            assert(self@ =~= old(self)@);
        }
    }

    /// Takes the outcome of one engine processing pass and decides what
    /// follows; see [`spec_process_event`]. On overflow the atlas is
    /// reallocated (zeroed) and the host must resize the engine's texture
    /// and retry; the vertex buffer survives any resize untouched.
    pub fn process_event(&mut self, event: BrushEvent) -> (step: BrushStep)
        requires
            old(self).wf(),
            event matches BrushEvent::Draw(vs) ==> vs@.len() <= u32::MAX,
        ensures
            final(self).wf(),
            (final(self)@, step) == spec_process_event(old(self)@, event@),
            final(self).pipeline.filter_method == old(self).pipeline.filter_method,
            final(self).pipeline.depth_stencil == old(self).pipeline.depth_stencil,
    {
        match event {
            BrushEvent::Draw(vertices) => {
                let action = self.pipeline.upload(vertices);
                proof {
                    assert(self@ =~= spec_process_event(old(self)@, event@).0);
                }
                BrushStep::Drawn(action)
            },
            BrushEvent::ReDraw => {
                proof {
                    assert(self@ =~= spec_process_event(old(self)@, event@).0);
                }
                BrushStep::Redrawn
            },
            BrushEvent::TextureTooSmall { suggested_width, suggested_height } => {
                let (nw, nh) = grow_target(
                    suggested_width,
                    suggested_height,
                    self.pipeline.cache.width,
                    self.pipeline.cache.height,
                );
                if 1 <= nw && nw <= MAX_TEXTURE_DIMENSION && 1 <= nh && nh
                    <= MAX_TEXTURE_DIMENSION {
                    self.pipeline.increase_cache_size(nw, nh);
                    proof {
                        assert(self@ =~= spec_process_event(old(self)@, event@).0);
                    }
                    BrushStep::Resized { width: nw, height: nh }
                } else {
                    proof {
                        assert(self@ =~= spec_process_event(old(self)@, event@).0);
                    }
                    BrushStep::AtlasExhausted { width: nw, height: nh }
                }
            },
        }
    }

    /// Decides one draw call against the current pipeline state; see
    /// [`Pipeline::draw`]. Processing must have finished first: the
    /// command covers exactly the records the buffer holds now.
    pub fn draw(&mut self, transform: &[u32; 16], scissor: Option<ScissorRect>) -> (cmd:
        DrawCommand)
        requires
            old(self).wf(),
        ensures
            final(self).wf(),
            (final(self)@.transform, cmd) == spec_draw_step(
                old(self)@.transform,
                transform@,
                old(self)@.buffer.records.len(),
                scissor,
            ),
            final(self)@.cache_width == old(self)@.cache_width,
            final(self)@.cache_height == old(self)@.cache_height,
            final(self)@.buffer == old(self)@.buffer,
            final(self).pipeline.cache == old(self).pipeline.cache,
            final(self).pipeline.filter_method == old(self).pipeline.filter_method,
            final(self).pipeline.depth_stencil == old(self).pipeline.depth_stencil,
    {
        self.pipeline.draw(transform, scissor)
    }
}

/// Executable twin of [`spec_grow_target`].
fn grow_target(sw: u32, sh: u32, cw: u32, ch: u32) -> (r: (u32, u32))
    ensures
        r == spec_grow_target(sw, sh, cw, ch),
{
    if (sw > MAX_TEXTURE_DIMENSION || sh > MAX_TEXTURE_DIMENSION) && (cw < MAX_TEXTURE_DIMENSION
        || ch < MAX_TEXTURE_DIMENSION) {
        (MAX_TEXTURE_DIMENSION, MAX_TEXTURE_DIMENSION)
    } else {
        (sw, sh)
    }
}

/// Law: once a frame's vertices are in place, a `ReDraw` outcome changes
/// nothing — the buffer keeps exactly the drawn vertices and the host is
/// told there is nothing to re-upload.
pub proof fn lemma_redraw_stable(m: BrushModel, vs: Seq<Vertex>)
    ensures
        ({
            let (m1, s1) = spec_process_event(m, EventModel::Draw(vs));
            let (m2, s2) = spec_process_event(m1, EventModel::ReDraw);
            &&& m1.buffer.records == vs
            &&& m2 == m1
            &&& s2 == BrushStep::Redrawn
        }),
{
}

/// Law: an atlas overflow never drops glyphs. While the atlas is not yet
/// at the device maximum, the step reallocates it strictly larger (never
/// beyond the maximum when the suggestion itself is legal) and asks for a
/// retry, leaving the pending buffer untouched; only a suggestion beyond
/// the maximum with the atlas already at the maximum on both axes is
/// reported as an allocation failure, never a silent drop.
pub proof fn lemma_resize_makes_progress(m: BrushModel, sw: u32, sh: u32)
    requires
        1 <= m.cache_width <= MAX_TEXTURE_DIMENSION,
        1 <= m.cache_height <= MAX_TEXTURE_DIMENSION,
        m.cache_width <= sw,
        m.cache_height <= sh,
        m.cache_width < sw || m.cache_height < sh,
    ensures
        ({
            let ev = EventModel::TextureTooSmall { suggested_width: sw, suggested_height: sh };
            let (m1, s1) = spec_process_event(m, ev);
            &&& m1.buffer == m.buffer
            &&& m1.transform == m.transform
            &&& if m.cache_width == MAX_TEXTURE_DIMENSION && m.cache_height
                == MAX_TEXTURE_DIMENSION {
                m1 == m && s1 == (BrushStep::AtlasExhausted { width: sw, height: sh })
            } else {
                let (nw, nh) = spec_grow_target(sw, sh, m.cache_width, m.cache_height);
                &&& s1 == (BrushStep::Resized { width: nw, height: nh })
                &&& m1.cache_width == nw && m1.cache_height == nh
                &&& m.cache_width <= nw <= MAX_TEXTURE_DIMENSION
                &&& m.cache_height <= nh <= MAX_TEXTURE_DIMENSION
                &&& (nw > m.cache_width || nh > m.cache_height)
                // the slack below the device maximum strictly shrinks, so
                // only finitely many growing retries can ever happen
                &&& (MAX_TEXTURE_DIMENSION - nw) + (MAX_TEXTURE_DIMENSION - nh) < (
                MAX_TEXTURE_DIMENSION - m.cache_width) + (MAX_TEXTURE_DIMENSION - m.cache_height)
            }
        }),
{
}

} // verus!
