//! The instanced vertex buffer: one quad record per visible glyph.
//!
//! Uploads fully replace the logical contents. The physical device buffer
//! is sticky: it grows to exactly the required length when the records
//! outgrow it and is otherwise reused, so capacity never shrinks across
//! frames. The host mirrors the returned action onto the device buffer.

use crate::vertex::Vertex;
use vstd::prelude::*;

verus! {

/// What the host must do to the device buffer for this frame's records.
#[derive(Clone, Copy, Debug, PartialEq, Eq, Structural)]
pub enum UploadAction {
    /// No records this frame: no device interaction at all, the draw will
    /// cover zero instances.
    SkipEmpty,
    /// The records fit: map the existing buffer discarding its contents
    /// and copy all records in.
    WriteExisting,
    /// The records outgrew the buffer: replace it by one of exactly this
    /// capacity, then map and copy.
    Reallocate { capacity: usize },
}

/// Mathematical state of the buffer: the visible records and the physical
/// capacity of the device buffer behind them.
#[verifier::ext_equal]
pub struct BufferModel {
    pub records: Seq<Vertex>,
    pub capacity: nat,
}

impl BufferModel {
    /// The records fit the physical buffer.
    pub open spec fn wf(self) -> bool {
        self.records.len() <= self.capacity
    }
}

/// One upload, as a function of the buffer state and the incoming records:
/// the new state and what the host must do on the device.
pub open spec fn spec_upload(m: BufferModel, vs: Seq<Vertex>) -> (BufferModel, UploadAction) {
    let cap = if vs.len() > m.capacity {
        vs.len()
    } else {
        m.capacity
    };
    let action = if vs.len() == 0 {
        UploadAction::SkipEmpty
    } else if vs.len() > m.capacity {
        UploadAction::Reallocate { capacity: vs.len() as usize }
    } else {
        UploadAction::WriteExisting
    };
    (BufferModel { records: vs, capacity: cap }, action)
}

/// The vertex buffer manager.
pub struct VertexBuffer {
    pub records: Vec<Vertex>,
    pub capacity: usize,
}

impl View for VertexBuffer {
    type V = BufferModel;

    open spec fn view(&self) -> BufferModel {
        BufferModel { records: self.records@, capacity: self.capacity as nat }
    }
}

impl VertexBuffer {
    /// The records fit the physical buffer.
    pub open spec fn wf(self) -> bool {
        self@.wf()
    }

    /// A fresh, empty buffer whose device allocation holds `capacity`
    /// records.
    pub fn with_capacity(capacity: usize) -> (b: VertexBuffer)
        ensures
            b.wf(),
            b@.capacity == capacity,
            b@.records.len() == 0,
    {
        VertexBuffer { records: Vec::new(), capacity }
    }

    /// Number of records to draw this frame.
    pub fn len(&self) -> (n: usize)
        ensures
            n == self@.records.len(),
    {
        self.records.len()
    }

    /// Physical capacity of the device buffer.
    pub fn capacity(&self) -> (c: usize)
        ensures
            c == self@.capacity,
    {
        self.capacity
    }

    /// Replaces the visible records by `vertices` and returns what the
    /// host must do on the device buffer; capacity grows to exactly the
    /// record count when exceeded and never shrinks.
    pub fn upload(&mut self, vertices: Vec<Vertex>) -> (action: UploadAction)
        requires
            old(self).wf(),
        ensures
            final(self).wf(),
            (final(self)@, action) == spec_upload(old(self)@, vertices@),
            old(self)@.capacity <= final(self)@.capacity,
    {
        let n = vertices.len();
        let action = if n == 0 {
            UploadAction::SkipEmpty
        } else if n > self.capacity {
            self.capacity = n;
            UploadAction::Reallocate { capacity: n }
        } else {
            UploadAction::WriteExisting
        };
        self.records = vertices;
        proof {
            assert(self@ =~= spec_upload(old(self)@, self.records@).0);
        }
        action
    }
}

/// Law: the buffer capacity never shrinks across frames — uploading any
/// two batches in a row, the second no larger than the first, reuses the
/// grown buffer unchanged while the logical records become exactly the
/// second batch.
pub proof fn lemma_capacity_never_shrinks(m: BufferModel, v1: Seq<Vertex>, v2: Seq<Vertex>)
    requires
        v2.len() <= v1.len(),
    ensures
        ({
            let (m1, a1) = spec_upload(m, v1);
            let (m2, a2) = spec_upload(m1, v2);
            &&& m2.capacity == m1.capacity
            &&& m.capacity <= m1.capacity
            &&& m2.records == v2
            &&& a2 != (UploadAction::Reallocate { capacity: v2.len() as usize })
        }),
{
}

} // verus!
