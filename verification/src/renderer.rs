//! The trail renderer core: tracker, encoder and ring buffer behind one
//! per-frame interface.
//!
//! `update` turns a frame's snapshot into segments, encodes them and
//! appends them to the ring buffer, handing back exactly what the graphics
//! layer must upload. `draw` hands back the fixed attribute layout, the
//! vertex count and the current projection for the frame's single
//! line-primitive draw call. The projection matrix is an opaque,
//! externally maintained value: sixteen scalar words copied in by value.

use vstd::prelude::*;

use crate::encoder::{encode, encoded};
use crate::ring::{ring_written, RingBuffer, WriteRegion};
use crate::tracker::{cache_after, emitted_segments, PositionTracker};
use crate::vertex::{zero_vertex, Observation, Point, Vertex};

verus! {

/// Scalar words per interleaved vertex record: two for the position, four
/// for the color.
pub const SCALARS_PER_VERTEX: u32 = 6;

/// Bytes per scalar word.
pub const SCALAR_BYTES: u32 = 4;

/// Byte stride between consecutive vertex records.
pub const VERTEX_STRIDE_BYTES: u32 = 24;

/// Scalars in the position attribute.
pub const POSITION_COMPONENTS: u32 = 2;

/// Byte offset of the position attribute inside a record.
pub const POSITION_OFFSET_BYTES: u32 = 0;

/// Scalars in the color attribute.
pub const COLOR_COMPONENTS: u32 = 4;

/// Byte offset of the color attribute inside a record.
pub const COLOR_OFFSET_BYTES: u32 = 8;

/// What one frame's update asks of the graphics layer.
pub enum FrameWrite {
    /// No entity had a prior sample: nothing to upload.
    Idle,
    /// Upload `vertices`, sliced in order into the reported buffer regions.
    Uploaded { vertices: Vec<Vertex>, regions: Vec<WriteRegion> },
    /// The frame produced more vertices than the whole buffer holds; the
    /// update was dropped and `count` is the offending vertex count, for
    /// the warning the caller logs.
    Overflow { count: usize },
}

/// Everything one full-buffer line draw needs: the two interleaved
/// attribute streams, the vertex count and the transform.
pub struct DrawConfig {
    pub position_components: u32,
    pub position_offset_bytes: u32,
    pub color_components: u32,
    pub color_offset_bytes: u32,
    pub stride_bytes: u32,
    /// Always the buffer's full capacity: slots not yet written draw as
    /// degenerate zero-length segments at the origin.
    pub vertex_count: usize,
    pub projection: [u32; 16],
}

/// The trail engine: per-entity position cache, vertex encoder and
/// fixed-capacity circular vertex buffer.
pub struct TrailRenderer {
    tracker: PositionTracker,
    buffer: RingBuffer,
    projection_matrix: [u32; 16],
}

impl TrailRenderer {
    /// The per-entity last-known-position cache.
    pub closed spec fn spec_positions(&self) -> Map<u64, Point> {
        self.tracker@
    }

    /// The engine-side contents of the vertex buffer.
    pub closed spec fn buffer_view(&self) -> Seq<Vertex> {
        self.buffer@
    }

    /// Total vertex slots in the buffer.
    pub closed spec fn spec_capacity(&self) -> usize {
        self.buffer.spec_capacity()
    }

    /// The slot the next write starts at.
    pub closed spec fn spec_cursor(&self) -> usize {
        self.buffer.spec_cursor()
    }

    /// The stored projection matrix, as sixteen opaque scalar words.
    pub closed spec fn spec_projection(&self) -> [u32; 16] {
        self.projection_matrix
    }

    /// Well-formedness, carried over from the ring buffer: the storage
    /// spans exactly `capacity` slots and the cursor stays inside them.
    pub closed spec fn wf_inner(&self) -> bool {
        self.buffer.wf()
    }

    pub open spec fn wf(&self) -> bool {
        &&& self.wf_inner()
        &&& self.buffer_view().len() == self.spec_capacity()
        &&& self.spec_cursor() < self.spec_capacity()
        &&& 0 < self.spec_capacity()
    }

    /// Build an engine with `capacity` zeroed vertex slots, the cursor at
    /// zero, an empty position cache and `projection` as the initial
    /// transform (the caller supplies it, normally the identity).
    pub fn new(capacity: usize, projection: [u32; 16]) -> (renderer: TrailRenderer)
        requires
            0 < capacity,
        ensures
            renderer.wf(),
            renderer.spec_capacity() == capacity,
            renderer.spec_cursor() == 0,
            renderer.spec_positions() == Map::<u64, Point>::empty(),
            renderer.buffer_view() =~= Seq::new(capacity as nat, |i: int| zero_vertex()),
            renderer.spec_projection() == projection,
    {
        TrailRenderer {
            tracker: PositionTracker::new(),
            buffer: RingBuffer::new(capacity),
            projection_matrix: projection,
        }
    }

    /// Replace the stored transform with an externally computed one.
    pub fn update_projection_matrix(&mut self, matrix: &[u32; 16])
        ensures
            final(self).spec_projection() == *matrix,
            final(self).spec_positions() == old(self).spec_positions(),
            final(self).buffer_view() == old(self).buffer_view(),
            final(self).spec_capacity() == old(self).spec_capacity(),
            final(self).spec_cursor() == old(self).spec_cursor(),
            old(self).wf() ==> final(self).wf(),
    {
        self.projection_matrix = *matrix;
    }

    /// Process one frame: emit a segment for every entity with a cached
    /// position, encode the segments as vertex records, and append them to
    /// the ring buffer. Returns what the graphics layer must upload, or the
    /// dropped vertex count when the frame exceeds the whole capacity.
    pub fn update(&mut self, snapshot: &Vec<Observation>) -> (write: FrameWrite)
        requires
            old(self).wf(),
        ensures
            final(self).wf(),
            final(self).spec_capacity() == old(self).spec_capacity(),
            final(self).spec_projection() == old(self).spec_projection(),
            final(self).spec_positions() == cache_after(old(self).spec_positions(), snapshot@),
            ({
                let vs = encoded(emitted_segments(old(self).spec_positions(), snapshot@));
                let n = vs.len() as int;
                let cap = old(self).spec_capacity() as int;
                let cur = old(self).spec_cursor() as int;
                &&& (n == 0 ==> {
                    &&& write is Idle
                    &&& final(self).spec_cursor() == cur
                    &&& final(self).buffer_view() == old(self).buffer_view()
                })
                &&& (n > cap ==> {
                    &&& write matches FrameWrite::Overflow { count } && count == n
                    &&& final(self).spec_cursor() == cur
                    &&& final(self).buffer_view() == old(self).buffer_view()
                })
                &&& (0 < n <= cap ==> {
                    &&& final(self).buffer_view() =~= ring_written(
                        old(self).buffer_view(),
                        cur,
                        vs,
                    )
                    &&& final(self).spec_cursor() == (cur + n) % cap
                    &&& write matches FrameWrite::Uploaded { vertices, regions } && vertices@ == vs
                        && (if n <= cap - cur {
                        regions@ =~= seq![WriteRegion { offset: cur as usize, len: n as usize }]
                    } else {
                        regions@ =~= seq![
                            WriteRegion { offset: cur as usize, len: (cap - cur) as usize },
                            WriteRegion { offset: 0, len: (n - (cap - cur)) as usize },
                        ]
                    })
                })
            }),
    {
        let segments = self.tracker.update(snapshot);
        let vertices = encode(&segments);
        match self.buffer.append(&vertices) {
            None => FrameWrite::Overflow { count: vertices.len() },
            Some(regions) => {
                if vertices.len() == 0 {
                    FrameWrite::Idle
                } else {
                    FrameWrite::Uploaded { vertices, regions }
                }
            },
        }
    }

    /// The configuration of the frame's single draw call: both attribute
    /// streams read the same interleaved buffer, and the draw always spans
    /// the entire fixed capacity, not just the slots written so far.
    pub fn draw(&self) -> (config: DrawConfig)
        requires
            self.wf(),
        ensures
            config.position_components == POSITION_COMPONENTS,
            config.position_offset_bytes == POSITION_OFFSET_BYTES,
            config.color_components == COLOR_COMPONENTS,
            config.color_offset_bytes == COLOR_OFFSET_BYTES,
            config.stride_bytes == VERTEX_STRIDE_BYTES,
            config.vertex_count == self.spec_capacity(),
            config.projection == self.spec_projection(),
    {
        DrawConfig {
            position_components: POSITION_COMPONENTS,
            position_offset_bytes: POSITION_OFFSET_BYTES,
            color_components: COLOR_COMPONENTS,
            color_offset_bytes: COLOR_OFFSET_BYTES,
            stride_bytes: VERTEX_STRIDE_BYTES,
            vertex_count: self.buffer.capacity(),
            projection: self.projection_matrix,
        }
    }

    /// Total vertex slots in the buffer.
    pub fn capacity(&self) -> (c: usize)
        ensures
            c == self.spec_capacity(),
    {
        self.buffer.capacity()
    }

    /// The slot the next write starts at.
    pub fn cursor(&self) -> (c: usize)
        ensures
            c == self.spec_cursor(),
    {
        self.buffer.cursor()
    }

    /// Read the vertex in buffer slot `i`.
    pub fn vertex_at(&self, i: usize) -> (v: Vertex)
        requires
            self.wf(),
            i < self.spec_capacity(),
        ensures
            v == self.buffer_view()[i as int],
    {
        self.buffer.get(i)
    }

    /// The cached last known position of one entity, if it has been seen.
    pub fn last_position(&self, handle: u64) -> (position: Option<Point>)
        ensures
            match position {
                Some(p) => self.spec_positions().contains_key(handle) && p
                    == self.spec_positions()[handle],
                None => !self.spec_positions().contains_key(handle),
            },
    {
        self.tracker.last_position(handle)
    }

    /// The stored projection matrix.
    pub fn projection(&self) -> (matrix: [u32; 16])
        ensures
            matrix == self.spec_projection(),
    {
        self.projection_matrix
    }
}

} // verus!
