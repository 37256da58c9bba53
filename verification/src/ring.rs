//! Ring buffer writer: a fixed-capacity vertex buffer written cyclically.
//!
//! The buffer never resizes. A batch that fits between the cursor and the
//! end is written as one contiguous region; one that would cross the end is
//! split into a head region reaching the end and a tail region starting at
//! slot zero. A batch larger than the whole capacity is dropped: the buffer
//! and the cursor are left untouched, so later frames stay correct.
//!
//! `append` reports the regions it wrote so that the graphics layer can
//! mirror each one into the GPU-resident copy of the buffer with a
//! sub-range upload.

use vstd::prelude::*;
use vstd::pervasive::VecAdditionalExecFns;

use crate::vertex::{zero_vertex, Vertex};

verus! {

/// One contiguous span of buffer slots covered by a write:
/// slots `[offset, offset + len)`.
#[derive(Clone, Copy, PartialEq, Eq, Structural, Debug)]
pub struct WriteRegion {
    pub offset: usize,
    pub len: usize,
}

/// The buffer contents after writing `vs` cyclically, starting at slot
/// `start`. Meaningful when `0 <= start < buf.len()` and
/// `vs.len() <= buf.len()`: each slot at cyclic distance `rel < vs.len()`
/// from `start` takes `vs[rel]`; every other slot keeps its old value.
pub open spec fn ring_written(buf: Seq<Vertex>, start: int, vs: Seq<Vertex>) -> Seq<Vertex> {
    Seq::new(
        buf.len(),
        |i: int|
            {
                let rel = if i >= start {
                    i - start
                } else {
                    i - start + buf.len()
                };
                if rel < vs.len() {
                    vs[rel]
                } else {
                    buf[i]
                }
            },
    )
}

/// A fixed-capacity circular vertex buffer plus the cursor for the next
/// write. This is the engine-side copy of the GPU buffer: every region
/// `append` reports written here is uploaded unchanged by the caller.
pub struct RingBuffer {
    capacity: usize,
    cursor: usize,
    data: Vec<Vertex>,
}

impl View for RingBuffer {
    type V = Seq<Vertex>;

    closed spec fn view(&self) -> Seq<Vertex> {
        self.data@
    }
}

impl RingBuffer {
    /// Total number of vertex slots; fixed at construction.
    pub closed spec fn spec_capacity(&self) -> usize {
        self.capacity
    }

    /// The slot the next write starts at.
    pub closed spec fn spec_cursor(&self) -> usize {
        self.cursor
    }

    /// Well-formedness: the backing storage spans exactly `capacity` slots
    /// and the cursor stays strictly inside them.
    pub open spec fn wf(&self) -> bool {
        &&& self@.len() == self.spec_capacity()
        &&& self.spec_cursor() < self.spec_capacity()
        &&& 0 < self.spec_capacity()
    }

    #[verifier::when_used_as_spec(spec_capacity)]
    pub fn capacity(&self) -> (c: usize)
        ensures
            c == self.spec_capacity(),
    {
        self.capacity
    }

    #[verifier::when_used_as_spec(spec_cursor)]
    pub fn cursor(&self) -> (c: usize)
        ensures
            c == self.spec_cursor(),
    {
        self.cursor
    }

    /// Create a buffer of `capacity` zeroed slots with the cursor at zero.
    pub fn new(capacity: usize) -> (rb: RingBuffer)
        requires
            0 < capacity,
        ensures
            rb.wf(),
            rb.spec_capacity() == capacity,
            rb.spec_cursor() == 0,
            rb@ =~= Seq::new(capacity as nat, |i: int| zero_vertex()),
    {
        let mut data: Vec<Vertex> = Vec::new();
        let mut i: usize = 0;
        while i < capacity
            invariant
                i <= capacity,
                data@ =~= Seq::new(i as nat, |j: int| zero_vertex()),
            decreases capacity - i,
        {
            data.push(Vertex::zeroed());
            i = i + 1;
        }
        RingBuffer { capacity, cursor: 0, data }
    }

    /// Read the vertex in slot `i`.
    pub fn get(&self, i: usize) -> (v: Vertex)
        requires
            self.wf(),
            i < self.spec_capacity(),
        ensures
            v == self@[i as int],
    {
        self.data[i]
    }

    /// Copy `vertices[src .. src + len)` into slots `[dst .. dst + len)`.
    fn write_span(&mut self, dst: usize, vertices: &Vec<Vertex>, src: usize, len: usize)
        requires
            old(self).wf(),
            dst + len <= old(self).spec_capacity(),
            src + len <= vertices@.len(),
        ensures
            final(self).wf(),
            final(self).spec_capacity() == old(self).spec_capacity(),
            final(self).spec_cursor() == old(self).spec_cursor(),
            final(self)@.len() == old(self)@.len(),
            forall|i: int|
                0 <= i < final(self)@.len() ==> final(self)@[i] == (if dst <= i < dst + len {
                    vertices@[src + (i - dst)]
                } else {
                    old(self)@[i]
                }),
    {
        let total = vertices.len();
        let mut k: usize = 0;
        while k < len
            invariant
                k <= len,
                total == vertices@.len(),
                dst + len <= self.spec_capacity(),
                src + len <= total,
                self.wf(),
                self.spec_capacity() == old(self).spec_capacity(),
                self.spec_cursor() == old(self).spec_cursor(),
                self@.len() == old(self)@.len(),
                forall|i: int|
                    0 <= i < self@.len() ==> self@[i] == (if dst <= i < dst + k {
                        vertices@[src + (i - dst)]
                    } else {
                        old(self)@[i]
                    }),
            decreases len - k,
        {
            self.data.set(dst + k, vertices[src + k]);
            k = k + 1;
        }
    }

    /// Append a batch of vertices at the cursor, wrapping past the end.
    ///
    /// Returns the contiguous regions written, in the order their slices of
    /// `vertices` appear in the batch, or `None` when the batch exceeds the
    /// whole capacity and is dropped. An empty batch writes nothing and
    /// reports no regions. Written batches are nonzero and even in length:
    /// an odd batch that would be written is a contract violation upstream.
    pub fn append(&mut self, vertices: &Vec<Vertex>) -> (outcome: Option<Vec<WriteRegion>>)
        requires
            old(self).wf(),
            0 < vertices@.len() <= old(self).spec_capacity() ==> vertices@.len() % 2 == 0,
        ensures
            final(self).wf(),
            final(self).spec_capacity() == old(self).spec_capacity(),
            // An empty batch is a no-op that still succeeds.
            vertices@.len() == 0 ==> {
                &&& outcome matches Some(regions) && regions@ =~= Seq::<WriteRegion>::empty()
                &&& final(self).spec_cursor() == old(self).spec_cursor()
                &&& final(self)@ == old(self)@
            },
            // A batch larger than the whole capacity is dropped: buffer and
            // cursor are unchanged.
            vertices@.len() > old(self).spec_capacity() ==> {
                &&& outcome is None
                &&& final(self).spec_cursor() == old(self).spec_cursor()
                &&& final(self)@ == old(self)@
            },
            // A batch that fits is written cyclically from the cursor.
            0 < vertices@.len() <= old(self).spec_capacity() ==> {
                let n = vertices@.len() as int;
                let cap = old(self).spec_capacity() as int;
                let cur = old(self).spec_cursor() as int;
                &&& final(self)@ =~= ring_written(old(self)@, cur, vertices@)
                &&& final(self).spec_cursor() == (cur + n) % cap
                &&& outcome matches Some(regions) && (if n <= cap - cur {
                    // One contiguous region when the batch fits before the end.
                    regions@ =~= seq![WriteRegion { offset: cur as usize, len: n as usize }]
                } else {
                    // Otherwise a head reaching the end and a tail from slot
                    // zero, whose lengths sum to the batch length.
                    &&& regions@ =~= seq![
                        WriteRegion { offset: cur as usize, len: (cap - cur) as usize },
                        WriteRegion { offset: 0, len: (n - (cap - cur)) as usize },
                    ]
                    &&& regions@[0].len + regions@[1].len == n
                })
            },
            // Every reported region lies wholly inside the buffer, so a
            // caller can mirror it with one bounded sub-range upload.
            outcome matches Some(regions) ==> forall|j: int|
                0 <= j < regions@.len() ==> (#[trigger] regions@[j]).offset + regions@[j].len
                    <= final(self).spec_capacity(),
            // The cursor stays strictly inside the buffer after every
            // successful append.
            vertices@.len() <= old(self).spec_capacity() ==> final(self).spec_cursor()
                < final(self).spec_capacity(),
            // A batch ending exactly at the buffer's end leaves the cursor
            // at zero, never at `capacity`.
            0 < vertices@.len() && old(self).spec_cursor() + vertices@.len() == old(
                self,
            ).spec_capacity() ==> final(self).spec_cursor() == 0,
    {
        let n = vertices.len();
        if n == 0 {
            return Some(Vec::new());
        }
        if n > self.capacity {
            return None;
        }
        let cur = self.cursor;
        let room = self.capacity - cur;
        let mut regions: Vec<WriteRegion> = Vec::new();
        if n <= room {
            self.write_span(cur, vertices, 0, n);
            regions.push(WriteRegion { offset: cur, len: n });
            self.cursor = if cur + n == self.capacity {
                0
            } else {
                cur + n
            };
        } else {
            let tail = n - room;
            self.write_span(cur, vertices, 0, room);
            self.write_span(0, vertices, room, tail);
            regions.push(WriteRegion { offset: cur, len: room });
            regions.push(WriteRegion { offset: 0, len: tail });
            self.cursor = tail;
        }
        proof {
            let cap = old(self).spec_capacity() as int;
            let cur_g = old(self).spec_cursor() as int;
            let n_g = vertices@.len() as int;
            assert(self.spec_cursor() == (cur_g + n_g) % cap) by {
                if cur_g + n_g < cap {
                    vstd::arithmetic::div_mod::lemma_small_mod((cur_g + n_g) as nat, cap as nat);
                } else {
                    assert(cap <= cur_g + n_g < 2 * cap);
                    vstd::arithmetic::div_mod::lemma_mod_sub_multiples_vanish(cur_g + n_g, cap);
                    vstd::arithmetic::div_mod::lemma_small_mod((cur_g + n_g - cap) as nat, cap as nat);
                }
            }
            assert(self@ =~= ring_written(old(self)@, cur_g, vertices@));
        }
        Some(regions)
    }
}

} // verus!
