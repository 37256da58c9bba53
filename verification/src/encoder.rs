//! Vertex encoder: flattens trail segments into interleaved vertex records.
//!
//! Each segment becomes exactly two vertex records — its start point and
//! then its end point, both carrying the segment's color — so the encoder's
//! output length is always even. Segments are neither merged, clipped nor
//! deduplicated.

use vstd::prelude::*;

use crate::vertex::{Segment, Vertex};

verus! {

/// The vertex sequence an encoded segment sequence flattens to: two records
/// per segment, start point first, in segment order.
pub open spec fn encoded(segments: Seq<Segment>) -> Seq<Vertex>
    decreases segments.len(),
{
    if segments.len() == 0 {
        Seq::empty()
    } else {
        encoded(segments.drop_last()) + seq![
            Vertex { position: segments.last().start, color: segments.last().color },
            Vertex { position: segments.last().end, color: segments.last().color },
        ]
    }
}

/// The encoder emits exactly two vertices per segment.
pub proof fn lemma_encoded_len(segments: Seq<Segment>)
    ensures
        encoded(segments).len() == 2 * segments.len(),
    decreases segments.len(),
{
    if segments.len() > 0 {
        lemma_encoded_len(segments.drop_last());
    }
}

/// Law: for every segment sequence, the number of vertices the encoder
/// produces is even.
pub proof fn lemma_encoded_len_even(segments: Seq<Segment>)
    ensures
        encoded(segments).len() % 2 == 0,
{
    lemma_encoded_len(segments);
}

/// Flatten `segments` into interleaved vertex records, two per segment.
pub fn encode(segments: &Vec<Segment>) -> (vertices: Vec<Vertex>)
    ensures
        vertices@ == encoded(segments@),
        vertices@.len() == 2 * segments@.len(),
{
    let mut vertices: Vec<Vertex> = Vec::new();
    let mut i: usize = 0;
    while i < segments.len()
        invariant
            i <= segments@.len(),
            vertices@ == encoded(segments@.take(i as int)),
            vertices@.len() == 2 * i,
        decreases segments@.len() - i,
    {
        let segment = segments[i];
        vertices.push(Vertex { position: segment.start, color: segment.color });
        vertices.push(Vertex { position: segment.end, color: segment.color });
        proof {
            let taken = segments@.take(i + 1 as int);
            assert(taken.drop_last() =~= segments@.take(i as int));
            assert(taken.last() == segments@[i as int]);
            assert(vertices@ =~= encoded(taken));
        }
        i = i + 1;
    }
    proof {
        assert(segments@.take(segments@.len() as int) =~= segments@);
    }
    vertices
}

} // verus!
