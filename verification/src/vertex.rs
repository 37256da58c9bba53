//! Plain record types shared by the trail engine.
//!
//! A scalar is an opaque 32-bit word: the bit pattern of one
//! single-precision sample. The engine only copies scalars, never computes
//! with them, so they stay uninterpreted here.

use vstd::prelude::*;

verus! {

/// A sampled 2D position, one opaque scalar word per coordinate.
#[derive(Clone, Copy, PartialEq, Eq, Structural, Debug)]
pub struct Point {
    pub x: u32,
    pub y: u32,
}

/// An RGBA color, one opaque scalar word per channel.
#[derive(Clone, Copy, PartialEq, Eq, Structural, Debug)]
pub struct Color {
    pub r: u32,
    pub g: u32,
    pub b: u32,
    pub a: u32,
}

/// One interleaved vertex record: a position followed by a color,
/// six scalar words in all.
#[derive(Clone, Copy, PartialEq, Eq, Structural, Debug)]
pub struct Vertex {
    pub position: Point,
    pub color: Color,
}

/// A trail segment: a line from an entity's previous sampled position to
/// its current one, drawn in the entity's color.
#[derive(Clone, Copy, PartialEq, Eq, Structural, Debug)]
pub struct Segment {
    pub start: Point,
    pub end: Point,
    pub color: Color,
}

/// One entity in a frame's simulation snapshot: a stable handle, the
/// entity's current position, and its team color.
#[derive(Clone, Copy, PartialEq, Eq, Structural, Debug)]
pub struct Observation {
    pub handle: u64,
    pub position: Point,
    pub color: Color,
}

/// The all-zero vertex that fills buffer slots before they are first
/// written. Slots holding it render as degenerate zero-length segments at
/// the coordinate origin.
pub open spec fn zero_vertex() -> Vertex {
    Vertex {
        position: Point { x: 0, y: 0 },
        color: Color { r: 0, g: 0, b: 0, a: 0 },
    }
}

impl Vertex {
    /// The value new buffer slots start out as.
    pub fn zeroed() -> (v: Vertex)
        ensures
            v == zero_vertex(),
    {
        Vertex {
            position: Point { x: 0, y: 0 },
            color: Color { r: 0, g: 0, b: 0, a: 0 },
        }
    }
}

} // verus!
