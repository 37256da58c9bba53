//! Trail rendering engine for a 2D simulation viewer.
//!
//! Each frame, the engine turns the latest sampled position of every live
//! entity into short colored line segments joining it to the entity's
//! previous sample, encodes the segments as interleaved vertex records, and
//! appends them to a fixed-capacity circular vertex buffer, splitting writes
//! that cross the buffer's end and dropping whole updates that would exceed
//! total capacity. The graphics layer on top of this crate uploads the
//! written regions to the GPU and issues one line-primitive draw over the
//! entire buffer every frame.
//!
//! Scalar samples (positions, colors, the projection matrix) are carried as
//! opaque 32-bit words: the engine never does arithmetic on them, it only
//! copies them, so their numeric interpretation is left to the layer that
//! produces and consumes them.

pub mod vertex;

pub mod encoder;

pub mod ring;

pub mod tracker;

pub mod renderer;


