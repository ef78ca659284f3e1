//! Decoder from a scene-graph-style geometry description — flat float
//! arrays plus index lists with per-attribute offsets and strides — into a
//! renderer-ready indexed mesh: welded vertex buffers for position, normal
//! and UV plus a triangle or line index buffer.

pub mod bytes;
pub mod dedup;
pub mod extract;
pub mod loaded;
pub mod model;
pub mod convert;
pub mod quant;
pub mod wireframe;
