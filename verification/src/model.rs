//! Data model for the geometry decoder.
//!
//! Floating-point coordinates are carried as IEEE-754 single-precision bit
//! patterns (`u32`): the decoder never does float arithmetic itself, it only
//! moves coordinates around and quantizes them for vertex welding, which is
//! done exactly on the bit pattern (see `quant`).

use vstd::prelude::*;

verus! {

/// Bit pattern of 0.0f32.
pub const F32_ZERO_BITS: u32 = 0x0000_0000;
/// Bit pattern of 1.0f32.
pub const F32_ONE_BITS: u32 = 0x3F80_0000;

/// A 3-component vector of f32 bit patterns.
#[derive(Clone, Copy, PartialEq, Eq, Structural, Debug)]
pub struct Vec3Bits {
    pub x: u32,
    pub y: u32,
    pub z: u32,
}

/// A 2-component vector of f32 bit patterns.
#[derive(Clone, Copy, PartialEq, Eq, Structural, Debug)]
pub struct Vec2Bits {
    pub u: u32,
    pub v: u32,
}

/// Quantized position used for vertex welding: each coordinate scaled by
/// 1000 and rounded to the nearest integer. Never stored in output.
#[derive(Clone, Copy, PartialEq, Eq, Structural, Debug)]
pub struct VKey {
    pub x: i32,
    pub y: i32,
    pub z: i32,
}

/// The normal substituted when no normal data is available: (0, 1, 0).
pub open spec fn default_normal() -> Vec3Bits {
    Vec3Bits { x: F32_ZERO_BITS, y: F32_ONE_BITS, z: F32_ZERO_BITS }
}

/// The placeholder normal of the wireframe path: (1, 0, 0).
pub open spec fn wire_normal() -> Vec3Bits {
    Vec3Bits { x: F32_ONE_BITS, y: F32_ZERO_BITS, z: F32_ZERO_BITS }
}

/// The synthesized UV value: (0, 0).
pub open spec fn zero_uv() -> Vec2Bits {
    Vec2Bits { u: F32_ZERO_BITS, v: F32_ZERO_BITS }
}

/// A named flat array of floats (as f32 bit patterns) plus its accessor
/// stride: the number of consecutive values per logical element.
pub struct Source {
    pub id: Vec<u8>,
    pub stride: usize,
    pub values: Vec<u32>,
}

/// One `(semantic, offset)` input descriptor of a triangles primitive.
pub struct InputDesc {
    pub semantic: Vec<u8>,
    pub offset: usize,
}

/// A triangles primitive: its input descriptors and its flat index block.
pub struct Triangles {
    pub inputs: Vec<InputDesc>,
    pub p: Vec<usize>,
}

/// The mesh part of a geometry: its sources and its triangles primitives.
pub struct MeshData {
    pub sources: Vec<Source>,
    pub triangles: Vec<Triangles>,
}

/// A geometry object, addressable by its identifier.
pub struct Geometry {
    pub id: Vec<u8>,
    pub mesh: MeshData,
}

/// A scene node, possibly referencing a geometry by identifier.
pub struct Node {
    pub instance_geometry_url: Option<Vec<u8>>,
}

/// A visual scene: an ordered list of nodes.
pub struct VisualScene {
    pub nodes: Vec<Node>,
}

/// A parsed document: the default visual scene and the geometry table.
pub struct Document {
    pub visual_scene: Option<VisualScene>,
    pub geometries: Vec<Geometry>,
}

/// Output topology of a decoded mesh.
#[derive(Clone, Copy, PartialEq, Eq, Structural, Debug)]
pub enum Topology {
    TriangleList,
    LineList,
}

/// A renderer-ready indexed mesh: deduplicated attribute arrays of equal
/// length plus an index buffer.
#[derive(Debug)]
pub struct OutputMesh {
    pub topology: Topology,
    pub positions: Vec<Vec3Bits>,
    pub normals: Vec<Vec3Bits>,
    pub uv0: Vec<Vec2Bits>,
    pub indices: Vec<u32>,
}

/// An in-core decoding failure.
#[derive(Clone, Copy, PartialEq, Eq, Structural, Debug)]
pub enum GeomError {
    NoVisualScene,
    NoGeometry,
    NoPositionSource,
    NoTriangles,
    NoPositionInput,
    MalformedData,
}

impl GeomError {
    /// The diagnostic text of this error.
    pub fn message(&self) -> (r: &'static str)
        ensures
            *self == GeomError::NoVisualScene ==> r@ == "No visual scene found"@,
            *self == GeomError::NoGeometry ==> r@ == "No geometry found"@,
            *self == GeomError::NoPositionSource ==> r@ == "No position source found"@,
            *self == GeomError::NoTriangles ==> r@ == "No triangles found"@,
            *self == GeomError::NoPositionInput ==> r@ == "No position input found"@,
            *self == GeomError::MalformedData ==> r@ == "malformed data"@,
    {
        match self {
            GeomError::NoVisualScene => "No visual scene found",
            GeomError::NoGeometry => "No geometry found",
            GeomError::NoPositionSource => "No position source found",
            GeomError::NoTriangles => "No triangles found",
            GeomError::NoPositionInput => "No position input found",
            GeomError::MalformedData => "malformed data",
        }
    }
}

} // verus!
