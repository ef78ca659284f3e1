//! The wireframe decoding path on concrete documents.

use dae_mesh::convert::collada_to_wireframe_mesh;
use dae_mesh::model::{
    Document, GeomError, Geometry, InputDesc, MeshData, Node, Source, Topology, Triangles,
    Vec3Bits, VisualScene,
};

fn bits(v: f32) -> u32 {
    v.to_bits()
}

fn source(id: &str, stride: usize, vals: &[f32]) -> Source {
    Source {
        id: id.as_bytes().to_vec(),
        stride,
        values: vals.iter().map(|v| v.to_bits()).collect(),
    }
}

fn input(sem: &str, offset: usize) -> InputDesc {
    InputDesc { semantic: sem.as_bytes().to_vec(), offset }
}

fn doc_of(sources: Vec<Source>, triangles: Vec<Triangles>) -> Document {
    Document {
        visual_scene: Some(VisualScene {
            nodes: vec![Node { instance_geometry_url: Some(b"geo".to_vec()) }],
        }),
        geometries: vec![Geometry {
            id: b"geo".to_vec(),
            mesh: MeshData { sources, triangles },
        }],
    }
}

fn v3(x: f32, y: f32, z: f32) -> Vec3Bits {
    Vec3Bits { x: bits(x), y: bits(y), z: bits(z) }
}

fn undirected_edges(ids: &[u32]) -> Vec<(u32, u32)> {
    let mut out = Vec::new();
    for pair in ids.chunks(2) {
        let (a, b) = (pair[0], pair[1]);
        out.push((a.min(b), a.max(b)));
    }
    out.sort();
    out
}

#[test]
fn single_triangle_three_vertices_six_indices() {
    let doc = doc_of(
        vec![source("positions", 3, &[0.0, 0.0, 0.0, 1.0, 0.0, 0.0, 0.0, 1.0, 0.0])],
        vec![Triangles { inputs: vec![input("VERTEX", 0)], p: vec![0, 1, 2] }],
    );
    let m = collada_to_wireframe_mesh(&doc).unwrap();
    assert_eq!(m.topology, Topology::LineList);
    assert_eq!(m.positions.len(), 3);
    assert_eq!(m.indices.len(), 6);
    assert_eq!(m.indices, vec![0, 1, 1, 2, 2, 0]);
    let edges = undirected_edges(&m.indices);
    assert_eq!(edges, vec![(0, 1), (0, 2), (1, 2)]);
    // placeholder attributes
    assert_eq!(m.normals, vec![v3(1.0, 0.0, 0.0); 3]);
    assert_eq!(m.uv0.len(), 3);
    assert!(m.uv0.iter().all(|t| t.u == bits(0.0) && t.v == bits(0.0)));
}

#[test]
fn single_triangle_reversed_winding_same_edges() {
    let doc = doc_of(
        vec![source("positions", 3, &[0.0, 0.0, 0.0, 1.0, 0.0, 0.0, 0.0, 1.0, 0.0])],
        vec![Triangles { inputs: vec![input("VERTEX", 0)], p: vec![2, 1, 0] }],
    );
    let m = collada_to_wireframe_mesh(&doc).unwrap();
    assert_eq!(m.positions.len(), 3);
    assert_eq!(m.indices.len(), 6);
    let edges = undirected_edges(&m.indices);
    assert_eq!(edges, vec![(0, 1), (0, 2), (1, 2)]);
}

#[test]
fn pool_covers_unreferenced_positions() {
    // four raw positions, only three referenced by the triangle: the pool
    // still holds all four
    let doc = doc_of(
        vec![source(
            "positions",
            3,
            &[0.0, 0.0, 0.0, 1.0, 0.0, 0.0, 0.0, 1.0, 0.0, 9.0, 9.0, 9.0],
        )],
        vec![Triangles { inputs: vec![input("VERTEX", 0)], p: vec![0, 1, 2] }],
    );
    let m = collada_to_wireframe_mesh(&doc).unwrap();
    assert_eq!(m.positions.len(), 4);
    assert_eq!(m.indices.len(), 6);
}

#[test]
fn unpooled_corner_skips_triangle() {
    // eleven values with stride 4: two pooled windows (at 0 and 4); the
    // third corner reads the unpooled tail at 8 and misses, so the
    // triangle's edges are skipped rather than failing
    let doc = doc_of(
        vec![source(
            "positions",
            4,
            &[0.0, 0.0, 0.0, 7.0, 1.0, 0.0, 0.0, 7.0, 9.0, 9.0, 9.0],
        )],
        vec![Triangles { inputs: vec![input("VERTEX", 0)], p: vec![0, 1, 2] }],
    );
    let m = collada_to_wireframe_mesh(&doc).unwrap();
    assert_eq!(m.positions.len(), 2);
    assert_eq!(m.indices.len(), 0);
}

#[test]
fn out_of_bounds_corner_is_malformed() {
    let doc = doc_of(
        vec![source("positions", 3, &[0.0, 0.0, 0.0, 1.0, 0.0, 0.0, 0.0, 1.0, 0.0])],
        vec![Triangles { inputs: vec![input("VERTEX", 0)], p: vec![0, 1, 3] }],
    );
    let e = collada_to_wireframe_mesh(&doc).unwrap_err();
    assert_eq!(e, GeomError::MalformedData);
}

#[test]
fn zero_source_stride_is_malformed() {
    let doc = doc_of(
        vec![source("positions", 0, &[0.0, 0.0, 0.0])],
        vec![Triangles { inputs: vec![input("VERTEX", 0)], p: vec![0] }],
    );
    let e = collada_to_wireframe_mesh(&doc).unwrap_err();
    assert_eq!(e, GeomError::MalformedData);
}

#[test]
fn partial_face_is_malformed() {
    // five index entries with stride 1: not a whole number of faces
    let doc = doc_of(
        vec![source("positions", 3, &[0.0, 0.0, 0.0, 1.0, 0.0, 0.0, 0.0, 1.0, 0.0])],
        vec![Triangles { inputs: vec![input("VERTEX", 0)], p: vec![0, 1, 2, 0, 1] }],
    );
    let e = collada_to_wireframe_mesh(&doc).unwrap_err();
    assert_eq!(e, GeomError::MalformedData);
}

#[test]
fn wireframe_no_triangles() {
    let doc = doc_of(vec![source("positions", 3, &[0.0, 0.0, 0.0])], vec![]);
    let e = collada_to_wireframe_mesh(&doc).unwrap_err();
    assert_eq!(e, GeomError::NoTriangles);
    assert_eq!(e.message(), "No triangles found");
}

#[test]
fn welded_pool_entries() {
    // two raw windows within tolerance weld to one pool entry
    let doc = doc_of(
        vec![source("positions", 3, &[0.0, 0.0, 0.0, 0.0004, 0.0, 0.0])],
        vec![Triangles { inputs: vec![input("VERTEX", 0)], p: vec![0, 1, 0, 0, 1, 0] }],
    );
    let m = collada_to_wireframe_mesh(&doc).unwrap();
    assert_eq!(m.positions.len(), 1);
    // all corners resolve to the single pooled vertex
    assert_eq!(m.indices, vec![0, 0, 0, 0, 0, 0, 0, 0, 0, 0, 0, 0]);
}
