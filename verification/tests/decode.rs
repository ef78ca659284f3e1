//! The triangle-list decoding pipeline on concrete documents.

use dae_mesh::convert::collada_to_triangle_mesh;
use dae_mesh::model::{
    Document, GeomError, Geometry, InputDesc, MeshData, Node, Source, Topology, Triangles,
    Vec3Bits, VisualScene,
};

fn bits(v: f32) -> u32 {
    v.to_bits()
}

fn source(id: &str, stride: usize, vals: &[f32]) -> Source {
    Source {
        id: id.as_bytes().to_vec(),
        stride,
        values: vals.iter().map(|v| v.to_bits()).collect(),
    }
}

fn input(sem: &str, offset: usize) -> InputDesc {
    InputDesc { semantic: sem.as_bytes().to_vec(), offset }
}

fn doc_of(sources: Vec<Source>, triangles: Vec<Triangles>) -> Document {
    Document {
        visual_scene: Some(VisualScene {
            nodes: vec![Node { instance_geometry_url: Some(b"geo".to_vec()) }],
        }),
        geometries: vec![Geometry {
            id: b"geo".to_vec(),
            mesh: MeshData { sources, triangles },
        }],
    }
}

fn v3(x: f32, y: f32, z: f32) -> Vec3Bits {
    Vec3Bits { x: bits(x), y: bits(y), z: bits(z) }
}

#[test]
fn concrete_three_corner_triangle() {
    // position values [0,0,0, 1,0,0, 0,1,0], index block [0,0,0, 1,0,0, 2,0,0]
    // read through VERTEX at offset 0 with index stride 3, no normal input
    let doc = doc_of(
        vec![source("geo-positions", 3, &[0.0, 0.0, 0.0, 1.0, 0.0, 0.0, 0.0, 1.0, 0.0])],
        vec![Triangles {
            inputs: vec![input("VERTEX", 0), input("TEXCOORD", 1), input("COLOR", 2)],
            p: vec![0, 0, 0, 1, 0, 0, 2, 0, 0],
        }],
    );
    let m = collada_to_triangle_mesh(&doc).unwrap();
    assert_eq!(m.topology, Topology::TriangleList);
    assert_eq!(m.positions, vec![v3(0.0, 0.0, 0.0), v3(1.0, 0.0, 0.0), v3(0.0, 1.0, 0.0)]);
    assert_eq!(m.normals, vec![v3(0.0, 1.0, 0.0); 3]);
    assert_eq!(m.indices, vec![0, 1, 2]);
    assert_eq!(m.uv0.len(), 3);
    assert!(m.uv0.iter().all(|t| t.u == bits(0.0) && t.v == bits(0.0)));
}

#[test]
fn concrete_three_corner_triangle_stride_one() {
    // the same geometry with a plain index list [0, 1, 2] and stride 1
    let doc = doc_of(
        vec![source("geo-positions", 3, &[0.0, 0.0, 0.0, 1.0, 0.0, 0.0, 0.0, 1.0, 0.0])],
        vec![Triangles { inputs: vec![input("VERTEX", 0)], p: vec![0, 1, 2] }],
    );
    let m = collada_to_triangle_mesh(&doc).unwrap();
    assert_eq!(m.positions, vec![v3(0.0, 0.0, 0.0), v3(1.0, 0.0, 0.0), v3(0.0, 1.0, 0.0)]);
    assert_eq!(m.normals, vec![v3(0.0, 1.0, 0.0); 3]);
    assert_eq!(m.indices, vec![0, 1, 2]);
}

#[test]
fn welding_within_tolerance_and_lengths() {
    // the second position differs from the first by 0.0004 on one axis:
    // both quantize alike and weld to one vertex
    let doc = doc_of(
        vec![source("positions", 3, &[0.0, 0.0, 0.0, 0.0004, 0.0, 0.0, 1.0, 0.0, 0.0])],
        vec![Triangles { inputs: vec![input("VERTEX", 0)], p: vec![0, 1, 2] }],
    );
    let m = collada_to_triangle_mesh(&doc).unwrap();
    assert_eq!(m.positions.len(), 2);
    assert_eq!(m.normals.len(), 2);
    assert_eq!(m.uv0.len(), 2);
    assert!(m.positions.len() <= 3);
    assert_eq!(m.indices, vec![0, 0, 1]);
    // the first occurrence determines the stored position
    assert_eq!(m.positions[0], v3(0.0, 0.0, 0.0));
    assert!(m.indices.iter().all(|&i| (i as usize) < m.positions.len()));
}

#[test]
fn separation_at_full_tolerance() {
    // 0.001 apart on one axis: never welded
    let doc = doc_of(
        vec![source("positions", 3, &[0.0, 0.0, 0.0, 0.001, 0.0, 0.0, 1.0, 0.0, 0.0])],
        vec![Triangles { inputs: vec![input("VERTEX", 0)], p: vec![0, 1, 2] }],
    );
    let m = collada_to_triangle_mesh(&doc).unwrap();
    assert_eq!(m.positions.len(), 3);
    assert_eq!(m.indices, vec![0, 1, 2]);
}

#[test]
fn normals_resolved_through_offset() {
    let doc = doc_of(
        vec![
            source("positions", 3, &[0.0, 0.0, 0.0, 1.0, 0.0, 0.0, 0.0, 1.0, 0.0]),
            source("normals", 3, &[0.0, 0.0, 1.0, 1.0, 0.0, 0.0]),
        ],
        vec![Triangles {
            inputs: vec![input("VERTEX", 0), input("NORMAL", 1)],
            p: vec![0, 0, 1, 1, 2, 0],
        }],
    );
    let m = collada_to_triangle_mesh(&doc).unwrap();
    assert_eq!(m.positions.len(), 3);
    assert_eq!(m.normals, vec![v3(0.0, 0.0, 1.0), v3(1.0, 0.0, 0.0), v3(0.0, 0.0, 1.0)]);
    assert_eq!(m.indices, vec![0, 1, 2]);
}

#[test]
fn missing_normal_source_gives_up_vectors() {
    // a NORMAL input exists but no normal source: defaults apply
    let doc = doc_of(
        vec![source("positions", 3, &[0.0, 0.0, 0.0, 1.0, 0.0, 0.0, 0.0, 1.0, 0.0])],
        vec![Triangles {
            inputs: vec![input("VERTEX", 0), input("NORMAL", 1)],
            p: vec![0, 9, 1, 9, 2, 9],
        }],
    );
    let m = collada_to_triangle_mesh(&doc).unwrap();
    assert_eq!(m.normals, vec![v3(0.0, 1.0, 0.0); 3]);
}

#[test]
fn case_insensitive_source_classification() {
    let doc = doc_of(
        vec![source("Geo-POSITIONS-array", 3, &[0.0, 0.0, 0.0])],
        vec![Triangles { inputs: vec![input("VERTEX", 0)], p: vec![0] }],
    );
    let m = collada_to_triangle_mesh(&doc).unwrap();
    assert_eq!(m.positions.len(), 1);
}

#[test]
fn no_visual_scene() {
    let doc = Document { visual_scene: None, geometries: vec![] };
    let e = collada_to_triangle_mesh(&doc).unwrap_err();
    assert_eq!(e, GeomError::NoVisualScene);
    assert_eq!(e.message(), "No visual scene found");
}

#[test]
fn no_geometry_when_nothing_resolves() {
    let doc = Document {
        visual_scene: Some(VisualScene {
            nodes: vec![
                Node { instance_geometry_url: None },
                Node { instance_geometry_url: Some(b"missing".to_vec()) },
            ],
        }),
        geometries: vec![Geometry {
            id: b"geo".to_vec(),
            mesh: MeshData { sources: vec![], triangles: vec![] },
        }],
    };
    let e = collada_to_triangle_mesh(&doc).unwrap_err();
    assert_eq!(e, GeomError::NoGeometry);
    assert_eq!(e.message(), "No geometry found");
}

#[test]
fn no_position_source() {
    let doc = doc_of(
        vec![source("only-normals", 3, &[0.0, 1.0, 0.0])],
        vec![Triangles { inputs: vec![input("VERTEX", 0)], p: vec![0] }],
    );
    let e = collada_to_triangle_mesh(&doc).unwrap_err();
    assert_eq!(e, GeomError::NoPositionSource);
    assert_eq!(e.message(), "No position source found");
}

#[test]
fn no_triangles_primitive() {
    let doc = doc_of(vec![source("positions", 3, &[0.0, 0.0, 0.0])], vec![]);
    let r = collada_to_triangle_mesh(&doc);
    let e = r.unwrap_err();
    assert_eq!(e, GeomError::NoTriangles);
    assert_eq!(e.message(), "No triangles found");
}

#[test]
fn no_position_input() {
    let doc = doc_of(
        vec![source("positions", 3, &[0.0, 0.0, 0.0])],
        vec![Triangles { inputs: vec![input("NORMAL", 0)], p: vec![0] }],
    );
    let e = collada_to_triangle_mesh(&doc).unwrap_err();
    assert_eq!(e, GeomError::NoPositionInput);
    assert_eq!(e.message(), "No position input found");
}

#[test]
fn out_of_bounds_index_is_malformed() {
    let doc = doc_of(
        vec![source("positions", 3, &[0.0, 0.0, 0.0])],
        vec![Triangles { inputs: vec![input("VERTEX", 0)], p: vec![0, 1, 0] }],
    );
    let e = collada_to_triangle_mesh(&doc).unwrap_err();
    assert_eq!(e, GeomError::MalformedData);
    assert_eq!(e.message(), "malformed data");
}

#[test]
fn misaligned_index_block_is_malformed() {
    let doc = doc_of(
        vec![source("positions", 3, &[0.0, 0.0, 0.0])],
        vec![Triangles {
            inputs: vec![input("VERTEX", 0), input("NORMAL", 1)],
            p: vec![0, 0, 0],
        }],
    );
    let e = collada_to_triangle_mesh(&doc).unwrap_err();
    assert_eq!(e, GeomError::MalformedData);
}

#[test]
fn vertex_offset_preferred_over_position() {
    // with both VERTEX and POSITION declared, VERTEX wins
    let doc = doc_of(
        vec![source("positions", 3, &[0.0, 0.0, 0.0, 5.0, 5.0, 5.0])],
        vec![Triangles {
            inputs: vec![input("POSITION", 1), input("VERTEX", 0)],
            p: vec![1, 0],
        }],
    );
    let m = collada_to_triangle_mesh(&doc).unwrap();
    assert_eq!(m.positions, vec![v3(5.0, 5.0, 5.0)]);
}

#[test]
fn empty_input_list_defaults_to_stride_one() {
    let doc = doc_of(
        vec![source("positions", 3, &[0.0, 0.0, 0.0, 1.0, 0.0, 0.0])],
        vec![Triangles { inputs: vec![], p: vec![0, 1] }],
    );
    // no inputs: no position input either
    let e = collada_to_triangle_mesh(&doc).unwrap_err();
    assert_eq!(e, GeomError::NoPositionInput);
}
