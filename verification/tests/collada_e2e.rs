//! End to end: a COLLADA document parsed by the document parser, handed to
//! the decoder as plain values, and decoded into an indexed mesh.

use dae_mesh::convert::{collada_to_triangle_mesh, collada_to_wireframe_mesh};
use dae_mesh::model::{
    Document, Geometry, InputDesc, MeshData, Node, Source, Topology, Triangles, VisualScene,
};

const SINGLE_TRIANGLE: &str = r##"<?xml version="1.0" encoding="utf-8"?>
<COLLADA xmlns="http://www.collada.org/2005/11/COLLADASchema" version="1.4.1">
  <asset>
    <created>2024-01-01T00:00:00</created>
    <modified>2024-01-01T00:00:00</modified>
    <up_axis>Y_UP</up_axis>
  </asset>
  <library_geometries>
    <geometry id="tri-mesh" name="tri">
      <mesh>
        <source id="tri-mesh-positions">
          <float_array id="tri-mesh-positions-array" count="9">0 0 0 1 0 0 0 1 0</float_array>
          <technique_common>
            <accessor source="#tri-mesh-positions-array" count="3" stride="3">
              <param name="X" type="float"/>
              <param name="Y" type="float"/>
              <param name="Z" type="float"/>
            </accessor>
          </technique_common>
        </source>
        <vertices id="tri-mesh-vertices">
          <input semantic="POSITION" source="#tri-mesh-positions"/>
        </vertices>
        <triangles count="1">
          <input semantic="VERTEX" source="#tri-mesh-vertices" offset="0"/>
          <p>0 1 2</p>
        </triangles>
      </mesh>
    </geometry>
  </library_geometries>
  <library_visual_scenes>
    <visual_scene id="Scene" name="Scene">
      <node id="Tri" name="Tri" type="NODE">
        <instance_geometry url="#tri-mesh"/>
      </node>
    </visual_scene>
  </library_visual_scenes>
  <scene>
    <instance_visual_scene url="#Scene"/>
  </scene>
</COLLADA>
"##;

/// Rebuilds the decoder's document from the parser's object set, the way
/// a host application hands the scene graph over.
fn document_from(set: &collada::ObjSet) -> Document {
    let object = &set.objects[0];
    let mut values: Vec<u32> = Vec::new();
    for v in &object.vertices {
        values.push((v.x as f32).to_bits());
        values.push((v.y as f32).to_bits());
        values.push((v.z as f32).to_bits());
    }
    let mut p: Vec<usize> = Vec::new();
    for geometry in &object.geometry {
        for element in &geometry.mesh {
            if let collada::PrimitiveElement::Triangles(t) = element {
                for (a, b, c) in &t.vertices {
                    p.push(*a);
                    p.push(*b);
                    p.push(*c);
                }
            }
        }
    }
    Document {
        visual_scene: Some(VisualScene {
            nodes: vec![Node { instance_geometry_url: Some(b"geo".to_vec()) }],
        }),
        geometries: vec![Geometry {
            id: b"geo".to_vec(),
            mesh: MeshData {
                sources: vec![Source { id: b"geo-positions".to_vec(), stride: 3, values }],
                triangles: vec![Triangles {
                    inputs: vec![InputDesc { semantic: b"VERTEX".to_vec(), offset: 0 }],
                    p,
                }],
            },
        }],
    }
}

#[test]
fn parsed_single_triangle_decodes() {
    let parsed = collada::document::ColladaDocument::from_str(SINGLE_TRIANGLE).unwrap();
    let set = parsed.get_obj_set().unwrap();
    assert_eq!(set.objects.len(), 1);
    let doc = document_from(&set);

    let m = collada_to_triangle_mesh(&doc).unwrap();
    assert_eq!(m.topology, Topology::TriangleList);
    assert_eq!(m.positions.len(), 3);
    assert_eq!(m.indices, vec![0, 1, 2]);
    assert_eq!(m.normals.len(), 3);
    assert_eq!(m.uv0.len(), 3);
    // decoded corner values survive the round trip through the parser
    let p1 = m.positions[1];
    assert_eq!(f32::from_bits(p1.x), 1.0);
    assert_eq!(f32::from_bits(p1.y), 0.0);

    let w = collada_to_wireframe_mesh(&doc).unwrap();
    assert_eq!(w.topology, Topology::LineList);
    assert_eq!(w.positions.len(), 3);
    assert_eq!(w.indices.len(), 6);
}
