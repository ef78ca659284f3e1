//! Repackaging of an already-decoded scene — vertex, normal and UV arrays
//! plus face triples — into an indexed triangle mesh, flattening the faces
//! into one index buffer and falling back to sequential indices when no
//! faces are given.

use vstd::prelude::*;

use crate::model::{Vec2Bits, Vec3Bits};

verus! {

/// One triangle of an already-decoded mesh, by vertex indices.
#[derive(Clone, Copy, PartialEq, Eq, Structural, Debug)]
pub struct FaceTri {
    pub a: u32,
    pub b: u32,
    pub c: u32,
}

/// An already-decoded mesh: per-vertex attribute arrays plus faces.
pub struct LoadedMesh {
    pub vertices: Vec<Vec3Bits>,
    pub normals: Vec<Vec3Bits>,
    pub texcoords0: Vec<Vec2Bits>,
    pub faces: Vec<FaceTri>,
}

/// A decoded scene: its meshes in order.
pub struct SceneModel {
    pub meshes: Vec<LoadedMesh>,
}

/// An indexed triangle mesh with optional attribute channels.
pub struct BasicMesh {
    pub positions: Vec<Vec3Bits>,
    pub normals: Option<Vec<Vec3Bits>>,
    pub uv0: Option<Vec<Vec2Bits>>,
    pub indices: Vec<u32>,
}

/// The face triples flattened into one flat index sequence.
pub open spec fn flat_faces(faces: Seq<FaceTri>) -> Seq<u32>
    decreases faces.len(),
{
    if faces.len() == 0 {
        Seq::empty()
    } else {
        flat_faces(faces.drop_last()) + seq![faces.last().a, faces.last().b, faces.last().c]
    }
}

impl BasicMesh {
    /// Tangent derivation applies only when all three attribute channels
    /// are present.
    pub fn wants_tangents(&self) -> (r: bool)
        ensures
            r == (self.normals is Some && self.uv0 is Some),
    {
        self.normals.is_some() && self.uv0.is_some()
    }
}

/// Repackages mesh `mesh_index` of the scene: positions as they are,
/// normal and UV channels kept only when nonempty, and indices taken from
/// the flattened faces, or 0, 1, 2, ... when no faces are given. `None`
/// exactly when the index is out of range or the mesh has no vertices.
pub fn dae_to_triangle_mesh(scene: &SceneModel, mesh_index: usize) -> (r: Option<BasicMesh>)
    requires
        mesh_index < scene.meshes.len() ==> scene.meshes@[mesh_index as int].vertices@.len()
            <= 0xFFFF_FFFF,
    ensures
        r is None <==> (mesh_index >= scene.meshes.len() || scene.meshes@[
            mesh_index as int
        ].vertices@.len() == 0),
        r matches Some(m) ==> ({
            let lm = scene.meshes@[mesh_index as int];
            &&& m.positions@ == lm.vertices@
            &&& (m.normals is Some <==> lm.normals@.len() > 0)
            &&& m.normals matches Some(ns) ==> ns@ == lm.normals@
            &&& (m.uv0 is Some <==> lm.texcoords0@.len() > 0)
            &&& m.uv0 matches Some(ts) ==> ts@ == lm.texcoords0@
            &&& lm.faces@.len() > 0 ==> m.indices@ == flat_faces(lm.faces@)
            &&& lm.faces@.len() == 0 ==> m.indices@ == Seq::new(
                lm.vertices@.len(),
                |i: int| i as u32,
            )
        }),
{
    if mesh_index >= scene.meshes.len() {
        return None;
    }
    let lm = &scene.meshes[mesh_index];
    if lm.vertices.len() == 0 {
        return None;
    }
    let positions = lm.vertices.clone();
    proof {
        assert(positions@ =~= lm.vertices@);
    }
    let normals: Option<Vec<Vec3Bits>> = if lm.normals.len() > 0 {
        let ns = lm.normals.clone();
        proof {
            assert(ns@ =~= lm.normals@);
        }
        Some(ns)
    } else {
        None
    };
    let uv0: Option<Vec<Vec2Bits>> = if lm.texcoords0.len() > 0 {
        let ts = lm.texcoords0.clone();
        proof {
            assert(ts@ =~= lm.texcoords0@);
        }
        Some(ts)
    } else {
        None
    };
    let mut indices: Vec<u32> = Vec::new();
    if lm.faces.len() > 0 {
        let mut f: usize = 0;
        while f < lm.faces.len()
            invariant
                f <= lm.faces.len(),
                indices@ == flat_faces(lm.faces@.take(f as int)),
            decreases lm.faces.len() - f,
        {
            proof {
                assert(lm.faces@.take(f + 1).drop_last() =~= lm.faces@.take(f as int));
                assert(lm.faces@.take(f + 1).last() == lm.faces@[f as int]);
            }
            indices.push(lm.faces[f].a);
            indices.push(lm.faces[f].b);
            indices.push(lm.faces[f].c);
            proof {
                assert(indices@ =~= flat_faces(lm.faces@.take(f + 1)));
            }
            f = f + 1;
        }
        proof {
            assert(lm.faces@.take(lm.faces.len() as int) =~= lm.faces@);
        }
    } else {
        let vcount = lm.vertices.len();
        let mut i: usize = 0;
        while i < vcount
            invariant
                i <= vcount,
                vcount <= 0xFFFF_FFFF,
                indices@.len() == i,
                forall|j: int| 0 <= j < i ==> indices@[j] == j as u32,
            decreases vcount - i,
        {
            indices.push(i as u32);
            i = i + 1;
        }
        proof {
            assert(indices@ =~= Seq::new(lm.vertices@.len(), |i: int| i as u32));
        }
    }
    Some(BasicMesh { positions, normals, uv0, indices })
}

} // verus!
