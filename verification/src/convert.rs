//! The two decoding pipelines: triangle-list extraction with vertex
//! welding, and the alternate wireframe (line-list) extraction.

use vstd::prelude::*;

use crate::dedup::{
    dedup_fold, dedup_in_of, dedup_ok, dedup_vertices, num_windows, opt_src, DedupIn, TrianglePlan,
};
use crate::bytes::{normal_semantic, position_semantic, vertex_semantic};
use crate::extract::{
    find_normal_offset, find_normal_source, find_position_offset, find_position_source,
    find_wire_position_offset, first_vp_from, index_stride, lemma_any_offset_le_max,
    lemma_last_offset_le_max, resolve_geometry, resolved_geometry, spec_normal_offset,
    spec_normal_source, spec_position_offset, spec_position_source, spec_stride,
};
use crate::model::{
    Document, GeomError, Geometry, OutputMesh, Source, Topology, Triangles, Vec2Bits, Vec3Bits,
    wire_normal, zero_uv,
};
use crate::wireframe::{
    build_vertex_pool, edge_fold, edge_in_of, edges_ok, num_faces, pool_in_of, EdgeIn,
};

verus! {

/// The geometry selected by the scene scan.
pub open spec fn sel_geom(doc: Document) -> Geometry
    recommends
        doc.visual_scene is Some,
        resolved_geometry(doc.visual_scene.unwrap().nodes@, doc.geometries@) is Some,
{
    doc.geometries@[resolved_geometry(doc.visual_scene.unwrap().nodes@, doc.geometries@).unwrap()]
}

/// The first triangles primitive of the selected geometry.
pub open spec fn sel_tri(doc: Document) -> Triangles {
    sel_geom(doc).mesh.triangles@[0]
}

/// The selected geometry's position source.
pub open spec fn sel_pos_src(doc: Document) -> Source {
    sel_geom(doc).mesh.sources@[spec_position_source(sel_geom(doc).mesh.sources@).unwrap()]
}

/// The selected geometry's normal source, if one exists.
pub open spec fn sel_norm_src(doc: Document) -> Option<Source> {
    match spec_normal_source(sel_geom(doc).mesh.sources@) {
        Some(i) => Some(sel_geom(doc).mesh.sources@[i]),
        None => None,
    }
}

/// The resolved layout of the triangle path.
pub open spec fn tri_plan(doc: Document) -> TrianglePlan {
    TrianglePlan {
        position_offset: spec_position_offset(sel_tri(doc).inputs@).unwrap() as usize,
        normal_offset: match spec_normal_offset(sel_tri(doc).inputs@) {
            Some(o) => Some(o as usize),
            None => None,
        },
        stride: spec_stride(sel_tri(doc).inputs@) as usize,
    }
}

/// The triangle path's deduplication problem.
pub open spec fn tri_di(doc: Document) -> DedupIn {
    dedup_in_of(sel_pos_src(doc), sel_norm_src(doc), sel_tri(doc), tri_plan(doc))
}

/// The error of the triangle path, if any: which precondition of the
/// decode fails first, in the scan order of the pipeline.
pub open spec fn tri_error(doc: Document) -> Option<GeomError> {
    if doc.visual_scene is None {
        Some(GeomError::NoVisualScene)
    } else if resolved_geometry(doc.visual_scene.unwrap().nodes@, doc.geometries@) is None {
        Some(GeomError::NoGeometry)
    } else if spec_position_source(sel_geom(doc).mesh.sources@) is None {
        Some(GeomError::NoPositionSource)
    } else if sel_geom(doc).mesh.triangles@.len() == 0 {
        Some(GeomError::NoTriangles)
    } else if spec_position_offset(sel_tri(doc).inputs@) is None {
        Some(GeomError::NoPositionInput)
    } else if spec_stride(sel_tri(doc).inputs@) > usize::MAX {
        Some(GeomError::MalformedData)
    } else if sel_tri(doc).p@.len() > 0xFFFF_FFFF {
        Some(GeomError::MalformedData)
    } else if !dedup_ok(tri_di(doc)) {
        Some(GeomError::MalformedData)
    } else {
        None
    }
}

/// Decodes the first resolvable geometry into a welded triangle-list
/// mesh: canonical position/normal arrays in first-occurrence scan order,
/// a synthesized constant UV channel of the same length, and one index
/// per index-block window.
pub fn collada_to_triangle_mesh(doc: &Document) -> (r: Result<OutputMesh, GeomError>)
    ensures
        tri_error(*doc) matches Some(e) ==> r == Err::<OutputMesh, GeomError>(e),
        tri_error(*doc) is None ==> r is Ok && ({
            let m = r.unwrap();
            let st = dedup_fold(tri_di(*doc), num_windows(tri_di(*doc)) as nat);
            &&& m.topology == Topology::TriangleList
            &&& m.positions@ == st.pos
            &&& m.normals@ == st.norm
            &&& m.indices@ == st.idx
            &&& m.uv0@.len() == st.pos.len()
            &&& forall|i: int| 0 <= i < m.uv0@.len() ==> m.uv0@[i] == zero_uv()
        }),
{
    let scene = match &doc.visual_scene {
        Some(s) => s,
        None => {
            return Err(GeomError::NoVisualScene);
        },
    };
    let gidx = match resolve_geometry(scene, &doc.geometries) {
        Some(g) => g,
        None => {
            return Err(GeomError::NoGeometry);
        },
    };
    let geom = &doc.geometries[gidx];
    assert(*geom == sel_geom(*doc));
    let pidx = match find_position_source(&geom.mesh.sources) {
        Some(i) => i,
        None => {
            return Err(GeomError::NoPositionSource);
        },
    };
    let nidx = find_normal_source(&geom.mesh.sources);
    if geom.mesh.triangles.len() == 0 {
        return Err(GeomError::NoTriangles);
    }
    let tri = &geom.mesh.triangles[0];
    let poff = match find_position_offset(&tri.inputs) {
        Some(o) => o,
        None => {
            return Err(GeomError::NoPositionInput);
        },
    };
    let noff = find_normal_offset(&tri.inputs);
    let stride = match index_stride(&tri.inputs) {
        Some(s) => s,
        None => {
            return Err(GeomError::MalformedData);
        },
    };
    if tri.p.len() > 0xFFFF_FFFF {
        return Err(GeomError::MalformedData);
    }
    let plan = TrianglePlan { position_offset: poff, normal_offset: noff, stride };
    proof {
        lemma_last_offset_le_max(tri.inputs@, vertex_semantic());
        lemma_last_offset_le_max(tri.inputs@, position_semantic());
        lemma_last_offset_le_max(tri.inputs@, normal_semantic());
        assert(plan == tri_plan(*doc));
        assert(plan.position_offset < plan.stride);
    }
    let pos_src = &geom.mesh.sources[pidx];
    let norm_src: Option<&Source> = match nidx {
        Some(i) => Some(&geom.mesh.sources[i]),
        None => None,
    };
    proof {
        assert(*pos_src == sel_pos_src(*doc));
        assert(opt_src(norm_src) == sel_norm_src(*doc));
        assert(dedup_in_of(*pos_src, opt_src(norm_src), *tri, plan) == tri_di(*doc));
    }
    let buffers = match dedup_vertices(pos_src, norm_src, tri, &plan) {
        Ok(b) => b,
        Err(e) => {
            return Err(e);
        },
    };
    let mut uv: Vec<Vec2Bits> = Vec::new();
    let mut i: usize = 0;
    let vcount = buffers.positions.len();
    while i < vcount
        invariant
            i <= vcount,
            uv@.len() == i,
            forall|j: int| 0 <= j < i ==> uv@[j] == zero_uv(),
        decreases vcount - i,
    {
        uv.push(Vec2Bits { u: 0, v: 0 });
        i = i + 1;
    }
    Ok(
        OutputMesh {
            topology: Topology::TriangleList,
            positions: buffers.positions,
            normals: buffers.normals,
            uv0: uv,
            indices: buffers.indices,
        },
    )
}

/// For any decodable geometry, the welded position and normal arrays
/// share one length V, V is at most the number of index-block windows N,
/// one index is emitted per window, every emitted index is below V, and
/// no two canonical entries carry the same quantized key.
pub proof fn lemma_triangle_mesh_shape(doc: Document)
    requires
        tri_error(doc) is None,
    ensures
        ({
            let di = tri_di(doc);
            let n = num_windows(di);
            let st = dedup_fold(di, n as nat);
            &&& st.pos.len() == st.norm.len()
            &&& st.pos.len() <= n
            &&& st.idx.len() == n
            &&& forall|t: int| 0 <= t < st.idx.len() ==> (st.idx[t] as int) < st.pos.len()
            &&& forall|a: int, b: int| 0 <= a < b < st.keys.len() ==> st.keys[a] != st.keys[b]
        }),
{
    let di = tri_di(doc);
    let n = num_windows(di);
    assert(di.stride >= 1);
    assert(n <= di.p.len()) by (nonlinear_arith)
        requires
            di.stride >= 1,
            di.p.len() >= 0,
            n == di.p.len() as int / di.stride as int,
    ;
    crate::dedup::lemma_dedup_lengths(di, n as nat);
    crate::dedup::lemma_dedup_injective(di, n as nat);
}

/// When all N windows reference pairwise-distinct quantized positions,
/// V equals N and the emitted index sequence is exactly 0, 1, ..., N-1 in
/// scan order.
pub proof fn lemma_triangle_mesh_distinct(doc: Document)
    requires
        tri_error(doc) is None,
        forall|a: int, b: int|
            0 <= a < b < num_windows(tri_di(doc)) ==> crate::dedup::win_key(tri_di(doc), a)
                != crate::dedup::win_key(tri_di(doc), b),
    ensures
        ({
            let di = tri_di(doc);
            let n = num_windows(di);
            let st = dedup_fold(di, n as nat);
            &&& st.pos.len() == n
            &&& forall|t: int| 0 <= t < n ==> st.idx[t] as int == t
        }),
{
    let di = tri_di(doc);
    let n = num_windows(di);
    assert(di.stride >= 1);
    assert(n <= di.p.len()) by (nonlinear_arith)
        requires
            di.stride >= 1,
            di.p.len() >= 0,
            n == di.p.len() as int / di.stride as int,
    ;
    crate::dedup::lemma_dedup_all_distinct(di, n as nat);
}

/// With no normal source or no normal offset, every emitted normal is
/// exactly the up vector (0, 1, 0).
pub proof fn lemma_triangle_mesh_default_normals(doc: Document)
    requires
        tri_error(doc) is None,
        sel_norm_src(doc) is None || spec_normal_offset(sel_tri(doc).inputs@) is None,
    ensures
        ({
            let st = dedup_fold(tri_di(doc), num_windows(tri_di(doc)) as nat);
            forall|i: int|
                0 <= i < st.norm.len() ==> st.norm[i] == crate::model::default_normal()
        }),
{
    let di = tri_di(doc);
    assert(!di.has_norm);
    crate::dedup::lemma_dedup_default_normals(di, num_windows(di) as nat);
}

/// The wireframe path's position source (same selection as the triangle
/// path).
pub open spec fn wire_pool_keys(pos_src: Source) -> Seq<(int, int, int)> {
    dedup_fold(pool_in_of(pos_src), num_windows(pool_in_of(pos_src)) as nat).keys
}

/// The wireframe path's edge-extraction problem.
pub open spec fn wire_ei(doc: Document) -> EdgeIn {
    EdgeIn {
        p: sel_tri(doc).p@,
        stride: spec_stride(sel_tri(doc).inputs@) as nat,
        poff: sel_tri(doc).inputs@[first_vp_from(sel_tri(doc).inputs@, 0).unwrap()].offset as nat,
        posv: sel_pos_src(doc).values@,
        pstride: sel_pos_src(doc).stride as nat,
        pool_keys: wire_pool_keys(sel_pos_src(doc)),
    }
}

/// The error of the wireframe path, if any, in the scan order of the
/// pipeline: the vertex pool is built from the raw position source before
/// the triangles primitive is consulted.
pub open spec fn wire_error(doc: Document) -> Option<GeomError> {
    if doc.visual_scene is None {
        Some(GeomError::NoVisualScene)
    } else if resolved_geometry(doc.visual_scene.unwrap().nodes@, doc.geometries@) is None {
        Some(GeomError::NoGeometry)
    } else if spec_position_source(sel_geom(doc).mesh.sources@) is None {
        Some(GeomError::NoPositionSource)
    } else if sel_pos_src(doc).stride == 0 {
        Some(GeomError::MalformedData)
    } else if sel_pos_src(doc).values@.len() > 0xFFFF_FFFF {
        Some(GeomError::MalformedData)
    } else if !dedup_ok(pool_in_of(sel_pos_src(doc))) {
        Some(GeomError::MalformedData)
    } else if sel_geom(doc).mesh.triangles@.len() == 0 {
        Some(GeomError::NoTriangles)
    } else if first_vp_from(sel_tri(doc).inputs@, 0) is None {
        Some(GeomError::NoPositionInput)
    } else if spec_stride(sel_tri(doc).inputs@) > usize::MAX {
        Some(GeomError::MalformedData)
    } else if 3 * spec_stride(sel_tri(doc).inputs@) > usize::MAX {
        Some(GeomError::MalformedData)
    } else if !edges_ok(wire_ei(doc)) {
        Some(GeomError::MalformedData)
    } else {
        None
    }
}

/// A single-triangle wireframe input: when the position source holds
/// exactly three windows with pairwise-distinct quantized keys and the
/// index block holds one face whose corners reference those windows in
/// any order, the pool holds exactly 3 vertices and the line index buffer
/// holds exactly 6 entries encoding the face's 3 distinct undirected
/// edges.
#[verifier::rlimit(100)]
#[verifier::spinoff_prover]
pub proof fn lemma_wireframe_single_triangle(doc: Document, j0: int, j1: int, j2: int)
    requires
        wire_error(doc) is None,
        num_windows(pool_in_of(sel_pos_src(doc))) == 3,
        forall|a: int, b: int|
            0 <= a < b < 3 ==> crate::dedup::win_key(pool_in_of(sel_pos_src(doc)), a)
                != crate::dedup::win_key(pool_in_of(sel_pos_src(doc)), b),
        num_faces(wire_ei(doc)) == 1,
        0 <= j0 < 3 && 0 <= j1 < 3 && 0 <= j2 < 3,
        j0 != j1 && j1 != j2 && j2 != j0,
        crate::wireframe::corner_key(wire_ei(doc), 0, 0) == crate::dedup::win_key(
            pool_in_of(sel_pos_src(doc)),
            j0,
        ),
        crate::wireframe::corner_key(wire_ei(doc), 0, 1) == crate::dedup::win_key(
            pool_in_of(sel_pos_src(doc)),
            j1,
        ),
        crate::wireframe::corner_key(wire_ei(doc), 0, 2) == crate::dedup::win_key(
            pool_in_of(sel_pos_src(doc)),
            j2,
        ),
    ensures
        dedup_fold(pool_in_of(sel_pos_src(doc)), 3).pos.len() == 3,
        edge_fold(wire_ei(doc), 1) == seq![
            j0 as u32,
            j1 as u32,
            j1 as u32,
            j2 as u32,
            j2 as u32,
            j0 as u32,
        ],
        !crate::wireframe::same_edge(j0, j1, j1, j2),
        !crate::wireframe::same_edge(j1, j2, j2, j0),
        !crate::wireframe::same_edge(j0, j1, j2, j0),
{
    let pdi = pool_in_of(sel_pos_src(doc));
    let ei = wire_ei(doc);
    crate::dedup::lemma_dedup_all_distinct(pdi, 3);
    let keys = dedup_fold(pdi, 3).keys;
    assert(ei.pool_keys == wire_pool_keys(sel_pos_src(doc)));
    assert(ei.pool_keys == keys);
    crate::wireframe::lemma_lookup_of_distinct(keys, j0);
    crate::wireframe::lemma_lookup_of_distinct(keys, j1);
    crate::wireframe::lemma_lookup_of_distinct(keys, j2);
    assert(crate::wireframe::corner_lookup(ei, 0, 0) == Some(j0));
    assert(crate::wireframe::corner_lookup(ei, 0, 1) == Some(j1));
    assert(crate::wireframe::corner_lookup(ei, 0, 2) == Some(j2));
    crate::wireframe::lemma_wireframe_single_face(ei, j0, j1, j2);
}

/// Decodes the first resolvable geometry into a line-list mesh: a pool of
/// all distinct raw positions of the position source in scan order, the
/// three undirected edges of every fully resolvable triangle, and
/// placeholder normal and UV channels.
pub fn collada_to_wireframe_mesh(doc: &Document) -> (r: Result<OutputMesh, GeomError>)
    ensures
        wire_error(*doc) matches Some(e) ==> r == Err::<OutputMesh, GeomError>(e),
        wire_error(*doc) is None ==> r is Ok && ({
            let m = r.unwrap();
            let pdi = pool_in_of(sel_pos_src(*doc));
            let pst = dedup_fold(pdi, num_windows(pdi) as nat);
            &&& m.topology == Topology::LineList
            &&& m.positions@ == pst.pos
            &&& m.indices@ == edge_fold(wire_ei(*doc), num_faces(wire_ei(*doc)) as nat)
            &&& m.normals@.len() == pst.pos.len()
            &&& forall|i: int| 0 <= i < m.normals@.len() ==> m.normals@[i] == wire_normal()
            &&& m.uv0@.len() == pst.pos.len()
            &&& forall|i: int| 0 <= i < m.uv0@.len() ==> m.uv0@[i] == zero_uv()
        }),
{
    let scene = match &doc.visual_scene {
        Some(s) => s,
        None => {
            return Err(GeomError::NoVisualScene);
        },
    };
    let gidx = match resolve_geometry(scene, &doc.geometries) {
        Some(g) => g,
        None => {
            return Err(GeomError::NoGeometry);
        },
    };
    let geom = &doc.geometries[gidx];
    assert(*geom == sel_geom(*doc));
    let pidx = match find_position_source(&geom.mesh.sources) {
        Some(i) => i,
        None => {
            return Err(GeomError::NoPositionSource);
        },
    };
    let pos_src = &geom.mesh.sources[pidx];
    assert(*pos_src == sel_pos_src(*doc));
    if pos_src.stride == 0 {
        return Err(GeomError::MalformedData);
    }
    if pos_src.values.len() > 0xFFFF_FFFF {
        return Err(GeomError::MalformedData);
    }
    let pool = match build_vertex_pool(pos_src) {
        Ok(p) => p,
        Err(e) => {
            return Err(e);
        },
    };
    if geom.mesh.triangles.len() == 0 {
        return Err(GeomError::NoTriangles);
    }
    let tri = &geom.mesh.triangles[0];
    let poff = match find_wire_position_offset(&tri.inputs) {
        Some(o) => o,
        None => {
            return Err(GeomError::NoPositionInput);
        },
    };
    let stride = match index_stride(&tri.inputs) {
        Some(s) => s,
        None => {
            return Err(GeomError::MalformedData);
        },
    };
    if stride > usize::MAX / 3 {
        proof {
            assert(3 * (usize::MAX as int / 3) <= usize::MAX);
        }
        return Err(GeomError::MalformedData);
    }
    proof {
        assert(3 * (stride as int) <= 3 * (usize::MAX as int / 3));
        assert(3 * (usize::MAX as int / 3) <= usize::MAX);
        crate::extract::lemma_first_vp_in_range(tri.inputs@, 0);
        lemma_any_offset_le_max(tri.inputs@, first_vp_from(tri.inputs@, 0).unwrap());
        assert(poff < stride);
        assert(edge_in_of(pool, *pos_src, *tri, poff, stride) == wire_ei(*doc));
    }
    let ids = match crate::wireframe::wireframe_indices(&pool, pos_src, tri, poff, stride) {
        Ok(v) => v,
        Err(e) => {
            return Err(e);
        },
    };
    let vcount = pool.positions.len();
    let mut normals: Vec<Vec3Bits> = Vec::new();
    let mut uv: Vec<Vec2Bits> = Vec::new();
    let mut i: usize = 0;
    while i < vcount
        invariant
            i <= vcount,
            normals@.len() == i,
            uv@.len() == i,
            forall|j: int| 0 <= j < i ==> normals@[j] == wire_normal(),
            forall|j: int| 0 <= j < i ==> uv@[j] == zero_uv(),
        decreases vcount - i,
    {
        normals.push(Vec3Bits { x: 0x3F80_0000, y: 0, z: 0 });
        uv.push(Vec2Bits { u: 0, v: 0 });
        i = i + 1;
    }
    Ok(
        OutputMesh {
            topology: Topology::LineList,
            positions: pool.positions,
            normals,
            uv0: uv,
            indices: ids,
        },
    )
}

} // verus!
