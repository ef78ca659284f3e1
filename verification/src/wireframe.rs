//! Wireframe extraction: builds a complete unique-vertex pool by scanning
//! the raw position source directly, then walks the triangle index block
//! face by face and emits the three undirected edges of every face whose
//! corners all resolve in the pool.

use vstd::prelude::*;

use crate::dedup::{
    dedup_fold, dedup_ok, find_key, keys_view, lemma_find_key, lookup_key, num_windows, read_ok,
    DedupIn,
};
use crate::model::{GeomError, Source, Triangles, Vec3Bits, VKey};
use crate::quant::{key3, make_key, vkey3};

verus! {

/// The pool of unique raw positions of a source.
pub struct VertexPool {
    pub keys: Vec<VKey>,
    pub positions: Vec<Vec3Bits>,
}

/// The pool scan expressed as a deduplication problem: an identity index
/// block of one entry per raw window of the source.
pub open spec fn pool_in_of(pos_src: Source) -> DedupIn {
    DedupIn {
        p: Seq::new(
            (pos_src.values@.len() as int / pos_src.stride as int) as nat,
            |i: int| i as usize,
        ),
        stride: 1,
        poff: 0,
        has_norm: false,
        noff: 0,
        posv: pos_src.values@,
        pstride: pos_src.stride as nat,
        normv: Seq::empty(),
        nstride: 0,
    }
}

/// Scans the raw position source in windows of its accessor stride and
/// welds one pool entry per distinct quantized position, in scan order.
pub fn build_vertex_pool(pos_src: &Source) -> (r: Result<VertexPool, GeomError>)
    requires
        pos_src.stride >= 1,
        pos_src.values@.len() <= 0xFFFF_FFFF,
    ensures
        ({
            let di = pool_in_of(*pos_src);
            match r {
                Ok(pool) => {
                    let st = dedup_fold(di, num_windows(di) as nat);
                    &&& dedup_ok(di)
                    &&& keys_view(pool.keys@) == st.keys
                    &&& pool.positions@ == st.pos
                    &&& pool.keys.len() == pool.positions.len()
                    &&& pool.keys.len() <= 0xFFFF_FFFF
                },
                Err(e) => e == GeomError::MalformedData && !dedup_ok(di),
            }
        }),
{
    let ghost di = pool_in_of(*pos_src);
    let count = pos_src.values.len() / pos_src.stride;
    proof {
        assert(di.p.len() == count);
        assert(num_windows(di) == count);
        assert(di.p.len() as int % 1int == 0);
    }
    let mut keys: Vec<VKey> = Vec::new();
    let mut positions: Vec<Vec3Bits> = Vec::new();
    let mut i: usize = 0;
    while i < count
        invariant
            i <= count,
            pos_src.stride >= 1,
            pos_src.values@.len() <= 0xFFFF_FFFF,
            di == pool_in_of(*pos_src),
            count == num_windows(di),
            forall|v: int| 0 <= v < i ==> crate::dedup::win_ok(di, v),
            keys_view(keys@) == dedup_fold(di, i as nat).keys,
            positions@ == dedup_fold(di, i as nat).pos,
            keys.len() == positions.len(),
            keys.len() <= i,
        decreases count - i,
    {
        proof {
            assert(di.p[i as int] == i as usize);
            assert(crate::dedup::win_base(di, i as int) == i);
            assert(crate::dedup::pos_base(di, i as int) == (i as usize) * pos_src.stride as int);
        }
        if !read_ok(i, pos_src.stride, 3, pos_src.values.len()) {
            assert(!crate::dedup::win_ok(di, i as int));
            return Err(GeomError::MalformedData);
        }
        let pb = i * pos_src.stride;
        assert(pb == crate::dedup::pos_base(di, i as int));
        let px = pos_src.values[pb];
        let py = pos_src.values[pb + 1];
        let pz = pos_src.values[pb + 2];
        assert(crate::dedup::win_ok(di, i as int));
        let key = make_key(px, py, pz);
        proof {
            assert(crate::dedup::win_pos(di, i as int) == (Vec3Bits { x: px, y: py, z: pz }));
            assert(vkey3(key) == crate::dedup::win_key(di, i as int));
        }
        match lookup_key(&keys, key) {
            Some(_) => {},
            None => {
                proof {
                    assert(keys_view(keys@.push(key)) =~= keys_view(keys@).push(vkey3(key)));
                }
                keys.push(key);
                positions.push(Vec3Bits { x: px, y: py, z: pz });
            },
        }
        i = i + 1;
    }
    proof {
        crate::dedup::lemma_dedup_lengths(di, count as nat);
    }
    Ok(VertexPool { keys, positions })
}

/// The ghost view of one edge-extraction problem.
pub struct EdgeIn {
    pub p: Seq<usize>,
    pub stride: nat,
    pub poff: nat,
    pub posv: Seq<u32>,
    pub pstride: nat,
    pub pool_keys: Seq<(int, int, int)>,
}

/// Number of faces: windows of three vertex tuples.
pub open spec fn num_faces(ei: EdgeIn) -> int {
    ei.p.len() as int / (3 * ei.stride as int)
}

/// Start of corner `c` of face `f` in the position array.
pub open spec fn corner_pos_base(ei: EdgeIn, f: int, c: int) -> int {
    ei.p[f * 3 * ei.stride + c * ei.stride + ei.poff] * ei.pstride
}

/// The raw read of corner `c` of face `f` is in bounds.
pub open spec fn corner_ok(ei: EdgeIn, f: int, c: int) -> bool {
    corner_pos_base(ei, f, c) + 3 <= ei.posv.len()
}

/// All three corner reads of face `f` are in bounds.
pub open spec fn face_ok(ei: EdgeIn, f: int) -> bool {
    corner_ok(ei, f, 0) && corner_ok(ei, f, 1) && corner_ok(ei, f, 2)
}

/// The index block is aligned to whole faces and every face's reads are
/// in bounds.
pub open spec fn edges_ok(ei: EdgeIn) -> bool {
    &&& ei.p.len() as int % (3 * ei.stride as int) == 0
    &&& forall|f: int| 0 <= f < num_faces(ei) ==> face_ok(ei, f)
}

/// The quantized key of corner `c` of face `f`.
pub open spec fn corner_key(ei: EdgeIn, f: int, c: int) -> (int, int, int) {
    key3(
        ei.posv[corner_pos_base(ei, f, c)],
        ei.posv[corner_pos_base(ei, f, c) + 1],
        ei.posv[corner_pos_base(ei, f, c) + 2],
    )
}

/// The pool entry of corner `c` of face `f`, if its key is pooled.
pub open spec fn corner_lookup(ei: EdgeIn, f: int, c: int) -> Option<int> {
    find_key(ei.pool_keys, corner_key(ei, f, c), 0)
}

/// The line index buffer after the first `n` faces: for each face whose
/// three corners all resolve, its three undirected edges as six entries;
/// a face with any miss is skipped.
pub open spec fn edge_fold(ei: EdgeIn, n: nat) -> Seq<u32>
    decreases n,
{
    if n == 0 {
        Seq::empty()
    } else {
        let s = edge_fold(ei, (n - 1) as nat);
        let f = n - 1;
        match (corner_lookup(ei, f, 0), corner_lookup(ei, f, 1), corner_lookup(ei, f, 2)) {
            (Some(a), Some(b), Some(c)) => s + seq![
                a as u32,
                b as u32,
                b as u32,
                c as u32,
                c as u32,
                a as u32,
            ],
            _ => s,
        }
    }
}

/// The ghost edge problem described by executable arguments.
pub open spec fn edge_in_of(
    pool: VertexPool,
    pos_src: Source,
    tri: Triangles,
    poff: usize,
    stride: usize,
) -> EdgeIn {
    EdgeIn {
        p: tri.p@,
        stride: stride as nat,
        poff: poff as nat,
        posv: pos_src.values@,
        pstride: pos_src.stride as nat,
        pool_keys: keys_view(pool.keys@),
    }
}

fn corner_fetch(
    pool: &VertexPool,
    pos_src: &Source,
    tri: &Triangles,
    idx: usize,
    Ghost(ei): Ghost<EdgeIn>,
    Ghost(f): Ghost<int>,
    Ghost(c): Ghost<int>,
) -> (r: Result<Option<usize>, GeomError>)
    requires
        ei.p == tri.p@,
        ei.posv == pos_src.values@,
        ei.pstride == pos_src.stride as nat,
        ei.pool_keys == keys_view(pool.keys@),
        idx < tri.p.len(),
        idx as int == f * 3 * ei.stride + c * ei.stride + ei.poff,
        pool.keys.len() <= 0xFFFF_FFFF,
    ensures
        match r {
            Ok(o) => corner_ok(ei, f, c) && (match o {
                Some(j) => j < pool.keys.len() && corner_lookup(ei, f, c) == Some(j as int),
                None => corner_lookup(ei, f, c) is None,
            }),
            Err(e) => e == GeomError::MalformedData && !corner_ok(ei, f, c),
        },
{
    let pi = tri.p[idx];
    proof {
        assert(corner_pos_base(ei, f, c) == pi * pos_src.stride as int);
    }
    if !read_ok(pi, pos_src.stride, 3, pos_src.values.len()) {
        return Err(GeomError::MalformedData);
    }
    let pb = pi * pos_src.stride;
    let key = make_key(pos_src.values[pb], pos_src.values[pb + 1], pos_src.values[pb + 2]);
    proof {
        assert(vkey3(key) == corner_key(ei, f, c));
    }
    Ok(lookup_key(&pool.keys, key))
}

fn face_step(
    pool: &VertexPool,
    pos_src: &Source,
    tri: &Triangles,
    poff: usize,
    stride: usize,
    f: usize,
    Ghost(ei): Ghost<EdgeIn>,
) -> (r: Result<Option<(usize, usize, usize)>, GeomError>)
    requires
        ei == edge_in_of(*pool, *pos_src, *tri, poff, stride),
        stride >= 1,
        poff < stride,
        3 * stride <= usize::MAX,
        f as int * 3 * stride + 3 * stride <= tri.p.len(),
        pool.keys.len() <= 0xFFFF_FFFF,
    ensures
        match r {
            Ok(o) => face_ok(ei, f as int) && (match o {
                Some((a, b, c)) => {
                    &&& corner_lookup(ei, f as int, 0) == Some(a as int)
                    &&& corner_lookup(ei, f as int, 1) == Some(b as int)
                    &&& corner_lookup(ei, f as int, 2) == Some(c as int)
                    &&& a < pool.keys.len()
                    &&& b < pool.keys.len()
                    &&& c < pool.keys.len()
                },
                None => corner_lookup(ei, f as int, 0) is None || corner_lookup(
                    ei,
                    f as int,
                    1,
                ) is None || corner_lookup(ei, f as int, 2) is None,
            }),
            Err(e) => e == GeomError::MalformedData && !face_ok(ei, f as int),
        },
{
    proof {
        assert(f as int * 3 * stride >= 0) by (nonlinear_arith)
            requires
                f >= 0,
                stride >= 1,
        ;
        assert(f as int * 3 <= f as int * 3 * stride) by (nonlinear_arith)
            requires
                f >= 0,
                stride >= 1,
        ;
        assert((f as int * 3) * stride == f as int * 3 * stride) by (nonlinear_arith);
    }
    let base = (f * 3) * stride;
    proof {
        assert((f * 3) * stride == f as int * 3 * stride) by (nonlinear_arith);
    }
    let idx0 = base + poff;
    let idx1 = base + stride + poff;
    let idx2 = base + 2 * stride + poff;
    proof {
        assert(idx0 as int == f as int * 3 * ei.stride + 0 * ei.stride + ei.poff);
        assert(idx1 as int == f as int * 3 * ei.stride + 1 * ei.stride + ei.poff);
        assert(idx2 as int == f as int * 3 * ei.stride + 2 * ei.stride + ei.poff);
    }
    let l0 = match corner_fetch(pool, pos_src, tri, idx0, Ghost(ei), Ghost(f as int), Ghost(0)) {
        Ok(o) => o,
        Err(e) => {
            return Err(e);
        },
    };
    let l1 = match corner_fetch(pool, pos_src, tri, idx1, Ghost(ei), Ghost(f as int), Ghost(1)) {
        Ok(o) => o,
        Err(e) => {
            return Err(e);
        },
    };
    let l2 = match corner_fetch(pool, pos_src, tri, idx2, Ghost(ei), Ghost(f as int), Ghost(2)) {
        Ok(o) => o,
        Err(e) => {
            return Err(e);
        },
    };
    match (l0, l1, l2) {
        (Some(a), Some(b), Some(c)) => Ok(Some((a, b, c))),
        _ => Ok(None),
    }
}

/// Walks the triangle index block one face at a time and emits the three
/// undirected edges of every face whose corners all resolve in the pool.
/// Fails only on an index block not divisible by three strides or an
/// out-of-bounds raw read.
pub fn wireframe_indices(
    pool: &VertexPool,
    pos_src: &Source,
    tri: &Triangles,
    poff: usize,
    stride: usize,
) -> (r: Result<Vec<u32>, GeomError>)
    requires
        stride >= 1,
        poff < stride,
        3 * stride <= usize::MAX,
        pool.keys.len() <= 0xFFFF_FFFF,
    ensures
        ({
            let ei = edge_in_of(*pool, *pos_src, *tri, poff, stride);
            match r {
                Ok(ids) => edges_ok(ei) && ids@ == edge_fold(ei, num_faces(ei) as nat),
                Err(e) => e == GeomError::MalformedData && !edges_ok(ei),
            }
        }),
{
    let ghost ei = edge_in_of(*pool, *pos_src, *tri, poff, stride);
    let fs = 3 * stride;
    if tri.p.len() % fs != 0 {
        return Err(GeomError::MalformedData);
    }
    let n_faces = tri.p.len() / fs;
    proof {
        assert(num_faces(ei) == n_faces);
        assert(n_faces * fs == tri.p@.len()) by (nonlinear_arith)
            requires
                fs >= 1,
                n_faces == tri.p@.len() as int / fs as int,
                tri.p@.len() as int % fs as int == 0,
        ;
    }
    let mut ids: Vec<u32> = Vec::new();
    let mut f: usize = 0;
    while f < n_faces
        invariant
            f <= n_faces,
            stride >= 1,
            poff < stride,
            fs == 3 * stride,
            pool.keys.len() <= 0xFFFF_FFFF,
            ei == edge_in_of(*pool, *pos_src, *tri, poff, stride),
            n_faces == num_faces(ei),
            n_faces * fs == tri.p@.len(),
            forall|v: int| 0 <= v < f ==> face_ok(ei, v),
            ids@ == edge_fold(ei, f as nat),
        decreases n_faces - f,
    {
        proof {
            assert(f * fs + fs <= n_faces * fs) by (nonlinear_arith)
                requires
                    f + 1 <= n_faces,
                    fs >= 1,
            ;
            assert(f as int * 3 * stride + 3 * stride <= tri.p@.len()) by (nonlinear_arith)
                requires
                    f * fs + fs <= tri.p@.len(),
                    fs == 3 * stride,
            ;
        }
        match face_step(pool, pos_src, tri, poff, stride, f, Ghost(ei)) {
            Ok(Some((a, b, c))) => {
                ids.push(a as u32);
                ids.push(b as u32);
                ids.push(b as u32);
                ids.push(c as u32);
                ids.push(c as u32);
                ids.push(a as u32);
                proof {
                    assert(ids@ =~= edge_fold(ei, (f + 1) as nat));
                }
            },
            Ok(None) => {
                assert(ids@ == edge_fold(ei, (f + 1) as nat));
            },
            Err(e) => {
                return Err(e);
            },
        }
        f = f + 1;
    }
    Ok(ids)
}

/// Two index pairs denote the same undirected edge.
pub open spec fn same_edge(x1: int, y1: int, x2: int, y2: int) -> bool {
    (x1 == x2 && y1 == y2) || (x1 == y2 && y1 == x2)
}

/// In a pool of pairwise-distinct keys, looking a pooled key up finds
/// exactly its own entry.
pub proof fn lemma_lookup_of_distinct(keys: Seq<(int, int, int)>, j: int)
    requires
        forall|a: int, b: int| 0 <= a < b < keys.len() ==> keys[a] != keys[b],
        0 <= j < keys.len(),
    ensures
        find_key(keys, keys[j], 0) == Some(j),
{
    lemma_find_key(keys, keys[j], 0);
    match find_key(keys, keys[j], 0) {
        Some(t) => {
            if t < j {
                assert(keys[t] == keys[j]);
                assert(false);
            } else if t > j {
                assert(keys[j] != keys[j]);
                assert(false);
            }
        },
        None => {
            assert(keys[j] != keys[j]);
            assert(false);
        },
    }
}

/// A single face whose three corners resolve to pairwise-distinct pool
/// entries emits exactly six line indices encoding its three undirected
/// edges, each edge once, whatever the winding order.
pub proof fn lemma_wireframe_single_face(ei: EdgeIn, a: int, b: int, c: int)
    requires
        corner_lookup(ei, 0, 0) == Some(a),
        corner_lookup(ei, 0, 1) == Some(b),
        corner_lookup(ei, 0, 2) == Some(c),
        a != b,
        b != c,
        c != a,
        0 <= a <= 0xFFFF_FFFF,
        0 <= b <= 0xFFFF_FFFF,
        0 <= c <= 0xFFFF_FFFF,
    ensures
        edge_fold(ei, 1) == seq![
            a as u32,
            b as u32,
            b as u32,
            c as u32,
            c as u32,
            a as u32,
        ],
        edge_fold(ei, 1).len() == 6,
        !same_edge(a, b, b, c),
        !same_edge(b, c, c, a),
        !same_edge(a, b, c, a),
{
    assert(edge_fold(ei, 0) == Seq::<u32>::empty());
    assert(edge_fold(ei, 1) =~= seq![a as u32, b as u32, b as u32, c as u32, c as u32, a as u32]);
}

} // verus!
