//! Vertex deduplication: walks the index block in windows of the index
//! stride, resolves raw positions and normals through the per-attribute
//! offsets and accessor strides, welds numerically-close vertices by their
//! quantized key, and builds canonical attribute arrays plus an index
//! buffer in first-occurrence order.

use vstd::prelude::*;

use crate::model::{default_normal, GeomError, Source, Triangles, Vec3Bits, VKey};
use crate::quant::{key3, make_key, vkey3};

verus! {

/// The resolved layout of the triangle path's index block.
pub struct TrianglePlan {
    pub position_offset: usize,
    pub normal_offset: Option<usize>,
    pub stride: usize,
}

/// The ghost view of one deduplication problem: the index block, its
/// layout, and the raw attribute arrays.
pub struct DedupIn {
    pub p: Seq<usize>,
    pub stride: nat,
    pub poff: nat,
    pub has_norm: bool,
    pub noff: nat,
    pub posv: Seq<u32>,
    pub pstride: nat,
    pub normv: Seq<u32>,
    pub nstride: nat,
}

/// The ghost state of the fold: welded keys, canonical attribute arrays,
/// and the emitted index sequence.
pub struct DedupSt {
    pub keys: Seq<(int, int, int)>,
    pub pos: Seq<Vec3Bits>,
    pub norm: Seq<Vec3Bits>,
    pub idx: Seq<u32>,
}

/// Number of windows of the index block.
pub open spec fn num_windows(di: DedupIn) -> int {
    di.p.len() as int / di.stride as int
}

/// Start of window `w` in the index block.
pub open spec fn win_base(di: DedupIn, w: int) -> int {
    w * di.stride
}

/// Start of window `w`'s raw position in the position array.
pub open spec fn pos_base(di: DedupIn, w: int) -> int {
    di.p[win_base(di, w) + di.poff] * di.pstride
}

/// Start of window `w`'s raw normal in the normal array.
pub open spec fn norm_base(di: DedupIn, w: int) -> int {
    di.p[win_base(di, w) + di.noff] * di.nstride
}

/// All raw reads of window `w` are in bounds.
pub open spec fn win_ok(di: DedupIn, w: int) -> bool {
    &&& pos_base(di, w) + 3 <= di.posv.len()
    &&& di.has_norm ==> norm_base(di, w) + 3 <= di.normv.len()
}

/// The raw position referenced by window `w`.
pub open spec fn win_pos(di: DedupIn, w: int) -> Vec3Bits {
    (Vec3Bits {
        x: di.posv[pos_base(di, w)],
        y: di.posv[pos_base(di, w) + 1],
        z: di.posv[pos_base(di, w) + 2],
    })
}

/// The quantized key of window `w`'s position.
pub open spec fn win_key(di: DedupIn, w: int) -> (int, int, int) {
    key3(win_pos(di, w).x, win_pos(di, w).y, win_pos(di, w).z)
}

/// The normal resolved for window `w`: read through the normal offset when
/// normal data exists, else the default up vector.
pub open spec fn win_norm(di: DedupIn, w: int) -> Vec3Bits {
    if di.has_norm {
        (Vec3Bits {
            x: di.normv[norm_base(di, w)],
            y: di.normv[norm_base(di, w) + 1],
            z: di.normv[norm_base(di, w) + 2],
        })
    } else {
        default_normal()
    }
}

/// The whole index block is aligned and every window's reads are in
/// bounds.
pub open spec fn dedup_ok(di: DedupIn) -> bool {
    &&& di.p.len() as int % di.stride as int == 0
    &&& forall|w: int| 0 <= w < num_windows(di) ==> win_ok(di, w)
}

/// Position of key `k` in `keys`, scanning from `i`: the first occurrence.
pub open spec fn find_key(keys: Seq<(int, int, int)>, k: (int, int, int), i: int) -> Option<int>
    decreases keys.len() - i,
{
    if i < 0 || i >= keys.len() {
        None
    } else if keys[i] == k {
        Some(i)
    } else {
        find_key(keys, k, i + 1)
    }
}

/// What `find_key` returns: the first match at or after `i`, or nothing.
pub proof fn lemma_find_key(keys: Seq<(int, int, int)>, k: (int, int, int), i: int)
    requires
        0 <= i,
    ensures
        match find_key(keys, k, i) {
            Some(j) => i <= j < keys.len() && keys[j] == k && forall|t: int|
                i <= t < j ==> keys[t] != k,
            None => forall|t: int| i <= t < keys.len() ==> keys[t] != k,
        },
    decreases keys.len() - i,
{
    if 0 <= i < keys.len() && keys[i] != k {
        lemma_find_key(keys, k, i + 1);
    }
}

/// The deduplication fold over the first `n` windows.
pub open spec fn dedup_fold(di: DedupIn, n: nat) -> DedupSt
    decreases n,
{
    if n == 0 {
        DedupSt { keys: Seq::empty(), pos: Seq::empty(), norm: Seq::empty(), idx: Seq::empty() }
    } else {
        let st = dedup_fold(di, (n - 1) as nat);
        let w = n - 1;
        let k = win_key(di, w);
        match find_key(st.keys, k, 0) {
            Some(j) => DedupSt {
                keys: st.keys,
                pos: st.pos,
                norm: st.norm,
                idx: st.idx.push(j as u32),
            },
            None => DedupSt {
                keys: st.keys.push(k),
                pos: st.pos.push(win_pos(di, w)),
                norm: st.norm.push(win_norm(di, w)),
                idx: st.idx.push(st.keys.len() as u32),
            },
        }
    }
}

/// All three attribute arrays share one length V, V is at most the number
/// of processed windows, and one index is emitted per window.
pub proof fn lemma_dedup_lengths(di: DedupIn, n: nat)
    ensures
        dedup_fold(di, n).pos.len() == dedup_fold(di, n).keys.len(),
        dedup_fold(di, n).norm.len() == dedup_fold(di, n).keys.len(),
        dedup_fold(di, n).keys.len() <= n,
        dedup_fold(di, n).idx.len() == n,
    decreases n,
{
    if n > 0 {
        lemma_dedup_lengths(di, (n - 1) as nat);
    }
}

/// Deduplication is injective: no two distinct canonical entries carry the
/// same key, and every emitted index points into the canonical arrays.
pub proof fn lemma_dedup_injective(di: DedupIn, n: nat)
    requires
        n <= 0xFFFF_FFFF,
    ensures
        forall|a: int, b: int|
            0 <= a < b < dedup_fold(di, n).keys.len() ==> dedup_fold(di, n).keys[a] != dedup_fold(
                di,
                n,
            ).keys[b],
        forall|t: int|
            0 <= t < dedup_fold(di, n).idx.len() ==> (dedup_fold(di, n).idx[t] as int) < dedup_fold(
                di,
                n,
            ).keys.len(),
    decreases n,
{
    if n > 0 {
        lemma_dedup_injective(di, (n - 1) as nat);
        lemma_dedup_lengths(di, (n - 1) as nat);
        let st = dedup_fold(di, (n - 1) as nat);
        let k = win_key(di, n - 1);
        lemma_find_key(st.keys, k, 0);
    }
}

/// When the processed windows reference pairwise-distinct quantized
/// positions, no welding happens: the canonical arrays keep one entry per
/// window in scan order and the index sequence is 0, 1, 2, ...
pub proof fn lemma_dedup_all_distinct(di: DedupIn, n: nat)
    requires
        n <= 0xFFFF_FFFF,
        forall|a: int, b: int| 0 <= a < b < n ==> win_key(di, a) != win_key(di, b),
    ensures
        dedup_fold(di, n).keys.len() == n,
        dedup_fold(di, n).pos.len() == n,
        forall|w: int| 0 <= w < n ==> dedup_fold(di, n).keys[w] == win_key(di, w),
        forall|w: int| 0 <= w < n ==> dedup_fold(di, n).pos[w] == win_pos(di, w),
        forall|t: int| 0 <= t < n ==> dedup_fold(di, n).idx[t] as int == t,
    decreases n,
{
    if n > 0 {
        lemma_dedup_all_distinct(di, (n - 1) as nat);
        lemma_dedup_lengths(di, (n - 1) as nat);
        let st = dedup_fold(di, (n - 1) as nat);
        let k = win_key(di, n - 1);
        lemma_find_key(st.keys, k, 0);
        match find_key(st.keys, k, 0) {
            Some(j) => {
                assert(st.keys[j] == win_key(di, j));
                assert(false);
            },
            None => {},
        }
    }
}

/// Without usable normal data every emitted normal is the up vector
/// (0, 1, 0), exactly.
pub proof fn lemma_dedup_default_normals(di: DedupIn, n: nat)
    requires
        !di.has_norm,
    ensures
        forall|i: int|
            0 <= i < dedup_fold(di, n).norm.len() ==> dedup_fold(di, n).norm[i] == default_normal(),
    decreases n,
{
    if n > 0 {
        lemma_dedup_default_normals(di, (n - 1) as nat);
        let st = dedup_fold(di, (n - 1) as nat);
        let stn = dedup_fold(di, n);
        let k = win_key(di, n - 1);
        match find_key(st.keys, k, 0) {
            Some(_) => {
                assert(stn.norm == st.norm);
            },
            None => {
                assert(stn.norm == st.norm.push(win_norm(di, n - 1)));
                assert(win_norm(di, n - 1) == default_normal());
            },
        }
    }
}

/// The canonical vertex buffers of the triangle path.
pub struct VertexBuffers {
    pub positions: Vec<Vec3Bits>,
    pub normals: Vec<Vec3Bits>,
    pub indices: Vec<u32>,
}

/// The ghost deduplication problem described by executable arguments.
pub open spec fn dedup_in_of(
    pos_src: Source,
    norm_src: Option<Source>,
    tri: Triangles,
    plan: TrianglePlan,
) -> DedupIn {
    DedupIn {
        p: tri.p@,
        stride: plan.stride as nat,
        poff: plan.position_offset as nat,
        has_norm: plan.normal_offset is Some && norm_src is Some,
        noff: match plan.normal_offset {
            Some(o) => o as nat,
            None => 0,
        },
        posv: pos_src.values@,
        pstride: pos_src.stride as nat,
        normv: match norm_src {
            Some(s) => s.values@,
            None => Seq::empty(),
        },
        nstride: match norm_src {
            Some(s) => s.stride as nat,
            None => 0,
        },
    }
}

/// The mathematical keys of an executable key vector.
pub open spec fn keys_view(keys: Seq<VKey>) -> Seq<(int, int, int)> {
    keys.map_values(|q: VKey| vkey3(q))
}

/// Spec view of an optional borrowed source.
pub open spec fn opt_src(s: Option<&Source>) -> Option<Source> {
    match s {
        Some(x) => Some(*x),
        None => None,
    }
}

pub(crate) fn lookup_key(keys: &Vec<VKey>, k: VKey) -> (r: Option<usize>)
    ensures
        ({
            let sk = keys_view(keys@);
            match r {
                Some(j) => j < keys.len() && find_key(sk, vkey3(k), 0) == Some(j as int),
                None => find_key(sk, vkey3(k), 0) is None,
            }
        }),
{
    let ghost sk = keys_view(keys@);
    let mut i: usize = 0;
    while i < keys.len()
        invariant
            i <= keys.len(),
            sk == keys_view(keys@),
            sk.len() == keys.len(),
            find_key(sk, vkey3(k), 0) == find_key(sk, vkey3(k), i as int),
        decreases keys.len() - i,
    {
        assert(sk[i as int] == vkey3(keys@[i as int]));
        if keys[i] == k {
            assert(find_key(sk, vkey3(k), i as int) == Some(i as int));
            return Some(i);
        }
        i = i + 1;
    }
    None
}

/// Checks that reading `count` consecutive values at `first * stride`
/// stays inside `len` values, without overflowing.
pub(crate) fn read_ok(first: usize, stride: usize, count: usize, len: usize) -> (r: bool)
    ensures
        r == (first * stride + count <= len),
{
    if stride == 0 {
        count <= len
    } else if len < count {
        proof {
            assert(first * stride >= 0) by (nonlinear_arith)
                requires
                    first >= 0,
                    stride >= 0,
            ;
        }
        false
    } else {
        let bound = (len - count) / stride;
        proof {
            let f = first as int;
            let s = stride as int;
            let d = (len - count) as int;
            assert(f <= d / s ==> f * s <= d) by (nonlinear_arith)
                requires
                    s >= 1,
                    f >= 0,
                    d >= 0,
            ;
            assert(f * s <= d ==> f <= d / s) by (nonlinear_arith)
                requires
                    s >= 1,
                    f >= 0,
                    d >= 0,
            ;
        }
        first <= bound
    }
}

/// Walks the index block, welds vertices by quantized position, and builds
/// the canonical attribute arrays plus the index buffer. Fails only on an
/// index block not divisible by the stride or an out-of-bounds raw read.
pub fn dedup_vertices(
    pos_src: &Source,
    norm_src: Option<&Source>,
    tri: &Triangles,
    plan: &TrianglePlan,
) -> (r: Result<VertexBuffers, GeomError>)
    requires
        plan.stride >= 1,
        plan.position_offset < plan.stride,
        plan.normal_offset matches Some(o) ==> o < plan.stride,
        tri.p@.len() <= 0xFFFF_FFFF,
    ensures
        ({
            let di = dedup_in_of(*pos_src, opt_src(norm_src), *tri, *plan);
            match r {
                Ok(b) => {
                    let st = dedup_fold(di, num_windows(di) as nat);
                    &&& dedup_ok(di)
                    &&& b.positions@ == st.pos
                    &&& b.normals@ == st.norm
                    &&& b.indices@ == st.idx
                },
                Err(e) => e == GeomError::MalformedData && !dedup_ok(di),
            }
        }),
{
    let ghost di = dedup_in_of(*pos_src, opt_src(norm_src), *tri, *plan);
    if tri.p.len() % plan.stride != 0 {
        return Err(GeomError::MalformedData);
    }
    let n_windows = tri.p.len() / plan.stride;
    proof {
        assert(num_windows(di) == n_windows);
        assert(n_windows * plan.stride == tri.p@.len()) by (nonlinear_arith)
            requires
                plan.stride >= 1,
                n_windows == tri.p@.len() as int / plan.stride as int,
                tri.p@.len() as int % plan.stride as int == 0,
        ;
    }
    let mut keys: Vec<VKey> = Vec::new();
    let mut positions: Vec<Vec3Bits> = Vec::new();
    let mut normals: Vec<Vec3Bits> = Vec::new();
    let mut indices: Vec<u32> = Vec::new();
    let mut w: usize = 0;
    while w < n_windows
        invariant
            w <= n_windows,
            plan.stride >= 1,
            plan.position_offset < plan.stride,
            plan.normal_offset matches Some(o) ==> o < plan.stride,
            di == dedup_in_of(*pos_src, opt_src(norm_src), *tri, *plan),
            n_windows == num_windows(di),
            n_windows * plan.stride == tri.p@.len(),
            tri.p@.len() <= 0xFFFF_FFFF,
            forall|v: int| 0 <= v < w ==> win_ok(di, v),
            keys_view(keys@) == dedup_fold(di, w as nat).keys,
            positions@ == dedup_fold(di, w as nat).pos,
            normals@ == dedup_fold(di, w as nat).norm,
            indices@ == dedup_fold(di, w as nat).idx,
            keys.len() == positions.len(),
            keys.len() == normals.len(),
            keys.len() <= w,
        decreases n_windows - w,
    {
        proof {
            assert(w * plan.stride + plan.stride <= n_windows * plan.stride) by (nonlinear_arith)
                requires
                    w + 1 <= n_windows,
                    plan.stride >= 1,
            ;
        }
        let base = w * plan.stride;
        proof {
            assert(base + plan.stride <= tri.p@.len());
            assert(base == win_base(di, w as int));
        }
        let pi = tri.p[base + plan.position_offset];
        if !read_ok(pi, pos_src.stride, 3, pos_src.values.len()) {
            assert(!win_ok(di, w as int));
            return Err(GeomError::MalformedData);
        }
        let pb = pi * pos_src.stride;
        assert(pb == pos_base(di, w as int));
        let px = pos_src.values[pb];
        let py = pos_src.values[pb + 1];
        let pz = pos_src.values[pb + 2];
        let nrm: Vec3Bits = match (plan.normal_offset, norm_src) {
            (Some(noff), Some(ns)) => {
                let ni = tri.p[base + noff];
                if !read_ok(ni, ns.stride, 3, ns.values.len()) {
                    assert(!win_ok(di, w as int));
                    return Err(GeomError::MalformedData);
                }
                let nb = ni * ns.stride;
                assert(nb == norm_base(di, w as int));
                Vec3Bits { x: ns.values[nb], y: ns.values[nb + 1], z: ns.values[nb + 2] }
            },
            _ => {
                let d = default_normal_x();
                d
            },
        };
        assert(win_ok(di, w as int));
        assert(nrm == win_norm(di, w as int));
        let key = make_key(px, py, pz);
        proof {
            assert(win_pos(di, w as int) == (Vec3Bits { x: px, y: py, z: pz }));
            assert(vkey3(key) == win_key(di, w as int));
        }
        let ghost st = dedup_fold(di, w as nat);
        let ghost stn = dedup_fold(di, (w + 1) as nat);
        match lookup_key(&keys, key) {
            Some(j) => {
                indices.push(j as u32);
            },
            None => {
                proof {
                    assert(keys_view(keys@.push(key)) =~= keys_view(keys@).push(vkey3(key)));
                }
                let fresh = keys.len();
                keys.push(key);
                positions.push(Vec3Bits { x: px, y: py, z: pz });
                normals.push(nrm);
                indices.push(fresh as u32);
            },
        }
        w = w + 1;
    }
    Ok(VertexBuffers { positions, normals, indices })
}

fn default_normal_x() -> (v: Vec3Bits)
    ensures
        v == default_normal(),
{
    Vec3Bits { x: 0, y: 0x3F80_0000, z: 0 }
}

} // verus!
