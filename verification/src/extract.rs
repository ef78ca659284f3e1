//! Geometry extraction: selecting the target geometry from the scene,
//! classifying sources, and reading attribute offsets and the index-block
//! stride off a triangles primitive.

use vstd::prelude::*;

use crate::bytes::{
    bytes_eq, contains_ci, contains_lower, normal_needle, normal_semantic, position_needle,
    position_semantic, vertex_semantic,
};
use crate::model::{Geometry, InputDesc, Node, Source, VisualScene};

verus! {

/// Index of the first source at or after `i` whose identifier contains the
/// needle, case-insensitively.
pub open spec fn first_source_from(sources: Seq<Source>, needle: Seq<u8>, i: int) -> Option<int>
    decreases sources.len() - i,
{
    if i < 0 || i >= sources.len() {
        None
    } else if contains_lower(sources[i].id@, needle) {
        Some(i)
    } else {
        first_source_from(sources, needle, i + 1)
    }
}

/// Index of the position source: the first whose identifier contains
/// "position", case-insensitively.
pub open spec fn spec_position_source(sources: Seq<Source>) -> Option<int> {
    first_source_from(sources, position_needle(), 0)
}

/// Index of the normal source: the first whose identifier contains
/// "normal", case-insensitively.
pub open spec fn spec_normal_source(sources: Seq<Source>) -> Option<int> {
    first_source_from(sources, normal_needle(), 0)
}

/// The offset of the last input descriptor carrying the given semantic.
pub open spec fn last_offset(inputs: Seq<InputDesc>, sem: Seq<u8>) -> Option<int>
    decreases inputs.len(),
{
    if inputs.len() == 0 {
        None
    } else if inputs.last().semantic@ == sem {
        Some(inputs.last().offset as int)
    } else {
        last_offset(inputs.drop_last(), sem)
    }
}

/// The position offset of the triangle path: the last VERTEX offset when a
/// VERTEX input exists, else the last POSITION offset.
pub open spec fn spec_position_offset(inputs: Seq<InputDesc>) -> Option<int> {
    if last_offset(inputs, vertex_semantic()) is Some {
        last_offset(inputs, vertex_semantic())
    } else {
        last_offset(inputs, position_semantic())
    }
}

/// The normal offset: the last NORMAL offset, if any.
pub open spec fn spec_normal_offset(inputs: Seq<InputDesc>) -> Option<int> {
    last_offset(inputs, normal_semantic())
}

/// The largest offset among the input descriptors (0 when there are none).
pub open spec fn max_offset(inputs: Seq<InputDesc>) -> int
    decreases inputs.len(),
{
    if inputs.len() == 0 {
        0
    } else {
        let rest = max_offset(inputs.drop_last());
        if inputs.last().offset as int > rest {
            inputs.last().offset as int
        } else {
            rest
        }
    }
}

/// The stride of the index block: one more than the largest declared
/// offset, and 1 when no input is declared.
pub open spec fn spec_stride(inputs: Seq<InputDesc>) -> int {
    if inputs.len() == 0 {
        1
    } else {
        max_offset(inputs) + 1
    }
}

/// Index of the first geometry at or after `i` with the given identifier.
pub open spec fn first_geom_from(geoms: Seq<Geometry>, id: Seq<u8>, i: int) -> Option<int>
    decreases geoms.len() - i,
{
    if i < 0 || i >= geoms.len() {
        None
    } else if geoms[i].id@ == id {
        Some(i)
    } else {
        first_geom_from(geoms, id, i + 1)
    }
}

/// Whether node `n` references a geometry that resolves.
pub open spec fn node_resolves(nodes: Seq<Node>, geoms: Seq<Geometry>, n: int) -> bool {
    &&& nodes[n].instance_geometry_url is Some
    &&& first_geom_from(geoms, nodes[n].instance_geometry_url.unwrap()@, 0) is Some
}

/// The first node at or after `i` whose geometry reference resolves.
pub open spec fn first_resolving_node_from(nodes: Seq<Node>, geoms: Seq<Geometry>, i: int) -> Option<
    int,
>
    decreases nodes.len() - i,
{
    if i < 0 || i >= nodes.len() {
        None
    } else if node_resolves(nodes, geoms, i) {
        Some(i)
    } else {
        first_resolving_node_from(nodes, geoms, i + 1)
    }
}

/// The geometry selected by the scene scan: the geometry referenced by the
/// first node whose reference resolves.
pub open spec fn resolved_geometry(nodes: Seq<Node>, geoms: Seq<Geometry>) -> Option<int> {
    match first_resolving_node_from(nodes, geoms, 0) {
        Some(n) => match nodes[n].instance_geometry_url {
            Some(u) => first_geom_from(geoms, u@, 0),
            None => None,
        },
        None => None,
    }
}

fn needle_position_x() -> (v: Vec<u8>)
    ensures
        v@ == position_needle(),
{
    let mut v: Vec<u8> = Vec::new();
    v.push(112);
    v.push(111);
    v.push(115);
    v.push(105);
    v.push(116);
    v.push(105);
    v.push(111);
    v.push(110);
    proof {
        assert(v@ =~= position_needle());
    }
    v
}

fn needle_normal_x() -> (v: Vec<u8>)
    ensures
        v@ == normal_needle(),
{
    let mut v: Vec<u8> = Vec::new();
    v.push(110);
    v.push(111);
    v.push(114);
    v.push(109);
    v.push(97);
    v.push(108);
    proof {
        assert(v@ =~= normal_needle());
    }
    v
}

fn sem_vertex_x() -> (v: Vec<u8>)
    ensures
        v@ == vertex_semantic(),
{
    let mut v: Vec<u8> = Vec::new();
    v.push(86);
    v.push(69);
    v.push(82);
    v.push(84);
    v.push(69);
    v.push(88);
    proof {
        assert(v@ =~= vertex_semantic());
    }
    v
}

fn sem_position_x() -> (v: Vec<u8>)
    ensures
        v@ == position_semantic(),
{
    let mut v: Vec<u8> = Vec::new();
    v.push(80);
    v.push(79);
    v.push(83);
    v.push(73);
    v.push(84);
    v.push(73);
    v.push(79);
    v.push(78);
    proof {
        assert(v@ =~= position_semantic());
    }
    v
}

fn sem_normal_x() -> (v: Vec<u8>)
    ensures
        v@ == normal_semantic(),
{
    let mut v: Vec<u8> = Vec::new();
    v.push(78);
    v.push(79);
    v.push(82);
    v.push(77);
    v.push(65);
    v.push(76);
    proof {
        assert(v@ =~= normal_semantic());
    }
    v
}

/// The first input carrying the VERTEX or POSITION semantic, by index:
/// the wireframe path's position input.
pub open spec fn first_vp_from(inputs: Seq<InputDesc>, i: int) -> Option<int>
    decreases inputs.len() - i,
{
    if i < 0 || i >= inputs.len() {
        None
    } else if inputs[i].semantic@ == vertex_semantic() || inputs[i].semantic@
        == position_semantic() {
        Some(i)
    } else {
        first_vp_from(inputs, i + 1)
    }
}

/// A hit reported by `first_vp_from` lies inside the input list.
pub proof fn lemma_first_vp_in_range(inputs: Seq<InputDesc>, i: int)
    requires
        0 <= i,
    ensures
        first_vp_from(inputs, i) matches Some(j) ==> i <= j < inputs.len(),
    decreases inputs.len() - i,
{
    if 0 <= i < inputs.len() && !(inputs[i].semantic@ == vertex_semantic() || inputs[i].semantic@
        == position_semantic()) {
        lemma_first_vp_in_range(inputs, i + 1);
    }
}

/// An offset reported by `last_offset` never exceeds the largest offset.
pub proof fn lemma_last_offset_le_max(inputs: Seq<InputDesc>, sem: Seq<u8>)
    ensures
        last_offset(inputs, sem) matches Some(o) ==> 0 <= o <= max_offset(inputs),
    decreases inputs.len(),
{
    if inputs.len() > 0 {
        lemma_last_offset_le_max(inputs.drop_last(), sem);
    }
}

/// Every declared offset is at most the largest offset.
pub proof fn lemma_any_offset_le_max(inputs: Seq<InputDesc>, i: int)
    requires
        0 <= i < inputs.len(),
    ensures
        inputs[i].offset <= max_offset(inputs),
    decreases inputs.len(),
{
    if i < inputs.len() - 1 {
        lemma_any_offset_le_max(inputs.drop_last(), i);
    }
}

fn find_source(sources: &Vec<Source>, needle: &Vec<u8>) -> (r: Option<usize>)
    ensures
        r is Some <==> first_source_from(sources@, needle@, 0) is Some,
        r matches Some(j) ==> j < sources.len() && first_source_from(sources@, needle@, 0) == Some(
            j as int,
        ),
{
    let mut i: usize = 0;
    while i < sources.len()
        invariant
            i <= sources.len(),
            first_source_from(sources@, needle@, 0) == first_source_from(
                sources@,
                needle@,
                i as int,
            ),
        decreases sources.len() - i,
    {
        if contains_ci(&sources[i].id, needle) {
            return Some(i);
        }
        i = i + 1;
    }
    None
}

/// Locates the position source by a case-insensitive substring match on
/// the source identifiers.
pub fn find_position_source(sources: &Vec<Source>) -> (r: Option<usize>)
    ensures
        r is Some <==> spec_position_source(sources@) is Some,
        r matches Some(j) ==> j < sources.len() && spec_position_source(sources@) == Some(j as int),
{
    let needle = needle_position_x();
    find_source(sources, &needle)
}

/// Locates the optional normal source the same way.
pub fn find_normal_source(sources: &Vec<Source>) -> (r: Option<usize>)
    ensures
        r is Some <==> spec_normal_source(sources@) is Some,
        r matches Some(j) ==> j < sources.len() && spec_normal_source(sources@) == Some(j as int),
{
    let needle = needle_normal_x();
    find_source(sources, &needle)
}

fn find_last_offset(inputs: &Vec<InputDesc>, sem: &Vec<u8>) -> (r: Option<usize>)
    ensures
        r is Some <==> last_offset(inputs@, sem@) is Some,
        r matches Some(o) ==> last_offset(inputs@, sem@) == Some(o as int),
{
    let mut cur: Option<usize> = None;
    let mut i: usize = 0;
    while i < inputs.len()
        invariant
            i <= inputs.len(),
            cur is Some <==> last_offset(inputs@.take(i as int), sem@) is Some,
            cur matches Some(o) ==> last_offset(inputs@.take(i as int), sem@) == Some(o as int),
        decreases inputs.len() - i,
    {
        proof {
            assert(inputs@.take(i + 1).drop_last() =~= inputs@.take(i as int));
            assert(inputs@.take(i + 1).last() == inputs@[i as int]);
        }
        if bytes_eq(&inputs[i].semantic, sem) {
            cur = Some(inputs[i].offset);
        }
        i = i + 1;
    }
    proof {
        assert(inputs@.take(inputs.len() as int) =~= inputs@);
    }
    cur
}

/// Reads the position offset of the triangle path: the last VERTEX offset,
/// falling back to the last POSITION offset.
pub fn find_position_offset(inputs: &Vec<InputDesc>) -> (r: Option<usize>)
    ensures
        r is Some <==> spec_position_offset(inputs@) is Some,
        r matches Some(o) ==> spec_position_offset(inputs@) == Some(o as int),
{
    let vsem = sem_vertex_x();
    match find_last_offset(inputs, &vsem) {
        Some(o) => Some(o),
        None => {
            let psem = sem_position_x();
            find_last_offset(inputs, &psem)
        },
    }
}

/// Reads the optional normal offset: the last NORMAL offset.
pub fn find_normal_offset(inputs: &Vec<InputDesc>) -> (r: Option<usize>)
    ensures
        r is Some <==> spec_normal_offset(inputs@) is Some,
        r matches Some(o) ==> spec_normal_offset(inputs@) == Some(o as int),
{
    let nsem = sem_normal_x();
    find_last_offset(inputs, &nsem)
}

/// Reads the wireframe path's position offset: the offset of the first
/// input with the VERTEX or POSITION semantic.
pub fn find_wire_position_offset(inputs: &Vec<InputDesc>) -> (r: Option<usize>)
    ensures
        r is Some <==> first_vp_from(inputs@, 0) is Some,
        r matches Some(o) ==> first_vp_from(inputs@, 0) matches Some(i) && o == inputs@[i].offset,
{
    let vsem = sem_vertex_x();
    let psem = sem_position_x();
    let mut i: usize = 0;
    while i < inputs.len()
        invariant
            i <= inputs.len(),
            vsem@ == vertex_semantic(),
            psem@ == position_semantic(),
            first_vp_from(inputs@, 0) == first_vp_from(inputs@, i as int),
        decreases inputs.len() - i,
    {
        let hit = bytes_eq(&inputs[i].semantic, &vsem) || bytes_eq(&inputs[i].semantic, &psem);
        if hit {
            return Some(inputs[i].offset);
        }
        i = i + 1;
    }
    None
}

/// Computes the index-block stride: 1 + the largest declared offset
/// (1 with no inputs). `None` only when that sum does not fit in `usize`.
pub fn index_stride(inputs: &Vec<InputDesc>) -> (r: Option<usize>)
    ensures
        spec_stride(inputs@) <= usize::MAX ==> r == Some(spec_stride(inputs@) as usize),
        spec_stride(inputs@) > usize::MAX ==> r is None,
{
    let mut m: usize = 0;
    let mut i: usize = 0;
    while i < inputs.len()
        invariant
            i <= inputs.len(),
            i == 0 ==> m == 0,
            i > 0 ==> m as int == max_offset(inputs@.take(i as int)),
        decreases inputs.len() - i,
    {
        proof {
            assert(inputs@.take(i + 1).drop_last() =~= inputs@.take(i as int));
            assert(inputs@.take(i + 1).last() == inputs@[i as int]);
        }
        if inputs[i].offset > m {
            m = inputs[i].offset;
        } else {
            proof {
                if i == 0 {
                    assert(max_offset(inputs@.take(0int)) == 0);
                }
            }
        }
        i = i + 1;
    }
    proof {
        assert(inputs@.take(inputs.len() as int) =~= inputs@);
    }
    if inputs.len() == 0 {
        Some(1)
    } else if m == usize::MAX {
        None
    } else {
        Some(m + 1)
    }
}

fn find_geometry_by_id(geoms: &Vec<Geometry>, id: &Vec<u8>) -> (r: Option<usize>)
    ensures
        r is Some <==> first_geom_from(geoms@, id@, 0) is Some,
        r matches Some(g) ==> g < geoms.len() && first_geom_from(geoms@, id@, 0) == Some(g as int),
{
    let mut i: usize = 0;
    while i < geoms.len()
        invariant
            i <= geoms.len(),
            first_geom_from(geoms@, id@, 0) == first_geom_from(geoms@, id@, i as int),
        decreases geoms.len() - i,
    {
        if bytes_eq(&geoms[i].id, id) {
            return Some(i);
        }
        i = i + 1;
    }
    None
}

/// Scans the scene's nodes in order for the first geometry reference that
/// resolves, and returns the index of the resolved geometry.
pub fn resolve_geometry(scene: &VisualScene, geoms: &Vec<Geometry>) -> (r: Option<usize>)
    ensures
        r is Some <==> resolved_geometry(scene.nodes@, geoms@) is Some,
        r matches Some(g) ==> g < geoms.len() && resolved_geometry(scene.nodes@, geoms@) == Some(
            g as int,
        ),
{
    let mut n: usize = 0;
    while n < scene.nodes.len()
        invariant
            n <= scene.nodes.len(),
            first_resolving_node_from(scene.nodes@, geoms@, 0) == first_resolving_node_from(
                scene.nodes@,
                geoms@,
                n as int,
            ),
        decreases scene.nodes.len() - n,
    {
        match &scene.nodes[n].instance_geometry_url {
            Some(url) => {
                match find_geometry_by_id(geoms, url) {
                    Some(g) => {
                        proof {
                            assert(node_resolves(scene.nodes@, geoms@, n as int));
                        }
                        return Some(g);
                    },
                    None => {
                        proof {
                            assert(!node_resolves(scene.nodes@, geoms@, n as int));
                        }
                    },
                }
            },
            None => {},
        }
        n = n + 1;
    }
    None
}

} // verus!
