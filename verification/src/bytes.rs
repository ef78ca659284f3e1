//! Byte-string helpers: exact comparison and case-insensitive substring
//! search, used to classify sources by their identifiers and to match the
//! semantics of input descriptors.

use vstd::prelude::*;

verus! {

/// ASCII lower-casing of one byte.
pub open spec fn lower_byte(c: u8) -> u8 {
    if 65 <= c <= 90 {
        (c + 32) as u8
    } else {
        c
    }
}

/// The needle (already lower case) matches the haystack at position `i`,
/// comparing the haystack case-insensitively.
pub open spec fn match_at(hay: Seq<u8>, needle: Seq<u8>, i: int) -> bool {
    forall|k: int| 0 <= k < needle.len() ==> lower_byte(hay[i + k]) == needle[k]
}

/// The haystack contains the (lower-case) needle, case-insensitively.
pub open spec fn contains_lower(hay: Seq<u8>, needle: Seq<u8>) -> bool {
    exists|i: int| 0 <= i <= hay.len() - needle.len() && match_at(hay, needle, i)
}

/// "position"
pub open spec fn position_needle() -> Seq<u8> {
    seq![112u8, 111u8, 115u8, 105u8, 116u8, 105u8, 111u8, 110u8]
}

/// "normal"
pub open spec fn normal_needle() -> Seq<u8> {
    seq![110u8, 111u8, 114u8, 109u8, 97u8, 108u8]
}

/// "VERTEX"
pub open spec fn vertex_semantic() -> Seq<u8> {
    seq![86u8, 69u8, 82u8, 84u8, 69u8, 88u8]
}

/// "POSITION"
pub open spec fn position_semantic() -> Seq<u8> {
    seq![80u8, 79u8, 83u8, 73u8, 84u8, 73u8, 79u8, 78u8]
}

/// "NORMAL"
pub open spec fn normal_semantic() -> Seq<u8> {
    seq![78u8, 79u8, 82u8, 77u8, 65u8, 76u8]
}

fn lower_byte_x(c: u8) -> (r: u8)
    ensures
        r == lower_byte(c),
{
    if 65 <= c && c <= 90 {
        c + 32
    } else {
        c
    }
}

/// Exact equality of two byte strings.
pub fn bytes_eq(a: &Vec<u8>, b: &Vec<u8>) -> (r: bool)
    ensures
        r == (a@ == b@),
{
    if a.len() != b.len() {
        return false;
    }
    let mut i: usize = 0;
    while i < a.len()
        invariant
            i <= a.len(),
            a.len() == b.len(),
            forall|j: int| 0 <= j < i ==> a@[j] == b@[j],
        decreases a.len() - i,
    {
        if a[i] != b[i] {
            return false;
        }
        i = i + 1;
    }
    proof {
        assert(a@ =~= b@);
    }
    true
}

fn match_at_x(hay: &Vec<u8>, needle: &Vec<u8>, i: usize) -> (r: bool)
    requires
        i + needle.len() <= hay.len(),
    ensures
        r == match_at(hay@, needle@, i as int),
{
    let mut k: usize = 0;
    while k < needle.len()
        invariant
            k <= needle.len(),
            i + needle.len() <= hay.len(),
            forall|t: int| 0 <= t < k ==> lower_byte(hay@[i + t]) == needle@[t],
        decreases needle.len() - k,
    {
        if lower_byte_x(hay[i + k]) != needle[k] {
            return false;
        }
        k = k + 1;
    }
    true
}

/// Whether the haystack contains the (lower-case) needle, comparing the
/// haystack case-insensitively.
pub fn contains_ci(hay: &Vec<u8>, needle: &Vec<u8>) -> (r: bool)
    ensures
        r == contains_lower(hay@, needle@),
{
    if needle.len() > hay.len() {
        return false;
    }
    let end = hay.len() - needle.len();
    let mut i: usize = 0;
    while i <= end
        invariant
            i <= end + 1,
            end == hay.len() - needle.len(),
            needle.len() <= hay.len(),
            forall|j: int| 0 <= j < i ==> !match_at(hay@, needle@, j),
        decreases end + 1 - i,
    {
        if match_at_x(hay, needle, i) {
            return true;
        }
        i = i + 1;
    }
    false
}

} // verus!
