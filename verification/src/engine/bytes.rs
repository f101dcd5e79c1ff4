//! Byte searches backed by the `memchr` crate.
use vstd::prelude::*;

verus! {

/// `memchr::memchr`: the index of the first occurrence of `needle` in `hay`.
#[verifier::external_body]
pub(crate) fn memchr(needle: u8, hay: &[u8]) -> (r: Option<usize>)
    ensures
        r matches Some(i) ==> i < hay@.len() && hay@[i as int] == needle && forall|j: int|
            0 <= j < i ==> hay@[j] != needle,
        r is None ==> !hay@.contains(needle),
{
    memchr::memchr(needle, hay)
}

/// `memchr::memchr2`: the index of the first occurrence of either needle in `hay`.
#[verifier::external_body]
pub(crate) fn memchr2(n1: u8, n2: u8, hay: &[u8]) -> (r: Option<usize>)
    ensures
        r matches Some(i) ==> i < hay@.len() && (hay@[i as int] == n1 || hay@[i as int] == n2)
            && forall|j: int| 0 <= j < i ==> hay@[j] != n1 && hay@[j] != n2,
        r is None ==> !hay@.contains(n1) && !hay@.contains(n2),
{
    memchr::memchr2(n1, n2, hay)
}

/// `memchr::memchr3`: the index of the first occurrence of any of three needles in `hay`.
#[verifier::external_body]
pub(crate) fn memchr3(n1: u8, n2: u8, n3: u8, hay: &[u8]) -> (r: Option<usize>)
    ensures
        r matches Some(i) ==> i < hay@.len() && (hay@[i as int] == n1 || hay@[i as int] == n2
            || hay@[i as int] == n3) && forall|j: int|
            0 <= j < i ==> hay@[j] != n1 && hay@[j] != n2 && hay@[j] != n3,
        r is None ==> !hay@.contains(n1) && !hay@.contains(n2) && !hay@.contains(n3),
{
    memchr::memchr3(n1, n2, n3, hay)
}

/// `needle` occurs at `hay[i..]` exactly.
pub open spec fn occurs_at(hay: Seq<u8>, i: int, needle: Seq<u8>) -> bool {
    0 <= i && i + needle.len() <= hay.len() && hay.subrange(i, i + needle.len()) == needle
}

/// `memchr::memmem::find`: the index of the first occurrence of `needle` in
/// `hay` (an empty needle is found at 0).
#[verifier::external_body]
pub(crate) fn memmem_find(hay: &[u8], needle: &[u8]) -> (r: Option<usize>)
    ensures
        r matches Some(i) ==> occurs_at(hay@, i as int, needle@) && forall|j: int|
            0 <= j < i ==> !occurs_at(hay@, j, needle@),
        r is None ==> forall|j: int| !occurs_at(hay@, j, needle@),
{
    memchr::memmem::find(hay, needle)
}

} // verus!
