//! ASCII helpers for stage-1 pattern scans.
use vstd::prelude::*;

verus! {

/// `b` is an ASCII digit.
pub open spec fn spec_is_digit(b: u8) -> bool {
    48 <= b <= 57
}

/// `b` is an ASCII letter.
pub open spec fn spec_is_alpha(b: u8) -> bool {
    (65 <= b <= 90) || (97 <= b <= 122)
}

/// `b` is an ASCII letter or digit.
pub open spec fn spec_is_alnum(b: u8) -> bool {
    spec_is_alpha(b) || spec_is_digit(b)
}

/// `b` is whitespace or other non-token glue.
pub open spec fn spec_is_space(b: u8) -> bool {
    b == 32 || b == 9 || b == 10 || b == 13 || b == 11 || b == 12
}

/// ASCII lowercase of `b` (other bytes unchanged).
pub open spec fn lower(b: u8) -> u8 {
    if 65 <= b <= 90 {
        (b + 32) as u8
    } else {
        b
    }
}

/// ASCII uppercase of `b` (other bytes unchanged).
pub open spec fn upper(b: u8) -> u8 {
    if 97 <= b <= 122 {
        (b - 32) as u8
    } else {
        b
    }
}

/// Bytes equal up to ASCII case.
pub open spec fn eq_ic(a: u8, b: u8) -> bool {
    lower(a) == lower(b)
}

/// Two byte strings are equal up to ASCII case.
pub open spec fn seq_eq_ic(a: Seq<u8>, b: Seq<u8>) -> bool {
    a.len() == b.len() && forall|k: int| 0 <= k < a.len() ==> #[trigger] eq_ic(a[k], b[k])
}

/// `needle` occurs at `hay[i..]`, up to ASCII case.
pub open spec fn matches_ic_at(hay: Seq<u8>, i: int, needle: Seq<u8>) -> bool {
    &&& 0 <= i
    &&& i + needle.len() <= hay.len()
    &&& forall|k: int| 0 <= k < needle.len() ==> #[trigger] eq_ic(hay[i + k], needle[k])
}

/// First position `>= from` where `needle` occurs (ASCII case-insensitive);
/// an empty needle never matches.
pub open spec fn find_ic_from(hay: Seq<u8>, needle: Seq<u8>, from: int) -> Option<int>
    decreases hay.len() - from,
{
    if needle.len() == 0 || from < 0 || from + needle.len() > hay.len() {
        None
    } else if matches_ic_at(hay, from, needle) {
        Some(from)
    } else {
        find_ic_from(hay, needle, from + 1)
    }
}

/// First position where `needle` occurs in `hay` (ASCII case-insensitive).
pub open spec fn spec_find_ic(hay: Seq<u8>, needle: Seq<u8>) -> Option<int> {
    find_ic_from(hay, needle, 0)
}

/// `needle` occurs somewhere in `hay` (ASCII case-insensitive, non-empty needle).
pub open spec fn contains_ic(hay: Seq<u8>, needle: Seq<u8>) -> bool {
    needle.len() > 0 && exists|i: int| matches_ic_at(hay, i, needle)
}

/// `find_ic_from` is the first match at or after `from`.
pub proof fn lemma_find_ic_from(hay: Seq<u8>, needle: Seq<u8>, from: int)
    requires
        from >= 0,
    ensures
        find_ic_from(hay, needle, from) matches Some(k) ==> {
            &&& from <= k
            &&& matches_ic_at(hay, k, needle)
            &&& forall|j: int| from <= j < k ==> !matches_ic_at(hay, j, needle)
        },
        find_ic_from(hay, needle, from) is None ==> (needle.len() == 0 || forall|j: int|
            from <= j ==> !matches_ic_at(hay, j, needle)),
    decreases hay.len() - from,
{
    if needle.len() == 0 || from + needle.len() > hay.len() {
    } else if matches_ic_at(hay, from, needle) {
    } else {
        lemma_find_ic_from(hay, needle, from + 1);
    }
}

/// The first-match search agrees with plain containment.
pub proof fn lemma_find_ic_contains(hay: Seq<u8>, needle: Seq<u8>)
    ensures
        spec_find_ic(hay, needle) is Some <==> contains_ic(hay, needle),
{
    lemma_find_ic_from(hay, needle, 0);
    if let Some(k) = spec_find_ic(hay, needle) {
        assert(matches_ic_at(hay, k, needle));
    }
}

/// True if `b` is an ASCII letter or digit.
pub fn is_alnum(b: u8) -> (r: bool)
    ensures
        r == spec_is_alnum(b),
{
    (b >= 65 && b <= 90) || (b >= 97 && b <= 122) || (b >= 48 && b <= 57)
}

/// True if `b` is an ASCII letter.
pub fn is_alpha(b: u8) -> (r: bool)
    ensures
        r == spec_is_alpha(b),
{
    (b >= 65 && b <= 90) || (b >= 97 && b <= 122)
}

/// True if `b` is an ASCII digit.
pub fn is_digit(b: u8) -> (r: bool)
    ensures
        r == spec_is_digit(b),
{
    b >= 48 && b <= 57
}

/// True if `b` is whitespace or other non-token glue.
pub fn is_space(b: u8) -> (r: bool)
    ensures
        r == spec_is_space(b),
{
    b == 32 || b == 9 || b == 10 || b == 13 || b == 11 || b == 12
}

/// ASCII lowercase of one byte.
pub fn to_lower(b: u8) -> (r: u8)
    ensures
        r == lower(b),
{
    if b >= 65 && b <= 90 {
        b + 32
    } else {
        b
    }
}

/// ASCII uppercase of one byte.
pub fn to_upper(b: u8) -> (r: u8)
    ensures
        r == upper(b),
{
    if b >= 97 && b <= 122 {
        b - 32
    } else {
        b
    }
}

/// Bytes equal up to ASCII case.
pub fn byte_eq_ic(a: u8, b: u8) -> (r: bool)
    ensures
        r == eq_ic(a, b),
{
    to_lower(a) == to_lower(b)
}

/// Word boundary before `hay[i]`: start of slice or non-alnum before position.
pub open spec fn spec_word_boundary_before(hay: Seq<u8>, i: int) -> bool {
    i == 0 || i - 1 >= hay.len() || !spec_is_alnum(hay[i - 1])
}

/// Word boundary after the `len` bytes starting at `start`.
pub open spec fn spec_word_boundary_after(hay: Seq<u8>, start: int, len: int) -> bool {
    start + len >= hay.len() || !spec_is_alnum(hay[start + len])
}

/// Word-boundary before `hay[i]`: start of slice or non-alnum before position.
pub fn word_boundary_before(hay: &[u8], i: usize) -> (r: bool)
    ensures
        r == spec_word_boundary_before(hay@, i as int),
{
    if i == 0 {
        return true;
    }
    if i - 1 >= hay.len() {
        return true;
    }
    !is_alnum(hay[i - 1])
}

/// Word-boundary after `hay[start + len - 1]` (saturating position).
pub fn word_boundary_after(hay: &[u8], start: usize, len: usize) -> (r: bool)
    ensures
        r == spec_word_boundary_after(hay@, start as int, len as int),
{
    if start >= hay.len() || len >= hay.len() - start {
        return true;
    }
    !is_alnum(hay[start + len])
}

/// Case-insensitive compare of equal-length slices.
pub fn eq_ignore_ascii_case(a: &[u8], b: &[u8]) -> (r: bool)
    ensures
        r == seq_eq_ic(a@, b@),
{
    if a.len() != b.len() {
        return false;
    }
    let mut i: usize = 0;
    while i < a.len()
        invariant
            a.len() == b.len(),
            i <= a.len(),
            forall|k: int| 0 <= k < i ==> #[trigger] eq_ic(a@[k], b@[k]),
        decreases a.len() - i,
    {
        if !byte_eq_ic(a[i], b[i]) {
            return false;
        }
        i += 1;
    }
    true
}

/// `needle` occurs at `hay[pos..]` up to ASCII case.
pub fn matches_at_ignore_ascii_case(hay: &[u8], pos: usize, needle: &[u8]) -> (r: bool)
    ensures
        r == matches_ic_at(hay@, pos as int, needle@),
{
    if pos > hay.len() || needle.len() > hay.len() - pos {
        return false;
    }
    let mut k: usize = 0;
    while k < needle.len()
        invariant
            pos + needle.len() <= hay.len(),
            k <= needle.len(),
            forall|j: int| 0 <= j < k ==> #[trigger] eq_ic(hay@[pos + j], needle@[j]),
        decreases needle.len() - k,
    {
        if !byte_eq_ic(hay[pos + k], needle[k]) {
            return false;
        }
        k += 1;
    }
    true
}

/// Find `needle` in `hay` with ASCII case folding, starting at `from`
/// (first match at or after `from`).
pub fn find_ignore_ascii_case_from(hay: &[u8], needle: &[u8], from: usize) -> (r: Option<usize>)
    ensures
        r matches Some(i) ==> find_ic_from(hay@, needle@, from as int) == Some(i as int),
        r is None ==> find_ic_from(hay@, needle@, from as int) is None,
{
    if needle.len() == 0 || needle.len() > hay.len() {
        return None;
    }
    let last = hay.len() - needle.len();
    let mut i = from;
    while i <= last
        invariant
            last == hay.len() - needle.len(),
            needle.len() > 0,
            from <= i,
            find_ic_from(hay@, needle@, from as int) == find_ic_from(hay@, needle@, i as int),
        decreases last + 1 - i,
    {
        if matches_at_ignore_ascii_case(hay, i, needle) {
            return Some(i);
        }
        i += 1;
    }
    None
}

/// Find `needle` in `hay` with ASCII case folding (first match).
pub fn find_ignore_ascii_case(hay: &[u8], needle: &[u8]) -> (r: Option<usize>)
    ensures
        r matches Some(i) ==> spec_find_ic(hay@, needle@) == Some(i as int),
        r is None ==> spec_find_ic(hay@, needle@) is None,
        r is Some <==> contains_ic(hay@, needle@),
{
    proof {
        lemma_find_ic_contains(hay@, needle@);
    }
    find_ignore_ascii_case_from(hay, needle, 0)
}

/// `needle` occurs in `hay` (ASCII case-insensitive, non-empty needle).
pub fn contains_ignore_ascii_case(hay: &[u8], needle: &[u8]) -> (r: bool)
    ensures
        r == contains_ic(hay@, needle@),
{
    find_ignore_ascii_case(hay, needle).is_some()
}

/// `b` occurs in `hay`.
pub fn contains_byte(hay: &[u8], b: u8) -> (r: bool)
    ensures
        r == hay@.contains(b),
{
    let mut i: usize = 0;
    while i < hay.len()
        invariant
            i <= hay.len(),
            forall|k: int| 0 <= k < i ==> hay@[k] != b,
        decreases hay.len() - i,
    {
        if hay[i] == b {
            return true;
        }
        i += 1;
    }
    false
}

} // verus!
