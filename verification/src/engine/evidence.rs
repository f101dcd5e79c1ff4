//! Evidence spans: record match positions as spans of the original input.
use vstd::prelude::*;
use crate::engine::ascii::spec_find_ic;
use crate::engine::normalize::{original_span_for_normalized, spec_units_from};
use crate::limits::MAX_EVIDENCE;
use crate::snapshot::{EvidenceSet, EvidenceSpan};

verus! {

/// The recorded spans of `e`, in order.
pub open spec fn spans_of(e: EvidenceSet) -> Seq<EvidenceSpan> {
    e.spans@.subrange(0, e.count as int)
}

/// The spans after recording the span at `pos` of `len` bytes, clipped to an
/// input of `hay_len` bytes: appended when a slot is free and the clipped
/// length fits 16 bits (the offset saturates at `u16::MAX`), else unchanged.
pub open spec fn push_span(v: Seq<EvidenceSpan>, hay_len: int, pos: int, len: int) -> Seq<EvidenceSpan> {
    let room = hay_len - pos;
    let clipped = if len < room {
        len
    } else {
        room
    };
    if v.len() >= MAX_EVIDENCE || clipped > 65535 {
        v
    } else {
        v.push(EvidenceSpan { offset: if pos <= 65535 { pos as u16 } else { 65535u16 }, len: clipped as u16 })
    }
}

/// A match to record: found in the original input (else in its
/// normalization) at `pos`, `len` bytes long.
pub struct Hit {
    pub in_original: bool,
    pub pos: int,
    pub len: int,
}

/// The spans after recording `h` as a span of `original` (a match in the
/// normalization is mapped back to the bytes it came from).
pub open spec fn push_hit(v: Seq<EvidenceSpan>, original: Seq<u8>, h: Hit) -> Seq<EvidenceSpan> {
    if h.in_original {
        push_span(v, original.len() as int, h.pos, h.len)
    } else if h.len > 0 && h.pos + h.len <= spec_units_from(original, 0).len() {
        let units = spec_units_from(original, 0);
        let offset = units[h.pos].0;
        push_span(v, original.len() as int, offset, units[h.pos + h.len - 1].1 - offset)
    } else {
        v
    }
}

/// The spans after recording each of `hits` in order.
pub open spec fn push_hits(v: Seq<EvidenceSpan>, original: Seq<u8>, hits: Seq<Hit>) -> Seq<EvidenceSpan>
    decreases hits.len(),
{
    if hits.len() == 0 {
        v
    } else {
        push_hits(push_hit(v, original, hits[0]), original, hits.drop_first())
    }
}

/// The first occurrence of `pat` in `hay`, as a hit list of at most one.
pub open spec fn pattern_hits(hay: Seq<u8>, pat: Seq<u8>, o: bool) -> Seq<Hit> {
    match spec_find_ic(hay, pat) {
        Some(p) => seq![Hit { in_original: o, pos: p, len: pat.len() as int }],
        None => seq![],
    }
}

/// The hits of a search that stops at its first success: `first`, and when
/// it found nothing (`found` false) the hits of the searches after it.
pub open spec fn or_else_hits(found: bool, first: Seq<Hit>, rest: Seq<Hit>) -> Seq<Hit> {
    if found {
        first
    } else {
        first + rest
    }
}

/// Recording `a` then `b` records `a + b`.
pub proof fn lemma_push_hits_append(v: Seq<EvidenceSpan>, original: Seq<u8>, a: Seq<Hit>, b: Seq<Hit>)
    ensures
        push_hits(push_hits(v, original, a), original, b) == push_hits(v, original, a + b),
    decreases a.len(),
{
    if a.len() > 0 {
        assert((a + b).drop_first() =~= a.drop_first() + b);
        assert((a + b)[0] == a[0]);
        lemma_push_hits_append(push_hit(v, original, a[0]), original, a.drop_first(), b);
    } else {
        assert(a + b =~= b);
    }
}

/// Recording one hit.
pub proof fn lemma_push_one(v: Seq<EvidenceSpan>, original: Seq<u8>, h: Hit)
    ensures
        push_hits(v, original, seq![h]) == push_hit(v, original, h),
{
    assert(seq![h].drop_first() =~= Seq::<Hit>::empty());
    assert(seq![h][0] == h);
    assert(push_hits(push_hit(v, original, h), original, Seq::<Hit>::empty()) == push_hit(v, original, h));
}

/// Record the span `hay[pos..pos + len]` (clipped to `hay`) if a slot is free.
pub fn push_evidence(evidence: &mut EvidenceSet, hay: &[u8], pos: usize, len: usize)
    requires
        old(evidence).wf(),
        old(evidence).tail_clear(),
        old(evidence).within(hay@.len() as int),
        pos <= hay@.len(),
    ensures
        final(evidence).wf(),
        final(evidence).tail_clear(),
        final(evidence).within(hay@.len() as int),
        old(evidence).count <= final(evidence).count,
        spans_of(*final(evidence)) == push_span(spans_of(*old(evidence)), hay@.len() as int, pos as int, len as int),
{
    if evidence.count as usize >= MAX_EVIDENCE {
        return;
    }
    let offset: u16 = if pos <= 65535 {
        pos as u16
    } else {
        65535u16
    };
    let room = hay.len() - pos;
    let clipped = if len < room {
        len
    } else {
        room
    };
    if clipped > 65535 {
        return;
    }
    let idx = evidence.count as usize;
    evidence.spans[idx] = EvidenceSpan { offset, len: clipped as u16 };
    evidence.count = evidence.count + 1;
}

/// Record a match at `pos` in the haystack that was searched: directly when that
/// was `original`, else mapped from the normalized bytes back to `original`.
pub fn push_match_evidence(
    evidence: &mut EvidenceSet,
    original: &[u8],
    hay_is_original: bool,
    pos: usize,
    len: usize,
)
    requires
        old(evidence).wf(),
        old(evidence).tail_clear(),
        old(evidence).within(original@.len() as int),
        hay_is_original ==> pos <= original@.len(),
    ensures
        final(evidence).wf(),
        final(evidence).tail_clear(),
        final(evidence).within(original@.len() as int),
        old(evidence).count <= final(evidence).count,
        spans_of(*final(evidence)) == push_hit(
            spans_of(*old(evidence)),
            original@,
            Hit { in_original: hay_is_original, pos: pos as int, len: len as int },
        ),
{
    if hay_is_original {
        push_evidence(evidence, original, pos, len);
    } else {
        match original_span_for_normalized(original, pos, len) {
            Some((offset, span_len)) => push_evidence(evidence, original, offset, span_len),
            None => {},
        }
    }
}

/// The haystack searched by a detector: `original` itself, or its
/// normalization (`hay_is_original` false).
pub open spec fn hay_ok(hay: Seq<u8>, original: Seq<u8>, hay_is_original: bool) -> bool {
    hay_is_original ==> hay == original
}

/// Evidence is well formed, inside `original`, with its free slots zero.
pub open spec fn evidence_ok(evidence: EvidenceSet, original: Seq<u8>) -> bool {
    evidence.wf() && evidence.tail_clear() && evidence.within(original.len() as int)
}

} // verus!
