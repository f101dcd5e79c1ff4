//! Stage-1 SQL construct classifiers (stack-only heuristics).
use vstd::prelude::*;
use crate::engine::ascii::{
    contains_byte, contains_ic, contains_ignore_ascii_case, find_ic_from, find_ignore_ascii_case,
    find_ignore_ascii_case_from, lemma_find_ic_contains, lemma_find_ic_from, matches_ic_at, spec_find_ic, spec_is_space,
    spec_word_boundary_after, spec_word_boundary_before, word_boundary_after, word_boundary_before, is_space,
};
use crate::engine::evidence::{
    evidence_ok, hay_ok, lemma_push_hits_append, lemma_push_one, or_else_hits, pattern_hits, push_evidence,
    push_hits, push_match_evidence, spans_of, Hit,
};
use crate::engine::token::{TokenBuf, TokenKind, TokenMeta};
use crate::snapshot::{construct_bit, construct_bit_if, ConstructFlags, EvidenceSet, SqlDialect, SqliQuoteMode};

verus! {

/// End of a token's byte range (its `u16` end, saturating).
pub open spec fn token_end(t: TokenMeta) -> int {
    if t.offset + t.len > u16::MAX {
        u16::MAX as int
    } else {
        t.offset + t.len
    }
}

/// Token `t` has kind `kind` and covers byte `pos`.
pub open spec fn covers(t: TokenMeta, pos: int, kind: TokenKind) -> bool {
    t.kind == kind && t.offset <= pos < token_end(t)
}

/// Byte `pos` lies inside a stored token of kind `kind`.
pub open spec fn spec_token_contains(toks: Seq<TokenMeta>, pos: int, kind: TokenKind) -> bool {
    exists|i: int| 0 <= i < toks.len() && #[trigger] covers(toks[i], pos, kind)
}

/// Byte `pos` lies inside a quoted string token.
pub open spec fn in_string(toks: Seq<TokenMeta>, pos: int) -> bool {
    spec_token_contains(toks, pos, TokenKind::StringSingle) || spec_token_contains(
        toks,
        pos,
        TokenKind::StringDouble,
    )
}

/// `needle` occurs at `pos` as a whole word (ASCII case-insensitive).
pub open spec fn word_at(hay: Seq<u8>, pos: int, needle: Seq<u8>) -> bool {
    &&& matches_ic_at(hay, pos, needle)
    &&& spec_word_boundary_before(hay, pos)
    &&& spec_word_boundary_after(hay, pos, needle.len() as int)
}

/// `needle` occurs somewhere in `hay` as a whole word.
pub open spec fn has_word(hay: Seq<u8>, needle: Seq<u8>) -> bool {
    exists|pos: int| #[trigger] word_at(hay, pos, needle)
}

/// The whole-word matches of `needle` in `hay` from `from` on, in order,
/// as hits (`o`: `hay` is the original input).
pub open spec fn word_hits(hay: Seq<u8>, needle: Seq<u8>, from: int, o: bool) -> Seq<Hit>
    decreases hay.len() - from,
{
    if from < 0 {
        seq![]
    } else {
        match find_ic_from(hay, needle, from) {
            None => seq![],
            Some(k) => {
                proof {
                    lemma_find_ic_from(hay, needle, from);
                }
                let here = if word_at(hay, k, needle) {
                    seq![Hit { in_original: o, pos: k, len: needle.len() as int }]
                } else {
                    seq![]
                };
                here + word_hits(hay, needle, k + 1, o)
            },
        }
    }
}

/// Byte `pos` lies inside a stored token of kind `kind`.
pub fn token_contains(toks: &TokenBuf, pos: usize, kind: TokenKind) -> (r: bool)
    requires
        toks.count <= 8,
    ensures
        r == spec_token_contains(toks.stored(), pos as int, kind),
{
    let n = toks.count as usize;
    let mut i: usize = 0;
    while i < n
        invariant
            n == toks.count,
            n <= 8,
            i <= n,
            forall|j: int| 0 <= j < i ==> !#[trigger] covers(toks.stored()[j], pos as int, kind),
        decreases n - i,
    {
        let t = toks.slots[i];
        let end = t.offset.saturating_add(t.len) as usize;
        if t.kind == kind && pos >= t.offset as usize && pos < end {
            assert(covers(toks.stored()[i as int], pos as int, kind));
            return true;
        }
        i += 1;
    }
    false
}

/// Byte `pos` lies inside a quoted string token.
pub fn inside_string(toks: &TokenBuf, pos: usize) -> (r: bool)
    requires
        toks.count <= 8,
    ensures
        r == in_string(toks.stored(), pos as int),
{
    token_contains(toks, pos, TokenKind::StringSingle) || token_contains(toks, pos, TokenKind::StringDouble)
}

/// Record every whole-word match of `needle` in `hay`; `true` when there was one.
pub fn scan_words(
    hay: &[u8],
    needle: &[u8],
    original: &[u8],
    hay_is_original: bool,
    evidence: &mut EvidenceSet,
) -> (r: bool)
    requires
        needle@.len() > 0,
        hay_ok(hay@, original@, hay_is_original),
        evidence_ok(*old(evidence), original@),
    ensures
        evidence_ok(*final(evidence), original@),
        r == has_word(hay@, needle@),
        spans_of(*final(evidence)) == push_hits(
            spans_of(*old(evidence)),
            original@,
            word_hits(hay@, needle@, 0, hay_is_original),
        ),
{
    let n = hay.len();
    let mut pos: usize = 0;
    let mut hit = false;
    let ghost goal = push_hits(spans_of(*evidence), original@, word_hits(hay@, needle@, 0, hay_is_original));
    loop
        invariant
            n == hay@.len(),
            needle@.len() > 0,
            hay_ok(hay@, original@, hay_is_original),
            evidence_ok(*evidence, original@),
            pos <= hay@.len(),
            hit <==> exists|j: int| 0 <= j < pos && #[trigger] word_at(hay@, j, needle@),
            forall|j: int| 0 <= j < pos && #[trigger] word_at(hay@, j, needle@) ==> hit,
            goal == push_hits(spans_of(*evidence), original@, word_hits(hay@, needle@, pos as int, hay_is_original)),
        ensures
            evidence_ok(*evidence, original@),
            hit == has_word(hay@, needle@),
            goal == spans_of(*evidence),
        decreases hay@.len() - pos,
    {
        proof {
            lemma_find_ic_from(hay@, needle@, pos as int);
        }
        match find_ignore_ascii_case_from(hay, needle, pos) {
            None => {
                assert forall|j: int| #[trigger] word_at(hay@, j, needle@) implies j < pos by {}
                break;
            },
            Some(k) => {
                assert(k + needle@.len() <= hay@.len());
                assert(forall|j: int| pos <= j < k ==> !#[trigger] word_at(hay@, j, needle@));
                let ghost h = Hit { in_original: hay_is_original, pos: k as int, len: needle@.len() as int };
                let ghost rest = word_hits(hay@, needle@, k + 1, hay_is_original);
                let ghost before = spans_of(*evidence);
                if word_boundary_before(hay, k) && word_boundary_after(hay, k, needle.len()) {
                    assert(word_at(hay@, k as int, needle@));
                    hit = true;
                    push_match_evidence(evidence, original, hay_is_original, k, needle.len());
                    proof {
                        lemma_push_hits_append(before, original@, seq![h], rest);
                        lemma_push_one(before, original@, h);
                    }
                } else {
                    proof {
                        assert(seq![] + rest =~= rest);
                    }
                }
                pos = k + 1;
            },
        }
    }
    hit
}

/// `hay[start..start + 12]` (clipped) holds `=` or `like`.
pub open spec fn comparison_near(hay: Seq<u8>, start: int) -> bool {
    let end = if start + 12 < hay.len() {
        start + 12
    } else {
        hay.len() as int
    };
    let window = if start <= end {
        hay.subrange(start, end)
    } else {
        Seq::empty()
    };
    window.contains(61u8) || contains_ic(window, seq![108u8, 105, 107, 101])
}

/// `needle` occurs at `pos` with a comparison just after it.
pub open spec fn compared_at(hay: Seq<u8>, pos: int, needle: Seq<u8>) -> bool {
    matches_ic_at(hay, pos, needle) && comparison_near(hay, pos + needle.len())
}

/// Some occurrence of `needle` in `hay` has a comparison just after it.
pub open spec fn has_compared(hay: Seq<u8>, needle: Seq<u8>) -> bool {
    exists|pos: int| #[trigger] compared_at(hay, pos, needle)
}

/// The occurrences of `needle` with a comparison just after them, from
/// `from` on, in order, as hits (`o`: `hay` is the original input).
pub open spec fn compared_hits(hay: Seq<u8>, needle: Seq<u8>, from: int, o: bool) -> Seq<Hit>
    decreases hay.len() - from,
{
    if from < 0 {
        seq![]
    } else {
        match find_ic_from(hay, needle, from) {
            None => seq![],
            Some(k) => {
                proof {
                    lemma_find_ic_from(hay, needle, from);
                }
                let here = if compared_at(hay, k, needle) {
                    seq![Hit { in_original: o, pos: k, len: needle.len() as int }]
                } else {
                    seq![]
                };
                here + compared_hits(hay, needle, k + 1, o)
            },
        }
    }
}

/// The first occurrence of the first of `pats[i..]` that occurs in `hay`.
pub open spec fn first_pattern_hits(hay: Seq<u8>, pats: Seq<Seq<u8>>, i: int, o: bool) -> Seq<Hit>
    decreases pats.len() - i,
{
    if i < 0 || i >= pats.len() {
        seq![]
    } else if spec_find_ic(hay, pats[i]) is Some {
        pattern_hits(hay, pats[i], o)
    } else {
        first_pattern_hits(hay, pats, i + 1, o)
    }
}

/// The tautology patterns, in the order they are tried.
pub open spec fn tautology_patterns() -> Seq<Seq<u8>> {
    seq![
        seq![111u8, 114, 32, 49, 61, 49],
        seq![111u8, 114, 32, 39, 49, 39, 61, 39, 49],
        seq![111u8, 114, 32, 34, 49, 34, 61, 34, 49],
        seq![97u8, 110, 100, 32, 49, 61, 49],
        seq![111u8, 114, 32, 116, 114, 117, 101],
        seq![97u8, 110, 100, 32, 116, 114, 117, 101],
        seq![39u8, 61, 39],
        seq![34u8, 61, 34],
    ]
}

/// The string-break patterns, in the order they are tried.
pub open spec fn string_break_patterns() -> Seq<Seq<u8>> {
    seq![
        seq![39u8, 32, 111, 114],
        seq![34u8, 32, 111, 114],
        seq![39u8, 59],
        seq![34u8, 59, 45, 45],
        seq![39u8, 45, 45],
        seq![34u8, 45, 45],
    ]
}

/// The dangerous-function patterns, in the order they are tried.
pub open spec fn function_patterns() -> Seq<Seq<u8>> {
    seq![
        seq![115u8, 108, 101, 101, 112, 40],
        seq![98u8, 101, 110, 99, 104, 109, 97, 114, 107, 40],
        seq![108u8, 111, 97, 100, 95, 102, 105, 108, 101, 40],
        seq![120u8, 112, 95, 99, 109, 100, 115, 104, 101, 108, 108],
        seq![119u8, 97, 105, 116, 102, 111, 114, 32, 100, 101, 108, 97, 121],
        seq![101u8, 120, 116, 114, 97, 99, 116, 118, 97, 108, 117, 101, 40],
        seq![117u8, 112, 100, 97, 116, 101, 120, 109, 108, 40],
        seq![112u8, 103, 95, 115, 108, 101, 101, 112, 40],
    ]
}


/// `hay[start..start + 12]` (clipped) holds `=` or `like`.
pub fn has_comparison_near(hay: &[u8], start: usize) -> (r: bool)
    ensures
        r == comparison_near(hay@, start as int),
{
    let n = hay.len();
    let window: &[u8] = if start <= n {
        let end = if n - start > 12 {
            start + 12
        } else {
            n
        };
        &hay[start..end]
    } else {
        &hay[0..0]
    };
    assert(window@ =~= {
        let end = if start + 12 < hay@.len() {
            start + 12
        } else {
            hay@.len() as int
        };
        if start <= end {
            hay@.subrange(start as int, end)
        } else {
            Seq::empty()
        }
    });
    contains_byte(window, 61u8) || contains_ignore_ascii_case(window, &[108u8, 105, 107, 101])
}

/// Record every occurrence of `needle` followed closely by a comparison;
/// `true` when there was one.
pub fn scan_compared(
    hay: &[u8],
    needle: &[u8],
    original: &[u8],
    hay_is_original: bool,
    evidence: &mut EvidenceSet,
) -> (r: bool)
    requires
        needle@.len() > 0,
        hay_ok(hay@, original@, hay_is_original),
        evidence_ok(*old(evidence), original@),
    ensures
        evidence_ok(*final(evidence), original@),
        r == has_compared(hay@, needle@),
        spans_of(*final(evidence)) == push_hits(
            spans_of(*old(evidence)),
            original@,
            compared_hits(hay@, needle@, 0, hay_is_original),
        ),
{
    let n = hay.len();
    let mut pos: usize = 0;
    let mut hit = false;
    let ghost goal = push_hits(spans_of(*evidence), original@, compared_hits(hay@, needle@, 0, hay_is_original));
    loop
        invariant
            n == hay@.len(),
            needle@.len() > 0,
            hay_ok(hay@, original@, hay_is_original),
            evidence_ok(*evidence, original@),
            pos <= hay@.len(),
            hit <==> exists|j: int| 0 <= j < pos && #[trigger] compared_at(hay@, j, needle@),
            forall|j: int| 0 <= j < pos && #[trigger] compared_at(hay@, j, needle@) ==> hit,
            goal == push_hits(spans_of(*evidence), original@, compared_hits(hay@, needle@, pos as int, hay_is_original)),
        ensures
            evidence_ok(*evidence, original@),
            hit == has_compared(hay@, needle@),
            goal == spans_of(*evidence),
        decreases hay@.len() - pos,
    {
        proof {
            lemma_find_ic_from(hay@, needle@, pos as int);
        }
        match find_ignore_ascii_case_from(hay, needle, pos) {
            None => {
                assert forall|j: int| #[trigger] compared_at(hay@, j, needle@) implies j < pos by {}
                break;
            },
            Some(k) => {
                assert(k + needle@.len() <= hay@.len());
                assert(forall|j: int| pos <= j < k ==> !#[trigger] compared_at(hay@, j, needle@));
                let ghost h = Hit { in_original: hay_is_original, pos: k as int, len: needle@.len() as int };
                let ghost rest = compared_hits(hay@, needle@, k + 1, hay_is_original);
                let ghost before = spans_of(*evidence);
                if has_comparison_near(hay, k + needle.len()) {
                    assert(compared_at(hay@, k as int, needle@));
                    hit = true;
                    push_match_evidence(evidence, original, hay_is_original, k, needle.len());
                    proof {
                        lemma_push_hits_append(before, original@, seq![h], rest);
                        lemma_push_one(before, original@, h);
                    }
                } else {
                    proof {
                        assert(seq![] + rest =~= rest);
                    }
                }
                pos = k + 1;
            },
        }
    }
    hit
}

/// Record the first occurrence of `pat` in `hay`; `true` when there is one.
pub fn find_pattern(
    hay: &[u8],
    pat: &[u8],
    original: &[u8],
    hay_is_original: bool,
    evidence: &mut EvidenceSet,
) -> (r: bool)
    requires
        hay_ok(hay@, original@, hay_is_original),
        evidence_ok(*old(evidence), original@),
    ensures
        evidence_ok(*final(evidence), original@),
        r == contains_ic(hay@, pat@),
        r == spec_find_ic(hay@, pat@) is Some,
        spans_of(*final(evidence)) == push_hits(spans_of(*old(evidence)), original@, pattern_hits(hay@, pat@, hay_is_original)),
{
    proof {
        lemma_find_ic_contains(hay@, pat@);
    }
    match find_ignore_ascii_case(hay, pat) {
        Some(pos) => {
            proof {
                lemma_find_ic_from(hay@, pat@, 0);
                lemma_push_one(spans_of(*evidence), original@, Hit { in_original: hay_is_original, pos: pos as int, len: pat@.len() as int });
            }
            push_match_evidence(evidence, original, hay_is_original, pos, pat.len());
            true
        },
        None => false,
    }
}

/// `hay` holds one of the tautology patterns (`or 1=1`, `'='`, ...).
pub open spec fn has_tautology(hay: Seq<u8>) -> bool {
    ||| contains_ic(hay, seq![111u8, 114, 32, 49, 61, 49])
    ||| contains_ic(hay, seq![111u8, 114, 32, 39, 49, 39, 61, 39, 49])
    ||| contains_ic(hay, seq![111u8, 114, 32, 34, 49, 34, 61, 34, 49])
    ||| contains_ic(hay, seq![97u8, 110, 100, 32, 49, 61, 49])
    ||| contains_ic(hay, seq![111u8, 114, 32, 116, 114, 117, 101])
    ||| contains_ic(hay, seq![97u8, 110, 100, 32, 116, 114, 117, 101])
    ||| contains_ic(hay, seq![39u8, 61, 39])
    ||| contains_ic(hay, seq![34u8, 61, 34])
}

/// `hay` holds one of the string-break patterns (`' or`, `';`, `'--`, ...).
pub open spec fn has_string_break(hay: Seq<u8>) -> bool {
    ||| contains_ic(hay, seq![39u8, 32, 111, 114])
    ||| contains_ic(hay, seq![34u8, 32, 111, 114])
    ||| contains_ic(hay, seq![39u8, 59])
    ||| contains_ic(hay, seq![34u8, 59, 45, 45])
    ||| contains_ic(hay, seq![39u8, 45, 45])
    ||| contains_ic(hay, seq![34u8, 45, 45])
}

/// `hay` calls one of the time / file / XML functions (`sleep(`, `xp_cmdshell`, ...).
pub open spec fn has_function(hay: Seq<u8>) -> bool {
    ||| contains_ic(hay, seq![115u8, 108, 101, 101, 112, 40])
    ||| contains_ic(hay, seq![98u8, 101, 110, 99, 104, 109, 97, 114, 107, 40])
    ||| contains_ic(hay, seq![108u8, 111, 97, 100, 95, 102, 105, 108, 101, 40])
    ||| contains_ic(hay, seq![120u8, 112, 95, 99, 109, 100, 115, 104, 101, 108, 108])
    ||| contains_ic(hay, seq![119u8, 97, 105, 116, 102, 111, 114, 32, 100, 101, 108, 97, 121])
    ||| contains_ic(hay, seq![101u8, 120, 116, 114, 97, 99, 116, 118, 97, 108, 117, 101, 40])
    ||| contains_ic(hay, seq![117u8, 112, 100, 97, 116, 101, 120, 109, 108, 40])
    ||| contains_ic(hay, seq![112u8, 103, 95, 115, 108, 101, 101, 112, 40])
}

/// `hay` has `and`/`or` followed closely by a comparison.
pub open spec fn has_boolean_blind(hay: Seq<u8>) -> bool {
    has_compared(hay, seq![32u8, 97, 110, 100, 32]) || has_compared(hay, seq![32u8, 111, 114, 32])
}

/// `hay` chains SQL keywords: `select ... from`, or both `union` and `select`.
pub open spec fn has_keyword_chain(hay: Seq<u8>) -> bool {
    let select = seq![115u8, 101, 108, 101, 99, 116];
    ||| (spec_find_ic(hay, select) matches Some(s) && contains_ic(
        hay.subrange(s + 6, hay.len() as int),
        seq![102u8, 114, 111, 109],
    ))
    ||| (contains_ic(hay, seq![117u8, 110, 105, 111, 110]) && contains_ic(hay, select))
}

/// The hits of the `UNION` detector.
pub open spec fn union_hits(orig: Seq<u8>, norm: Seq<u8>) -> Seq<Hit> {
    let word = seq![117u8, 110, 105, 111, 110];
    or_else_hits(has_word(orig, word), word_hits(orig, word, 0, true), word_hits(norm, word, 0, false))
}

/// The hits of the tautology detector.
pub open spec fn tautology_hits(orig: Seq<u8>, norm: Seq<u8>) -> Seq<Hit> {
    or_else_hits(
        has_tautology(orig),
        first_pattern_hits(orig, tautology_patterns(), 0, true),
        first_pattern_hits(norm, tautology_patterns(), 0, false),
    )
}

/// The hits of the function-call detector.
pub open spec fn function_hits(orig: Seq<u8>, norm: Seq<u8>) -> Seq<Hit> {
    or_else_hits(
        has_function(orig),
        first_pattern_hits(orig, function_patterns(), 0, true),
        first_pattern_hits(norm, function_patterns(), 0, false),
    )
}

/// The hits of the boolean-blind detector in `hay`: every ` and ` then every
/// ` or ` with a comparison after it.
pub open spec fn blind_hits_in(hay: Seq<u8>, o: bool) -> Seq<Hit> {
    compared_hits(hay, seq![32u8, 97, 110, 100, 32], 0, o) + compared_hits(hay, seq![32u8, 111, 114, 32], 0, o)
}

/// The hits of the boolean-blind detector.
pub open spec fn blind_hits(orig: Seq<u8>, norm: Seq<u8>) -> Seq<Hit> {
    or_else_hits(has_boolean_blind(orig), blind_hits_in(orig, true), blind_hits_in(norm, false))
}

/// The hit of the keyword-chain detector in `hay`: the first `select`, when a
/// `from` follows it.
pub open spec fn chain_hits_in(hay: Seq<u8>, o: bool) -> Seq<Hit> {
    let select = seq![115u8, 101, 108, 101, 99, 116];
    match spec_find_ic(hay, select) {
        Some(s) => if contains_ic(hay.subrange(s + 6, hay.len() as int), seq![102u8, 114, 111, 109]) {
            seq![Hit { in_original: o, pos: s, len: 6 }]
        } else {
            seq![]
        },
        None => seq![],
    }
}

/// The hits of the keyword-chain detector.
pub open spec fn chain_hits(orig: Seq<u8>, norm: Seq<u8>) -> Seq<Hit> {
    or_else_hits(has_keyword_chain(orig), chain_hits_in(orig, true), chain_hits_in(norm, false))
}

/// `UNION` as a whole word.
pub fn detect_union(orig: &[u8], norm: &[u8], evidence: &mut EvidenceSet) -> (r: bool)
    requires
        evidence_ok(*old(evidence), orig@),
    ensures
        evidence_ok(*final(evidence), orig@),
        r == (has_word(orig@, seq![117u8, 110, 105, 111, 110]) || has_word(
            norm@,
            seq![117u8, 110, 105, 111, 110],
        )),
        spans_of(*final(evidence)) == push_hits(spans_of(*old(evidence)), orig@, union_hits(orig@, norm@)),
{
    let ghost v0 = spans_of(*evidence);
    let word: &[u8] = &[117u8, 110, 105, 111, 110];
    assert(word@ == seq![117u8, 110, 105, 111, 110]);
    if scan_words(orig, word, orig, true, evidence) {
        return true;
    }
    let ghost v1 = spans_of(*evidence);
    let r = scan_words(norm, word, orig, false, evidence);
    proof {
        lemma_push_hits_append(v0, orig@, word_hits(orig@, word@, 0, true), word_hits(norm@, word@, 0, false));
    }
    r
}

/// Tautology patterns, first in `orig` then in `norm`.
fn tautology_in(hay: &[u8], orig: &[u8], hay_is_original: bool, evidence: &mut EvidenceSet) -> (r: bool)
    requires
        hay_ok(hay@, orig@, hay_is_original),
        evidence_ok(*old(evidence), orig@),
    ensures
        evidence_ok(*final(evidence), orig@),
        r == has_tautology(hay@),
        spans_of(*final(evidence)) == push_hits(spans_of(*old(evidence)), orig@, first_pattern_hits(hay@, tautology_patterns(), 0, hay_is_original)),
{
    proof {
        reveal_with_fuel(first_pattern_hits, 9);
    }
    find_pattern(hay, &[111u8, 114, 32, 49, 61, 49], orig, hay_is_original, evidence)
        || find_pattern(hay, &[111u8, 114, 32, 39, 49, 39, 61, 39, 49], orig, hay_is_original, evidence)
        || find_pattern(hay, &[111u8, 114, 32, 34, 49, 34, 61, 34, 49], orig, hay_is_original, evidence)
        || find_pattern(hay, &[97u8, 110, 100, 32, 49, 61, 49], orig, hay_is_original, evidence)
        || find_pattern(hay, &[111u8, 114, 32, 116, 114, 117, 101], orig, hay_is_original, evidence)
        || find_pattern(hay, &[97u8, 110, 100, 32, 116, 114, 117, 101], orig, hay_is_original, evidence)
        || find_pattern(hay, &[39u8, 61, 39], orig, hay_is_original, evidence)
        || find_pattern(hay, &[34u8, 61, 34], orig, hay_is_original, evidence)
}

/// Tautologies such as `or 1=1` or `'='`.
pub fn detect_tautology(orig: &[u8], norm: &[u8], evidence: &mut EvidenceSet) -> (r: bool)
    requires
        evidence_ok(*old(evidence), orig@),
    ensures
        evidence_ok(*final(evidence), orig@),
        r == (has_tautology(orig@) || has_tautology(norm@)),
        spans_of(*final(evidence)) == push_hits(spans_of(*old(evidence)), orig@, tautology_hits(orig@, norm@)),
{
    proof {
        lemma_push_hits_append(
            spans_of(*evidence),
            orig@,
            first_pattern_hits(orig@, tautology_patterns(), 0, true),
            first_pattern_hits(norm@, tautology_patterns(), 0, false),
        );
    }
    tautology_in(orig, orig, true, evidence) || tautology_in(norm, orig, false, evidence)
}

/// A quote that closes a string and goes on with SQL (`' or`, `';`, `'--`, ...).
pub fn detect_string_break(orig: &[u8], evidence: &mut EvidenceSet) -> (r: bool)
    requires
        evidence_ok(*old(evidence), orig@),
    ensures
        evidence_ok(*final(evidence), orig@),
        r == has_string_break(orig@),
        spans_of(*final(evidence)) == push_hits(spans_of(*old(evidence)), orig@, first_pattern_hits(orig@, string_break_patterns(), 0, true)),
{
    proof {
        reveal_with_fuel(first_pattern_hits, 9);
    }
    find_pattern(orig, &[39u8, 32, 111, 114], orig, true, evidence)
        || find_pattern(orig, &[34u8, 32, 111, 114], orig, true, evidence)
        || find_pattern(orig, &[39u8, 59], orig, true, evidence)
        || find_pattern(orig, &[34u8, 59, 45, 45], orig, true, evidence)
        || find_pattern(orig, &[39u8, 45, 45], orig, true, evidence)
        || find_pattern(orig, &[34u8, 45, 45], orig, true, evidence)
}

/// Dangerous functions in `hay`.
fn function_in(hay: &[u8], orig: &[u8], hay_is_original: bool, evidence: &mut EvidenceSet) -> (r: bool)
    requires
        hay_ok(hay@, orig@, hay_is_original),
        evidence_ok(*old(evidence), orig@),
    ensures
        evidence_ok(*final(evidence), orig@),
        r == has_function(hay@),
        spans_of(*final(evidence)) == push_hits(spans_of(*old(evidence)), orig@, first_pattern_hits(hay@, function_patterns(), 0, hay_is_original)),
{
    proof {
        reveal_with_fuel(first_pattern_hits, 9);
    }
    find_pattern(hay, &[115u8, 108, 101, 101, 112, 40], orig, hay_is_original, evidence)
        || find_pattern(hay, &[98u8, 101, 110, 99, 104, 109, 97, 114, 107, 40], orig, hay_is_original, evidence)
        || find_pattern(hay, &[108u8, 111, 97, 100, 95, 102, 105, 108, 101, 40], orig, hay_is_original, evidence)
        || find_pattern(hay, &[120u8, 112, 95, 99, 109, 100, 115, 104, 101, 108, 108], orig, hay_is_original, evidence)
        || find_pattern(
            hay,
            &[119u8, 97, 105, 116, 102, 111, 114, 32, 100, 101, 108, 97, 121],
            orig,
            hay_is_original,
            evidence,
        ) || find_pattern(
            hay,
            &[101u8, 120, 116, 114, 97, 99, 116, 118, 97, 108, 117, 101, 40],
            orig,
            hay_is_original,
            evidence,
        ) || find_pattern(hay, &[117u8, 112, 100, 97, 116, 101, 120, 109, 108, 40], orig, hay_is_original, evidence)
        || find_pattern(hay, &[112u8, 103, 95, 115, 108, 101, 101, 112, 40], orig, hay_is_original, evidence)
}

/// Time / file / XML function calls (`sleep(`, `benchmark(`, ...).
pub fn detect_functions(orig: &[u8], norm: &[u8], evidence: &mut EvidenceSet) -> (r: bool)
    requires
        evidence_ok(*old(evidence), orig@),
    ensures
        evidence_ok(*final(evidence), orig@),
        r == (has_function(orig@) || has_function(norm@)),
        spans_of(*final(evidence)) == push_hits(spans_of(*old(evidence)), orig@, function_hits(orig@, norm@)),
{
    proof {
        lemma_push_hits_append(
            spans_of(*evidence),
            orig@,
            first_pattern_hits(orig@, function_patterns(), 0, true),
            first_pattern_hits(norm@, function_patterns(), 0, false),
        );
    }
    function_in(orig, orig, true, evidence) || function_in(norm, orig, false, evidence)
}

/// `and`/`or` followed closely by a comparison, in `hay`.
fn boolean_blind_in(hay: &[u8], orig: &[u8], hay_is_original: bool, evidence: &mut EvidenceSet) -> (r: bool)
    requires
        hay_ok(hay@, orig@, hay_is_original),
        evidence_ok(*old(evidence), orig@),
    ensures
        evidence_ok(*final(evidence), orig@),
        r == has_boolean_blind(hay@),
        spans_of(*final(evidence)) == push_hits(spans_of(*old(evidence)), orig@, blind_hits_in(hay@, hay_is_original)),
{
    let ghost v0 = spans_of(*evidence);
    let and_kw: &[u8] = &[32u8, 97, 110, 100, 32];
    let or_kw: &[u8] = &[32u8, 111, 114, 32];
    assert(and_kw@ == seq![32u8, 97, 110, 100, 32]);
    assert(or_kw@ == seq![32u8, 111, 114, 32]);
    let a = scan_compared(hay, and_kw, orig, hay_is_original, evidence);
    let o = scan_compared(hay, or_kw, orig, hay_is_original, evidence);
    proof {
        lemma_push_hits_append(
            v0,
            orig@,
            compared_hits(hay@, and_kw@, 0, hay_is_original),
            compared_hits(hay@, or_kw@, 0, hay_is_original),
        );
    }
    a || o
}

/// Boolean-blind probes (` and x=`, ` or x like`).
pub fn detect_boolean_blind(orig: &[u8], norm: &[u8], evidence: &mut EvidenceSet) -> (r: bool)
    requires
        evidence_ok(*old(evidence), orig@),
    ensures
        evidence_ok(*final(evidence), orig@),
        r == (has_boolean_blind(orig@) || has_boolean_blind(norm@)),
        spans_of(*final(evidence)) == push_hits(spans_of(*old(evidence)), orig@, blind_hits(orig@, norm@)),
{
    proof {
        lemma_push_hits_append(spans_of(*evidence), orig@, blind_hits_in(orig@, true), blind_hits_in(norm@, false));
    }
    boolean_blind_in(orig, orig, true, evidence) || boolean_blind_in(norm, orig, false, evidence)
}

/// `select ... from`, or `union` together with `select`, in `hay`.
fn keyword_chain_in(hay: &[u8], orig: &[u8], hay_is_original: bool, evidence: &mut EvidenceSet) -> (r: bool)
    requires
        hay_ok(hay@, orig@, hay_is_original),
        evidence_ok(*old(evidence), orig@),
    ensures
        evidence_ok(*final(evidence), orig@),
        r == has_keyword_chain(hay@),
        spans_of(*final(evidence)) == push_hits(spans_of(*old(evidence)), orig@, chain_hits_in(hay@, hay_is_original)),
{
    let select: &[u8] = &[115u8, 101, 108, 101, 99, 116];
    match find_ignore_ascii_case(hay, select) {
        Some(sel) => {
            proof {
                lemma_find_ic_from(hay@, select@, 0);
            }
            assert(select@ == seq![115u8, 101, 108, 101, 99, 116]);
            assert(sel + 6 <= hay@.len());
            assert(hay@.len() == hay.len());
            let tail: &[u8] = &hay[sel + 6..hay.len()];
            if contains_ignore_ascii_case(tail, &[102u8, 114, 111, 109]) {
                proof {
                    lemma_push_one(
                        spans_of(*evidence),
                        orig@,
                        Hit { in_original: hay_is_original, pos: sel as int, len: 6 },
                    );
                }
                push_match_evidence(evidence, orig, hay_is_original, sel, 6);
                return true;
            }
        },
        None => {},
    }
    contains_ignore_ascii_case(hay, &[117u8, 110, 105, 111, 110]) && contains_ignore_ascii_case(
        hay,
        &[115u8, 101, 108, 101, 99, 116],
    )
}

/// Keyword chains (`select ... from`, `union` with `select`).
pub fn detect_keyword_chain(orig: &[u8], norm: &[u8], evidence: &mut EvidenceSet) -> (r: bool)
    requires
        evidence_ok(*old(evidence), orig@),
    ensures
        evidence_ok(*final(evidence), orig@),
        r == (has_keyword_chain(orig@) || has_keyword_chain(norm@)),
        spans_of(*final(evidence)) == push_hits(spans_of(*old(evidence)), orig@, chain_hits(orig@, norm@)),
{
    proof {
        lemma_push_hits_append(spans_of(*evidence), orig@, chain_hits_in(orig@, true), chain_hits_in(norm@, false));
    }
    keyword_chain_in(orig, orig, true, evidence) || keyword_chain_in(norm, orig, false, evidence)
}

/// `verb` may start at `pos`: a whole word outside comments and strings.
pub open spec fn verb_ok(orig: Seq<u8>, toks: Seq<TokenMeta>, pos: int, len: int) -> bool {
    &&& spec_word_boundary_before(orig, pos)
    &&& spec_word_boundary_after(orig, pos, len)
    &&& !spec_token_contains(toks, pos, TokenKind::Comment)
    &&& !in_string(toks, pos)
}

/// The first occurrence of `verb` in `orig[start..]` starts a statement.
pub open spec fn verb_after(orig: Seq<u8>, toks: Seq<TokenMeta>, start: int, verb: Seq<u8>) -> bool {
    &&& 0 <= start <= orig.len()
    &&& spec_find_ic(orig.subrange(start, orig.len() as int), verb) matches Some(rel) && verb_ok(
        orig,
        toks,
        start + rel,
        verb.len() as int,
    )
}

/// A statement verb (`select`, `insert`, `update`, `delete`, `drop`, `create`,
/// `alter`, `exec`) starts a statement after `start`.
pub open spec fn stacked_after(orig: Seq<u8>, toks: Seq<TokenMeta>, start: int) -> bool {
    ||| verb_after(orig, toks, start, seq![115u8, 101, 108, 101, 99, 116])
    ||| verb_after(orig, toks, start, seq![105u8, 110, 115, 101, 114, 116])
    ||| verb_after(orig, toks, start, seq![117u8, 112, 100, 97, 116, 101])
    ||| verb_after(orig, toks, start, seq![100u8, 101, 108, 101, 116, 101])
    ||| verb_after(orig, toks, start, seq![100u8, 114, 111, 112])
    ||| verb_after(orig, toks, start, seq![99u8, 114, 101, 97, 116, 101])
    ||| verb_after(orig, toks, start, seq![97u8, 108, 116, 101, 114])
    ||| verb_after(orig, toks, start, seq![101u8, 120, 101, 99])
}

/// Token `t` is a `;` followed by a new statement.
pub open spec fn stacked_token(orig: Seq<u8>, toks: Seq<TokenMeta>, t: TokenMeta) -> bool {
    t.kind == TokenKind::Semicolon && stacked_after(orig, toks, token_end(t))
}

/// Some stored `;` is followed by a new statement.
pub open spec fn has_stacked(orig: Seq<u8>, toks: Seq<TokenMeta>) -> bool {
    exists|i: int| 0 <= i < toks.len() && #[trigger] stacked_token(orig, toks, toks[i])
}

/// Where the first occurrence of `verb` after `start` lies.
pub open spec fn verb_pos(orig: Seq<u8>, start: int, verb: Seq<u8>) -> int {
    match spec_find_ic(orig.subrange(start, orig.len() as int), verb) {
        Some(rel) => start + rel,
        None => start,
    }
}

/// The statement verb found after `start` (the verbs are tried in order:
/// `select`, `insert`, `update`, `delete`, `drop`, `create`, `alter`,
/// `exec`), as its position and length.
pub open spec fn stacked_pick(orig: Seq<u8>, toks: Seq<TokenMeta>, start: int) -> Option<(int, int)> {
    let select = seq![115u8, 101, 108, 101, 99, 116];
    let insert = seq![105u8, 110, 115, 101, 114, 116];
    let update = seq![117u8, 112, 100, 97, 116, 101];
    let delete = seq![100u8, 101, 108, 101, 116, 101];
    let drop = seq![100u8, 114, 111, 112];
    let create = seq![99u8, 114, 101, 97, 116, 101];
    let alter = seq![97u8, 108, 116, 101, 114];
    let exec = seq![101u8, 120, 101, 99];
    if verb_after(orig, toks, start, select) {
        Some((verb_pos(orig, start, select), 6))
    } else if verb_after(orig, toks, start, insert) {
        Some((verb_pos(orig, start, insert), 6))
    } else if verb_after(orig, toks, start, update) {
        Some((verb_pos(orig, start, update), 6))
    } else if verb_after(orig, toks, start, delete) {
        Some((verb_pos(orig, start, delete), 6))
    } else if verb_after(orig, toks, start, drop) {
        Some((verb_pos(orig, start, drop), 4))
    } else if verb_after(orig, toks, start, create) {
        Some((verb_pos(orig, start, create), 6))
    } else if verb_after(orig, toks, start, alter) {
        Some((verb_pos(orig, start, alter), 5))
    } else if verb_after(orig, toks, start, exec) {
        Some((verb_pos(orig, start, exec), 4))
    } else {
        None
    }
}

/// Index of the first stored `;` token (from `i` on) followed by a statement.
pub open spec fn first_stacked_from(orig: Seq<u8>, toks: Seq<TokenMeta>, i: int) -> Option<int>
    decreases toks.len() - i,
{
    if i < 0 || i >= toks.len() {
        None
    } else if stacked_token(orig, toks, toks[i]) {
        Some(i)
    } else {
        first_stacked_from(orig, toks, i + 1)
    }
}

/// The hit of the stacked-query detector: the verb after the first `;` that
/// starts a statement.
pub open spec fn stacked_hits(orig: Seq<u8>, toks: Seq<TokenMeta>) -> Seq<Hit> {
    match first_stacked_from(orig, toks, 0) {
        Some(i) => match stacked_pick(orig, toks, token_end(toks[i])) {
            Some((p, l)) => seq![Hit { in_original: true, pos: p, len: l }],
            None => seq![],
        },
        None => seq![],
    }
}

/// Position of a statement `verb` after `start`, if [`verb_after`] holds.
fn verb_hit(orig: &[u8], toks: &TokenBuf, start: usize, verb: &[u8]) -> (r: Option<usize>)
    requires
        start <= orig@.len(),
        toks.count <= 8,
    ensures
        r is Some <==> verb_after(orig@, toks.stored(), start as int, verb@),
        r matches Some(p) ==> p <= orig@.len(),
        r matches Some(p) ==> p == verb_pos(orig@, start as int, verb@),
{
    let tail: &[u8] = &orig[start..orig.len()];
    match find_ignore_ascii_case(tail, verb) {
        Some(rel) => {
            proof {
                lemma_find_ic_from(tail@, verb@, 0);
            }
            let pos = start + rel;
            if word_boundary_before(orig, pos) && word_boundary_after(orig, pos, verb.len()) && !token_contains(
                toks,
                pos,
                TokenKind::Comment,
            ) && !inside_string(toks, pos) {
                Some(pos)
            } else {
                None
            }
        },
        None => None,
    }
}

/// The first statement verb found after `start`, as `(position, length)`.
fn stacked_hit(orig: &[u8], toks: &TokenBuf, start: usize) -> (r: Option<(usize, usize)>)
    requires
        start <= orig@.len(),
        toks.count <= 8,
    ensures
        r is Some <==> stacked_after(orig@, toks.stored(), start as int),
        r matches Some(p) ==> p.0 <= orig@.len(),
        r matches Some(p) ==> stacked_pick(orig@, toks.stored(), start as int) == Some((p.0 as int, p.1 as int)),
{
    if let Some(p) = verb_hit(orig, toks, start, &[115u8, 101, 108, 101, 99, 116]) {
        return Some((p, 6));
    }
    if let Some(p) = verb_hit(orig, toks, start, &[105u8, 110, 115, 101, 114, 116]) {
        return Some((p, 6));
    }
    if let Some(p) = verb_hit(orig, toks, start, &[117u8, 112, 100, 97, 116, 101]) {
        return Some((p, 6));
    }
    if let Some(p) = verb_hit(orig, toks, start, &[100u8, 101, 108, 101, 116, 101]) {
        return Some((p, 6));
    }
    if let Some(p) = verb_hit(orig, toks, start, &[100u8, 114, 111, 112]) {
        return Some((p, 4));
    }
    if let Some(p) = verb_hit(orig, toks, start, &[99u8, 114, 101, 97, 116, 101]) {
        return Some((p, 6));
    }
    if let Some(p) = verb_hit(orig, toks, start, &[97u8, 108, 116, 101, 114]) {
        return Some((p, 5));
    }
    if let Some(p) = verb_hit(orig, toks, start, &[101u8, 120, 101, 99]) {
        return Some((p, 4));
    }
    None
}

/// Stacked queries: a `;` token followed by a statement verb.
pub fn detect_stacked(orig: &[u8], toks: &TokenBuf, evidence: &mut EvidenceSet) -> (r: bool)
    requires
        toks.count <= 8,
        evidence_ok(*old(evidence), orig@),
    ensures
        evidence_ok(*final(evidence), orig@),
        r == has_stacked(orig@, toks.stored()),
        spans_of(*final(evidence)) == push_hits(spans_of(*old(evidence)), orig@, stacked_hits(orig@, toks.stored())),
{
    let n = toks.count as usize;
    let mut i: usize = 0;
    while i < n
        invariant
            n == toks.count,
            n <= 8,
            i <= n,
            evidence_ok(*evidence, orig@),
            forall|j: int| 0 <= j < i ==> !#[trigger] stacked_token(orig@, toks.stored(), toks.stored()[j]),
            spans_of(*evidence) == spans_of(*old(evidence)),
            first_stacked_from(orig@, toks.stored(), 0) == first_stacked_from(orig@, toks.stored(), i as int),
        decreases n - i,
    {
        let t = toks.slots[i];
        if t.kind == TokenKind::Semicolon {
            let start = t.offset.saturating_add(t.len) as usize;
            if start <= orig.len() {
                if let Some((pos, len)) = stacked_hit(orig, toks, start) {
                    assert(stacked_token(orig@, toks.stored(), toks.stored()[i as int]));
                    proof {
                        lemma_push_one(spans_of(*evidence), orig@, Hit { in_original: true, pos: pos as int, len: len as int });
                    }
                    push_evidence(evidence, orig, pos, len);
                    return true;
                }
            }
        }
        i += 1;
    }
    false
}

/// Length of the comment marker (`#`, `--` not followed by a non-space, `/*`)
/// at `orig[off..]`, or `0` when none stands there.
pub open spec fn comment_marker_len(orig: Seq<u8>, off: int) -> int {
    if off < 0 || off >= orig.len() {
        0
    } else if orig[off] == 35 {
        1
    } else if off + 1 < orig.len() && orig[off] == 45 && orig[off + 1] == 45 {
        if off + 2 < orig.len() && !spec_is_space(orig[off + 2]) {
            0
        } else {
            2
        }
    } else if off + 1 < orig.len() && orig[off] == 47 && orig[off + 1] == 42 {
        2
    } else {
        0
    }
}

/// Index of the first stored comment token (from `i` on) with a comment marker.
pub open spec fn first_comment_from(orig: Seq<u8>, toks: Seq<TokenMeta>, i: int) -> Option<int>
    decreases toks.len() - i,
{
    if i < 0 || i >= toks.len() {
        None
    } else if toks[i].kind == TokenKind::Comment && comment_marker_len(orig, toks[i].offset as int) > 0 {
        Some(i)
    } else {
        first_comment_from(orig, toks, i + 1)
    }
}

/// The hit of the comment detector: the marker of the first comment with one.
pub open spec fn comment_hits(orig: Seq<u8>, toks: Seq<TokenMeta>) -> Seq<Hit> {
    match first_comment_from(orig, toks, 0) {
        Some(i) => seq![Hit {
            in_original: true,
            pos: toks[i].offset as int,
            len: comment_marker_len(orig, toks[i].offset as int),
        }],
        None => seq![],
    }
}

/// A comment token opens with a comment marker.
pub open spec fn has_comment_injection(orig: Seq<u8>, toks: Seq<TokenMeta>) -> bool {
    first_comment_from(orig, toks, 0) is Some
}

/// The first such comment is a `MySQL` versioned comment (`/*!`).
pub open spec fn has_versioned_comment(orig: Seq<u8>, toks: Seq<TokenMeta>) -> bool {
    first_comment_from(orig, toks, 0) matches Some(i) && {
        let off = toks[i].offset as int;
        off + 2 < orig.len() && orig[off] == 47 && orig[off + 1] == 42 && orig[off + 2] == 33
    }
}

/// Length of the comment marker at `orig[off..]` (`0` when none).
fn comment_marker(orig: &[u8], off: usize) -> (r: usize)
    ensures
        r == comment_marker_len(orig@, off as int),
{
    let n = orig.len();
    if off >= n {
        return 0;
    }
    if orig[off] == 35 {
        return 1;
    }
    if off + 1 < n && orig[off] == 45 && orig[off + 1] == 45 {
        if off + 2 < n && !is_space(orig[off + 2]) {
            return 0;
        }
        return 2;
    }
    if off + 1 < n && orig[off] == 47 && orig[off + 1] == 42 {
        return 2;
    }
    0
}

/// Comment injection: the first comment token with a marker; the second
/// result tells whether it is a `MySQL` versioned comment.
pub fn detect_comments(orig: &[u8], toks: &TokenBuf, evidence: &mut EvidenceSet) -> (r: (bool, bool))
    requires
        toks.count <= 8,
        evidence_ok(*old(evidence), orig@),
    ensures
        evidence_ok(*final(evidence), orig@),
        r.0 == has_comment_injection(orig@, toks.stored()),
        r.1 == has_versioned_comment(orig@, toks.stored()),
        spans_of(*final(evidence)) == push_hits(spans_of(*old(evidence)), orig@, comment_hits(orig@, toks.stored())),
{
    let n = toks.count as usize;
    let mut i: usize = 0;
    while i < n
        invariant
            n == toks.count,
            n <= 8,
            i <= n,
            evidence_ok(*evidence, orig@),
            first_comment_from(orig@, toks.stored(), 0) == first_comment_from(orig@, toks.stored(), i as int),
            spans_of(*evidence) == spans_of(*old(evidence)),
        decreases n - i,
    {
        let t = toks.slots[i];
        let pos = t.offset as usize;
        if t.kind == TokenKind::Comment {
            let marker = comment_marker(orig, pos);
            if marker > 0 {
                proof {
                    lemma_push_one(spans_of(*evidence), orig@, Hit { in_original: true, pos: pos as int, len: marker as int });
                }
                push_evidence(evidence, orig, pos, marker);
                let versioned = pos + 2 < orig.len() && orig[pos] == 47 && orig[pos + 1] == 42 && orig[pos
                    + 2] == 33;
                return (true, versioned);
            }
        }
        i += 1;
    }
    (false, false)
}

/// `needle` occurs at `pos` outside strings, with the word boundaries asked for.
pub open spec fn hit_at(hay: Seq<u8>, toks: Seq<TokenMeta>, pos: int, needle: Seq<u8>, before: bool, after: bool) -> bool {
    &&& matches_ic_at(hay, pos, needle)
    &&& before ==> spec_word_boundary_before(hay, pos)
    &&& after ==> spec_word_boundary_after(hay, pos, needle.len() as int)
    &&& !in_string(toks, pos)
}

/// Some [`hit_at`] position exists.
pub open spec fn has_hit(hay: Seq<u8>, toks: Seq<TokenMeta>, needle: Seq<u8>, before: bool, after: bool) -> bool {
    exists|pos: int| #[trigger] hit_at(hay, toks, pos, needle, before, after)
}

/// The first [`hit_at`] position at or after `from`.
pub open spec fn first_hit_from(
    hay: Seq<u8>,
    toks: Seq<TokenMeta>,
    needle: Seq<u8>,
    before: bool,
    after: bool,
    from: int,
) -> Option<int>
    decreases hay.len() - from,
{
    if from < 0 {
        None
    } else {
        match find_ic_from(hay, needle, from) {
            None => None,
            Some(k) => {
                proof {
                    lemma_find_ic_from(hay, needle, from);
                }
                if hit_at(hay, toks, k, needle, before, after) {
                    Some(k)
                } else {
                    first_hit_from(hay, toks, needle, before, after, k + 1)
                }
            },
        }
    }
}

/// First occurrence of `needle` outside strings, with the word boundaries asked for.
pub fn find_outside(hay: &[u8], toks: &TokenBuf, needle: &[u8], before: bool, after: bool) -> (r: Option<usize>)
    requires
        needle@.len() > 0,
        toks.count <= 8,
    ensures
        r is Some <==> has_hit(hay@, toks.stored(), needle@, before, after),
        r matches Some(p) ==> hit_at(hay@, toks.stored(), p as int, needle@, before, after),
        r matches Some(p) ==> first_hit_from(hay@, toks.stored(), needle@, before, after, 0) == Some(p as int),
        r is None ==> first_hit_from(hay@, toks.stored(), needle@, before, after, 0) is None,
{
    let n = hay.len();
    let mut offset: usize = 0;
    loop
        invariant
            n == hay@.len(),
            needle@.len() > 0,
            toks.count <= 8,
            offset <= hay@.len(),
            forall|j: int| 0 <= j < offset ==> !#[trigger] hit_at(hay@, toks.stored(), j, needle@, before, after),
            first_hit_from(hay@, toks.stored(), needle@, before, after, 0) == first_hit_from(
                hay@,
                toks.stored(),
                needle@,
                before,
                after,
                offset as int,
            ),
        decreases hay@.len() - offset,
    {
        proof {
            lemma_find_ic_from(hay@, needle@, offset as int);
        }
        match find_ignore_ascii_case_from(hay, needle, offset) {
            None => {
                assert forall|j: int| !#[trigger] hit_at(hay@, toks.stored(), j, needle@, before, after) by {}
                return None;
            },
            Some(pos) => {
                assert(pos + needle@.len() <= hay@.len());
                assert(forall|j: int|
                    offset <= j < pos ==> !#[trigger] hit_at(hay@, toks.stored(), j, needle@, before, after));
                if (!before || word_boundary_before(hay, pos)) && (!after || word_boundary_after(
                    hay,
                    pos,
                    needle.len(),
                )) && !inside_string(toks, pos) {
                    assert(hit_at(hay@, toks.stored(), pos as int, needle@, before, after));
                    return Some(pos);
                }
                offset = pos + 1;
            },
        }
    }
}

/// `[` outside strings with a `]` somewhere after it.
pub open spec fn bracket_at(hay: Seq<u8>, toks: Seq<TokenMeta>, pos: int) -> bool {
    &&& 0 <= pos < hay.len()
    &&& hay[pos] == 91
    &&& !in_string(toks, pos)
    &&& hay.subrange(pos + 1, hay.len() as int).contains(93u8)
}

/// Some [`bracket_at`] position exists.
pub open spec fn has_bracket(hay: Seq<u8>, toks: Seq<TokenMeta>) -> bool {
    exists|pos: int| #[trigger] bracket_at(hay, toks, pos)
}

/// The first [`bracket_at`] position at or after `from`.
pub open spec fn first_bracket_from(hay: Seq<u8>, toks: Seq<TokenMeta>, from: int) -> Option<int>
    decreases hay.len() - from,
{
    if from < 0 || from >= hay.len() {
        None
    } else if bracket_at(hay, toks, from) {
        Some(from)
    } else {
        first_bracket_from(hay, toks, from + 1)
    }
}

/// Length of `hay[start..]` up to and including its first `]` at or after
/// `i` (`1` when there is none).
pub open spec fn bracket_span_from(hay: Seq<u8>, start: int, i: int) -> int
    decreases hay.len() - i,
{
    if i < 0 || i >= hay.len() {
        1
    } else if hay[i] == 93 {
        i - start + 1
    } else {
        bracket_span_from(hay, start, i + 1)
    }
}

/// First `[ ... ]` identifier outside strings.
pub fn find_bracket_identifier(hay: &[u8], toks: &TokenBuf) -> (r: Option<usize>)
    requires
        toks.count <= 8,
    ensures
        r is Some <==> has_bracket(hay@, toks.stored()),
        r matches Some(p) ==> bracket_at(hay@, toks.stored(), p as int),
        r matches Some(p) ==> first_bracket_from(hay@, toks.stored(), 0) == Some(p as int),
        r is None ==> first_bracket_from(hay@, toks.stored(), 0) is None,
{
    let n = hay.len();
    let mut pos: usize = 0;
    while pos < n
        invariant
            n == hay@.len(),
            toks.count <= 8,
            pos <= n,
            forall|j: int| 0 <= j < pos ==> !#[trigger] bracket_at(hay@, toks.stored(), j),
            first_bracket_from(hay@, toks.stored(), 0) == first_bracket_from(hay@, toks.stored(), pos as int),
        decreases n - pos,
    {
        if hay[pos] == 91 && !inside_string(toks, pos) {
            let tail: &[u8] = &hay[pos + 1..n];
            if contains_byte(tail, 93u8) {
                assert(tail@ =~= hay@.subrange(pos + 1, hay@.len() as int));
                assert(bracket_at(hay@, toks.stored(), pos as int));
                return Some(pos);
            }
            assert(tail@ =~= hay@.subrange(pos + 1, hay@.len() as int));
        }
        pos += 1;
    }
    assert forall|j: int| !#[trigger] bracket_at(hay@, toks.stored(), j) by {}
    None
}

/// Length of `hay[start..]` up to and including its first `]` (`1` when none).
fn bracket_len(hay: &[u8], start: usize) -> (r: usize)
    requires
        start <= hay@.len(),
    ensures
        r == bracket_span_from(hay@, start as int, start as int),
{
    let mut i = start;
    while i < hay.len()
        invariant
            start <= i <= hay@.len(),
            bracket_span_from(hay@, start as int, start as int) == bracket_span_from(hay@, start as int, i as int),
        decreases hay@.len() - i,
    {
        if hay[i] == 93 {
            return i - start + 1;
        }
        i += 1;
    }
    1
}

/// Dialect hints found in the input.
pub struct DialectHits {
    /// A backtick outside strings (`MySQL`).
    pub backtick: bool,
    /// A `#` outside strings (`MySQL`).
    pub hash: bool,
    /// A `[ ... ]` identifier outside strings (MSSQL).
    pub bracket: bool,
    /// The word `exec` outside strings (MSSQL).
    pub exec_word: bool,
    /// The word `dual` outside strings (Oracle).
    pub dual: bool,
    /// A `q'` quote outside strings (Oracle).
    pub q_quote: bool,
}

/// The dialect hints of `orig`.
pub open spec fn spec_dialect_hits(orig: Seq<u8>, toks: Seq<TokenMeta>) -> DialectHits {
    let dual = has_hit(orig, toks, seq![100u8, 117, 97, 108], true, true);
    DialectHits {
        backtick: has_hit(orig, toks, seq![96u8], false, false),
        hash: has_hit(orig, toks, seq![35u8], false, false),
        bracket: has_bracket(orig, toks),
        exec_word: has_hit(orig, toks, seq![101u8, 120, 101, 99], true, true),
        dual,
        q_quote: !dual && has_hit(orig, toks, seq![113u8, 39], true, false),
    }
}

/// The dialect named by the hints (the last kind found wins: Oracle, then
/// MSSQL, then `MySQL`; ANSI when none).
pub open spec fn dialect_of(h: DialectHits) -> SqlDialect {
    if h.dual || h.q_quote {
        SqlDialect::Oracle
    } else if h.bracket || h.exec_word {
        SqlDialect::Mssql
    } else if h.backtick || h.hash {
        SqlDialect::Mysql
    } else {
        SqlDialect::Ansi
    }
}

/// The hits of the dialect detector: the first `[ident]`, the first `exec`,
/// and the first `dual` or, when there is none, the first `q'` quote.
pub open spec fn dialect_hits(orig: Seq<u8>, toks: Seq<TokenMeta>) -> Seq<Hit> {
    let bracket = match first_bracket_from(orig, toks, 0) {
        Some(p) => seq![Hit { in_original: true, pos: p, len: bracket_span_from(orig, p, p) }],
        None => seq![],
    };
    let exec = match first_hit_from(orig, toks, seq![101u8, 120, 101, 99], true, true, 0) {
        Some(p) => seq![Hit { in_original: true, pos: p, len: 4 }],
        None => seq![],
    };
    let oracle = match first_hit_from(orig, toks, seq![100u8, 117, 97, 108], true, true, 0) {
        Some(p) => seq![Hit { in_original: true, pos: p, len: 4 }],
        None => match first_hit_from(orig, toks, seq![113u8, 39], true, false, 0) {
            Some(p) => seq![Hit { in_original: true, pos: p, len: 2 }],
            None => seq![],
        },
    };
    bracket + exec + oracle
}

/// Dialect markers: backticks and `#` (`MySQL`), `[ident]` and `exec` (MSSQL),
/// `dual` and `q'` quotes (Oracle), all outside strings.
pub fn detect_dialect(orig: &[u8], toks: &TokenBuf, evidence: &mut EvidenceSet) -> (r: DialectHits)
    requires
        toks.count <= 8,
        evidence_ok(*old(evidence), orig@),
    ensures
        evidence_ok(*final(evidence), orig@),
        r == spec_dialect_hits(orig@, toks.stored()),
        spans_of(*final(evidence)) == push_hits(spans_of(*old(evidence)), orig@, dialect_hits(orig@, toks.stored())),
{
    let ghost v0 = spans_of(*evidence);
    let ghost ts = toks.stored();
    let tick: &[u8] = &[96u8];
    let hash_mark: &[u8] = &[35u8];
    let exec_kw: &[u8] = &[101u8, 120, 101, 99];
    let dual_kw: &[u8] = &[100u8, 117, 97, 108];
    let q_open: &[u8] = &[113u8, 39];
    assert(tick@ == seq![96u8]);
    assert(hash_mark@ == seq![35u8]);
    assert(exec_kw@ == seq![101u8, 120, 101, 99]);
    assert(dual_kw@ == seq![100u8, 117, 97, 108]);
    assert(q_open@ == seq![113u8, 39]);
    let backtick = find_outside(orig, toks, tick, false, false).is_some();
    let hash = find_outside(orig, toks, hash_mark, false, false).is_some();
    let ghost hb = match first_bracket_from(orig@, ts, 0) {
        Some(p) => seq![Hit { in_original: true, pos: p, len: bracket_span_from(orig@, p, p) }],
        None => seq![],
    };
    let ghost he = match first_hit_from(orig@, ts, seq![101u8, 120, 101, 99], true, true, 0) {
        Some(p) => seq![Hit { in_original: true, pos: p, len: 4 }],
        None => seq![],
    };
    let ghost ho = match first_hit_from(orig@, ts, seq![100u8, 117, 97, 108], true, true, 0) {
        Some(p) => seq![Hit { in_original: true, pos: p, len: 4 }],
        None => match first_hit_from(orig@, ts, seq![113u8, 39], true, false, 0) {
            Some(p) => seq![Hit { in_original: true, pos: p, len: 2 }],
            None => seq![],
        },
    };
    let bracket = match find_bracket_identifier(orig, toks) {
        Some(pos) => {
            let len = bracket_len(orig, pos);
            proof {
                lemma_push_one(spans_of(*evidence), orig@, Hit { in_original: true, pos: pos as int, len: len as int });
            }
            push_evidence(evidence, orig, pos, len);
            true
        },
        None => false,
    };
    assert(spans_of(*evidence) == push_hits(v0, orig@, hb));
    let ghost v1 = spans_of(*evidence);
    let exec_word = match find_outside(orig, toks, exec_kw, true, true) {
        Some(pos) => {
            assert(matches_ic_at(orig@, pos as int, exec_kw@));
            proof {
                lemma_push_one(spans_of(*evidence), orig@, Hit { in_original: true, pos: pos as int, len: 4 });
            }
            push_evidence(evidence, orig, pos, 4);
            true
        },
        None => false,
    };
    assert(spans_of(*evidence) == push_hits(v1, orig@, he));
    let ghost v2 = spans_of(*evidence);
    let mut q_quote = false;
    let dual = match find_outside(orig, toks, dual_kw, true, true) {
        Some(pos) => {
            assert(matches_ic_at(orig@, pos as int, dual_kw@));
            proof {
                lemma_push_one(spans_of(*evidence), orig@, Hit { in_original: true, pos: pos as int, len: 4 });
            }
            push_evidence(evidence, orig, pos, 4);
            true
        },
        None => {
            match find_outside(orig, toks, q_open, true, false) {
                Some(pos) => {
                    assert(matches_ic_at(orig@, pos as int, q_open@));
                    proof {
                        lemma_push_one(spans_of(*evidence), orig@, Hit { in_original: true, pos: pos as int, len: 2 });
                    }
                    push_evidence(evidence, orig, pos, 2);
                    q_quote = true;
                },
                None => {},
            }
            false
        },
    };
    assert(spans_of(*evidence) == push_hits(v2, orig@, ho));
    proof {
        lemma_push_hits_append(v0, orig@, hb, he);
        lemma_push_hits_append(v0, orig@, hb + he, ho);
    }
    DialectHits { backtick, hash, bracket, exec_word, dual, q_quote }
}

/// The quote context suggested by the first quote kind present.
pub open spec fn spec_quote_mode(orig: Seq<u8>) -> SqliQuoteMode {
    if orig.contains(39u8) {
        SqliQuoteMode::Single
    } else if orig.contains(34u8) {
        SqliQuoteMode::Double
    } else if orig.contains(96u8) {
        SqliQuoteMode::Backtick
    } else {
        SqliQuoteMode::Unquoted
    }
}

/// Best-effort quote mode: `'`, else `"`, else a backtick, else unquoted.
pub fn infer_quote_mode(orig: &[u8]) -> (r: SqliQuoteMode)
    ensures
        r == spec_quote_mode(orig@),
{
    if contains_byte(orig, 39u8) {
        SqliQuoteMode::Single
    } else if contains_byte(orig, 34u8) {
        SqliQuoteMode::Double
    } else if contains_byte(orig, 96u8) {
        SqliQuoteMode::Backtick
    } else {
        SqliQuoteMode::Unquoted
    }
}

/// The construct bits that the detectors set for `orig`, its normalization
/// `norm` and its stored tokens `toks`.
pub open spec fn spec_sqli_constructs(orig: Seq<u8>, norm: Seq<u8>, toks: Seq<TokenMeta>) -> u32 {
    let h = spec_dialect_hits(orig, toks);
    let union = seq![117u8, 110, 105, 111, 110];
    construct_bit(has_word(orig, union) || has_word(norm, union), ConstructFlags::SQL_UNION) | construct_bit(
        has_tautology(orig) || has_tautology(norm),
        ConstructFlags::SQL_TAUTOLOGY,
    ) | construct_bit(has_string_break(orig), ConstructFlags::SQL_STRING_BREAK) | construct_bit(
        has_stacked(orig, toks),
        ConstructFlags::SQL_STACKED_QUERY,
    ) | construct_bit(has_comment_injection(orig, toks), ConstructFlags::SQL_COMMENT_INJECTION) | construct_bit(
        has_function(orig) || has_function(norm),
        ConstructFlags::SQL_FUNCTION_CALL,
    ) | construct_bit(has_boolean_blind(orig) || has_boolean_blind(norm), ConstructFlags::SQL_BOOLEAN_BLIND) | construct_bit(
        has_keyword_chain(orig) || has_keyword_chain(norm),
        ConstructFlags::SQL_KEYWORD_CHAIN,
    ) | construct_bit(
        has_versioned_comment(orig, toks) || h.backtick || h.hash,
        ConstructFlags::SQL_DIALECT_MYSQL,
    ) | construct_bit(h.bracket || h.exec_word, ConstructFlags::SQL_DIALECT_MSSQL) | construct_bit(
        h.dual || h.q_quote,
        ConstructFlags::SQL_DIALECT_ORACLE,
    )
}

/// Classification output for one `SQLi` pass.
#[derive(Clone, Copy)]
pub struct SqliClassifyResult {
    /// Matched construct bits.
    pub constructs: ConstructFlags,
    /// Evidence spans (offsets into the original input).
    pub evidence: EvidenceSet,
    /// Best-effort quote mode.
    pub quote_mode: SqliQuoteMode,
    /// Best-effort dialect hint.
    pub dialect: SqlDialect,
}

/// The matches that the `SQLi` detectors record, in the order they run.
pub open spec fn sqli_hits(orig: Seq<u8>, norm: Seq<u8>, toks: Seq<TokenMeta>) -> Seq<Hit> {
    union_hits(orig, norm) + tautology_hits(orig, norm) + first_pattern_hits(orig, string_break_patterns(), 0, true)
        + stacked_hits(orig, toks) + comment_hits(orig, toks) + function_hits(orig, norm) + blind_hits(orig, norm)
        + chain_hits(orig, norm) + dialect_hits(orig, toks)
}

/// Run all `SQLi` construct detectors over `orig`, its normalization `norm`
/// and its tokens.
pub fn classify(orig: &[u8], norm: &[u8], toks: &TokenBuf) -> (r: SqliClassifyResult)
    requires
        toks.count <= 8,
    ensures
        r.constructs.0 == spec_sqli_constructs(orig@, norm@, toks.stored()),
        evidence_ok(r.evidence, orig@),
        r.quote_mode == spec_quote_mode(orig@),
        r.dialect == dialect_of(spec_dialect_hits(orig@, toks.stored())),
        spans_of(r.evidence) == push_hits(seq![], orig@, sqli_hits(orig@, norm@, toks.stored())),
{
    let mut evidence = EvidenceSet::empty();
    let ghost o = orig@;
    let ghost n = norm@;
    let ghost t = toks.stored();
    let ghost e0 = spans_of(evidence);
    assert(e0 =~= seq![]);
    let union = detect_union(orig, norm, &mut evidence);
    let tautology = detect_tautology(orig, norm, &mut evidence);
    let string_break = detect_string_break(orig, &mut evidence);
    let stacked = detect_stacked(orig, toks, &mut evidence);
    let (comment, versioned) = detect_comments(orig, toks, &mut evidence);
    let function = detect_functions(orig, norm, &mut evidence);
    let blind = detect_boolean_blind(orig, norm, &mut evidence);
    let chain = detect_keyword_chain(orig, norm, &mut evidence);
    let h = detect_dialect(orig, toks, &mut evidence);
    proof {
        let l1 = union_hits(o, n);
        let l2 = tautology_hits(o, n);
        let l3 = first_pattern_hits(o, string_break_patterns(), 0, true);
        let l4 = stacked_hits(o, t);
        let l5 = comment_hits(o, t);
        let l6 = function_hits(o, n);
        let l7 = blind_hits(o, n);
        let l8 = chain_hits(o, n);
        let l9 = dialect_hits(o, t);
        lemma_push_hits_append(e0, o, l1, l2);
        lemma_push_hits_append(e0, o, l1 + l2, l3);
        lemma_push_hits_append(e0, o, l1 + l2 + l3, l4);
        lemma_push_hits_append(e0, o, l1 + l2 + l3 + l4, l5);
        lemma_push_hits_append(e0, o, l1 + l2 + l3 + l4 + l5, l6);
        lemma_push_hits_append(e0, o, l1 + l2 + l3 + l4 + l5 + l6, l7);
        lemma_push_hits_append(e0, o, l1 + l2 + l3 + l4 + l5 + l6 + l7, l8);
        lemma_push_hits_append(e0, o, l1 + l2 + l3 + l4 + l5 + l6 + l7 + l8, l9);
    }
    let dialect = if h.dual || h.q_quote {
        SqlDialect::Oracle
    } else if h.bracket || h.exec_word {
        SqlDialect::Mssql
    } else if h.backtick || h.hash {
        SqlDialect::Mysql
    } else {
        SqlDialect::Ansi
    };
    let bits = construct_bit_if(union, ConstructFlags::SQL_UNION) | construct_bit_if(tautology, ConstructFlags::SQL_TAUTOLOGY)
        | construct_bit_if(string_break, ConstructFlags::SQL_STRING_BREAK) | construct_bit_if(
        stacked,
        ConstructFlags::SQL_STACKED_QUERY,
    ) | construct_bit_if(comment, ConstructFlags::SQL_COMMENT_INJECTION) | construct_bit_if(
        function,
        ConstructFlags::SQL_FUNCTION_CALL,
    ) | construct_bit_if(blind, ConstructFlags::SQL_BOOLEAN_BLIND) | construct_bit_if(chain, ConstructFlags::SQL_KEYWORD_CHAIN)
        | construct_bit_if(versioned || h.backtick || h.hash, ConstructFlags::SQL_DIALECT_MYSQL) | construct_bit_if(
        h.bracket || h.exec_word,
        ConstructFlags::SQL_DIALECT_MSSQL,
    ) | construct_bit_if(h.dual || h.q_quote, ConstructFlags::SQL_DIALECT_ORACLE);
    SqliClassifyResult {
        constructs: ConstructFlags(bits),
        evidence,
        quote_mode: infer_quote_mode(orig),
        dialect,
    }
}

} // verus!
