//! Stage-1 XSS construct classifiers.
use vstd::prelude::*;
use crate::engine::ascii::{
    contains_byte, contains_ic, contains_ignore_ascii_case, find_ic_from, find_ignore_ascii_case,
    find_ignore_ascii_case_from, is_space, lemma_find_ic_contains, lemma_find_ic_from, matches_ic_at, spec_find_ic, spec_is_space, spec_word_boundary_after,
    spec_word_boundary_before, word_boundary_after, word_boundary_before,
};
use crate::engine::evidence::{
    evidence_ok, hay_ok, lemma_push_hits_append, lemma_push_one, or_else_hits, pattern_hits, push_hits,
    push_match_evidence, spans_of, Hit,
};
use crate::snapshot::{construct_bit, construct_bit_if, ConstructFlags, EvidenceSet, XssHtmlContext};
use crate::xss::legacy::{detect, legacy_xss};

verus! {

/// First index at or after `p` that is not ASCII whitespace.
pub open spec fn skip_spaces(hay: Seq<u8>, p: int) -> int
    decreases hay.len() - p,
{
    if p < 0 || p >= hay.len() || !spec_is_space(hay[p]) {
        p
    } else {
        skip_spaces(hay, p + 1)
    }
}

/// An `=` follows position `p`, after optional whitespace.
pub open spec fn assignment_at(hay: Seq<u8>, p: int) -> bool {
    let q = skip_spaces(hay, p);
    0 <= q < hay.len() && hay[q] == 61
}

/// How a match of a needle is confirmed.
#[derive(Clone, Copy, PartialEq, Eq, Structural)]
pub enum MatchRule {
    /// A tag opener (`<name`): the name ends at a word boundary.
    Tag,
    /// An event attribute: a word start, then `=` after optional whitespace.
    Event,
}

/// `needle` occurs at `pos` and `rule` confirms it.
pub open spec fn confirmed_at(hay: Seq<u8>, pos: int, needle: Seq<u8>, rule: MatchRule) -> bool {
    &&& matches_ic_at(hay, pos, needle)
    &&& match rule {
        MatchRule::Tag => spec_word_boundary_after(hay, pos + 1, needle.len() - 1),
        MatchRule::Event => spec_word_boundary_before(hay, pos) && assignment_at(hay, pos + needle.len()),
    }
}

/// Some occurrence of `needle` in `hay` is confirmed by `rule`.
pub open spec fn has_confirmed(hay: Seq<u8>, needle: Seq<u8>, rule: MatchRule) -> bool {
    exists|pos: int| #[trigger] confirmed_at(hay, pos, needle, rule)
}

/// The occurrences of `needle` that `rule` confirms, from `from` on, in
/// order, as hits (`o`: `hay` is the original input).
pub open spec fn confirmed_hits(hay: Seq<u8>, needle: Seq<u8>, rule: MatchRule, from: int, o: bool) -> Seq<Hit>
    decreases hay.len() - from,
{
    if from < 0 {
        seq![]
    } else {
        match find_ic_from(hay, needle, from) {
            None => seq![],
            Some(k) => {
                proof {
                    lemma_find_ic_from(hay, needle, from);
                }
                let here = if confirmed_at(hay, k, needle, rule) {
                    seq![Hit { in_original: o, pos: k, len: needle.len() as int }]
                } else {
                    seq![]
                };
                here + confirmed_hits(hay, needle, rule, k + 1, o)
            },
        }
    }
}

/// An `=` follows `hay[p..]` after optional whitespace.
pub fn attr_assignment_after(hay: &[u8], p: usize) -> (r: bool)
    ensures
        r == assignment_at(hay@, p as int),
{
    let mut q = p;
    while q < hay.len() && is_space(hay[q])
        invariant
            p <= q,
            skip_spaces(hay@, p as int) == skip_spaces(hay@, q as int),
        decreases hay@.len() - q,
    {
        q += 1;
    }
    q < hay.len() && hay[q] == 61
}

/// Every occurrence of `needle` that `rule` confirms; records each when
/// `record` is set, else stops at the first. `true` when there was one.
pub fn scan_confirmed(
    hay: &[u8],
    needle: &[u8],
    rule: MatchRule,
    record: bool,
    original: &[u8],
    hay_is_original: bool,
    evidence: &mut EvidenceSet,
) -> (r: bool)
    requires
        needle@.len() > 0,
        hay_ok(hay@, original@, hay_is_original),
        evidence_ok(*old(evidence), original@),
    ensures
        evidence_ok(*final(evidence), original@),
        r == has_confirmed(hay@, needle@, rule),
        spans_of(*final(evidence)) == if record {
            push_hits(spans_of(*old(evidence)), original@, confirmed_hits(hay@, needle@, rule, 0, hay_is_original))
        } else {
            spans_of(*old(evidence))
        },
{
    let n = hay.len();
    let mut pos: usize = 0;
    let mut hit = false;
    let ghost goal = if record {
        push_hits(spans_of(*evidence), original@, confirmed_hits(hay@, needle@, rule, 0, hay_is_original))
    } else {
        spans_of(*evidence)
    };
    loop
        invariant_except_break
            hit <==> exists|j: int| 0 <= j < pos && #[trigger] confirmed_at(hay@, j, needle@, rule),
            forall|j: int| 0 <= j < pos && #[trigger] confirmed_at(hay@, j, needle@, rule) ==> hit,
            record ==> goal == push_hits(
                spans_of(*evidence),
                original@,
                confirmed_hits(hay@, needle@, rule, pos as int, hay_is_original),
            ),
        invariant
            !record ==> goal == spans_of(*evidence),
            n == hay@.len(),
            needle@.len() > 0,
            hay_ok(hay@, original@, hay_is_original),
            evidence_ok(*evidence, original@),
            pos <= hay@.len(),
        ensures
            evidence_ok(*evidence, original@),
            hit == has_confirmed(hay@, needle@, rule),
            goal == spans_of(*evidence),
        decreases hay@.len() - pos,
    {
        proof {
            lemma_find_ic_from(hay@, needle@, pos as int);
        }
        match find_ignore_ascii_case_from(hay, needle, pos) {
            None => {
                assert forall|j: int| #[trigger] confirmed_at(hay@, j, needle@, rule) implies j < pos by {}
                break;
            },
            Some(k) => {
                assert(k + needle@.len() <= hay@.len());
                assert(forall|j: int| pos <= j < k ==> !#[trigger] confirmed_at(hay@, j, needle@, rule));
                let ok = match rule {
                    MatchRule::Tag => word_boundary_after(hay, k + 1, needle.len() - 1),
                    MatchRule::Event => word_boundary_before(hay, k) && attr_assignment_after(hay, k + needle.len()),
                };
                let ghost h = Hit { in_original: hay_is_original, pos: k as int, len: needle@.len() as int };
                let ghost rest = confirmed_hits(hay@, needle@, rule, k + 1, hay_is_original);
                let ghost before = spans_of(*evidence);
                if ok {
                    assert(confirmed_at(hay@, k as int, needle@, rule));
                    hit = true;
                    if record {
                        push_match_evidence(evidence, original, hay_is_original, k, needle.len());
                        proof {
                            lemma_push_hits_append(before, original@, seq![h], rest);
                            lemma_push_one(before, original@, h);
                        }
                    } else {
                        assert(has_confirmed(hay@, needle@, rule));
                        break;
                    }
                } else {
                    proof {
                        assert(seq![] + rest =~= rest);
                    }
                }
                pos = k + 1;
            },
        }
    }
    hit
}

/// One of the event attributes (`onerror`, `onload`, `onclick`, `onmouseover`,
/// `onfocus`, `onblur`, `onchange`, `onsubmit`) is assigned in `hay`.
pub open spec fn has_event_handler(hay: Seq<u8>) -> bool {
    ||| has_confirmed(hay, seq![111u8, 110, 101, 114, 114, 111, 114], MatchRule::Event)
    ||| has_confirmed(hay, seq![111u8, 110, 108, 111, 97, 100], MatchRule::Event)
    ||| has_confirmed(hay, seq![111u8, 110, 99, 108, 105, 99, 107], MatchRule::Event)
    ||| has_confirmed(hay, seq![111u8, 110, 109, 111, 117, 115, 101, 111, 118, 101, 114], MatchRule::Event)
    ||| has_confirmed(hay, seq![111u8, 110, 102, 111, 99, 117, 115], MatchRule::Event)
    ||| has_confirmed(hay, seq![111u8, 110, 98, 108, 117, 114], MatchRule::Event)
    ||| has_confirmed(hay, seq![111u8, 110, 99, 104, 97, 110, 103, 101], MatchRule::Event)
    ||| has_confirmed(hay, seq![111u8, 110, 115, 117, 98, 109, 105, 116], MatchRule::Event)
}

/// The first occurrence of `needle` in `hay` starts a word.
pub open spec fn first_at_word(hay: Seq<u8>, needle: Seq<u8>) -> bool {
    spec_find_ic(hay, needle) matches Some(p) && spec_word_boundary_before(hay, p)
}

/// A `javascript:` URL starts a word in `hay`.
pub open spec fn has_javascript_url(hay: Seq<u8>) -> bool {
    first_at_word(hay, seq![106u8, 97, 118, 97, 115, 99, 114, 105, 112, 116, 58])
}

/// A `data:text/html` or `data:` URL starts a word in `hay`.
pub open spec fn has_data_url(hay: Seq<u8>) -> bool {
    first_at_word(hay, seq![100u8, 97, 116, 97, 58, 116, 101, 120, 116, 47, 104, 116, 109, 108]) || first_at_word(
        hay,
        seq![100u8, 97, 116, 97, 58],
    )
}

/// The first occurrence of `needle` in `hay` when it starts a word, as a
/// hit list of at most one.
pub open spec fn word_start_hits(hay: Seq<u8>, needle: Seq<u8>, o: bool) -> Seq<Hit> {
    match spec_find_ic(hay, needle) {
        Some(p) => if spec_word_boundary_before(hay, p) {
            seq![Hit { in_original: o, pos: p, len: needle.len() as int }]
        } else {
            seq![]
        },
        None => seq![],
    }
}

/// The first occurrence of `needle` starts a word; recorded when it does.
fn first_word_match(
    hay: &[u8],
    needle: &[u8],
    original: &[u8],
    hay_is_original: bool,
    evidence: &mut EvidenceSet,
) -> (r: bool)
    requires
        hay_ok(hay@, original@, hay_is_original),
        evidence_ok(*old(evidence), original@),
    ensures
        evidence_ok(*final(evidence), original@),
        r == first_at_word(hay@, needle@),
        spans_of(*final(evidence)) == push_hits(spans_of(*old(evidence)), original@, word_start_hits(hay@, needle@, hay_is_original)),
{
    match find_ignore_ascii_case(hay, needle) {
        Some(pos) => {
            proof {
                lemma_find_ic_from(hay@, needle@, 0);
            }
            if word_boundary_before(hay, pos) {
                proof {
                    lemma_push_one(
                        spans_of(*evidence),
                        original@,
                        Hit { in_original: hay_is_original, pos: pos as int, len: needle@.len() as int },
                    );
                }
                push_match_evidence(evidence, original, hay_is_original, pos, needle.len());
                true
            } else {
                false
            }
        },
        None => false,
    }
}

/// The first occurrence of `needle`, recorded; `true` when there is one.
fn first_match(hay: &[u8], needle: &[u8], original: &[u8], hay_is_original: bool, evidence: &mut EvidenceSet) -> (r:
    bool)
    requires
        hay_ok(hay@, original@, hay_is_original),
        evidence_ok(*old(evidence), original@),
    ensures
        evidence_ok(*final(evidence), original@),
        r == contains_ic(hay@, needle@),
        spans_of(*final(evidence)) == push_hits(spans_of(*old(evidence)), original@, pattern_hits(hay@, needle@, hay_is_original)),
{
    proof {
        lemma_find_ic_contains(hay@, needle@);
    }
    match find_ignore_ascii_case(hay, needle) {
        Some(pos) => {
            proof {
                lemma_find_ic_from(hay@, needle@, 0);
                lemma_push_one(
                    spans_of(*evidence),
                    original@,
                    Hit { in_original: hay_is_original, pos: pos as int, len: needle@.len() as int },
                );
            }
            push_match_evidence(evidence, original, hay_is_original, pos, needle.len());
            true
        },
        None => false,
    }
}

/// The hits of the `<script` detector.
pub open spec fn script_hits(orig: Seq<u8>, norm: Seq<u8>) -> Seq<Hit> {
    let tag = seq![60u8, 115, 99, 114, 105, 112, 116];
    or_else_hits(
        has_confirmed(orig, tag, MatchRule::Tag),
        confirmed_hits(orig, tag, MatchRule::Tag, 0, true),
        confirmed_hits(norm, tag, MatchRule::Tag, 0, false),
    )
}

/// Every assignment of each event attribute in `hay`, attribute by attribute.
pub open spec fn event_hits_in(hay: Seq<u8>, o: bool) -> Seq<Hit> {
    confirmed_hits(hay, seq![111u8, 110, 101, 114, 114, 111, 114], MatchRule::Event, 0, o) + confirmed_hits(
        hay,
        seq![111u8, 110, 108, 111, 97, 100],
        MatchRule::Event,
        0,
        o,
    ) + confirmed_hits(hay, seq![111u8, 110, 99, 108, 105, 99, 107], MatchRule::Event, 0, o) + confirmed_hits(
        hay,
        seq![111u8, 110, 109, 111, 117, 115, 101, 111, 118, 101, 114],
        MatchRule::Event,
        0,
        o,
    ) + confirmed_hits(hay, seq![111u8, 110, 102, 111, 99, 117, 115], MatchRule::Event, 0, o) + confirmed_hits(
        hay,
        seq![111u8, 110, 98, 108, 117, 114],
        MatchRule::Event,
        0,
        o,
    ) + confirmed_hits(hay, seq![111u8, 110, 99, 104, 97, 110, 103, 101], MatchRule::Event, 0, o) + confirmed_hits(
        hay,
        seq![111u8, 110, 115, 117, 98, 109, 105, 116],
        MatchRule::Event,
        0,
        o,
    )
}

/// The hits of the event-attribute detector.
pub open spec fn event_hits(orig: Seq<u8>, norm: Seq<u8>) -> Seq<Hit> {
    or_else_hits(has_event_handler(orig), event_hits_in(orig, true), event_hits_in(norm, false))
}

/// The hits of the `javascript:` URL detector.
pub open spec fn javascript_hits(orig: Seq<u8>, norm: Seq<u8>) -> Seq<Hit> {
    let js = seq![106u8, 97, 118, 97, 115, 99, 114, 105, 112, 116, 58];
    or_else_hits(first_at_word(orig, js), word_start_hits(orig, js, true), word_start_hits(norm, js, false))
}

/// The hits of the `data:` URL detector (`data:text/html` before `data:`,
/// in `orig` before `norm`).
pub open spec fn data_url_hits(orig: Seq<u8>, norm: Seq<u8>) -> Seq<Hit> {
    let html = seq![100u8, 97, 116, 97, 58, 116, 101, 120, 116, 47, 104, 116, 109, 108];
    let any = seq![100u8, 97, 116, 97, 58];
    or_else_hits(
        first_at_word(orig, html),
        word_start_hits(orig, html, true),
        or_else_hits(
            first_at_word(orig, any),
            word_start_hits(orig, any, true),
            or_else_hits(first_at_word(norm, html), word_start_hits(norm, html, false), word_start_hits(norm, any, false)),
        ),
    )
}

/// The hits of the doctype detector.
pub open spec fn doctype_hits(orig: Seq<u8>, norm: Seq<u8>) -> Seq<Hit> {
    let doc = seq![60u8, 33, 100, 111, 99, 116, 121, 112, 101];
    or_else_hits(contains_ic(orig, doc), pattern_hits(orig, doc, true), pattern_hits(norm, doc, false))
}

/// The matches that the XSS detectors record in context `ctx`, in the order
/// they run.
pub open spec fn xss_evidence_hits(orig: Seq<u8>, norm: Seq<u8>, ctx: XssHtmlContext) -> Seq<Hit> {
    let data = ctx == XssHtmlContext::Data;
    (if data { script_hits(orig, norm) } else { seq![] }) + (if data { event_hits(orig, norm) } else { seq![] })
        + javascript_hits(orig, norm) + data_url_hits(orig, norm) + (if data { doctype_hits(orig, norm) } else { seq![] })
}

/// `<script` tags, recorded in `orig` and, when none is there, in `norm`.
fn detect_script(orig: &[u8], norm: &[u8], evidence: &mut EvidenceSet) -> (r: bool)
    requires
        evidence_ok(*old(evidence), orig@),
    ensures
        evidence_ok(*final(evidence), orig@),
        r == (has_confirmed(orig@, seq![60u8, 115, 99, 114, 105, 112, 116], MatchRule::Tag) || has_confirmed(
            norm@,
            seq![60u8, 115, 99, 114, 105, 112, 116],
            MatchRule::Tag,
        )),
        spans_of(*final(evidence)) == push_hits(spans_of(*old(evidence)), orig@, script_hits(orig@, norm@)),
{
    let tag: &[u8] = &[60u8, 115, 99, 114, 105, 112, 116];
    assert(tag@ == seq![60u8, 115, 99, 114, 105, 112, 116]);
    proof {
        lemma_push_hits_append(
            spans_of(*evidence),
            orig@,
            confirmed_hits(orig@, tag@, MatchRule::Tag, 0, true),
            confirmed_hits(norm@, tag@, MatchRule::Tag, 0, false),
        );
    }
    scan_confirmed(orig, tag, MatchRule::Tag, true, orig, true, evidence) || scan_confirmed(
        norm,
        tag,
        MatchRule::Tag,
        true,
        orig,
        false,
        evidence,
    )
}

/// A tag opener `tag` in `orig` or `norm` (not recorded).
fn detect_tag(orig: &[u8], norm: &[u8], tag: &[u8], evidence: &mut EvidenceSet) -> (r: bool)
    requires
        tag@.len() > 0,
        evidence_ok(*old(evidence), orig@),
    ensures
        evidence_ok(*final(evidence), orig@),
        r == (has_confirmed(orig@, tag@, MatchRule::Tag) || has_confirmed(norm@, tag@, MatchRule::Tag)),
        spans_of(*final(evidence)) == spans_of(*old(evidence)),
{
    scan_confirmed(orig, tag, MatchRule::Tag, false, orig, true, evidence) || scan_confirmed(
        norm,
        tag,
        MatchRule::Tag,
        false,
        orig,
        false,
        evidence,
    )
}

/// Event attributes in `hay`, each recorded.
fn event_handler_in(hay: &[u8], orig: &[u8], hay_is_original: bool, evidence: &mut EvidenceSet) -> (r: bool)
    requires
        hay_ok(hay@, orig@, hay_is_original),
        evidence_ok(*old(evidence), orig@),
    ensures
        evidence_ok(*final(evidence), orig@),
        r == has_event_handler(hay@),
        spans_of(*final(evidence)) == push_hits(spans_of(*old(evidence)), orig@, event_hits_in(hay@, hay_is_original)),
{
    let ghost v0 = spans_of(*evidence);
    let ghost o = orig@;
    let e1 = scan_confirmed(hay, &[111u8, 110, 101, 114, 114, 111, 114], MatchRule::Event, true, orig, hay_is_original, evidence);
    let e2 = scan_confirmed(hay, &[111u8, 110, 108, 111, 97, 100], MatchRule::Event, true, orig, hay_is_original, evidence);
    let e3 = scan_confirmed(hay, &[111u8, 110, 99, 108, 105, 99, 107], MatchRule::Event, true, orig, hay_is_original, evidence);
    let e4 = scan_confirmed(
        hay,
        &[111u8, 110, 109, 111, 117, 115, 101, 111, 118, 101, 114],
        MatchRule::Event,
        true,
        orig,
        hay_is_original,
        evidence,
    );
    let e5 = scan_confirmed(hay, &[111u8, 110, 102, 111, 99, 117, 115], MatchRule::Event, true, orig, hay_is_original, evidence);
    let e6 = scan_confirmed(hay, &[111u8, 110, 98, 108, 117, 114], MatchRule::Event, true, orig, hay_is_original, evidence);
    let e7 = scan_confirmed(hay, &[111u8, 110, 99, 104, 97, 110, 103, 101], MatchRule::Event, true, orig, hay_is_original, evidence);
    let e8 = scan_confirmed(hay, &[111u8, 110, 115, 117, 98, 109, 105, 116], MatchRule::Event, true, orig, hay_is_original, evidence);
    proof {
        let h = hay@;
        let c1 = confirmed_hits(h, seq![111u8, 110, 101, 114, 114, 111, 114], MatchRule::Event, 0, hay_is_original);
        let c2 = confirmed_hits(h, seq![111u8, 110, 108, 111, 97, 100], MatchRule::Event, 0, hay_is_original);
        let c3 = confirmed_hits(h, seq![111u8, 110, 99, 108, 105, 99, 107], MatchRule::Event, 0, hay_is_original);
        let c4 = confirmed_hits(
            h,
            seq![111u8, 110, 109, 111, 117, 115, 101, 111, 118, 101, 114],
            MatchRule::Event,
            0,
            hay_is_original,
        );
        let c5 = confirmed_hits(h, seq![111u8, 110, 102, 111, 99, 117, 115], MatchRule::Event, 0, hay_is_original);
        let c6 = confirmed_hits(h, seq![111u8, 110, 98, 108, 117, 114], MatchRule::Event, 0, hay_is_original);
        let c7 = confirmed_hits(h, seq![111u8, 110, 99, 104, 97, 110, 103, 101], MatchRule::Event, 0, hay_is_original);
        let c8 = confirmed_hits(h, seq![111u8, 110, 115, 117, 98, 109, 105, 116], MatchRule::Event, 0, hay_is_original);
        lemma_push_hits_append(v0, o, c1, c2);
        lemma_push_hits_append(v0, o, c1 + c2, c3);
        lemma_push_hits_append(v0, o, c1 + c2 + c3, c4);
        lemma_push_hits_append(v0, o, c1 + c2 + c3 + c4, c5);
        lemma_push_hits_append(v0, o, c1 + c2 + c3 + c4 + c5, c6);
        lemma_push_hits_append(v0, o, c1 + c2 + c3 + c4 + c5 + c6, c7);
        lemma_push_hits_append(v0, o, c1 + c2 + c3 + c4 + c5 + c6 + c7, c8);
    }
    e1 || e2 || e3 || e4 || e5 || e6 || e7 || e8
}

/// The HTML entry context suggested by the input: a leading quote means an
/// attribute value in that quote; `=` without `<` an unquoted value; else data.
pub open spec fn spec_html_context(input: Seq<u8>) -> XssHtmlContext {
    if input.len() > 0 && input[0] == 34 {
        XssHtmlContext::AttrDouble
    } else if input.len() > 0 && input[0] == 39 {
        XssHtmlContext::AttrSingle
    } else if input.len() > 0 && input[0] == 96 {
        XssHtmlContext::AttrBacktick
    } else if input.contains(61u8) && !input.contains(60u8) {
        XssHtmlContext::AttrUnquoted
    } else {
        XssHtmlContext::Data
    }
}

/// Infer the HTML entry context from the input's shape.
pub fn infer_html_context(input: &[u8]) -> (r: XssHtmlContext)
    ensures
        r == spec_html_context(input@),
{
    if input.len() > 0 && input[0] == 34 {
        XssHtmlContext::AttrDouble
    } else if input.len() > 0 && input[0] == 39 {
        XssHtmlContext::AttrSingle
    } else if input.len() > 0 && input[0] == 96 {
        XssHtmlContext::AttrBacktick
    } else if contains_byte(input, 61u8) && !contains_byte(input, 60u8) {
        XssHtmlContext::AttrUnquoted
    } else {
        XssHtmlContext::Data
    }
}

/// The XSS detector results for `orig` and its normalization `norm` in `ctx`.
pub struct XssHits {
    /// `<script` tag.
    pub script: bool,
    /// `<iframe` tag.
    pub iframe: bool,
    /// `<object` tag.
    pub object: bool,
    /// `<svg` tag.
    pub svg: bool,
    /// Event handler attribute.
    pub event: bool,
    /// `javascript:` URL.
    pub javascript: bool,
    /// `data:` URL.
    pub data: bool,
    /// `expression(` in a style.
    pub expression: bool,
    /// `<!--` or `<![cdata[`.
    pub comment: bool,
    /// `<!doctype`.
    pub doctype: bool,
}

/// What each detector finds; the tag, event, comment and doctype detectors
/// run only in the data context.
pub open spec fn spec_xss_hits(orig: Seq<u8>, norm: Seq<u8>, ctx: XssHtmlContext) -> XssHits {
    let data = ctx == XssHtmlContext::Data;
    let script = seq![60u8, 115, 99, 114, 105, 112, 116];
    let iframe = seq![60u8, 105, 102, 114, 97, 109, 101];
    let object = seq![60u8, 111, 98, 106, 101, 99, 116];
    let svg = seq![60u8, 115, 118, 103];
    let expression = seq![101u8, 120, 112, 114, 101, 115, 115, 105, 111, 110, 40];
    let doctype = seq![60u8, 33, 100, 111, 99, 116, 121, 112, 101];
    XssHits {
        script: data && (has_confirmed(orig, script, MatchRule::Tag) || has_confirmed(norm, script, MatchRule::Tag)),
        iframe: data && (has_confirmed(orig, iframe, MatchRule::Tag) || has_confirmed(norm, iframe, MatchRule::Tag)),
        object: data && (has_confirmed(orig, object, MatchRule::Tag) || has_confirmed(norm, object, MatchRule::Tag)),
        svg: data && (has_confirmed(orig, svg, MatchRule::Tag) || has_confirmed(norm, svg, MatchRule::Tag)),
        event: data && (has_event_handler(orig) || has_event_handler(norm)),
        javascript: has_javascript_url(orig) || has_javascript_url(norm),
        data: has_data_url(orig) || has_data_url(norm),
        expression: contains_ic(orig, expression) || contains_ic(norm, expression),
        comment: data && (contains_ic(orig, seq![60u8, 33, 45, 45]) || contains_ic(
            orig,
            seq![60u8, 33, 91, 99, 100, 97, 116, 97, 91],
        )),
        doctype: data && (contains_ic(orig, doctype) || contains_ic(norm, doctype)),
    }
}

/// Some detector found something.
pub open spec fn any_hit(h: XssHits) -> bool {
    h.script || h.iframe || h.object || h.svg || h.event || h.javascript || h.data || h.expression || h.comment
        || h.doctype
}

/// The construct bits for detector results `h`; `deny_hit` is the legacy
/// deny-list verdict, which counts only when no other detector fired.
pub open spec fn spec_xss_constructs(h: XssHits, deny_hit: bool) -> u32 {
    construct_bit(h.script, ConstructFlags::XSS_TAG_SCRIPT) | construct_bit(h.iframe, ConstructFlags::XSS_TAG_IFRAME)
        | construct_bit(h.object, ConstructFlags::XSS_TAG_OBJECT) | construct_bit(h.svg, ConstructFlags::XSS_TAG_SVG)
        | construct_bit(h.event, ConstructFlags::XSS_EVENT_HANDLER) | construct_bit(
        h.javascript,
        ConstructFlags::XSS_URL_JAVASCRIPT,
    ) | construct_bit(h.data, ConstructFlags::XSS_URL_DATA) | construct_bit(
        h.expression,
        ConstructFlags::XSS_STYLE_EXPRESSION,
    ) | construct_bit(h.comment, ConstructFlags::XSS_COMMENT_BYPASS) | construct_bit(
        h.doctype,
        ConstructFlags::XSS_DOCTYPE,
    ) | construct_bit(deny_hit && !any_hit(h), ConstructFlags::XSS_HTML_DENYLIST)
}

/// Classification output for one XSS pass.
#[derive(Clone, Copy)]
pub struct XssClassifyResult {
    /// Matched construct bits.
    pub constructs: ConstructFlags,
    /// Evidence spans (offsets into the original input).
    pub evidence: EvidenceSet,
    /// HTML context hint.
    pub html_context: XssHtmlContext,
}

/// Event attributes, recorded in `orig` and, when none is there, in `norm`.
fn detect_event_handlers(orig: &[u8], norm: &[u8], evidence: &mut EvidenceSet) -> (r: bool)
    requires
        evidence_ok(*old(evidence), orig@),
    ensures
        evidence_ok(*final(evidence), orig@),
        r == (has_event_handler(orig@) || has_event_handler(norm@)),
        spans_of(*final(evidence)) == push_hits(spans_of(*old(evidence)), orig@, event_hits(orig@, norm@)),
{
    proof {
        lemma_push_hits_append(spans_of(*evidence), orig@, event_hits_in(orig@, true), event_hits_in(norm@, false));
    }
    event_handler_in(orig, orig, true, evidence) || event_handler_in(norm, orig, false, evidence)
}

/// A `javascript:` URL starting a word, in `orig` or else in `norm`.
fn detect_javascript_url(orig: &[u8], norm: &[u8], evidence: &mut EvidenceSet) -> (r: bool)
    requires
        evidence_ok(*old(evidence), orig@),
    ensures
        evidence_ok(*final(evidence), orig@),
        r == (has_javascript_url(orig@) || has_javascript_url(norm@)),
        spans_of(*final(evidence)) == push_hits(spans_of(*old(evidence)), orig@, javascript_hits(orig@, norm@)),
{
    let js: &[u8] = &[106u8, 97, 118, 97, 115, 99, 114, 105, 112, 116, 58];
    assert(js@ == seq![106u8, 97, 118, 97, 115, 99, 114, 105, 112, 116, 58]);
    proof {
        lemma_push_hits_append(
            spans_of(*evidence),
            orig@,
            word_start_hits(orig@, js@, true),
            word_start_hits(norm@, js@, false),
        );
    }
    first_word_match(orig, js, orig, true, evidence) || first_word_match(norm, js, orig, false, evidence)
}

/// A `data:` URL starting a word, in `orig` or else in `norm`.
fn detect_data_url(orig: &[u8], norm: &[u8], evidence: &mut EvidenceSet) -> (r: bool)
    requires
        evidence_ok(*old(evidence), orig@),
    ensures
        evidence_ok(*final(evidence), orig@),
        r == (has_data_url(orig@) || has_data_url(norm@)),
        spans_of(*final(evidence)) == push_hits(spans_of(*old(evidence)), orig@, data_url_hits(orig@, norm@)),
{
    let data_html: &[u8] = &[100u8, 97, 116, 97, 58, 116, 101, 120, 116, 47, 104, 116, 109, 108];
    let data_any: &[u8] = &[100u8, 97, 116, 97, 58];
    assert(data_html@ == seq![100u8, 97, 116, 97, 58, 116, 101, 120, 116, 47, 104, 116, 109, 108]);
    assert(data_any@ == seq![100u8, 97, 116, 97, 58]);
    let ghost v0 = spans_of(*evidence);
    let ghost a = word_start_hits(orig@, data_html@, true);
    let ghost b = word_start_hits(orig@, data_any@, true);
    let ghost c = word_start_hits(norm@, data_html@, false);
    let ghost d = word_start_hits(norm@, data_any@, false);
    proof {
        lemma_push_hits_append(v0, orig@, a, b);
        lemma_push_hits_append(push_hits(v0, orig@, a), orig@, b, c);
        lemma_push_hits_append(push_hits(push_hits(v0, orig@, a), orig@, b), orig@, c, d);
        lemma_push_hits_append(push_hits(v0, orig@, a), orig@, b, c + d);
        lemma_push_hits_append(v0, orig@, a, b + c);
        lemma_push_hits_append(v0, orig@, a, b + (c + d));
    }
    first_word_match(orig, data_html, orig, true, evidence) || first_word_match(orig, data_any, orig, true, evidence)
        || first_word_match(norm, data_html, orig, false, evidence) || first_word_match(
        norm,
        data_any,
        orig,
        false,
        evidence,
    )
}

/// A CSS `expression(` in `orig` or `norm`.
fn detect_expression(orig: &[u8], norm: &[u8]) -> (r: bool)
    ensures
        r == (contains_ic(orig@, seq![101u8, 120, 112, 114, 101, 115, 115, 105, 111, 110, 40]) || contains_ic(
            norm@,
            seq![101u8, 120, 112, 114, 101, 115, 115, 105, 111, 110, 40],
        )),
{
    let expr: &[u8] = &[101u8, 120, 112, 114, 101, 115, 115, 105, 111, 110, 40];
    assert(expr@ == seq![101u8, 120, 112, 114, 101, 115, 115, 105, 111, 110, 40]);
    contains_ignore_ascii_case(orig, expr) || contains_ignore_ascii_case(norm, expr)
}

/// An HTML comment or CDATA opener in `orig`.
fn detect_comment_bypass(orig: &[u8]) -> (r: bool)
    ensures
        r == (contains_ic(orig@, seq![60u8, 33, 45, 45]) || contains_ic(
            orig@,
            seq![60u8, 33, 91, 99, 100, 97, 116, 97, 91],
        )),
{
    let comment: &[u8] = &[60u8, 33, 45, 45];
    let cdata: &[u8] = &[60u8, 33, 91, 99, 100, 97, 116, 97, 91];
    assert(comment@ == seq![60u8, 33, 45, 45]);
    assert(cdata@ == seq![60u8, 33, 91, 99, 100, 97, 116, 97, 91]);
    contains_ignore_ascii_case(orig, comment) || contains_ignore_ascii_case(orig, cdata)
}

/// A `<!doctype`, recorded in `orig` or else in `norm`.
fn detect_doctype(orig: &[u8], norm: &[u8], evidence: &mut EvidenceSet) -> (r: bool)
    requires
        evidence_ok(*old(evidence), orig@),
    ensures
        evidence_ok(*final(evidence), orig@),
        r == (contains_ic(orig@, seq![60u8, 33, 100, 111, 99, 116, 121, 112, 101]) || contains_ic(
            norm@,
            seq![60u8, 33, 100, 111, 99, 116, 121, 112, 101],
        )),
        spans_of(*final(evidence)) == push_hits(spans_of(*old(evidence)), orig@, doctype_hits(orig@, norm@)),
{
    let doc: &[u8] = &[60u8, 33, 100, 111, 99, 116, 121, 112, 101];
    assert(doc@ == seq![60u8, 33, 100, 111, 99, 116, 121, 112, 101]);
    proof {
        lemma_push_hits_append(spans_of(*evidence), orig@, pattern_hits(orig@, doc@, true), pattern_hits(norm@, doc@, false));
    }
    first_match(orig, doc, orig, true, evidence) || first_match(norm, doc, orig, false, evidence)
}

/// Run the XSS construct detectors over `orig` and its normalization `norm`.
pub fn classify(orig: &[u8], norm: &[u8], ctx: XssHtmlContext) -> (r: XssClassifyResult)
    ensures
        r.constructs.0 == spec_xss_constructs(spec_xss_hits(orig@, norm@, ctx), legacy_xss(orig@)),
        evidence_ok(r.evidence, orig@),
        r.html_context == ctx,
        spans_of(r.evidence) == push_hits(seq![], orig@, xss_evidence_hits(orig@, norm@, ctx)),
{
    let mut evidence = crate::snapshot::EvidenceSet::empty();
    let ghost e0 = spans_of(evidence);
    assert(e0 =~= seq![]);
    let data = ctx == XssHtmlContext::Data;
    let script = data && detect_script(orig, norm, &mut evidence);
    let ghost e1 = spans_of(evidence);
    let iframe_tag: &[u8] = &[60u8, 105, 102, 114, 97, 109, 101];
    let object_tag: &[u8] = &[60u8, 111, 98, 106, 101, 99, 116];
    let svg_tag: &[u8] = &[60u8, 115, 118, 103];
    assert(iframe_tag@ == seq![60u8, 105, 102, 114, 97, 109, 101]);
    assert(object_tag@ == seq![60u8, 111, 98, 106, 101, 99, 116]);
    assert(svg_tag@ == seq![60u8, 115, 118, 103]);
    let iframe = data && detect_tag(orig, norm, iframe_tag, &mut evidence);
    let object = data && detect_tag(orig, norm, object_tag, &mut evidence);
    let svg = data && detect_tag(orig, norm, svg_tag, &mut evidence);
    let ghost e2 = spans_of(evidence);
    let event = data && detect_event_handlers(orig, norm, &mut evidence);
    let ghost e3 = spans_of(evidence);
    let javascript = detect_javascript_url(orig, norm, &mut evidence);
    let data_url = detect_data_url(orig, norm, &mut evidence);
    let expression = detect_expression(orig, norm);
    let comment = data && detect_comment_bypass(orig);
    let ghost e5 = spans_of(evidence);
    let doctype = data && detect_doctype(orig, norm, &mut evidence);
    proof {
        let o = orig@;
        let n = norm@;
        let l1 = if data { script_hits(o, n) } else { seq![] };
        let l2 = if data { event_hits(o, n) } else { seq![] };
        let l3 = javascript_hits(o, n);
        let l4 = data_url_hits(o, n);
        let l5 = if data { doctype_hits(o, n) } else { seq![] };
        assert(e1 == push_hits(e0, o, l1));
        assert(e3 == push_hits(e2, o, l2));
        assert(spans_of(evidence) == push_hits(e5, o, l5));
        lemma_push_hits_append(e0, o, l1, l2);
        lemma_push_hits_append(e0, o, l1 + l2, l3);
        lemma_push_hits_append(e0, o, l1 + l2 + l3, l4);
        lemma_push_hits_append(e0, o, l1 + l2 + l3 + l4, l5);
    }
    let legacy_hit = detect(orig);
    let h = XssHits {
        script,
        iframe,
        object,
        svg,
        event,
        javascript,
        data: data_url,
        expression,
        comment,
        doctype,
    };
    assert(h == spec_xss_hits(orig@, norm@, ctx));
    let any = script || iframe || object || svg || event || javascript || data_url || expression || comment
        || doctype;
    let bits = construct_bit_if(script, ConstructFlags::XSS_TAG_SCRIPT) | construct_bit_if(
        iframe,
        ConstructFlags::XSS_TAG_IFRAME,
    ) | construct_bit_if(object, ConstructFlags::XSS_TAG_OBJECT) | construct_bit_if(
        svg,
        ConstructFlags::XSS_TAG_SVG,
    ) | construct_bit_if(event, ConstructFlags::XSS_EVENT_HANDLER) | construct_bit_if(
        javascript,
        ConstructFlags::XSS_URL_JAVASCRIPT,
    ) | construct_bit_if(data_url, ConstructFlags::XSS_URL_DATA) | construct_bit_if(
        expression,
        ConstructFlags::XSS_STYLE_EXPRESSION,
    ) | construct_bit_if(comment, ConstructFlags::XSS_COMMENT_BYPASS) | construct_bit_if(
        doctype,
        ConstructFlags::XSS_DOCTYPE,
    ) | construct_bit_if(legacy_hit && !any, ConstructFlags::XSS_HTML_DENYLIST);
    assert(bits == spec_xss_constructs(h, legacy_hit));
    XssClassifyResult { constructs: ConstructFlags(bits), evidence, html_context: ctx }
}

} // verus!
