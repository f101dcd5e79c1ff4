//! Properties of the public analysis and detection functions.
use vstd::prelude::*;
use crate::engine::verdict::spec_verdict_hint;
use crate::options::AnalyzeOptions;
use crate::policy::{sqli_detect_mask, xss_detect_mask};
use crate::snapshot::{construct_bit, status_bit, AnalysisFlags, AnalysisSnapshot, ConstructFlags, DetectionVerdict, VerdictHint};
use crate::sqli::modern::sqli_snapshot_of;
use crate::xss::modern::xss_snapshot_of;
use crate::engine::evidence::spans_of;
use crate::engine::normalize::lemma_norm_bounds;
use crate::limits::NORM_BUF_LEN;
use crate::engine::prefilter::{spec_sqli_may_be_interesting, spec_xss_may_be_interesting};
use crate::xss::legacy::legacy_xss;
use crate::{finished, scanned, sqli_analysis, sqli_verdict, with_legacy_fingerprint, xss_analysis, xss_verdict};

verus! {

/// The `SQLi` construct bits all lie in the low 16 bits.
proof fn lemma_sqli_bits_are_low(
    b0: bool,
    b1: bool,
    b2: bool,
    b3: bool,
    b4: bool,
    b5: bool,
    b6: bool,
    b7: bool,
    b8: bool,
    b9: bool,
    b10: bool,
)
    ensures
        (construct_bit(b0, 1u32) | construct_bit(b1, 2u32) | construct_bit(b2, 4u32) | construct_bit(b3, 8u32)
            | construct_bit(b4, 16u32) | construct_bit(b5, 32u32) | construct_bit(b6, 64u32) | construct_bit(
            b7,
            2048u32,
        ) | construct_bit(b8, 256u32) | construct_bit(b9, 512u32) | construct_bit(b10, 1024u32)) & 0x0FFF_0000u32
            == 0,
{
    let x0 = construct_bit(b0, 1u32);
    let x1 = construct_bit(b1, 2u32);
    let x2 = construct_bit(b2, 4u32);
    let x3 = construct_bit(b3, 8u32);
    let x4 = construct_bit(b4, 16u32);
    let x5 = construct_bit(b5, 32u32);
    let x6 = construct_bit(b6, 64u32);
    let x7 = construct_bit(b7, 2048u32);
    let x8 = construct_bit(b8, 256u32);
    let x9 = construct_bit(b9, 512u32);
    let x10 = construct_bit(b10, 1024u32);
    assert((x0 | x1 | x2 | x3 | x4 | x5 | x6 | x7 | x8 | x9 | x10) & 0x0FFF_0000u32 == 0) by (bit_vector)
        requires
            x0 == 0 || x0 == 1,
            x1 == 0 || x1 == 2,
            x2 == 0 || x2 == 4,
            x3 == 0 || x3 == 8,
            x4 == 0 || x4 == 16,
            x5 == 0 || x5 == 32,
            x6 == 0 || x6 == 64,
            x7 == 0 || x7 == 2048,
            x8 == 0 || x8 == 256,
            x9 == 0 || x9 == 512,
            x10 == 0 || x10 == 1024,
    ;
}

/// The XSS construct bits all lie in bits 16 through 27.
proof fn lemma_xss_bits_are_high(
    b0: bool,
    b1: bool,
    b2: bool,
    b3: bool,
    b4: bool,
    b5: bool,
    b6: bool,
    b7: bool,
    b8: bool,
    b9: bool,
    b10: bool,
)
    ensures
        (construct_bit(b0, 0x0001_0000u32) | construct_bit(b1, 0x0002_0000u32) | construct_bit(
            b2,
            0x0004_0000u32,
        ) | construct_bit(b3, 0x0008_0000u32) | construct_bit(b4, 0x0010_0000u32) | construct_bit(
            b5,
            0x0020_0000u32,
        ) | construct_bit(b6, 0x0040_0000u32) | construct_bit(b7, 0x0080_0000u32) | construct_bit(
            b8,
            0x0100_0000u32,
        ) | construct_bit(b9, 0x0200_0000u32) | construct_bit(b10, 0x0400_0000u32)) & 0x0000_FFFFu32 == 0,
{
    let x0 = construct_bit(b0, 0x0001_0000u32);
    let x1 = construct_bit(b1, 0x0002_0000u32);
    let x2 = construct_bit(b2, 0x0004_0000u32);
    let x3 = construct_bit(b3, 0x0008_0000u32);
    let x4 = construct_bit(b4, 0x0010_0000u32);
    let x5 = construct_bit(b5, 0x0020_0000u32);
    let x6 = construct_bit(b6, 0x0040_0000u32);
    let x7 = construct_bit(b7, 0x0080_0000u32);
    let x8 = construct_bit(b8, 0x0100_0000u32);
    let x9 = construct_bit(b9, 0x0200_0000u32);
    let x10 = construct_bit(b10, 0x0400_0000u32);
    assert((x0 | x1 | x2 | x3 | x4 | x5 | x6 | x7 | x8 | x9 | x10) & 0x0000_FFFFu32 == 0) by (bit_vector)
        requires
            x0 == 0 || x0 == 0x0001_0000u32,
            x1 == 0 || x1 == 0x0002_0000u32,
            x2 == 0 || x2 == 0x0004_0000u32,
            x3 == 0 || x3 == 0x0008_0000u32,
            x4 == 0 || x4 == 0x0010_0000u32,
            x5 == 0 || x5 == 0x0020_0000u32,
            x6 == 0 || x6 == 0x0040_0000u32,
            x7 == 0 || x7 == 0x0080_0000u32,
            x8 == 0 || x8 == 0x0100_0000u32,
            x9 == 0 || x9 == 0x0200_0000u32,
            x10 == 0 || x10 == 0x0400_0000u32,
    ;
}

/// Stage-1 `SQLi` analysis sets only `SQLi` construct bits (bits 0 through 15).
pub proof fn law_sqli_analysis_sets_only_sqli_bits(input: Seq<u8>, opts: AnalyzeOptions, r: AnalysisSnapshot)
    requires
        sqli_analysis(input, opts, r),
    ensures
        !r.constructs.spec_any_xss(),
{
    let n = opts.spec_effective_max_input_len();
    let base = choose|base: AnalysisSnapshot|
        #[trigger] sqli_snapshot_of(scanned(input, n), base) && r == finished(base, input.len() > n, sqli_detect_mask());
    let s = scanned(input, n);
    ConstructFlags::lemma_empty_meets_nothing(ConstructFlags(0));
    if s.len() > 0 && crate::engine::prefilter::spec_sqli_may_be_interesting(s) {
        let norm = crate::engine::normalize::spec_normalize(s);
        let toks = crate::engine::token::stored_of(crate::engine::token::spec_tokens_from(s, 0));
        let h = crate::sqli::modern::classify::spec_dialect_hits(s, toks);
        let union = seq![117u8, 110, 105, 111, 110];
        lemma_sqli_bits_are_low(
            crate::sqli::modern::classify::has_word(s, union) || crate::sqli::modern::classify::has_word(norm.0, union),
            crate::sqli::modern::classify::has_tautology(s) || crate::sqli::modern::classify::has_tautology(norm.0),
            crate::sqli::modern::classify::has_string_break(s),
            crate::sqli::modern::classify::has_stacked(s, toks),
            crate::sqli::modern::classify::has_comment_injection(s, toks),
            crate::sqli::modern::classify::has_function(s) || crate::sqli::modern::classify::has_function(norm.0),
            crate::sqli::modern::classify::has_boolean_blind(s) || crate::sqli::modern::classify::has_boolean_blind(
                norm.0,
            ),
            crate::sqli::modern::classify::has_keyword_chain(s) || crate::sqli::modern::classify::has_keyword_chain(
                norm.0,
            ),
            crate::sqli::modern::classify::has_versioned_comment(s, toks) || h.backtick || h.hash,
            h.bracket || h.exec_word,
            h.dual || h.q_quote,
        );
    }
}

/// Stage-1 XSS analysis sets only XSS construct bits (bits 16 through 27).
pub proof fn law_xss_analysis_sets_only_xss_bits(input: Seq<u8>, opts: AnalyzeOptions, r: AnalysisSnapshot)
    requires
        xss_analysis(input, opts, r),
    ensures
        !r.constructs.spec_any_sqli(),
{
    let n = opts.spec_effective_max_input_len();
    let base = choose|base: AnalysisSnapshot|
        #[trigger] xss_snapshot_of(scanned(input, n), base) && r == finished(base, input.len() > n, xss_detect_mask());
    let s = scanned(input, n);
    ConstructFlags::lemma_empty_meets_nothing(ConstructFlags(0));
    if s.len() > 0 && crate::engine::prefilter::spec_xss_may_be_interesting(s) {
        let norm = crate::engine::normalize::spec_normalize(s);
        let ctx = crate::xss::modern::classify::spec_html_context(s);
        let h = crate::xss::modern::classify::spec_xss_hits(s, norm.0, ctx);
        let deny = crate::xss::legacy::legacy_xss(s);
        lemma_xss_bits_are_high(
            h.script,
            h.iframe,
            h.object,
            h.svg,
            h.event,
            h.javascript,
            h.data,
            h.expression,
            h.comment,
            h.doctype,
            deny && !crate::xss::modern::classify::any_hit(h),
        );
    }
}

/// A decisive hint can only come from constructs in the detect mask.
proof fn lemma_decisive_means_policy(c: ConstructFlags, f: AnalysisFlags, mask: ConstructFlags)
    requires
        spec_verdict_hint(c, f, mask) == VerdictHint::Decisive,
    ensures
        c.spec_intersects(mask),
{
}

/// A `SQLi` verdict whose snapshot hint is `Decisive` is a detection.
pub proof fn law_decisive_sqli_hint_is_detected(input: Seq<u8>, opts: AnalyzeOptions, r: DetectionVerdict)
    requires
        sqli_verdict(input, opts, r),
    ensures
        r.snapshot.verdict_hint == VerdictHint::Decisive ==> r.detected,
{
    let base = choose|base: AnalysisSnapshot|
        #[trigger] sqli_analysis(input, opts, base) && (r.snapshot.legacy_fingerprint.len == 0 ==> r.snapshot
            == base) && (r.snapshot.legacy_fingerprint.len > 0 ==> crate::with_legacy_fingerprint(base, r.snapshot));
    let n = opts.spec_effective_max_input_len();
    let b0 = choose|b0: AnalysisSnapshot|
        #[trigger] sqli_snapshot_of(scanned(input, n), b0) && base == finished(b0, input.len() > n, sqli_detect_mask());
    if r.snapshot.verdict_hint == VerdictHint::Decisive {
        if input.len() > n {
            lemma_decisive_means_policy(
                b0.constructs,
                AnalysisFlags(b0.flags.0 | AnalysisFlags::TRUNCATED),
                ConstructFlags(sqli_detect_mask()),
            );
        } else {
            lemma_decisive_means_policy(b0.constructs, b0.flags, ConstructFlags(sqli_detect_mask()));
        }
    }
}

/// An XSS verdict whose snapshot hint is `Decisive` is a detection.
pub proof fn law_decisive_xss_hint_is_detected(input: Seq<u8>, opts: AnalyzeOptions, r: DetectionVerdict)
    requires
        xss_verdict(input, opts, r),
    ensures
        r.snapshot.verdict_hint == VerdictHint::Decisive ==> r.detected,
{
    let n = opts.spec_effective_max_input_len();
    let b0 = choose|b0: AnalysisSnapshot|
        #[trigger] xss_snapshot_of(scanned(input, n), b0) && r.snapshot == finished(
            b0,
            input.len() > n,
            xss_detect_mask(),
        );
    if r.snapshot.verdict_hint == VerdictHint::Decisive {
        if input.len() > n {
            lemma_decisive_means_policy(
                b0.constructs,
                AnalysisFlags(b0.flags.0 | AnalysisFlags::TRUNCATED),
                ConstructFlags(xss_detect_mask()),
            );
        } else {
            lemma_decisive_means_policy(b0.constructs, b0.flags, ConstructFlags(xss_detect_mask()));
        }
    }
}

/// An input longer than the scan budget is reported as truncated (`SQLi`).
pub proof fn law_sqli_over_budget_is_truncated(input: Seq<u8>, opts: AnalyzeOptions, r: AnalysisSnapshot)
    requires
        sqli_analysis(input, opts, r),
        input.len() > opts.spec_effective_max_input_len(),
    ensures
        r.flags.spec_contains(AnalysisFlags::TRUNCATED),
{
    let n = opts.spec_effective_max_input_len();
    let base = choose|base: AnalysisSnapshot|
        #[trigger] sqli_snapshot_of(scanned(input, n), base) && r == finished(base, input.len() > n, sqli_detect_mask());
    let x = base.flags.0;
    assert((x | 1u16) & 1u16 != 0) by (bit_vector);
}

/// An input longer than the scan budget is reported as truncated (XSS).
pub proof fn law_xss_over_budget_is_truncated(input: Seq<u8>, opts: AnalyzeOptions, r: AnalysisSnapshot)
    requires
        xss_analysis(input, opts, r),
        input.len() > opts.spec_effective_max_input_len(),
    ensures
        r.flags.spec_contains(AnalysisFlags::TRUNCATED),
{
    let n = opts.spec_effective_max_input_len();
    let base = choose|base: AnalysisSnapshot|
        #[trigger] xss_snapshot_of(scanned(input, n), base) && r == finished(base, input.len() > n, xss_detect_mask());
    let x = base.flags.0;
    assert((x | 1u16) & 1u16 != 0) by (bit_vector);
}

/// The legacy-fingerprint status bit is set exactly when a `@detectSQLi`
/// snapshot carries a legacy fingerprint.
pub proof fn law_legacy_flag_marks_fingerprint(input: Seq<u8>, opts: AnalyzeOptions, r: DetectionVerdict)
    requires
        sqli_verdict(input, opts, r),
    ensures
        r.snapshot.flags.spec_contains(AnalysisFlags::LEGACY_FP_AVAILABLE) <==> r.snapshot.legacy_fingerprint.len
            > 0,
{
    let base = choose|base: AnalysisSnapshot|
        #[trigger] sqli_analysis(input, opts, base) && (r.snapshot.legacy_fingerprint.len == 0 ==> r.snapshot
            == base) && (r.snapshot.legacy_fingerprint.len > 0 ==> crate::with_legacy_fingerprint(base, r.snapshot));
    let n = opts.spec_effective_max_input_len();
    let b0 = choose|b0: AnalysisSnapshot|
        #[trigger] sqli_snapshot_of(scanned(input, n), b0) && base == finished(b0, input.len() > n, sqli_detect_mask());
    if r.snapshot.legacy_fingerprint.len > 0 {
        let x = base.flags.0;
        assert((x | 2u16) & 2u16 != 0) by (bit_vector);
    } else {
        let s = scanned(input, n);
        let f = b0.flags.0;
        if s.len() > 0 && crate::engine::prefilter::spec_sqli_may_be_interesting(s) {
            let t = crate::engine::normalize::spec_normalize(s).1;
            let l = crate::engine::token::spec_tokens_from(s, 0).len() > crate::limits::MAX_TOKEN_SLOTS;
            let y = status_bit(t, 1u16);
            let z = status_bit(l, 16u16);
            assert((y | z) & 2u16 == 0 && ((y | z) | 1u16) & 2u16 == 0) by (bit_vector)
                requires
                    y == 0 || y == 1,
                    z == 0 || z == 16,
            ;
        } else {
            assert(f == 0 || f == 8);
            assert((f & 2u16 == 0) && ((f | 1u16) & 2u16 == 0)) by (bit_vector)
                requires
                    f == 0 || f == 8,
            ;
        }
    }
}

/// Stage-1 `SQLi` analysis of the empty input is the benign snapshot.
pub proof fn law_sqli_empty_input_is_benign(opts: AnalyzeOptions, r: AnalysisSnapshot)
    requires
        sqli_analysis(Seq::empty(), opts, r),
    ensures
        r.is_benign(),
{
    let n = opts.spec_effective_max_input_len();
    let base = choose|base: AnalysisSnapshot|
        #[trigger] sqli_snapshot_of(scanned(Seq::<u8>::empty(), n), base) && r == finished(
            base,
            Seq::<u8>::empty().len() > n,
            sqli_detect_mask(),
        );
}

/// Stage-1 XSS analysis of the empty input is the benign snapshot.
pub proof fn law_xss_empty_input_is_benign(opts: AnalyzeOptions, r: AnalysisSnapshot)
    requires
        xss_analysis(Seq::empty(), opts, r),
    ensures
        r.is_benign(),
{
    let n = opts.spec_effective_max_input_len();
    let base = choose|base: AnalysisSnapshot|
        #[trigger] xss_snapshot_of(scanned(Seq::<u8>::empty(), n), base) && r == finished(
            base,
            Seq::<u8>::empty().len() > n,
            xss_detect_mask(),
        );
}

/// Two snapshots that agree on constructs, flags, hint, context and recorded
/// spans, with their free evidence slots and fingerprints clear, are equal.
proof fn lemma_snapshot_ext(a: AnalysisSnapshot, b: AnalysisSnapshot)
    requires
        a.constructs.0 == b.constructs.0,
        a.flags.0 == b.flags.0,
        a.verdict_hint == b.verdict_hint,
        a.context == b.context,
        a.evidence.wf(),
        b.evidence.wf(),
        spans_of(a.evidence) == spans_of(b.evidence),
        a.evidence.tail_clear(),
        b.evidence.tail_clear(),
        a.legacy_fingerprint.is_clear(),
        b.legacy_fingerprint.is_clear(),
    ensures
        a == b,
{
    assert(a.evidence.count == spans_of(a.evidence).len());
    assert forall|i: int| 0 <= i < 4 implies a.evidence.spans[i] == b.evidence.spans[i] by {
        if i < a.evidence.count {
            assert(spans_of(a.evidence)[i] == a.evidence.spans@[i]);
            assert(spans_of(b.evidence)[i] == b.evidence.spans@[i]);
        }
    }
    assert(a.evidence.spans =~= b.evidence.spans);
    assert(a.legacy_fingerprint.bytes =~= b.legacy_fingerprint.bytes);
}

/// The stage-1 `SQLi` report of an input is unique.
proof fn lemma_sqli_snapshot_unique(input: Seq<u8>, a: AnalysisSnapshot, b: AnalysisSnapshot)
    requires
        sqli_snapshot_of(input, a),
        sqli_snapshot_of(input, b),
    ensures
        a == b,
{
    if input.len() == 0 || !spec_sqli_may_be_interesting(input) {
        assert(spans_of(a.evidence) =~= spans_of(b.evidence));
    }
    lemma_snapshot_ext(a, b);
}

/// The stage-1 XSS report of an input is unique.
proof fn lemma_xss_snapshot_unique(input: Seq<u8>, a: AnalysisSnapshot, b: AnalysisSnapshot)
    requires
        xss_snapshot_of(input, a),
        xss_snapshot_of(input, b),
    ensures
        a == b,
{
    if input.len() == 0 || !spec_xss_may_be_interesting(input) {
        assert(spans_of(a.evidence) =~= spans_of(b.evidence));
    }
    lemma_snapshot_ext(a, b);
}

/// Stage-1 `SQLi` analysis is a function of the input and the options: two
/// snapshots that both are its result are the same.
pub proof fn law_sqli_analysis_is_determined(input: Seq<u8>, opts: AnalyzeOptions, a: AnalysisSnapshot, b: AnalysisSnapshot)
    requires
        sqli_analysis(input, opts, a),
        sqli_analysis(input, opts, b),
    ensures
        a == b,
{
    let n = opts.spec_effective_max_input_len();
    let s = scanned(input, n);
    let ba = choose|base: AnalysisSnapshot|
        #[trigger] sqli_snapshot_of(s, base) && a == finished(base, input.len() > n, sqli_detect_mask());
    let bb = choose|base: AnalysisSnapshot|
        #[trigger] sqli_snapshot_of(s, base) && b == finished(base, input.len() > n, sqli_detect_mask());
    lemma_sqli_snapshot_unique(s, ba, bb);
}

/// Stage-1 XSS analysis is a function of the input and the options: two
/// snapshots that both are its result are the same.
pub proof fn law_xss_analysis_is_determined(input: Seq<u8>, opts: AnalyzeOptions, a: AnalysisSnapshot, b: AnalysisSnapshot)
    requires
        xss_analysis(input, opts, a),
        xss_analysis(input, opts, b),
    ensures
        a == b,
{
    let n = opts.spec_effective_max_input_len();
    let s = scanned(input, n);
    let ba = choose|base: AnalysisSnapshot|
        #[trigger] xss_snapshot_of(s, base) && a == finished(base, input.len() > n, xss_detect_mask());
    let bb = choose|base: AnalysisSnapshot|
        #[trigger] xss_snapshot_of(s, base) && b == finished(base, input.len() > n, xss_detect_mask());
    lemma_xss_snapshot_unique(s, ba, bb);
}

/// `@detectSQLi` reports the stage-1 analysis unchanged, with the legacy
/// fingerprint copied in when that engine flags the scanned bytes, and
/// detects exactly when the analysis' constructs meet the built-in policy
/// or a fingerprint was found.
pub proof fn law_detect_sqli_extends_analysis(
    input: Seq<u8>,
    opts: AnalyzeOptions,
    a: AnalysisSnapshot,
    v: DetectionVerdict,
)
    requires
        sqli_analysis(input, opts, a),
        sqli_verdict(input, opts, v),
    ensures
        v.snapshot.legacy_fingerprint.len == 0 ==> v.snapshot == a,
        v.snapshot.legacy_fingerprint.len > 0 ==> with_legacy_fingerprint(a, v.snapshot),
        v.detected == (a.constructs.spec_intersects(ConstructFlags(sqli_detect_mask()))
            || v.snapshot.legacy_fingerprint.len > 0),
{
    let base = choose|base: AnalysisSnapshot|
        #[trigger] sqli_analysis(input, opts, base) && (v.snapshot.legacy_fingerprint.len == 0 ==> v.snapshot
            == base) && (v.snapshot.legacy_fingerprint.len > 0 ==> with_legacy_fingerprint(base, v.snapshot));
    law_sqli_analysis_is_determined(input, opts, a, base);
}

/// `@detectXSS` reports the stage-1 analysis unchanged, and detects exactly
/// when its constructs meet the built-in policy or the legacy deny lists
/// flag the scanned bytes.
pub proof fn law_detect_xss_reports_analysis(
    input: Seq<u8>,
    opts: AnalyzeOptions,
    a: AnalysisSnapshot,
    v: DetectionVerdict,
)
    requires
        xss_analysis(input, opts, a),
        xss_verdict(input, opts, v),
    ensures
        v.snapshot == a,
        v.detected == (a.constructs.spec_intersects(ConstructFlags(xss_detect_mask())) || legacy_xss(
            scanned(input, opts.spec_effective_max_input_len()),
        )),
{
    law_xss_analysis_is_determined(input, opts, a, v.snapshot);
}

/// An input that fits both the scan budget and the normalization buffer is
/// not reported as truncated (`SQLi`).
pub proof fn law_sqli_short_input_not_truncated(input: Seq<u8>, opts: AnalyzeOptions, r: AnalysisSnapshot)
    requires
        sqli_analysis(input, opts, r),
        input.len() <= opts.spec_effective_max_input_len(),
        input.len() <= NORM_BUF_LEN,
    ensures
        !r.flags.spec_contains(AnalysisFlags::TRUNCATED),
{
    let n = opts.spec_effective_max_input_len();
    let base = choose|base: AnalysisSnapshot|
        #[trigger] sqli_snapshot_of(scanned(input, n), base) && r == finished(base, input.len() > n, sqli_detect_mask());
    assert(scanned(input, n) == input);
    lemma_norm_bounds(input, 0, NORM_BUF_LEN as int);
    let x = r.flags.0;
    assert(x == 0 || x == 8 || x == 16 ==> x & 1u16 == 0) by (bit_vector);
    assert(0u16 | 0u16 == 0u16 && 0u16 | 16u16 == 16u16) by (bit_vector);
}

/// An input that fits both the scan budget and the normalization buffer is
/// not reported as truncated (XSS).
pub proof fn law_xss_short_input_not_truncated(input: Seq<u8>, opts: AnalyzeOptions, r: AnalysisSnapshot)
    requires
        xss_analysis(input, opts, r),
        input.len() <= opts.spec_effective_max_input_len(),
        input.len() <= NORM_BUF_LEN,
    ensures
        !r.flags.spec_contains(AnalysisFlags::TRUNCATED),
{
    let n = opts.spec_effective_max_input_len();
    let base = choose|base: AnalysisSnapshot|
        #[trigger] xss_snapshot_of(scanned(input, n), base) && r == finished(base, input.len() > n, xss_detect_mask());
    assert(scanned(input, n) == input);
    lemma_norm_bounds(input, 0, NORM_BUF_LEN as int);
    let x = r.flags.0;
    assert(x == 0 || x == 8 ==> x & 1u16 == 0) by (bit_vector);
}

} // verus!
