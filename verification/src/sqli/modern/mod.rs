//! Stage-1 `SQLi` analysis (construct flags, zero heap).
pub mod classify;

use vstd::prelude::*;
use crate::engine::evidence::{evidence_ok, push_hits, spans_of};
use crate::engine::normalize::{normalize, spec_normalize};
use crate::engine::prefilter::{spec_sqli_may_be_interesting, sqli_may_be_interesting};
use crate::engine::token::{spec_tokens_from, stored_of, tokenize};
use crate::engine::verdict::{spec_verdict_hint, verdict_hint};
use crate::limits::MAX_TOKEN_SLOTS;
use crate::options::AnalyzeOptions;
use crate::policy::{builtin_sqli_detect, sqli_detect_mask};
use crate::snapshot::{
    status_bit, status_bit_if, AnalysisContext, AnalysisFlags, AnalysisSnapshot, ConstructFlags,
    LegacyFingerprint, XssHtmlContext,
};
use crate::sqli::modern::classify::{
    classify, dialect_of, spec_dialect_hits, spec_quote_mode, spec_sqli_constructs, sqli_hits,
};

verus! {

/// The snapshot of an input that the prefilter let through unchanged:
/// no constructs, only the prefilter-miss status bit, a benign hint.
pub open spec fn is_prefilter_miss(s: AnalysisSnapshot) -> bool {
    &&& s.constructs.0 == 0
    &&& s.flags.0 == AnalysisFlags::PREFILTER_MISS
    &&& s.verdict_hint == crate::snapshot::VerdictHint::Benign
    &&& s.context == (AnalysisContext {
        sqli_quote_mode: crate::snapshot::SqliQuoteMode::Unquoted,
        xss_html_context: XssHtmlContext::Data,
        dialect: crate::snapshot::SqlDialect::Ansi,
    })
    &&& s.evidence.count == 0
    &&& s.evidence.tail_clear()
    &&& s.legacy_fingerprint.is_clear()
}

/// What stage-1 `SQLi` analysis reports for `input`: the empty input is
/// benign, a prefilter miss reports only that, and otherwise the constructs,
/// status bits, hint, context and evidence spans follow from the detectors
/// over the input, its normalization and its tokens.
pub open spec fn sqli_snapshot_of(input: Seq<u8>, s: AnalysisSnapshot) -> bool {
    if input.len() == 0 {
        s.is_benign()
    } else if !spec_sqli_may_be_interesting(input) {
        is_prefilter_miss(s)
    } else {
        let norm = spec_normalize(input);
        let toks = spec_tokens_from(input, 0);
        &&& s.constructs.0 == spec_sqli_constructs(input, norm.0, stored_of(toks))
        &&& s.flags.0 == status_bit(norm.1, AnalysisFlags::TRUNCATED) | status_bit(
            toks.len() > MAX_TOKEN_SLOTS,
            AnalysisFlags::TOKEN_LIMIT,
        )
        &&& s.verdict_hint == spec_verdict_hint(s.constructs, s.flags, ConstructFlags(sqli_detect_mask()))
        &&& s.context == (AnalysisContext {
            sqli_quote_mode: spec_quote_mode(input),
            xss_html_context: XssHtmlContext::Data,
            dialect: dialect_of(spec_dialect_hits(input, stored_of(toks))),
        })
        &&& spans_of(s.evidence) == push_hits(seq![], input, sqli_hits(input, norm.0, stored_of(toks)))
        &&& s.evidence.wf()
        &&& s.evidence.tail_clear()
        &&& s.legacy_fingerprint.is_clear()
    }
}

/// Analyze one input slice (the caller applies the scan budget).
pub fn analyze(input: &[u8], opts: AnalyzeOptions) -> (r: AnalysisSnapshot)
    requires
        input@.len() < usize::MAX,
    ensures
        sqli_snapshot_of(input@, r),
        evidence_ok(r.evidence, input@),
{
    if input.len() == 0 {
        return AnalysisSnapshot::benign();
    }
    if !sqli_may_be_interesting(input) {
        let b = AnalysisSnapshot::benign();
        return AnalysisSnapshot { flags: AnalysisFlags(AnalysisFlags::PREFILTER_MISS), ..b };
    }
    let norm = normalize(input);
    let tokens = tokenize(input);
    let classified = classify(input, norm.bytes(), &tokens);
    let flags = AnalysisFlags(
        status_bit_if(norm.norm_truncated, AnalysisFlags::TRUNCATED) | status_bit_if(
            tokens.limit_hit,
            AnalysisFlags::TOKEN_LIMIT,
        ),
    );
    let verdict = verdict_hint(classified.constructs, flags, builtin_sqli_detect());
    AnalysisSnapshot {
        constructs: classified.constructs,
        flags,
        verdict_hint: verdict,
        context: AnalysisContext {
            sqli_quote_mode: classified.quote_mode,
            xss_html_context: XssHtmlContext::Data,
            dialect: classified.dialect,
        },
        evidence: classified.evidence,
        legacy_fingerprint: LegacyFingerprint::none(),
    }
}

} // verus!
