//! Stage-1 XSS analysis (construct flags, zero heap).
pub mod classify;

use vstd::prelude::*;
use crate::engine::evidence::{evidence_ok, push_hits, spans_of};
use crate::engine::normalize::{normalize, spec_normalize};
use crate::engine::prefilter::{spec_xss_may_be_interesting, xss_may_be_interesting};
use crate::engine::verdict::{spec_verdict_hint, verdict_hint};
use crate::options::AnalyzeOptions;
use crate::policy::{builtin_xss_detect, xss_detect_mask};
use crate::snapshot::{
    status_bit, status_bit_if, AnalysisContext, AnalysisFlags, AnalysisSnapshot, ConstructFlags,
    LegacyFingerprint, SqlDialect, SqliQuoteMode,
};
use crate::sqli::modern::is_prefilter_miss;
use crate::xss::legacy::legacy_xss;
use crate::xss::modern::classify::{
    classify, infer_html_context, spec_html_context, spec_xss_constructs, spec_xss_hits, xss_evidence_hits,
};

verus! {

/// What stage-1 XSS analysis reports for `input`: the empty input is benign,
/// a prefilter miss reports only that, and otherwise the constructs follow
/// from the detectors over the input and its normalization in the inferred
/// HTML context, with the deny-list bit set when the legacy deny lists flag
/// the input and no other detector fired; the evidence spans are those the
/// detectors record, in detector order.
pub open spec fn xss_snapshot_of(input: Seq<u8>, s: AnalysisSnapshot) -> bool {
    if input.len() == 0 {
        s.is_benign()
    } else if !spec_xss_may_be_interesting(input) {
        is_prefilter_miss(s)
    } else {
        let norm = spec_normalize(input);
        let ctx = spec_html_context(input);
        &&& s.constructs.0 == spec_xss_constructs(spec_xss_hits(input, norm.0, ctx), legacy_xss(input))
        &&& s.flags.0 == status_bit(norm.1, AnalysisFlags::TRUNCATED)
        &&& s.verdict_hint == spec_verdict_hint(s.constructs, s.flags, ConstructFlags(xss_detect_mask()))
        &&& s.context == (AnalysisContext {
            sqli_quote_mode: SqliQuoteMode::Unquoted,
            xss_html_context: ctx,
            dialect: SqlDialect::Ansi,
        })
        &&& spans_of(s.evidence) == push_hits(seq![], input, xss_evidence_hits(input, norm.0, ctx))
        &&& s.evidence.wf()
        &&& s.evidence.tail_clear()
        &&& s.legacy_fingerprint.is_clear()
    }
}

/// Analyze one input slice (the caller applies the scan budget).
pub fn analyze(input: &[u8], opts: AnalyzeOptions) -> (r: AnalysisSnapshot)
    ensures
        xss_snapshot_of(input@, r),
        evidence_ok(r.evidence, input@),
{
    if input.len() == 0 {
        return AnalysisSnapshot::benign();
    }
    if !xss_may_be_interesting(input) {
        let b = AnalysisSnapshot::benign();
        return AnalysisSnapshot { flags: AnalysisFlags(AnalysisFlags::PREFILTER_MISS), ..b };
    }
    let html_context = infer_html_context(input);
    let norm = normalize(input);
    let nb = norm.bytes();
    let classified = classify(input, nb, html_context);
    let flags = AnalysisFlags(status_bit_if(norm.norm_truncated, AnalysisFlags::TRUNCATED));
    let verdict = verdict_hint(classified.constructs, flags, builtin_xss_detect());
    proof {
        let nv = spec_normalize(input@);
        assert(nb@ == nv.0);

    }
    AnalysisSnapshot {
        constructs: classified.constructs,
        flags,
        verdict_hint: verdict,
        context: AnalysisContext {
            sqli_quote_mode: SqliQuoteMode::Unquoted,
            xss_html_context: classified.html_context,
            dialect: SqlDialect::Ansi,
        },
        evidence: classified.evidence,
        legacy_fingerprint: LegacyFingerprint::none(),
    }
}

} // verus!
