//! SQL injection and XSS analysis for WAF hot paths.
//!
//! Stage 1 returns a fixed-size [`AnalysisSnapshot`]. [`detect_sqli`] /
//! [`detect_xss`] apply a built-in minimal policy for the `@detectSQLi` /
//! `@detectXSS` operators. Scan budget defaults are in [`limits`]; override
//! via [`AnalyzeOptions`] (operator policy, not request input).
use vstd::prelude::*;

pub mod flags;
pub mod limits;
pub mod options;
pub mod snapshot;
pub mod policy;
pub mod engine;
pub mod sqli;
pub mod xss;
pub mod workspace;
pub mod laws;
pub mod detector_laws;

pub use flags::SqliFlags;
pub use limits::{
    clamp_max_input_len, scan_prefix, ABSOLUTE_MAX_INPUT_LEN, DEEP_MAX_INPUT_LEN, DEFAULT_MAX_INPUT_LEN,
    MAX_EVIDENCE, MAX_INPUT_LEN, MAX_STACK_BUDGET, MAX_TOKEN_SLOTS, NORM_BUF_LEN,
};
pub use options::AnalyzeOptions;
pub use snapshot::{
    AnalysisContext, AnalysisFlags, AnalysisSnapshot, ConstructFlags, DetectionVerdict, EvidenceSet, EvidenceSpan,
    LegacyFingerprint, SqlDialect, SqliQuoteMode, VerdictHint, XssHtmlContext,
};
pub use xss::legacy::{html5_visit, Html5TokenKind};

use crate::engine::evidence::evidence_ok;
use crate::engine::verdict::{spec_verdict_hint, verdict_hint};
use crate::policy::{builtin_sqli_detect, builtin_xss_detect, sqli_detect_mask, xss_detect_mask};
use crate::sqli::legacy::detect::{is_blacklisted, is_sqli};
use crate::sqli::legacy::passes::legacy_fingerprint_of;
use crate::sqli::modern::sqli_snapshot_of;
use crate::xss::legacy::{detect, legacy_xss};
use crate::xss::modern::xss_snapshot_of;

verus! {

/// The bytes that stage 1 scans: the first `max` bytes of `input`.
pub open spec fn scanned(input: Seq<u8>, max: usize) -> Seq<u8> {
    if input.len() > max {
        input.subrange(0, max as int)
    } else {
        input
    }
}

/// `base` with the truncation bit set and the hint recomputed when `truncated`.
pub open spec fn finished(base: AnalysisSnapshot, truncated: bool, mask: u32) -> AnalysisSnapshot {
    if truncated {
        let flags = AnalysisFlags(base.flags.0 | AnalysisFlags::TRUNCATED);
        AnalysisSnapshot {
            flags,
            verdict_hint: spec_verdict_hint(base.constructs, flags, ConstructFlags(mask)),
            ..base
        }
    } else {
        base
    }
}

/// `r` is the stage-1 `SQLi` analysis of `input` under `opts`.
pub open spec fn sqli_analysis(input: Seq<u8>, opts: AnalyzeOptions, r: AnalysisSnapshot) -> bool {
    let n = opts.spec_effective_max_input_len();
    exists|base: AnalysisSnapshot|
        #[trigger] sqli_snapshot_of(scanned(input, n), base) && r == finished(
            base,
            input.len() > n,
            sqli_detect_mask(),
        )
}

/// `r` is the stage-1 XSS analysis of `input` under `opts`.
pub open spec fn xss_analysis(input: Seq<u8>, opts: AnalyzeOptions, r: AnalysisSnapshot) -> bool {
    let n = opts.spec_effective_max_input_len();
    exists|base: AnalysisSnapshot|
        #[trigger] xss_snapshot_of(scanned(input, n), base) && r == finished(
            base,
            input.len() > n,
            xss_detect_mask(),
        )
}

/// `s` is `base` with a legacy fingerprint copied in: a listed fingerprint of
/// one to five bytes over the first bytes of `base`'s, flagged as available.
pub open spec fn with_legacy_fingerprint(base: AnalysisSnapshot, s: AnalysisSnapshot) -> bool {
    &&& s.constructs == base.constructs
    &&& s.flags.0 == base.flags.0 | AnalysisFlags::LEGACY_FP_AVAILABLE
    &&& s.verdict_hint == base.verdict_hint
    &&& s.context == base.context
    &&& s.evidence == base.evidence
    &&& 1 <= s.legacy_fingerprint.len <= 5
    &&& is_blacklisted(s.legacy_fingerprint.bytes@.subrange(0, s.legacy_fingerprint.len as int))
    &&& s.legacy_fingerprint.bytes@.subrange(s.legacy_fingerprint.len as int, 8)
        == base.legacy_fingerprint.bytes@.subrange(s.legacy_fingerprint.len as int, 8)
}

/// `r` is the `@detectSQLi` verdict on `input` under `opts`: the stage-1
/// analysis, plus the legacy fingerprint exactly when that engine flags the
/// scanned bytes; detected when the constructs meet the policy or a
/// fingerprint was found.
pub open spec fn sqli_verdict(input: Seq<u8>, opts: AnalyzeOptions, r: DetectionVerdict) -> bool {
    &&& input.len() == 0 ==> !r.detected && r.snapshot.is_benign()
    &&& exists|base: AnalysisSnapshot|
        #[trigger] sqli_analysis(input, opts, base) && (r.snapshot.legacy_fingerprint.len == 0 ==> r.snapshot
            == base) && (r.snapshot.legacy_fingerprint.len > 0 ==> with_legacy_fingerprint(base, r.snapshot))
    &&& r.detected == (r.snapshot.constructs.spec_intersects(ConstructFlags(sqli_detect_mask()))
        || r.snapshot.legacy_fingerprint.len > 0)
    &&& match legacy_fingerprint_of(scanned(input, opts.spec_effective_max_input_len())) {
        Some(fp) => r.snapshot.legacy_fingerprint.bytes@.subrange(0, r.snapshot.legacy_fingerprint.len as int) == fp,
        None => r.snapshot.legacy_fingerprint.len == 0,
    }
}

/// `r` is the `@detectXSS` verdict on `input` under `opts`: the stage-1
/// analysis; detected when the constructs meet the policy or the legacy
/// deny lists flag the scanned bytes in some HTML entry context.
pub open spec fn xss_verdict(input: Seq<u8>, opts: AnalyzeOptions, r: DetectionVerdict) -> bool {
    &&& input.len() == 0 ==> !r.detected && r.snapshot.is_benign()
    &&& xss_analysis(input, opts, r.snapshot)
    &&& r.detected == (r.snapshot.constructs.spec_intersects(ConstructFlags(xss_detect_mask())) || legacy_xss(
        scanned(input, opts.spec_effective_max_input_len()),
    ))
}

/// Set the truncation bit and refresh the hint when the input was cut.
fn finish_snapshot(snap: AnalysisSnapshot, truncated: bool, mask: ConstructFlags) -> (r: AnalysisSnapshot)
    ensures
        r == finished(snap, truncated, mask.0),
{
    if truncated {
        let flags = AnalysisFlags(snap.flags.0 | AnalysisFlags::TRUNCATED);
        AnalysisSnapshot { flags, verdict_hint: verdict_hint(snap.constructs, flags, mask), ..snap }
    } else {
        snap
    }
}

/// Apply scan truncation flags and refresh the verdict hint for `SQLi`.
fn finish_sqli_snapshot(snap: AnalysisSnapshot, truncated: bool) -> (r: AnalysisSnapshot)
    ensures
        r == finished(snap, truncated, sqli_detect_mask()),
{
    finish_snapshot(snap, truncated, builtin_sqli_detect())
}

/// Apply scan truncation flags and refresh the verdict hint for XSS.
fn finish_xss_snapshot(snap: AnalysisSnapshot, truncated: bool) -> (r: AnalysisSnapshot)
    ensures
        r == finished(snap, truncated, xss_detect_mask()),
{
    finish_snapshot(snap, truncated, builtin_xss_detect())
}

/// Primary hot-path `SQLi` analysis with the default scan budget.
pub fn analyze_sqli(input: &[u8]) -> (r: AnalysisSnapshot)
    ensures
        sqli_analysis(input@, AnalyzeOptions { max_input_len: DEFAULT_MAX_INPUT_LEN }, r),
        evidence_ok(r.evidence, input@),
{
    analyze_sqli_with(input, AnalyzeOptions::default())
}

/// `SQLi` analysis with a caller scan budget: the first
/// `opts.effective_max_input_len()` bytes are analyzed, and a longer input is
/// flagged as truncated.
pub fn analyze_sqli_with(input: &[u8], opts: AnalyzeOptions) -> (r: AnalysisSnapshot)
    ensures
        sqli_analysis(input@, opts, r),
        evidence_ok(r.evidence, input@),
{
    let (slice, truncated) = scan_prefix(input, opts.effective_max_input_len());
    let base = sqli::modern::analyze(slice, opts);
    assert(slice@ == scanned(input@, opts.spec_effective_max_input_len()));
    finish_sqli_snapshot(base, truncated)
}

/// XSS analysis with a caller scan budget.
pub fn analyze_xss_with(input: &[u8], opts: AnalyzeOptions) -> (r: AnalysisSnapshot)
    ensures
        xss_analysis(input@, opts, r),
        evidence_ok(r.evidence, input@),
{
    let (slice, truncated) = scan_prefix(input, opts.effective_max_input_len());
    let base = xss::modern::analyze(slice, opts);
    assert(slice@ == scanned(input@, opts.spec_effective_max_input_len()));
    finish_xss_snapshot(base, truncated)
}

/// Primary hot-path XSS analysis with the default scan budget.
pub fn analyze_xss(input: &[u8]) -> (r: AnalysisSnapshot)
    ensures
        xss_analysis(input@, AnalyzeOptions { max_input_len: DEFAULT_MAX_INPUT_LEN }, r),
        evidence_ok(r.evidence, input@),
{
    analyze_xss_with(input, AnalyzeOptions::default())
}

/// Run legacy fingerprint detection on `slice` and copy the fingerprint into
/// `snapshot` on a hit (a slice is never longer than `isize::MAX` bytes).
fn merge_legacy_sqli(snapshot: &mut AnalysisSnapshot, slice: &[u8]) -> (r: bool)
    requires
        slice@.len() <= isize::MAX,
    ensures
        r ==> with_legacy_fingerprint(*old(snapshot), *final(snapshot)),
        !r ==> *final(snapshot) == *old(snapshot),
        slice@.len() == 0 ==> !r,
        r == legacy_fingerprint_of(slice@) is Some,
        r ==> legacy_fingerprint_of(slice@) == Some(
            final(snapshot).legacy_fingerprint.bytes@.subrange(0, final(snapshot).legacy_fingerprint.len as int),
        ),
{
    let (hit, fp_bytes, fp_len) = is_sqli(slice);
    if hit {
        let mut bytes = snapshot.legacy_fingerprint.bytes;
        let end = fp_len as usize;
        let mut i: usize = 0;
        while i < end
            invariant
                end <= 5,
                i <= end,
                forall|k: int| 0 <= k < i ==> bytes@[k] == fp_bytes@[k],
                forall|k: int| i <= k < 8 ==> bytes@[k] == old(snapshot).legacy_fingerprint.bytes@[k],
            decreases end - i,
        {
            bytes[i] = fp_bytes[i];
            i += 1;
        }
        assert(bytes@.subrange(0, end as int) =~= fp_bytes@.subrange(0, end as int));
        assert(bytes@.subrange(end as int, 8) =~= old(snapshot).legacy_fingerprint.bytes@.subrange(end as int, 8));
        snapshot.legacy_fingerprint = LegacyFingerprint { bytes, len: fp_len };
        snapshot.flags = AnalysisFlags(snapshot.flags.0 | AnalysisFlags::LEGACY_FP_AVAILABLE);
    }
    hit
}

/// Built-in minimal policy for `@detectSQLi` with the default scan budget.
pub fn detect_sqli(input: &[u8]) -> (r: DetectionVerdict)
    ensures
        sqli_verdict(input@, AnalyzeOptions { max_input_len: DEFAULT_MAX_INPUT_LEN }, r),
{
    detect_sqli_with(input, AnalyzeOptions::default())
}

/// `@detectSQLi` with a caller scan budget: detected when the constructs meet
/// the built-in policy or the legacy fingerprint engine flags the scanned
/// bytes (its fingerprint is then copied into the snapshot).
pub fn detect_sqli_with(input: &[u8], opts: AnalyzeOptions) -> (r: DetectionVerdict)
    ensures
        sqli_verdict(input@, opts, r),
{
    let (slice, truncated) = scan_prefix(input, opts.effective_max_input_len());
    let base = sqli::modern::analyze(slice, opts);
    assert(slice@ == scanned(input@, opts.spec_effective_max_input_len()));
    let finished_snap = finish_sqli_snapshot(base, truncated);
    let mut snapshot = finished_snap;
    let construct_hit = snapshot.constructs.intersects(builtin_sqli_detect());
    let legacy_hit = merge_legacy_sqli(&mut snapshot, slice);
    let detected = construct_hit || legacy_hit;
    proof {
        ConstructFlags::lemma_empty_meets_nothing(ConstructFlags(sqli_detect_mask()));
    }
    assert(sqli_analysis(input@, opts, finished_snap));
    DetectionVerdict { detected, snapshot }
}

/// Built-in minimal policy for `@detectXSS` with the default scan budget.
pub fn detect_xss(input: &[u8]) -> (r: DetectionVerdict)
    ensures
        xss_verdict(input@, AnalyzeOptions { max_input_len: DEFAULT_MAX_INPUT_LEN }, r),
{
    detect_xss_with(input, AnalyzeOptions::default())
}

/// `@detectXSS` with a caller scan budget: detected when the constructs meet
/// the built-in policy or the legacy HTML5 deny lists flag the scanned bytes.
pub fn detect_xss_with(input: &[u8], opts: AnalyzeOptions) -> (r: DetectionVerdict)
    ensures
        xss_verdict(input@, opts, r),
{
    let (slice, truncated) = scan_prefix(input, opts.effective_max_input_len());
    let base = xss::modern::analyze(slice, opts);
    assert(slice@ == scanned(input@, opts.spec_effective_max_input_len()));
    let snapshot = finish_xss_snapshot(base, truncated);
    let construct_hit = snapshot.constructs.intersects(builtin_xss_detect());
    let legacy_hit = detect(slice);
    let detected = construct_hit || legacy_hit;
    proof {
        ConstructFlags::lemma_empty_meets_nothing(ConstructFlags(xss_detect_mask()));
    }
    DetectionVerdict { detected, snapshot }
}

} // verus!
