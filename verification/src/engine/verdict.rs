//! Map constructs + flags to [`VerdictHint`].
use vstd::prelude::*;
use crate::policy::{weak_signal, weak_signal_mask};
use crate::snapshot::{AnalysisFlags, ConstructFlags, VerdictHint};

verus! {

/// Normalization or tokenization stopped before consuming the full input.
pub open spec fn spec_scan_limited(flags: AnalysisFlags) -> bool {
    flags.spec_contains(AnalysisFlags::TRUNCATED) || flags.spec_contains(AnalysisFlags::TOKEN_LIMIT)
}

/// The stage-1 verdict hint for given constructs, flags and detect mask.
pub open spec fn spec_verdict_hint(
    constructs: ConstructFlags,
    flags: AnalysisFlags,
    detect_mask: ConstructFlags,
) -> VerdictHint {
    if flags.spec_contains(AnalysisFlags::PREFILTER_MISS) {
        VerdictHint::Benign
    } else if constructs.spec_intersects(detect_mask) {
        VerdictHint::Decisive
    } else if spec_scan_limited(flags) && (constructs.0 & weak_signal_mask()) != 0 {
        VerdictHint::Inconclusive
    } else if constructs.spec_any_sqli() || constructs.spec_any_xss() {
        VerdictHint::Suspicious
    } else {
        VerdictHint::Benign
    }
}

/// True when normalization or tokenization stopped before consuming the full input.
pub fn scan_limited(flags: AnalysisFlags) -> (r: bool)
    ensures
        r == spec_scan_limited(flags),
{
    flags.contains(AnalysisFlags::TRUNCATED) || flags.contains(AnalysisFlags::TOKEN_LIMIT)
}

/// Derive stage-1 verdict hint from constructs and status flags.
///
/// Policy-level constructs stay [`VerdictHint::Decisive`] even when the scan was
/// truncated. [`VerdictHint::Inconclusive`] is reserved for limited scans that
/// only surfaced weak dialect hints.
pub fn verdict_hint(
    constructs: ConstructFlags,
    flags: AnalysisFlags,
    detect_mask: ConstructFlags,
) -> (r: VerdictHint)
    ensures
        r == spec_verdict_hint(constructs, flags, detect_mask),
{
    if flags.contains(AnalysisFlags::PREFILTER_MISS) {
        return VerdictHint::Benign;
    }
    if constructs.intersects(detect_mask) {
        return VerdictHint::Decisive;
    }
    if scan_limited(flags) && constructs.intersects(weak_signal()) {
        return VerdictHint::Inconclusive;
    }
    if constructs.any_sqli() || constructs.any_xss() {
        return VerdictHint::Suspicious;
    }
    VerdictHint::Benign
}

/// A scan with the prefilter-miss bit is always benign, whatever constructs it holds.
pub proof fn law_prefilter_miss_is_benign(
    constructs: ConstructFlags,
    flags: AnalysisFlags,
    detect_mask: ConstructFlags,
)
    requires
        flags.spec_contains(AnalysisFlags::PREFILTER_MISS),
    ensures
        spec_verdict_hint(constructs, flags, detect_mask) == VerdictHint::Benign,
{
}

/// Without the prefilter-miss bit, a construct in the detect mask is decisive,
/// whether or not the scan was truncated or hit the token limit.
pub proof fn law_policy_match_is_decisive(
    constructs: ConstructFlags,
    flags: AnalysisFlags,
    detect_mask: ConstructFlags,
)
    requires
        !flags.spec_contains(AnalysisFlags::PREFILTER_MISS),
        constructs.spec_intersects(detect_mask),
    ensures
        spec_verdict_hint(constructs, flags, detect_mask) == VerdictHint::Decisive,
{
}

/// With no constructs at all the hint is benign, truncated or not.
pub proof fn law_no_constructs_is_benign(flags: AnalysisFlags, detect_mask: ConstructFlags)
    ensures
        spec_verdict_hint(ConstructFlags(0), flags, detect_mask) == VerdictHint::Benign,
{
    assert((0u32 & detect_mask.0) == 0) by (bit_vector);
    assert((0u32 & 0x0700u32) == 0) by (bit_vector);
    assert((0u32 & 0xFFFFu32) == 0) by (bit_vector);
    assert((0u32 & 0x0FFF_0000u32) == 0) by (bit_vector);
}

/// `Inconclusive` is only ever produced for a limited scan.
pub proof fn law_inconclusive_only_when_limited(
    constructs: ConstructFlags,
    flags: AnalysisFlags,
    detect_mask: ConstructFlags,
)
    requires
        spec_verdict_hint(constructs, flags, detect_mask) == VerdictHint::Inconclusive,
    ensures
        spec_scan_limited(flags),
        !constructs.spec_intersects(detect_mask),
{
}

} // verus!
