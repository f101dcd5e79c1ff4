//! Hot-path and deep-path size budgets.
//!
//! Scan depth is a caller policy (defaults + `AnalyzeOptions`); stack buffer
//! sizes are hard library limits.
use vstd::prelude::*;

verus! {

/// Default stage-1 scan budget for `analyze_*` / `detect_*` without options.
pub const DEFAULT_MAX_INPUT_LEN: usize = 8192;

/// Hard clamp for stage-1 scan budget. Never unbounded, even if misconfigured.
pub const ABSOLUTE_MAX_INPUT_LEN: usize = 65536;

/// Alias for [`DEFAULT_MAX_INPUT_LEN`] (same value).
pub const MAX_INPUT_LEN: usize = 8192;

/// Default max bytes for a deep analysis pass (stricter than stage 1).
pub const DEEP_MAX_INPUT_LEN: usize = 2048;

/// Buffer size for bounded normalization (hard, not caller-overridable).
pub const NORM_BUF_LEN: usize = 512;

/// Fixed token slot count: offsets into input, no copies (hard).
pub const MAX_TOKEN_SLOTS: usize = 8;

/// Max evidence spans stored in an `AnalysisSnapshot` (hard).
pub const MAX_EVIDENCE: usize = 4;

/// Documented per-call stack budget target in bytes (soft engineering ceiling).
pub const MAX_STACK_BUDGET: usize = 4096;

/// The scan budget that a requested budget is clamped to.
pub open spec fn spec_clamp_max_input_len(requested: usize) -> usize {
    if requested > ABSOLUTE_MAX_INPUT_LEN {
        ABSOLUTE_MAX_INPUT_LEN
    } else {
        requested
    }
}

/// Clamp a requested scan budget to [`ABSOLUTE_MAX_INPUT_LEN`].
///
/// Values at or below the absolute max are unchanged. Larger values are capped.
pub fn clamp_max_input_len(requested: usize) -> (r: usize)
    ensures
        r == spec_clamp_max_input_len(requested),
        r <= ABSOLUTE_MAX_INPUT_LEN,
        requested <= ABSOLUTE_MAX_INPUT_LEN ==> r == requested,
{
    if requested > ABSOLUTE_MAX_INPUT_LEN {
        ABSOLUTE_MAX_INPUT_LEN
    } else {
        requested
    }
}

/// Return the prefix of `input` to scan and whether the input was truncated.
///
/// The prefix is the first `max_len` bytes when the input is longer than
/// `max_len`, otherwise the whole input.
pub fn scan_prefix(input: &[u8], max_len: usize) -> (r: (&[u8], bool))
    ensures
        r.1 <==> input@.len() > max_len,
        r.1 ==> r.0@ == input@.subrange(0, max_len as int),
        !r.1 ==> r.0@ == input@,
{
    if max_len < input.len() {
        (&input[0..max_len], true)
    } else {
        (input, false)
    }
}

} // verus!
