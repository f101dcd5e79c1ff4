//! Caller-facing analysis options (operator policy knobs).
use vstd::prelude::*;
use crate::limits::{DEFAULT_MAX_INPUT_LEN, ABSOLUTE_MAX_INPUT_LEN, clamp_max_input_len, spec_clamp_max_input_len};

verus! {

/// Options for stage-1 `analyze_*` / `detect_*`.
///
/// Set at WAF init / operator config. Never from untrusted request metadata.
#[derive(Clone, Copy, Debug, PartialEq, Eq)]
pub struct AnalyzeOptions {
    /// Requested scan budget in bytes.
    /// Clamped to `ABSOLUTE_MAX_INPUT_LEN` when applied inside analyze.
    pub max_input_len: usize,
}

impl AnalyzeOptions {
    /// Build options with an explicit scan budget (clamped on use).
    pub fn with_max_input_len(max_input_len: usize) -> (r: Self)
        ensures
            r.max_input_len == max_input_len,
    {
        Self { max_input_len }
    }

    /// The effective scan budget of these options.
    pub open spec fn spec_effective_max_input_len(self) -> usize {
        spec_clamp_max_input_len(self.max_input_len)
    }

    /// Scan budget after applying the absolute clamp.
    pub fn effective_max_input_len(self) -> (r: usize)
        ensures
            r == self.spec_effective_max_input_len(),
            r <= ABSOLUTE_MAX_INPUT_LEN,
    {
        clamp_max_input_len(self.max_input_len)
    }
}

impl Default for AnalyzeOptions {
    /// Defaults to [`DEFAULT_MAX_INPUT_LEN`].
    fn default() -> (r: Self)
        ensures
            r.max_input_len == DEFAULT_MAX_INPUT_LEN,
    {
        Self { max_input_len: DEFAULT_MAX_INPUT_LEN }
    }
}

} // verus!
