//! `SQLi` dialect / quote flags for the shared tokenizer and legacy engine.
//!
//! Distinct from [`crate::snapshot::ConstructFlags`] (modern construct bits).
use vstd::prelude::*;

verus! {

/// Parser mode flags (quote context + SQL dialect), packed as a bitset.
#[derive(Debug, Clone, Copy, PartialEq, Eq)]
pub struct SqliFlags(pub u32);

impl SqliFlags {
    /// No quote simulation; dialect unset / default.
    pub fn none() -> (r: SqliFlags)
        ensures
            r.0 == 0,
    {
        SqliFlags(0)
    }
}

} // verus!
