//! Shared stage-1 building blocks: ASCII scans, normalization, prefilter,
//! tokenization and verdict hints.
pub mod ascii;
pub mod bytes;
pub mod evidence;
pub mod verdict;
pub mod normalize;
pub mod token;
pub mod prefilter;
