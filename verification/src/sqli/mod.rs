//! SQL injection analysis: the stage-1 construct engine and the legacy
//! fingerprint engine.
pub mod legacy;
pub mod modern;
