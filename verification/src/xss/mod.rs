//! XSS analysis: the legacy HTML5 tokenizer path and stage-1 construct flags.
pub mod legacy;
pub mod modern;
