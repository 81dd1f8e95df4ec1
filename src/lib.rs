//! Structured query compiler for a full-text index: a serialized boolean query
//! tree is decoded, checked and lowered into an executable query plan, with
//! per-field term extraction and an edge n-gram tokenizer.
pub mod compile;
pub mod compile_laws;
pub mod config;
pub mod edge_ngram;
pub mod error;
pub mod json;
pub mod models;
pub mod plan;
pub mod terms;
pub mod wire;
