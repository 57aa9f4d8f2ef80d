//! Converts a bibliographic XML export into a flat tabular import format,
//! re-encoding referenced cover images as base64 side records.
//!
//! The crate is organised as the pipeline runs: `codex` holds the record
//! model and the event-driven extractor that rebuilds one book per `book`
//! element, `model` the identifier variants, `mylib` the per-record
//! hashing, cover resolution and row serialization, and `text` the small
//! verified string helpers the rest is specified with.

pub mod codex;
pub mod model;
pub mod mylib;
pub mod text;
