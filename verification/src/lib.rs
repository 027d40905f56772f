//! Verified core logic of the Archivindex web archiving and indexing tools.
//!
//! The crate models CDX field names and the CDX server query protocol, extension properties,
//! the line framing of record-per-line archive files, the request framing of the scripted HTTP
//! test servers, digest text encodings, the decisions of publishing a complete file, the shared
//! command-line vocabulary, and the workspace policy check of `cargo archivindex-build`.

pub mod text;
pub mod field;
pub mod query;
pub mod cli;
pub mod lines;
pub mod http;
pub mod workspace;
pub mod digest;
pub mod publication;
pub mod properties;
