//! Generates human-readable documentation pages from structured config files
//! that describe software components ("nodes"), and optionally aggregates the
//! pages into a package-level index.
//!
//! The pipeline: a traversal engine walks a directory tree (its filesystem
//! work supplied by the caller), the parser recognises and reads config
//! files into the document model, the generator renders one page per node,
//! and the index builder groups all documented nodes by package.

pub mod commands;
pub mod doc_types;
pub mod engine;
pub mod errors;
pub mod generators;
pub mod parsers;
