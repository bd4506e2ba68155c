//! Extraction of log-call documentation from annotated source comments.
//!
//! A block of comments immediately before a logging call names a severity
//! level, a one-line subject and an optional multi-line description.  This
//! crate locates such blocks through a structural pattern, resolves the
//! captured spans back to the source text, normalizes the text into typed
//! fields, and aggregates the records per severity level, ready to be
//! rendered into one document per level.

pub mod app;
pub mod args;
pub mod extract;
pub mod files;
pub mod language;
pub mod meta;
pub mod template;
