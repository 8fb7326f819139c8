//! Reconstruction of structured error values from rendered message text.
//!
//! An upstream database renders its structured errors into plain strings.
//! This crate turns the rendering templates back into matchers: each
//! template (literal text with `{name}` or `{index}` placeholders) is
//! compiled into an anchored pattern, the compiled patterns are collected
//! into an ordered registry, and a free-text message is matched against
//! the registry in declaration order to recover the variant and its
//! field values.

pub mod template;

pub mod matching;

pub mod registry;

pub mod errors;

pub mod query;

pub use errors::QueryError;
