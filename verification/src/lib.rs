//! A lint that finds `if let Some(pat) = expr.ok()` on a `Result` and proposes
//! `if let Ok(pat) = expr` in its place.
//!
//! The host hands over one syntax-tree node at a time, in the form of the
//! types of [`syntax`]. The lint decides on the node alone ([`matcher`]), asks
//! the host for the source text of two spans when the node has the redundant
//! shape ([`suggestion`]), and hands back a diagnostic for the host to emit
//! ([`report`]). [`lint`] holds the entry point, [`laws`] what is proved of it
//! for every input.

pub mod laws;
pub mod lint;
pub mod matcher;
pub mod report;
pub mod span;
pub mod suggestion;
pub mod syntax;
pub mod text;
pub mod types;
