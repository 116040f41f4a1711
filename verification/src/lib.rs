//! A source-to-source rewrite engine for `nameof`-style invocations.
//!
//! The engine classifies an expression or type node as one of several
//! `nameof` request shapes, walks the accessor chain of the requested
//! target while honouring lexical-scope stop rules, and assembles the
//! replacement literal: a single name, an array of segment names, or a
//! dotted (possibly templated) path.  The engine consumes an owned,
//! host-independent syntax model and returns either a replacement node
//! or a diagnostic; it never mutates the host's tree and never panics.

pub mod ast;
pub mod diagnostics;
pub mod engine;
pub mod laws;
pub mod replace;
pub mod scope;
pub mod segment;
pub mod serialization;
pub mod substitution;
pub mod target;
pub mod walker;
