//! A source-to-source compiler for the Rustic language.
//!
//! A module of Rustic source text is tokenized, parsed into a syntax tree,
//! checked by the semantic analyzer and lowered to Rust source text. Every
//! stage is specified by a mathematical model of its result, and the
//! executable code is proved to compute exactly that model.

pub mod text;
pub mod diagnostics;
pub mod compiler;
