//! The compilation pipeline: lexer, parser, semantic analyzer and code
//! generator, and the facade that runs them on one module.

pub mod ast;
pub mod branching;
pub mod checking;
pub mod codegen;
pub mod copying;
pub mod driver;
pub mod grammar;
pub mod inference;
pub mod laws;
pub mod lexer;
pub mod lowering;
pub mod parser;
pub mod project;
pub mod semantic;
pub mod symbols;
pub mod typing;

pub use crate::compiler::driver::{
    back_end_model, compile_model, front_end_model, parse_source, run_back_end, GeneratedFile,
    Outcome, RusticCompiler, SourceFile,
};
