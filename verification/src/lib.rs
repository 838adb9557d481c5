//! Bytecode-generation front end for a dynamic-language virtual machine.
//!
//! The crate walks an abstract syntax tree and emits a linear instruction
//! stream together with an auxiliary constant pool, ready for execution by a
//! bytecode interpreter. Instructions either carry their operand inline or
//! reference the pool by index; every emitted index stays strictly below the
//! final pool length, so no reference ever dangles.

pub mod ast;
pub mod codegen;
pub mod compiler;
pub mod eval;
pub mod instruction;
pub mod laws;
pub mod value;
