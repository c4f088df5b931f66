//! An assembler core for a small pipelined teaching ISA with eight registers
//! and 16-bit instruction words: a lexer, a line-indexed token stream, a
//! single-pass parser with precise diagnostics, and a per-opcode encoder.
pub mod opcodes;
pub mod text;
pub mod lexer;
pub mod parser;
pub mod encoder;
pub mod pipeline;
pub mod memory;
pub mod diagnostics;
