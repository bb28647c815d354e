//! A minimal instruction-set simulator with machine-checked semantics.
//!
//! The machine fetches 16-bit instruction words from a flat word-addressed
//! memory, decodes a 5-bit opcode and three operand fields, and executes the
//! instruction against eight 8-bit registers and four condition flags.

pub mod opcode;
pub mod encoding;
pub mod alu;
pub mod machine;
pub mod engine;
pub mod laws;
