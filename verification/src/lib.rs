//! A two-pass assembler for a RISC-V-like 32-bit instruction set.
//!
//! Source lines are tokenized, pseudo-instructions are rewritten into base
//! instructions, labels are resolved over two passes, and every instruction
//! is packed into its exact 32-bit encoding.

pub mod assembler;
