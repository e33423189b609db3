//! A virtual machine for a fixed instruction set over 15-bit words.
//!
//! The machine state (memory, registers, stack, instruction pointer), the
//! operand and opcode decoding rules, and the single-instruction transition
//! are all stated as spec functions; the executable code is proved to follow
//! them exactly.

pub mod decode;
pub mod engine;
pub mod image;
pub mod input;
pub mod laws;
pub mod machine;
pub mod semantics;
