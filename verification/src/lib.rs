//! Decoder for 32-bit machine words of a MIPS-style instruction set.
//!
//! A word is sliced into fields at fixed bit positions, its opcode (and, for
//! opcode zero, its function code) is classified, and the result is assembled
//! into one of three instruction shapes. Decoding is a pure function of the
//! word: it keeps no state and either yields one instruction or one error.

pub mod classify;
pub mod decode;
pub mod fields;
pub mod instructions;

pub use decode::{decode, ToInstruction};
pub use instructions::{DecodeError, IType, Instruction, JType, RType};
