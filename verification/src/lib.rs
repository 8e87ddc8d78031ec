//! Decode and execute core of a CHIP-8 style virtual machine.
//!
//! An opcode word is decoded into an [`Instruction`], and a [`Chip`] applies
//! one instruction at a time to its registers, memory, stack and program
//! counter.

pub mod chip;
pub mod components;
pub mod instruction;
pub mod laws;
pub mod random;
pub mod semantics;

pub use crate::chip::Chip;
pub use crate::instruction::Instruction;
pub use crate::random::{RandomSource, ScriptedSource, ThreadRandom};
pub use crate::semantics::ExecuteError;
