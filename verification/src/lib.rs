//! Core of an 8-bit CPU: a register file with packed condition flags,
//! 16-bit composite views over register pairs, and an execution engine
//! that applies an instruction's arithmetic effect, flags included.

pub mod cpu;
pub mod instruction;
pub mod register_bank;
