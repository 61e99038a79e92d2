//! Instruction-execution core of an emulator for an 8-bit, Game Boy style CPU.
//!
//! The crate is layered leaf-first: a byte-addressable memory surface, the
//! register file with its packed flags byte, the instruction decoder, and the
//! execution engine that fetches, decodes and executes one instruction per
//! step. The engine's contracts are stated over a state machine, which has a
//! module of its own.
pub mod bus;
pub mod cpu;
pub mod instruction;
pub mod machine;
pub mod registers;
