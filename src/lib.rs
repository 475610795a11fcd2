//! Instruction-execution core of an 8-bit accumulator CPU in the style of the 6502.
//!
//! The core fetches opcodes from a byte-addressable bus, resolves operands by
//! addressing mode, executes the load and store families and keeps the status
//! flags, all under contracts stated over a mathematical model of the machine.

pub mod bus;
pub mod flags;
pub mod cpu;
pub mod opcodes;
pub mod proofs;
