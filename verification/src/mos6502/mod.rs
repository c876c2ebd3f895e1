//! MOS 6502 execution engine.

pub mod alu;
pub mod bus;
pub mod cpu;
pub mod instructions;
pub mod laws;
pub mod registers;
