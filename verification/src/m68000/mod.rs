//! Motorola 68000 decode/execute engine.

pub mod addressing;
pub mod bus;
pub mod cpu;
pub mod laws;
pub mod registers;
pub mod traits;
