//! Execution cores for a family of retro console emulators: a Motorola 68000
//! decode/execute engine, a MOS 6502 engine, and the NES cartridge loader with
//! its bank-switching mappers.
//!
//! Every CPU core is driven through a bus capability supplied by the host. A bus
//! keeps a ghost record of the accesses made to it, and the cores' contracts say
//! exactly which accesses one step performs and how the register file changes
//! for whatever values the bus answers with.

pub mod bits;
pub mod m68000;
pub mod mos6502;
pub mod nes;
