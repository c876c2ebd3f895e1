//! The NES cartridge: its memories, the loader for iNES and NES 2.0 files, and
//! the bank-switching mappers.

pub mod cartridge;
pub mod laws;
pub mod loader;
pub mod mappers;
