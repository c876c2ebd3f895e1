//! The bus capability through which the 68000 core reaches memory.

use vstd::prelude::*;
use crate::m68000::registers::{OpSize, SizedValue};

verus! {

/// One access made to a bus: where, how wide, and the value that the bus
/// answered with or was given.
#[derive(Debug, Clone, Copy, PartialEq, Eq, Structural)]
pub enum BusAccess {
    Read { address: u32, value: SizedValue },
    Write { address: u32, value: SizedValue },
}

impl BusAccess {
    pub open spec fn value(self) -> SizedValue {
        match self {
            BusAccess::Read { value, .. } => value,
            BusAccess::Write { value, .. } => value,
        }
    }

    /// The held value when it is a word, else 0.
    pub open spec fn word(self) -> u16 {
        match self.value() {
            SizedValue::Word(value) => value,
            _ => 0,
        }
    }
}

/// Byte, word and long-word access at a 32-bit address; words and long words
/// are big-endian.
///
/// A bus may do anything at all in answer to an access. What an implementation
/// owes is a faithful record: each call appends exactly one entry to
/// `accesses`, and nothing else changes that record. The record is a ghost:
/// an implementation in unverified code leaves it as it is declared here and
/// is trusted to behave as if it kept one.
pub trait BusInterface {
    /// Every access made so far, oldest first.
    open spec fn accesses(&self) -> Seq<BusAccess> {
        arbitrary()
    }

    fn read_memory(&mut self, address: u32) -> (value: u8)
        ensures
            final(self).accesses() == old(self).accesses().push(
                BusAccess::Read { address, value: SizedValue::Byte(value) },
            ),
    ;

    fn read_word(&mut self, address: u32) -> (value: u16)
        ensures
            final(self).accesses() == old(self).accesses().push(
                BusAccess::Read { address, value: SizedValue::Word(value) },
            ),
    ;

    fn read_long_word(&mut self, address: u32) -> (value: u32)
        ensures
            final(self).accesses() == old(self).accesses().push(
                BusAccess::Read { address, value: SizedValue::LongWord(value) },
            ),
    ;

    fn write_memory(&mut self, address: u32, value: u8)
        ensures
            final(self).accesses() == old(self).accesses().push(
                BusAccess::Write { address, value: SizedValue::Byte(value) },
            ),
    ;

    fn write_word(&mut self, address: u32, value: u16)
        ensures
            final(self).accesses() == old(self).accesses().push(
                BusAccess::Write { address, value: SizedValue::Word(value) },
            ),
    ;

    fn write_long_word(&mut self, address: u32, value: u32)
        ensures
            final(self).accesses() == old(self).accesses().push(
                BusAccess::Write { address, value: SizedValue::LongWord(value) },
            ),
    ;
}

/// Reads a value of width `size` at `address`.
pub fn read_sized<B: BusInterface>(bus: &mut B, address: u32, size: OpSize) -> (value: SizedValue)
    ensures
        value.size() == size,
        final(bus).accesses() == old(bus).accesses().push(BusAccess::Read { address, value }),
{
    match size {
        OpSize::Byte => SizedValue::Byte(bus.read_memory(address)),
        OpSize::Word => SizedValue::Word(bus.read_word(address)),
        OpSize::LongWord => SizedValue::LongWord(bus.read_long_word(address)),
    }
}

/// Writes `value`, at its own width, to `address`.
pub fn write_sized<B: BusInterface>(bus: &mut B, address: u32, value: SizedValue)
    ensures
        final(bus).accesses() == old(bus).accesses().push(BusAccess::Write { address, value }),
{
    match value {
        SizedValue::Byte(value) => bus.write_memory(address, value),
        SizedValue::Word(value) => bus.write_word(address, value),
        SizedValue::LongWord(value) => bus.write_long_word(address, value),
    }
}

} // verus!
