//! The twelve addressing modes: where an operand lives and what reaching it
//! does to the address registers.

use vstd::prelude::*;
use crate::m68000::registers::{
    AddressRegister, DataRegister, IndexRegister, IndexSize, OpSize, RegisterFile, Registers,
    SizedValue,
};
use crate::m68000::traits::{read_sized, write_sized, BusAccess, BusInterface};

verus! {

/// The conditions under which the core leaves the instruction stream.
#[derive(Debug, Clone, Copy, PartialEq, Eq, Structural)]
pub enum Exception {
    /// A word or long-word access at an odd address.
    AddressError,
    /// An opcode or an addressing mode that the core does not know.
    IllegalInstruction,
}

impl Exception {
    /// The exception's number in the vector table.
    pub open spec fn vector(self) -> u32 {
        match self {
            Exception::AddressError => 3,
            Exception::IllegalInstruction => 4,
        }
    }

    pub fn vector_number(self) -> (number: u32)
        ensures
            number == self.vector(),
    {
        match self {
            Exception::AddressError => 3,
            Exception::IllegalInstruction => 4,
        }
    }
}

#[derive(Debug, Clone, Copy, PartialEq, Eq, Structural)]
pub enum AddressingMode {
    DataDirect(DataRegister),
    AddressDirect(AddressRegister),
    AddressIndirect(AddressRegister),
    AddressIndirectPostincrement(AddressRegister),
    AddressIndirectPredecrement(AddressRegister),
    AddressIndirectDisplacement(AddressRegister, i16),
    AddressIndirectIndexed(AddressRegister, IndexRegister, IndexSize, i8),
    /// The program counter is the address of the extension word.
    PcRelativeDisplacement(u32, i16),
    PcRelativeIndexed(u32, IndexRegister, IndexSize, i8),
    AbsoluteShort(i16),
    AbsoluteLong(u32),
    Immediate(u32),
}

/// Words and long words live at even addresses.
pub open spec fn misaligned(address: u32, size: OpSize) -> bool {
    size != OpSize::Byte && address % 2 == 1
}

impl AddressingMode {
    /// Every register that the mode names exists.
    pub open spec fn valid(self) -> bool {
        match self {
            AddressingMode::DataDirect(register) => register.valid(),
            AddressingMode::AddressDirect(register) => register.valid(),
            AddressingMode::AddressIndirect(register) => register.valid(),
            AddressingMode::AddressIndirectPostincrement(register) => register.valid(),
            AddressingMode::AddressIndirectPredecrement(register) => register.valid(),
            AddressingMode::AddressIndirectDisplacement(register, _) => register.valid(),
            AddressingMode::AddressIndirectIndexed(register, index, _, _) => register.valid()
                && index.valid(),
            AddressingMode::PcRelativeDisplacement(_, _) => true,
            AddressingMode::PcRelativeIndexed(_, index, _, _) => index.valid(),
            AddressingMode::AbsoluteShort(_) => true,
            AddressingMode::AbsoluteLong(_) => true,
            AddressingMode::Immediate(_) => true,
        }
    }

    pub open spec fn spec_is_address_direct(self) -> bool {
        self is AddressDirect
    }

    /// Everything but the program-counter relative modes and immediates.
    pub open spec fn spec_is_writable(self) -> bool {
        !(self is PcRelativeDisplacement || self is PcRelativeIndexed || self is Immediate)
    }

    /// The memory address of the operand, or `None` where the operand is a
    /// register or an immediate. Displacements are sign extended and every sum
    /// wraps at 32 bits; a pre-decrement mode addresses the decremented value.
    pub open spec fn effective_address(self, registers: RegisterFile, size: OpSize) -> Option<u32> {
        match self {
            AddressingMode::DataDirect(_) => None,
            AddressingMode::AddressDirect(_) => None,
            AddressingMode::Immediate(_) => None,
            AddressingMode::AddressIndirect(register) => Some(registers.address_register(register)),
            AddressingMode::AddressIndirectPostincrement(register) => Some(
                registers.address_register(register),
            ),
            AddressingMode::AddressIndirectPredecrement(register) => Some(
                registers.address_register(register).wrapping_sub(size.increment_step(register)),
            ),
            AddressingMode::AddressIndirectDisplacement(register, displacement) => Some(
                registers.address_register(register).wrapping_add_signed(displacement as i32),
            ),
            AddressingMode::AddressIndirectIndexed(register, index, index_size, displacement) => Some(
                registers.address_register(register).wrapping_add(
                    registers.index_register(index, index_size),
                ).wrapping_add_signed(displacement as i32),
            ),
            AddressingMode::PcRelativeDisplacement(pc, displacement) => Some(
                pc.wrapping_add_signed(displacement as i32),
            ),
            AddressingMode::PcRelativeIndexed(pc, index, index_size, displacement) => Some(
                pc.wrapping_add(registers.index_register(index, index_size)).wrapping_add_signed(
                    displacement as i32,
                ),
            ),
            AddressingMode::AbsoluteShort(address) => Some(0u32.wrapping_add_signed(address as i32)),
            AddressingMode::AbsoluteLong(address) => Some(address),
        }
    }

    /// The operand of a mode that touches no memory, at width `size`.
    pub open spec fn direct_operand(self, registers: RegisterFile, size: OpSize) -> SizedValue {
        match self {
            AddressingMode::DataDirect(register) => SizedValue::low(
                size,
                registers.data_register(register),
            ),
            AddressingMode::AddressDirect(register) => SizedValue::low(
                size,
                registers.address_register(register),
            ),
            AddressingMode::Immediate(data) => SizedValue::low(size, data),
            _ => SizedValue::low(size, 0),
        }
    }

    /// The register file as the memory access finds it: a pre-decrement mode has
    /// already moved its register down.
    pub open spec fn before_access(self, registers: RegisterFile, size: OpSize) -> RegisterFile {
        match self {
            AddressingMode::AddressIndirectPredecrement(register) => registers.with_address(
                register,
                registers.address_register(register).wrapping_sub(size.increment_step(register)),
            ),
            _ => registers,
        }
    }

    /// The register file once the memory access is done: a post-increment mode
    /// moves its register up only now.
    pub open spec fn after_access(self, registers: RegisterFile, size: OpSize) -> RegisterFile {
        match self {
            AddressingMode::AddressIndirectPostincrement(register) => registers.with_address(
                register,
                registers.address_register(register).wrapping_add(size.increment_step(register)),
            ),
            _ => self.before_access(registers, size),
        }
    }

    /// The register file after `value` is written to a register operand.
    pub open spec fn direct_store(self, registers: RegisterFile, value: SizedValue) -> RegisterFile {
        match self {
            AddressingMode::DataDirect(register) => registers.store_data(register, value),
            AddressingMode::AddressDirect(register) => registers.store_address(register, value),
            _ => registers,
        }
    }

    /// What reading an operand of width `size` through this mode does.
    ///
    /// A register or immediate operand is cut to `size` and nothing changes. A
    /// memory operand at a misaligned address gives an address error before
    /// the bus is touched, though a pre-decrement has happened by then. Any
    /// other memory operand is one read of width `size` at the effective
    /// address, whose answer is the result.
    pub open spec fn read_outcome(
        self,
        size: OpSize,
        before: RegisterFile,
        earlier: Seq<BusAccess>,
        result: Result<SizedValue, Exception>,
        after: RegisterFile,
        accesses: Seq<BusAccess>,
    ) -> bool {
        match self.effective_address(before, size) {
            None => {
                &&& result == Ok::<SizedValue, Exception>(self.direct_operand(before, size))
                &&& after == before
                &&& accesses == earlier
            },
            Some(address) => if misaligned(address, size) {
                &&& result == Err::<SizedValue, Exception>(Exception::AddressError)
                &&& after == self.before_access(before, size)
                &&& accesses == earlier
            } else {
                &&& result matches Ok(value)
                &&& value.size() == size
                &&& after == self.after_access(before, size)
                &&& accesses == earlier.push(BusAccess::Read { address, value })
            },
        }
    }

    /// What writing `value` through this mode does.
    ///
    /// A register operand takes the value and the bus stays untouched. A memory
    /// operand at a misaligned address gives an address error before the bus
    /// is touched, though a pre-decrement has happened by then. Any other
    /// memory operand is one write of `value` at the effective address.
    pub open spec fn write_outcome(
        self,
        value: SizedValue,
        before: RegisterFile,
        earlier: Seq<BusAccess>,
        result: Result<(), Exception>,
        after: RegisterFile,
        accesses: Seq<BusAccess>,
    ) -> bool {
        match self.effective_address(before, value.size()) {
            None => {
                &&& result == Ok::<(), Exception>(())
                &&& after == self.direct_store(before, value)
                &&& accesses == earlier
            },
            Some(address) => if misaligned(address, value.size()) {
                &&& result == Err::<(), Exception>(Exception::AddressError)
                &&& after == self.before_access(before, value.size())
                &&& accesses == earlier
            } else {
                &&& result == Ok::<(), Exception>(())
                &&& after == self.after_access(before, value.size())
                &&& accesses == earlier.push(BusAccess::Write { address, value })
            },
        }
    }

    #[verifier::when_used_as_spec(spec_is_address_direct)]
    pub fn is_address_direct(self) -> (direct: bool)
        ensures
            direct == self.spec_is_address_direct(),
    {
        match self {
            AddressingMode::AddressDirect(_) => true,
            _ => false,
        }
    }

    #[verifier::when_used_as_spec(spec_is_writable)]
    pub fn is_writable(self) -> (writable: bool)
        ensures
            writable == self.spec_is_writable(),
    {
        match self {
            AddressingMode::PcRelativeDisplacement(_, _) => false,
            AddressingMode::PcRelativeIndexed(_, _, _, _) => false,
            AddressingMode::Immediate(_) => false,
            _ => true,
        }
    }

    /// Computes the operand's memory address without touching any register.
    #[verifier::rlimit(50)]
    pub fn locate(self, registers: &Registers, size: OpSize) -> (address: Option<u32>)
        requires
            self.valid(),
        ensures
            address == self.effective_address(registers@, size),
    {
        match self {
            AddressingMode::DataDirect(_) => None,
            AddressingMode::AddressDirect(_) => None,
            AddressingMode::Immediate(_) => None,
            AddressingMode::AddressIndirect(register) => Some(register.read_from(registers)),
            AddressingMode::AddressIndirectPostincrement(register) => Some(
                register.read_from(registers),
            ),
            AddressingMode::AddressIndirectPredecrement(register) => {
                let increment_step = size.increment_step_for(register);
                Some(register.read_from(registers).wrapping_sub(increment_step))
            },
            AddressingMode::AddressIndirectDisplacement(register, displacement) => Some(
                register.read_from(registers).wrapping_add_signed(displacement as i32),
            ),
            AddressingMode::AddressIndirectIndexed(register, index, index_size, displacement) => {
                let index = index.read_from(registers, index_size);
                Some(
                    register.read_from(registers).wrapping_add(index).wrapping_add_signed(
                        displacement as i32,
                    ),
                )
            },
            AddressingMode::PcRelativeDisplacement(pc, displacement) => Some(
                pc.wrapping_add_signed(displacement as i32),
            ),
            AddressingMode::PcRelativeIndexed(pc, index, index_size, displacement) => {
                let index = index.read_from(registers, index_size);
                Some(pc.wrapping_add(index).wrapping_add_signed(displacement as i32))
            },
            AddressingMode::AbsoluteShort(address) => Some(0u32.wrapping_add_signed(address as i32)),
            AddressingMode::AbsoluteLong(address) => Some(address),
        }
    }

    /// Moves a pre-decrement mode's register down to `address`.
    fn predecrement(self, registers: &mut Registers, size: OpSize, address: u32)
        requires
            self.valid(),
            self.effective_address(old(registers)@, size) == Some(address),
        ensures
            final(registers)@ == self.before_access(old(registers)@, size),
    {
        if let AddressingMode::AddressIndirectPredecrement(register) = self {
            register.write_long_word_to(registers, address);
        }
    }

    /// Moves a post-increment mode's register up past the operand at `address`.
    fn postincrement(self, registers: &mut Registers, size: OpSize, address: u32)
        requires
            self.valid(),
            self is AddressIndirectPostincrement ==> self.effective_address(
                old(registers)@,
                size,
            ) == Some(address),
        ensures
            final(registers)@ == (if self is AddressIndirectPostincrement {
                self.after_access(old(registers)@, size)
            } else {
                old(registers)@
            }),
    {
        if let AddressingMode::AddressIndirectPostincrement(register) = self {
            let increment_step = size.increment_step_for(register);
            register.write_long_word_to(registers, address.wrapping_add(increment_step));
        }
    }

    #[verifier::rlimit(50)]
    pub fn read_from<B: BusInterface>(
        self,
        registers: &mut Registers,
        bus: &mut B,
        size: OpSize,
    ) -> (result: Result<SizedValue, Exception>)
        requires
            self.valid(),
        ensures
            self.read_outcome(
                size,
                old(registers)@,
                old(bus).accesses(),
                result,
                final(registers)@,
                final(bus).accesses(),
            ),
    {
        match self.locate(registers, size) {
            None => {
                let raw = match self {
                    AddressingMode::DataDirect(register) => register.read_from(registers),
                    AddressingMode::AddressDirect(register) => register.read_from(registers),
                    AddressingMode::Immediate(data) => data,
                    _ => 0,
                };
                Ok(SizedValue::truncate(size, raw))
            },
            Some(address) => {
                self.predecrement(registers, size, address);
                if size != OpSize::Byte && address % 2 == 1 {
                    return Err(Exception::AddressError);
                }
                let value = read_sized(bus, address, size);
                self.postincrement(registers, size, address);
                Ok(value)
            },
        }
    }

    #[verifier::rlimit(50)]
    pub fn write_to<B: BusInterface>(
        self,
        registers: &mut Registers,
        bus: &mut B,
        value: SizedValue,
    ) -> (result: Result<(), Exception>)
        requires
            self.valid(),
            self.spec_is_writable(),
            !(self is AddressDirect && value is Byte),
        ensures
            self.write_outcome(
                value,
                old(registers)@,
                old(bus).accesses(),
                result,
                final(registers)@,
                final(bus).accesses(),
            ),
    {
        let size = value.op_size();
        match self.locate(registers, size) {
            None => {
                match self {
                    AddressingMode::DataDirect(register) => match value {
                        SizedValue::Byte(value) => register.write_byte_to(registers, value),
                        SizedValue::Word(value) => register.write_word_to(registers, value),
                        SizedValue::LongWord(value) => register.write_long_word_to(registers, value),
                    },
                    AddressingMode::AddressDirect(register) => match value {
                        SizedValue::Byte(_) => {},
                        SizedValue::Word(value) => register.write_word_to(registers, value),
                        SizedValue::LongWord(value) => register.write_long_word_to(registers, value),
                    },
                    _ => {},
                }
                Ok(())
            },
            Some(address) => {
                self.predecrement(registers, size, address);
                if size != OpSize::Byte && address % 2 == 1 {
                    return Err(Exception::AddressError);
                }
                write_sized(bus, address, value);
                self.postincrement(registers, size, address);
                Ok(())
            },
        }
    }
}

} // verus!
