//! The 68000 register file and the values that move through it.

use vstd::prelude::*;
use vstd::std_specs::convert::FromSpecImpl;
use crate::bits::{sign_extend_word, extend_word};

verus! {

/// The five condition codes held in the low byte of the status register.
#[derive(Debug, Clone, Copy, PartialEq, Eq, Structural)]
pub struct ConditionCodes {
    pub carry: bool,
    pub overflow: bool,
    pub zero: bool,
    pub negative: bool,
    pub extend: bool,
}

impl ConditionCodes {
    /// The codes held in a byte laid out as `[.,.,.,X,N,Z,V,C]`; the three high
    /// bits are ignored.
    pub open spec fn from_byte(value: u8) -> Self {
        ConditionCodes {
            carry: value % 2 == 1,
            overflow: (value / 2) % 2 == 1,
            zero: (value / 4) % 2 == 1,
            negative: (value / 8) % 2 == 1,
            extend: (value / 16) % 2 == 1,
        }
    }

    /// The byte `[0,0,0,X,N,Z,V,C]`.
    pub open spec fn to_byte(self) -> u8 {
        ((if self.extend { 16int } else { 0 })
            + (if self.negative { 8int } else { 0 })
            + (if self.zero { 4int } else { 0 })
            + (if self.overflow { 2int } else { 0 })
            + (if self.carry { 1int } else { 0 })) as u8
    }
}

impl From<u8> for ConditionCodes {
    fn from(value: u8) -> (codes: Self) {
        ConditionCodes {
            carry: value % 2 == 1,
            overflow: (value / 2) % 2 == 1,
            zero: (value / 4) % 2 == 1,
            negative: (value / 8) % 2 == 1,
            extend: (value / 16) % 2 == 1,
        }
    }
}

impl FromSpecImpl<u8> for ConditionCodes {
    open spec fn obeys_from_spec() -> bool {
        true
    }

    open spec fn from_spec(value: u8) -> Self {
        ConditionCodes::from_byte(value)
    }
}

impl From<ConditionCodes> for u8 {
    fn from(value: ConditionCodes) -> (byte: u8) {
        let extend: u8 = if value.extend { 16 } else { 0 };
        let negative: u8 = if value.negative { 8 } else { 0 };
        let zero: u8 = if value.zero { 4 } else { 0 };
        let overflow: u8 = if value.overflow { 2 } else { 0 };
        let carry: u8 = if value.carry { 1 } else { 0 };
        extend + negative + zero + overflow + carry
    }
}

impl FromSpecImpl<ConditionCodes> for u8 {
    open spec fn obeys_from_spec() -> bool {
        true
    }

    open spec fn from_spec(value: ConditionCodes) -> u8 {
        value.to_byte()
    }
}

/// The register file: D0..D7, A0..A6, the two stack pointers that stand in for
/// A7, the program counter and the status register's parts.
#[derive(Debug)]
pub struct Registers {
    pub data: [u32; 8],
    pub address: [u32; 7],
    pub usp: u32,
    pub ssp: u32,
    pub pc: u32,
    pub ccr: ConditionCodes,
    pub interrupt_priority_mask: u8,
    pub supervisor_mode: bool,
    pub trace_enabled: bool,
}

/// The register file as a mathematical value.
#[verifier::ext_equal]
pub struct RegisterFile {
    pub data: Seq<u32>,
    pub address: Seq<u32>,
    pub usp: u32,
    pub ssp: u32,
    pub pc: u32,
    pub ccr: ConditionCodes,
    pub interrupt_priority_mask: u8,
    pub supervisor_mode: bool,
    pub trace_enabled: bool,
}

impl View for Registers {
    type V = RegisterFile;

    open spec fn view(&self) -> RegisterFile {
        RegisterFile {
            data: self.data@,
            address: self.address@,
            usp: self.usp,
            ssp: self.ssp,
            pc: self.pc,
            ccr: self.ccr,
            interrupt_priority_mask: self.interrupt_priority_mask,
            supervisor_mode: self.supervisor_mode,
            trace_enabled: self.trace_enabled,
        }
    }
}

impl RegisterFile {
    /// Eight data registers and seven general address registers.
    pub open spec fn wf(self) -> bool {
        self.data.len() == 8 && self.address.len() == 7
    }

    /// The register file after power-on: everything zero, supervisor mode on.
    pub open spec fn initial() -> Self {
        RegisterFile {
            data: Seq::new(8, |i: int| 0u32),
            address: Seq::new(7, |i: int| 0u32),
            usp: 0,
            ssp: 0,
            pc: 0,
            ccr: ConditionCodes::from_byte(0),
            interrupt_priority_mask: 0,
            supervisor_mode: true,
            trace_enabled: false,
        }
    }

    /// The status register `[T,0,0,S,0,I2,I1,I0] [0,0,0,X,N,Z,V,C]` as a
    /// big-endian word: T is bit 15, S bit 12 and the interrupt mask bits
    /// 10..8. Only the low three bits of the interrupt mask count.
    pub open spec fn status_register(self) -> u16 {
        ((if self.trace_enabled { 0x8000int } else { 0 })
            + (if self.supervisor_mode { 0x1000int } else { 0 })
            + (self.interrupt_priority_mask % 8) * 0x100
            + self.ccr.to_byte()) as u16
    }

    /// The register file with the status register's parts taken from `value`;
    /// bits that the layout does not use are dropped.
    pub open spec fn with_status_register(self, value: u16) -> Self {
        RegisterFile {
            interrupt_priority_mask: ((value / 0x100) % 8) as u8,
            supervisor_mode: (value / 0x1000) % 2 == 1,
            trace_enabled: (value / 0x8000) % 2 == 1,
            ccr: ConditionCodes::from_byte((value % 0x100) as u8),
            ..self
        }
    }

    pub open spec fn with_pc(self, pc: u32) -> Self {
        RegisterFile { pc, ..self }
    }

    pub open spec fn with_ccr(self, ccr: ConditionCodes) -> Self {
        RegisterFile { ccr, ..self }
    }

    pub open spec fn data_register(self, register: DataRegister) -> u32 {
        self.data[register.0 as int]
    }

    pub open spec fn with_data(self, register: DataRegister, value: u32) -> Self {
        RegisterFile { data: self.data.update(register.0 as int, value), ..self }
    }

    /// A7 is the supervisor stack pointer in supervisor mode and the user stack
    /// pointer otherwise.
    pub open spec fn address_register(self, register: AddressRegister) -> u32 {
        if register.0 == 7 {
            if self.supervisor_mode {
                self.ssp
            } else {
                self.usp
            }
        } else {
            self.address[register.0 as int]
        }
    }

    pub open spec fn with_address(self, register: AddressRegister, value: u32) -> Self {
        if register.0 == 7 {
            if self.supervisor_mode {
                RegisterFile { ssp: value, ..self }
            } else {
                RegisterFile { usp: value, ..self }
            }
        } else {
            RegisterFile { address: self.address.update(register.0 as int, value), ..self }
        }
    }

    /// The register file after `value` is written to a data register: a byte
    /// or a word replaces the low bits and the rest stay.
    pub open spec fn store_data(self, register: DataRegister, value: SizedValue) -> Self {
        let existing = self.data_register(register);
        match value {
            SizedValue::Byte(value) => self.with_data(
                register,
                (existing / 0x100 * 0x100 + value) as u32,
            ),
            SizedValue::Word(value) => self.with_data(
                register,
                (existing / 0x1_0000 * 0x1_0000 + value) as u32,
            ),
            SizedValue::LongWord(value) => self.with_data(register, value),
        }
    }

    /// The register file after `value` is written to an address register: a
    /// word is sign extended to all 32 bits. Address registers take no bytes.
    pub open spec fn store_address(self, register: AddressRegister, value: SizedValue) -> Self {
        match value {
            SizedValue::Byte(_) => self,
            SizedValue::Word(value) => self.with_address(register, sign_extend_word(value)),
            SizedValue::LongWord(value) => self.with_address(register, value),
        }
    }

    pub open spec fn index_register(self, register: IndexRegister, size: IndexSize) -> u32 {
        let raw = match register {
            IndexRegister::Data(register) => self.data_register(register),
            IndexRegister::Address(register) => self.address_register(register),
        };
        match size {
            IndexSize::SignExtendedWord => sign_extend_word((raw % 0x1_0000) as u16),
            IndexSize::LongWord => raw,
        }
    }
}

impl Registers {
    pub fn new() -> (registers: Self)
        ensures
            registers@ == RegisterFile::initial(),
    {
        Self {
            data: [0; 8],
            address: [0; 7],
            usp: 0,
            ssp: 0,
            pc: 0,
            ccr: ConditionCodes::from(0u8),
            interrupt_priority_mask: 0,
            supervisor_mode: true,
            trace_enabled: false,
        }
    }

    pub fn status_register(&self) -> (value: u16)
        ensures
            value == self@.status_register(),
    {
        let lsb: u8 = u8::from(self.ccr);
        let trace: u16 = if self.trace_enabled { 0x8000 } else { 0 };
        let supervisor: u16 = if self.supervisor_mode { 0x1000 } else { 0 };
        trace + supervisor + (self.interrupt_priority_mask % 8) as u16 * 0x100 + lsb as u16
    }

    pub fn set_status_register(&mut self, value: u16)
        ensures
            final(self)@ == old(self)@.with_status_register(value),
    {
        self.interrupt_priority_mask = ((value / 0x100) % 8) as u8;
        self.supervisor_mode = (value / 0x1000) % 2 == 1;
        self.trace_enabled = (value / 0x8000) % 2 == 1;
        self.ccr = ConditionCodes::from((value % 0x100) as u8);
    }
}

/// One of D0..D7, by number.
#[derive(Debug, Clone, Copy, PartialEq, Eq, Structural)]
pub struct DataRegister(pub u8);

impl DataRegister {
    pub open spec fn valid(self) -> bool {
        self.0 < 8
    }

    pub fn read_from(self, registers: &Registers) -> (value: u32)
        requires
            self.valid(),
        ensures
            value == registers@.data_register(self),
    {
        registers.data[self.0 as usize]
    }

    /// Replaces the low byte; the upper 24 bits stay.
    pub fn write_byte_to(self, registers: &mut Registers, value: u8)
        requires
            self.valid(),
        ensures
            final(registers)@ == old(registers)@.with_data(
                self,
                (old(registers)@.data_register(self) / 0x100 * 0x100 + value) as u32,
            ),
    {
        let existing_value: u32 = registers.data[self.0 as usize];
        registers.data[self.0 as usize] = existing_value / 0x100 * 0x100 + value as u32;
    }

    /// Replaces the low word; the upper 16 bits stay.
    pub fn write_word_to(self, registers: &mut Registers, value: u16)
        requires
            self.valid(),
        ensures
            final(registers)@ == old(registers)@.with_data(
                self,
                (old(registers)@.data_register(self) / 0x1_0000 * 0x1_0000 + value) as u32,
            ),
    {
        let existing_value: u32 = registers.data[self.0 as usize];
        registers.data[self.0 as usize] = existing_value / 0x1_0000 * 0x1_0000 + value as u32;
    }

    pub fn write_long_word_to(self, registers: &mut Registers, value: u32)
        requires
            self.valid(),
        ensures
            final(registers)@ == old(registers)@.with_data(self, value),
    {
        registers.data[self.0 as usize] = value;
    }
}

/// One of A0..A7, by number.
#[derive(Debug, Clone, Copy, PartialEq, Eq, Structural)]
pub struct AddressRegister(pub u8);

impl AddressRegister {
    pub open spec fn valid(self) -> bool {
        self.0 < 8
    }

    pub open spec fn spec_is_stack_pointer(self) -> bool {
        self.0 == 7
    }

    #[verifier::when_used_as_spec(spec_is_stack_pointer)]
    pub fn is_stack_pointer(self) -> (is_sp: bool)
        ensures
            is_sp == self.spec_is_stack_pointer(),
    {
        self.0 == 7
    }

    pub fn read_from(self, registers: &Registers) -> (value: u32)
        requires
            self.valid(),
        ensures
            value == registers@.address_register(self),
    {
        if self.0 == 7 {
            if registers.supervisor_mode {
                registers.ssp
            } else {
                registers.usp
            }
        } else {
            registers.address[self.0 as usize]
        }
    }

    /// Word writes to an address register are sign extended to 32 bits.
    pub fn write_word_to(self, registers: &mut Registers, value: u16)
        requires
            self.valid(),
        ensures
            final(registers)@ == old(registers)@.with_address(self, sign_extend_word(value)),
    {
        self.write_long_word_to(registers, extend_word(value));
    }

    pub fn write_long_word_to(self, registers: &mut Registers, value: u32)
        requires
            self.valid(),
        ensures
            final(registers)@ == old(registers)@.with_address(self, value),
    {
        if self.0 == 7 {
            if registers.supervisor_mode {
                registers.ssp = value;
            } else {
                registers.usp = value;
            }
        } else {
            registers.address[self.0 as usize] = value;
        }
    }
}

/// The width of an operand.
#[derive(Debug, Clone, Copy, PartialEq, Eq, Structural)]
pub enum OpSize {
    Byte,
    Word,
    LongWord,
}

impl OpSize {
    pub open spec fn bytes(self) -> u32 {
        match self {
            OpSize::Byte => 1,
            OpSize::Word => 2,
            OpSize::LongWord => 4,
        }
    }

    /// How far a post-increment or pre-decrement moves `register`: the operand's
    /// width, except that the stack pointer stays word aligned on byte operands.
    pub open spec fn increment_step(self, register: AddressRegister) -> u32 {
        match self {
            OpSize::Byte => if register.0 == 7 {
                2
            } else {
                1
            },
            OpSize::Word => 2,
            OpSize::LongWord => 4,
        }
    }

    pub fn increment_step_for(self, register: AddressRegister) -> (step: u32)
        ensures
            step == self.increment_step(register),
    {
        match self {
            OpSize::Byte => if register.is_stack_pointer() {
                2
            } else {
                1
            },
            OpSize::Word => 2,
            OpSize::LongWord => 4,
        }
    }
}

/// An operand together with its width.
#[derive(Debug, Clone, Copy, PartialEq, Eq, Structural)]
pub enum SizedValue {
    Byte(u8),
    Word(u16),
    LongWord(u32),
}

impl SizedValue {
    pub open spec fn size(self) -> OpSize {
        match self {
            SizedValue::Byte(_) => OpSize::Byte,
            SizedValue::Word(_) => OpSize::Word,
            SizedValue::LongWord(_) => OpSize::LongWord,
        }
    }

    /// The held value, zero extended.
    pub open spec fn raw(self) -> u32 {
        match self {
            SizedValue::Byte(value) => value as u32,
            SizedValue::Word(value) => value as u32,
            SizedValue::LongWord(value) => value,
        }
    }

    /// The high bit of the held width.
    pub open spec fn negative(self) -> bool {
        match self {
            SizedValue::Byte(value) => value >= 0x80,
            SizedValue::Word(value) => value >= 0x8000,
            SizedValue::LongWord(value) => value >= 0x8000_0000,
        }
    }

    /// The low `size` bytes of `value`.
    pub open spec fn low(size: OpSize, value: u32) -> SizedValue {
        match size {
            OpSize::Byte => SizedValue::Byte((value % 0x100) as u8),
            OpSize::Word => SizedValue::Word((value % 0x1_0000) as u16),
            OpSize::LongWord => SizedValue::LongWord(value),
        }
    }

    pub fn op_size(self) -> (size: OpSize)
        ensures
            size == self.size(),
    {
        match self {
            SizedValue::Byte(_) => OpSize::Byte,
            SizedValue::Word(_) => OpSize::Word,
            SizedValue::LongWord(_) => OpSize::LongWord,
        }
    }

    pub fn truncate(size: OpSize, value: u32) -> (low: SizedValue)
        ensures
            low == SizedValue::low(size, value),
    {
        match size {
            OpSize::Byte => SizedValue::Byte((value % 0x100) as u8),
            OpSize::Word => SizedValue::Word((value % 0x1_0000) as u16),
            OpSize::LongWord => SizedValue::LongWord(value),
        }
    }

    pub fn is_zero(self) -> (zero: bool)
        ensures
            zero == (self.raw() == 0),
    {
        match self {
            SizedValue::Byte(value) => value == 0,
            SizedValue::Word(value) => value == 0,
            SizedValue::LongWord(value) => value == 0,
        }
    }

    pub fn sign_bit(self) -> (negative: bool)
        ensures
            negative == self.negative(),
    {
        match self {
            SizedValue::Byte(value) => value >= 0x80,
            SizedValue::Word(value) => value >= 0x8000,
            SizedValue::LongWord(value) => value >= 0x8000_0000,
        }
    }
}

/// The register that an indexed addressing mode adds to its base.
#[derive(Debug, Clone, Copy, PartialEq, Eq, Structural)]
pub enum IndexRegister {
    Data(DataRegister),
    Address(AddressRegister),
}

/// How much of the index register an indexed addressing mode uses.
#[derive(Debug, Clone, Copy, PartialEq, Eq, Structural)]
pub enum IndexSize {
    SignExtendedWord,
    LongWord,
}

impl IndexRegister {
    pub open spec fn valid(self) -> bool {
        match self {
            IndexRegister::Data(register) => register.valid(),
            IndexRegister::Address(register) => register.valid(),
        }
    }

    pub fn read_from(self, registers: &Registers, size: IndexSize) -> (value: u32)
        requires
            self.valid(),
        ensures
            value == registers@.index_register(self, size),
    {
        let raw_value = match self {
            IndexRegister::Data(register) => register.read_from(registers),
            IndexRegister::Address(register) => register.read_from(registers),
        };
        match size {
            IndexSize::SignExtendedWord => extend_word((raw_value % 0x1_0000) as u16),
            IndexSize::LongWord => raw_value,
        }
    }
}

} // verus!
