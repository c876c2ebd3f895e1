//! The 6502 register file.

use vstd::prelude::*;

verus! {

/// The six flags that the status register really holds. The break flag and
/// the unused bit exist only in the byte that goes onto the stack.
#[derive(Debug, Clone, Copy, PartialEq, Eq, Structural)]
pub struct StatusFlags {
    pub carry: bool,
    pub zero: bool,
    pub interrupt_disable: bool,
    pub decimal: bool,
    pub overflow: bool,
    pub negative: bool,
}

impl StatusFlags {
    /// The status byte `[N,V,1,B,D,I,Z,C]`; the unused bit is always set.
    pub open spec fn to_byte(self, break_flag: bool) -> u8 {
        ((if self.negative { 0x80int } else { 0 }) + (if self.overflow { 0x40int } else { 0 })
            + 0x20 + (if break_flag { 0x10int } else { 0 }) + (if self.decimal { 0x08int } else { 0 })
            + (if self.interrupt_disable { 0x04int } else { 0 }) + (if self.zero { 0x02int } else { 0 })
            + (if self.carry { 0x01int } else { 0 })) as u8
    }

    /// The flags that a status byte holds; the break flag and the unused bit
    /// are dropped.
    pub open spec fn from_byte(value: u8) -> Self {
        StatusFlags {
            carry: value % 2 == 1,
            zero: (value / 2) % 2 == 1,
            interrupt_disable: (value / 4) % 2 == 1,
            decimal: (value / 8) % 2 == 1,
            overflow: (value / 64) % 2 == 1,
            negative: value >= 0x80,
        }
    }

    /// The flags with N and Z describing `value`.
    pub open spec fn with_nz(self, value: u8) -> Self {
        StatusFlags { zero: value == 0, negative: value >= 0x80, ..self }
    }

    pub fn byte(self, break_flag: bool) -> (value: u8)
        ensures
            value == self.to_byte(break_flag),
    {
        let negative: u8 = if self.negative { 0x80 } else { 0 };
        let overflow: u8 = if self.overflow { 0x40 } else { 0 };
        let brk: u8 = if break_flag { 0x10 } else { 0 };
        let decimal: u8 = if self.decimal { 0x08 } else { 0 };
        let interrupt_disable: u8 = if self.interrupt_disable { 0x04 } else { 0 };
        let zero: u8 = if self.zero { 0x02 } else { 0 };
        let carry: u8 = if self.carry { 0x01 } else { 0 };
        negative + overflow + 0x20 + brk + decimal + interrupt_disable + zero + carry
    }

    pub fn of_byte(value: u8) -> (flags: Self)
        ensures
            flags == StatusFlags::from_byte(value),
    {
        StatusFlags {
            carry: value % 2 == 1,
            zero: (value / 2) % 2 == 1,
            interrupt_disable: (value / 4) % 2 == 1,
            decimal: (value / 8) % 2 == 1,
            overflow: (value / 64) % 2 == 1,
            negative: value >= 0x80,
        }
    }

    pub fn set_nz(self, value: u8) -> (flags: Self)
        ensures
            flags == self.with_nz(value),
    {
        StatusFlags { zero: value == 0, negative: value >= 0x80, ..self }
    }
}

/// Program counter, accumulator, index registers, stack pointer and flags.
/// The stack lives in page 1, at 0x0100 plus the stack pointer.
#[derive(Debug, Clone, Copy, PartialEq, Eq, Structural)]
pub struct Registers {
    pub pc: u16,
    pub a: u8,
    pub x: u8,
    pub y: u8,
    pub sp: u8,
    pub status: StatusFlags,
}

impl Registers {
    /// The registers before the first reset: all zero but for the
    /// interrupt-disable flag.
    pub open spec fn initial() -> Self {
        Registers {
            pc: 0,
            a: 0,
            x: 0,
            y: 0,
            sp: 0,
            status: StatusFlags {
                carry: false,
                zero: false,
                interrupt_disable: true,
                decimal: false,
                overflow: false,
                negative: false,
            },
        }
    }

    /// The address of the top of the stack: where the next push goes.
    pub open spec fn stack_address(self) -> u16 {
        (0x0100 + self.sp) as u16
    }

    /// The registers after a push: the stack pointer goes down and wraps
    /// within its page.
    pub open spec fn pushed(self) -> Self {
        Registers { sp: ((self.sp + 255) % 256) as u8, ..self }
    }

    /// The registers after a pull: the stack pointer goes up and wraps within
    /// its page.
    pub open spec fn pulled(self) -> Self {
        Registers { sp: ((self.sp + 1) % 256) as u8, ..self }
    }

    pub open spec fn with_pc(self, pc: u16) -> Self {
        Registers { pc, ..self }
    }
}

/// The address `offset` bytes after `address`; addresses wrap at 16 bits.
#[verifier::opaque]
pub open spec fn address_after(address: u16, offset: int) -> u16 {
    ((address + offset) % 0x1_0000) as u16
}

/// The address with the given high and low bytes.
#[verifier::opaque]
pub open spec fn address_of(high: u8, low: u8) -> u16 {
    (high * 0x100 + low) as u16
}

/// The zero-page address `index` bytes after `base`; it wraps within page 0.
#[verifier::opaque]
pub open spec fn zero_page(base: u8, index: int) -> u16 {
    ((base + index) % 0x100) as u16
}

/// The address after `pointer` within the page of `pointer`: the low byte
/// wraps and the high byte stays.
#[verifier::opaque]
pub open spec fn next_in_page(pointer: u16) -> u16 {
    ((pointer / 0x100) * 0x100 + (pointer + 1) % 0x100) as u16
}

/// Moving on by one offset and then by another is moving on by their sum.
pub proof fn lemma_address_after_twice(address: u16, first: int, second: int)
    ensures
        address_after(address_after(address, first), second) == address_after(
            address,
            first + second,
        ),
        address_after(address, 0) == address,
{
    reveal(address_after);
}

pub fn make_address(high: u8, low: u8) -> (address: u16)
    ensures
        address == address_of(high, low),
{
    proof {
        reveal(address_of);
    }
    high as u16 * 0x100 + low as u16
}

/// The address `offset` bytes after `address`.
pub fn address_plus(address: u16, offset: u16) -> (moved: u16)
    ensures
        moved == address_after(address, offset as int),
{
    proof {
        reveal(address_after);
    }
    address.wrapping_add(offset)
}

/// The address before `address`.
pub fn address_before(address: u16) -> (moved: u16)
    ensures
        moved == address_after(address, -1),
{
    proof {
        reveal(address_after);
    }
    address.wrapping_sub(1)
}

/// The address after `pointer` within the page of `pointer`.
pub fn page_wrapped_next(pointer: u16) -> (next: u16)
    ensures
        next == next_in_page(pointer),
{
    proof {
        reveal(next_in_page);
    }
    (pointer / 0x100) * 0x100 + (pointer % 0x100 + 1) % 0x100
}

/// The zero-page address `index` bytes after `base`.
pub fn zero_page_address(base: u8, index: u8) -> (address: u16)
    ensures
        address == zero_page(base, index as int),
{
    proof {
        reveal(zero_page);
    }
    (base as u16 + index as u16) % 0x100
}

} // verus!
