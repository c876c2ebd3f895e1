//! What each instruction computes, apart from its traffic on the bus.

use vstd::prelude::*;
use crate::mos6502::instructions::Mnemonic;
use crate::mos6502::registers::{Registers, StatusFlags};

verus! {

/// A computed byte and the flags after the computation.
#[derive(Debug, Clone, Copy, PartialEq, Eq, Structural)]
pub struct AluResult {
    pub value: u8,
    pub status: StatusFlags,
}

/// 1 for a set carry, 0 for a clear one.
pub open spec fn carry_in(status: StatusFlags) -> int {
    if status.carry {
        1
    } else {
        0
    }
}

/// Binary addition with carry: C is the carry out of bit 7, V says that two
/// operands of one sign gave a result of the other, N and Z describe the
/// result.
pub open spec fn add_binary(status: StatusFlags, a: u8, value: u8) -> AluResult {
    let sum = a + value + carry_in(status);
    let result = (sum % 256) as u8;
    AluResult {
        value: result,
        status: StatusFlags {
            carry: sum > 255,
            overflow: ((a >= 0x80) == (value >= 0x80)) && ((result >= 0x80) != (a >= 0x80)),
            zero: result == 0,
            negative: result >= 0x80,
            ..status
        },
    }
}

/// Decimal addition with carry as the NMOS part does it. The low digits are
/// added and corrected, then the high digits; N and V are taken before the
/// high digit is corrected, Z is that of the binary sum, and C is the decimal
/// carry.
pub open spec fn add_decimal(status: StatusFlags, a: u8, value: u8) -> AluResult {
    let low = a % 16 + value % 16 + carry_in(status);
    let low_corrected = if low >= 10 {
        (low + 6) % 16 + 16
    } else {
        low
    };
    let sum = (a / 16) * 16 + (value / 16) * 16 + low_corrected;
    let signed_sum = (if a >= 0x80 {
        (a / 16) * 16 - 256
    } else {
        (a / 16) * 16
    }) + (if value >= 0x80 {
        (value / 16) * 16 - 256
    } else {
        (value / 16) * 16
    }) + low_corrected;
    let sum_corrected = if sum >= 0xA0 {
        sum + 0x60
    } else {
        sum
    };
    AluResult {
        value: (sum_corrected % 256) as u8,
        status: StatusFlags {
            carry: sum_corrected >= 0x100,
            overflow: signed_sum < -128 || signed_sum > 127,
            zero: (a + value + carry_in(status)) % 256 == 0,
            negative: sum % 256 >= 0x80,
            ..status
        },
    }
}

/// ADC: decimal when the decimal flag is set, else binary.
pub open spec fn add_with_carry(status: StatusFlags, a: u8, value: u8) -> AluResult {
    if status.decimal {
        add_decimal(status, a, value)
    } else {
        add_binary(status, a, value)
    }
}

/// Binary subtraction with borrow: the addition of the complement of `value`.
pub open spec fn subtract_binary(status: StatusFlags, a: u8, value: u8) -> AluResult {
    add_binary(status, a, (255 - value) as u8)
}

/// Decimal subtraction with borrow as the NMOS part does it: the flags are
/// those of the binary subtraction, the result is corrected digit by digit.
pub open spec fn subtract_decimal(status: StatusFlags, a: u8, value: u8) -> AluResult {
    let low = a % 16 - value % 16 + carry_in(status) - 1;
    let low_corrected = if low < 0 {
        (low + 26) % 16 - 16
    } else {
        low
    };
    let difference = (a / 16) * 16 - (value / 16) * 16 + low_corrected;
    let corrected = if difference < 0 {
        difference - 0x60
    } else {
        difference
    };
    AluResult {
        value: ((corrected + 512) % 256) as u8,
        status: subtract_binary(status, a, value).status,
    }
}

/// SBC: decimal when the decimal flag is set, else binary.
pub open spec fn subtract_with_carry(status: StatusFlags, a: u8, value: u8) -> AluResult {
    if status.decimal {
        subtract_decimal(status, a, value)
    } else {
        subtract_binary(status, a, value)
    }
}

/// The flags after `register` is compared with `value`: C says that the
/// register is not below the value, Z that they are equal, and N is bit 7 of
/// their difference.
pub open spec fn compared(status: StatusFlags, register: u8, value: u8) -> StatusFlags {
    StatusFlags {
        carry: register >= value,
        zero: register == value,
        negative: (register + 256 - value) % 256 >= 0x80,
        ..status
    }
}

/// The flags after BIT: Z says that accumulator and value share no bit, V
/// and N are bits 6 and 7 of the value.
pub open spec fn bit_tested(status: StatusFlags, a: u8, value: u8) -> StatusFlags {
    StatusFlags {
        zero: a & value == 0,
        overflow: (value / 64) % 2 == 1,
        negative: value >= 0x80,
        ..status
    }
}

/// The registers after an instruction that reads an operand has read `value`.
pub open spec fn read_effect(mnemonic: Mnemonic, registers: Registers, value: u8) -> Registers {
    let status = registers.status;
    match mnemonic {
        Mnemonic::Lda => Registers { a: value, status: status.with_nz(value), ..registers },
        Mnemonic::Ldx => Registers { x: value, status: status.with_nz(value), ..registers },
        Mnemonic::Ldy => Registers { y: value, status: status.with_nz(value), ..registers },
        Mnemonic::Adc => {
            let result = add_with_carry(status, registers.a, value);
            Registers { a: result.value, status: result.status, ..registers }
        },
        Mnemonic::Sbc => {
            let result = subtract_with_carry(status, registers.a, value);
            Registers { a: result.value, status: result.status, ..registers }
        },
        Mnemonic::And => Registers {
            a: registers.a & value,
            status: status.with_nz(registers.a & value),
            ..registers
        },
        Mnemonic::Ora => Registers {
            a: registers.a | value,
            status: status.with_nz(registers.a | value),
            ..registers
        },
        Mnemonic::Eor => Registers {
            a: registers.a ^ value,
            status: status.with_nz(registers.a ^ value),
            ..registers
        },
        Mnemonic::Cmp => Registers { status: compared(status, registers.a, value), ..registers },
        Mnemonic::Cpx => Registers { status: compared(status, registers.x, value), ..registers },
        Mnemonic::Cpy => Registers { status: compared(status, registers.y, value), ..registers },
        Mnemonic::Bit => Registers { status: bit_tested(status, registers.a, value), ..registers },
        _ => registers,
    }
}

/// The byte that a store instruction writes.
pub open spec fn store_value(mnemonic: Mnemonic, registers: Registers) -> u8 {
    match mnemonic {
        Mnemonic::Sta => registers.a,
        Mnemonic::Stx => registers.x,
        Mnemonic::Sty => registers.y,
        _ => 0,
    }
}

/// What a shift, a rotation, an increment or a decrement makes of `value`.
/// Shifts and rotations put the bit that falls out into C; rotations put the
/// old C in at the other end; all set N and Z from the result.
pub open spec fn modified(mnemonic: Mnemonic, status: StatusFlags, value: u8) -> AluResult {
    match mnemonic {
        Mnemonic::Asl => {
            let result = ((value * 2) % 256) as u8;
            AluResult {
                value: result,
                status: (StatusFlags { carry: value >= 0x80, ..status }).with_nz(result),
            }
        },
        Mnemonic::Lsr => {
            let result = value / 2;
            AluResult {
                value: result,
                status: (StatusFlags { carry: value % 2 == 1, ..status }).with_nz(result),
            }
        },
        Mnemonic::Rol => {
            let result = ((value * 2) % 256 + carry_in(status)) as u8;
            AluResult {
                value: result,
                status: (StatusFlags { carry: value >= 0x80, ..status }).with_nz(result),
            }
        },
        Mnemonic::Ror => {
            let result = (value / 2 + carry_in(status) * 0x80) as u8;
            AluResult {
                value: result,
                status: (StatusFlags { carry: value % 2 == 1, ..status }).with_nz(result),
            }
        },
        Mnemonic::Inc => {
            let result = ((value + 1) % 256) as u8;
            AluResult { value: result, status: status.with_nz(result) }
        },
        Mnemonic::Dec => {
            let result = ((value + 255) % 256) as u8;
            AluResult { value: result, status: status.with_nz(result) }
        },
        _ => AluResult { value, status },
    }
}

/// The registers after an instruction that works on registers alone.
pub open spec fn implied_effect(mnemonic: Mnemonic, registers: Registers) -> Registers {
    let status = registers.status;
    match mnemonic {
        Mnemonic::Tax => Registers { x: registers.a, status: status.with_nz(registers.a), ..registers },
        Mnemonic::Tay => Registers { y: registers.a, status: status.with_nz(registers.a), ..registers },
        Mnemonic::Txa => Registers { a: registers.x, status: status.with_nz(registers.x), ..registers },
        Mnemonic::Tya => Registers { a: registers.y, status: status.with_nz(registers.y), ..registers },
        Mnemonic::Tsx => Registers {
            x: registers.sp,
            status: status.with_nz(registers.sp),
            ..registers
        },
        Mnemonic::Txs => Registers { sp: registers.x, ..registers },
        Mnemonic::Inx => {
            let result = ((registers.x + 1) % 256) as u8;
            Registers { x: result, status: status.with_nz(result), ..registers }
        },
        Mnemonic::Iny => {
            let result = ((registers.y + 1) % 256) as u8;
            Registers { y: result, status: status.with_nz(result), ..registers }
        },
        Mnemonic::Dex => {
            let result = ((registers.x + 255) % 256) as u8;
            Registers { x: result, status: status.with_nz(result), ..registers }
        },
        Mnemonic::Dey => {
            let result = ((registers.y + 255) % 256) as u8;
            Registers { y: result, status: status.with_nz(result), ..registers }
        },
        Mnemonic::Clc => Registers { status: StatusFlags { carry: false, ..status }, ..registers },
        Mnemonic::Sec => Registers { status: StatusFlags { carry: true, ..status }, ..registers },
        Mnemonic::Cli => Registers {
            status: StatusFlags { interrupt_disable: false, ..status },
            ..registers
        },
        Mnemonic::Sei => Registers {
            status: StatusFlags { interrupt_disable: true, ..status },
            ..registers
        },
        Mnemonic::Clv => Registers { status: StatusFlags { overflow: false, ..status }, ..registers },
        Mnemonic::Cld => Registers { status: StatusFlags { decimal: false, ..status }, ..registers },
        Mnemonic::Sed => Registers { status: StatusFlags { decimal: true, ..status }, ..registers },
        _ => registers,
    }
}

/// Whether a branch instruction branches.
pub open spec fn branch_condition(mnemonic: Mnemonic, status: StatusFlags) -> bool {
    match mnemonic {
        Mnemonic::Bcc => !status.carry,
        Mnemonic::Bcs => status.carry,
        Mnemonic::Bne => !status.zero,
        Mnemonic::Beq => status.zero,
        Mnemonic::Bpl => !status.negative,
        Mnemonic::Bmi => status.negative,
        Mnemonic::Bvc => !status.overflow,
        Mnemonic::Bvs => status.overflow,
        _ => false,
    }
}

/// The byte that PHA or PHP pushes: PHP pushes the flags with the break flag
/// set.
pub open spec fn push_value(mnemonic: Mnemonic, registers: Registers) -> u8 {
    match mnemonic {
        Mnemonic::Php => registers.status.to_byte(true),
        _ => registers.a,
    }
}

/// The registers after PLA or PLP has pulled `value`.
pub open spec fn pull_effect(mnemonic: Mnemonic, registers: Registers, value: u8) -> Registers {
    match mnemonic {
        Mnemonic::Plp => Registers { status: StatusFlags::from_byte(value), ..registers },
        _ => Registers { a: value, status: registers.status.with_nz(value), ..registers },
    }
}

fn carry_of(status: StatusFlags) -> (carry: u8)
    ensures
        carry == carry_in(status),
{
    if status.carry {
        1
    } else {
        0
    }
}

pub fn adc_binary(status: StatusFlags, a: u8, value: u8) -> (result: AluResult)
    ensures
        result == add_binary(status, a, value),
{
    let sum: u16 = a as u16 + value as u16 + carry_of(status) as u16;
    let result = (sum % 256) as u8;
    AluResult {
        value: result,
        status: StatusFlags {
            carry: sum > 255,
            overflow: ((a >= 0x80) == (value >= 0x80)) && ((result >= 0x80) != (a >= 0x80)),
            zero: result == 0,
            negative: result >= 0x80,
            ..status
        },
    }
}

#[verifier::rlimit(50)]
pub fn adc_decimal(status: StatusFlags, a: u8, value: u8) -> (result: AluResult)
    ensures
        result == add_decimal(status, a, value),
{
    let carry = carry_of(status) as i16;
    let low: i16 = (a % 16) as i16 + (value % 16) as i16 + carry;
    let low_corrected: i16 = if low >= 10 {
        (low + 6) % 16 + 16
    } else {
        low
    };
    let sum: i16 = ((a / 16) as i16) * 16 + ((value / 16) as i16) * 16 + low_corrected;
    let signed_a: i16 = if a >= 0x80 {
        ((a / 16) as i16) * 16 - 256
    } else {
        ((a / 16) as i16) * 16
    };
    let signed_value: i16 = if value >= 0x80 {
        ((value / 16) as i16) * 16 - 256
    } else {
        ((value / 16) as i16) * 16
    };
    let signed_sum: i16 = signed_a + signed_value + low_corrected;
    let sum_corrected: i16 = if sum >= 0xA0 {
        sum + 0x60
    } else {
        sum
    };
    AluResult {
        value: (sum_corrected % 256) as u8,
        status: StatusFlags {
            carry: sum_corrected >= 0x100,
            overflow: signed_sum < -128 || signed_sum > 127,
            zero: (a as i16 + value as i16 + carry) % 256 == 0,
            negative: sum % 256 >= 0x80,
            ..status
        },
    }
}

pub fn sbc_binary(status: StatusFlags, a: u8, value: u8) -> (result: AluResult)
    ensures
        result == subtract_binary(status, a, value),
{
    adc_binary(status, a, 255 - value)
}

#[verifier::rlimit(50)]
pub fn sbc_decimal(status: StatusFlags, a: u8, value: u8) -> (result: AluResult)
    ensures
        result == subtract_decimal(status, a, value),
{
    let carry = carry_of(status) as i16;
    let low: i16 = (a % 16) as i16 - (value % 16) as i16 + carry - 1;
    let low_corrected: i16 = if low < 0 {
        (low + 26) % 16 - 16
    } else {
        low
    };
    let difference: i16 = ((a / 16) as i16) * 16 - ((value / 16) as i16) * 16 + low_corrected;
    let corrected: i16 = if difference < 0 {
        difference - 0x60
    } else {
        difference
    };
    AluResult {
        value: ((corrected + 512) % 256) as u8,
        status: sbc_binary(status, a, value).status,
    }
}

pub fn compare(status: StatusFlags, register: u8, value: u8) -> (flags: StatusFlags)
    ensures
        flags == compared(status, register, value),
{
    StatusFlags {
        carry: register >= value,
        zero: register == value,
        negative: (register as u16 + 256 - value as u16) % 256 >= 0x80,
        ..status
    }
}

/// Works the operand that was read into the registers.
#[verifier::rlimit(50)]
pub fn apply_read(mnemonic: Mnemonic, registers: Registers, value: u8) -> (after: Registers)
    ensures
        after == read_effect(mnemonic, registers, value),
{
    let status = registers.status;
    match mnemonic {
        Mnemonic::Lda => Registers { a: value, status: status.set_nz(value), ..registers },
        Mnemonic::Ldx => Registers { x: value, status: status.set_nz(value), ..registers },
        Mnemonic::Ldy => Registers { y: value, status: status.set_nz(value), ..registers },
        Mnemonic::Adc => {
            let result = if status.decimal {
                adc_decimal(status, registers.a, value)
            } else {
                adc_binary(status, registers.a, value)
            };
            Registers { a: result.value, status: result.status, ..registers }
        },
        Mnemonic::Sbc => {
            let result = if status.decimal {
                sbc_decimal(status, registers.a, value)
            } else {
                sbc_binary(status, registers.a, value)
            };
            Registers { a: result.value, status: result.status, ..registers }
        },
        Mnemonic::And => {
            let result = registers.a & value;
            Registers { a: result, status: status.set_nz(result), ..registers }
        },
        Mnemonic::Ora => {
            let result = registers.a | value;
            Registers { a: result, status: status.set_nz(result), ..registers }
        },
        Mnemonic::Eor => {
            let result = registers.a ^ value;
            Registers { a: result, status: status.set_nz(result), ..registers }
        },
        Mnemonic::Cmp => Registers { status: compare(status, registers.a, value), ..registers },
        Mnemonic::Cpx => Registers { status: compare(status, registers.x, value), ..registers },
        Mnemonic::Cpy => Registers { status: compare(status, registers.y, value), ..registers },
        Mnemonic::Bit => Registers {
            status: StatusFlags {
                zero: registers.a & value == 0,
                overflow: (value / 64) % 2 == 1,
                negative: value >= 0x80,
                ..status
            },
            ..registers
        },
        _ => registers,
    }
}

pub fn value_to_store(mnemonic: Mnemonic, registers: Registers) -> (value: u8)
    ensures
        value == store_value(mnemonic, registers),
{
    match mnemonic {
        Mnemonic::Sta => registers.a,
        Mnemonic::Stx => registers.x,
        Mnemonic::Sty => registers.y,
        _ => 0,
    }
}

pub fn modify(mnemonic: Mnemonic, status: StatusFlags, value: u8) -> (result: AluResult)
    ensures
        result == modified(mnemonic, status, value),
{
    let carry = carry_of(status);
    match mnemonic {
        Mnemonic::Asl => {
            let result = ((value as u16 * 2) % 256) as u8;
            AluResult {
                value: result,
                status: (StatusFlags { carry: value >= 0x80, ..status }).set_nz(result),
            }
        },
        Mnemonic::Lsr => {
            let result = value / 2;
            AluResult {
                value: result,
                status: (StatusFlags { carry: value % 2 == 1, ..status }).set_nz(result),
            }
        },
        Mnemonic::Rol => {
            let result = ((value as u16 * 2) % 256 + carry as u16) as u8;
            AluResult {
                value: result,
                status: (StatusFlags { carry: value >= 0x80, ..status }).set_nz(result),
            }
        },
        Mnemonic::Ror => {
            let result = value / 2 + carry * 0x80;
            AluResult {
                value: result,
                status: (StatusFlags { carry: value % 2 == 1, ..status }).set_nz(result),
            }
        },
        Mnemonic::Inc => {
            let result = ((value as u16 + 1) % 256) as u8;
            AluResult { value: result, status: status.set_nz(result) }
        },
        Mnemonic::Dec => {
            let result = ((value as u16 + 255) % 256) as u8;
            AluResult { value: result, status: status.set_nz(result) }
        },
        _ => AluResult { value, status },
    }
}

pub fn apply_implied(mnemonic: Mnemonic, registers: Registers) -> (after: Registers)
    ensures
        after == implied_effect(mnemonic, registers),
{
    let status = registers.status;
    match mnemonic {
        Mnemonic::Tax => Registers { x: registers.a, status: status.set_nz(registers.a), ..registers },
        Mnemonic::Tay => Registers { y: registers.a, status: status.set_nz(registers.a), ..registers },
        Mnemonic::Txa => Registers { a: registers.x, status: status.set_nz(registers.x), ..registers },
        Mnemonic::Tya => Registers { a: registers.y, status: status.set_nz(registers.y), ..registers },
        Mnemonic::Tsx => Registers {
            x: registers.sp,
            status: status.set_nz(registers.sp),
            ..registers
        },
        Mnemonic::Txs => Registers { sp: registers.x, ..registers },
        Mnemonic::Inx => {
            let result = ((registers.x as u16 + 1) % 256) as u8;
            Registers { x: result, status: status.set_nz(result), ..registers }
        },
        Mnemonic::Iny => {
            let result = ((registers.y as u16 + 1) % 256) as u8;
            Registers { y: result, status: status.set_nz(result), ..registers }
        },
        Mnemonic::Dex => {
            let result = ((registers.x as u16 + 255) % 256) as u8;
            Registers { x: result, status: status.set_nz(result), ..registers }
        },
        Mnemonic::Dey => {
            let result = ((registers.y as u16 + 255) % 256) as u8;
            Registers { y: result, status: status.set_nz(result), ..registers }
        },
        Mnemonic::Clc => Registers { status: StatusFlags { carry: false, ..status }, ..registers },
        Mnemonic::Sec => Registers { status: StatusFlags { carry: true, ..status }, ..registers },
        Mnemonic::Cli => Registers {
            status: StatusFlags { interrupt_disable: false, ..status },
            ..registers
        },
        Mnemonic::Sei => Registers {
            status: StatusFlags { interrupt_disable: true, ..status },
            ..registers
        },
        Mnemonic::Clv => Registers { status: StatusFlags { overflow: false, ..status }, ..registers },
        Mnemonic::Cld => Registers { status: StatusFlags { decimal: false, ..status }, ..registers },
        Mnemonic::Sed => Registers { status: StatusFlags { decimal: true, ..status }, ..registers },
        _ => registers,
    }
}

pub fn branches(mnemonic: Mnemonic, status: StatusFlags) -> (taken: bool)
    ensures
        taken == branch_condition(mnemonic, status),
{
    match mnemonic {
        Mnemonic::Bcc => !status.carry,
        Mnemonic::Bcs => status.carry,
        Mnemonic::Bne => !status.zero,
        Mnemonic::Beq => status.zero,
        Mnemonic::Bpl => !status.negative,
        Mnemonic::Bmi => status.negative,
        Mnemonic::Bvc => !status.overflow,
        Mnemonic::Bvs => status.overflow,
        _ => false,
    }
}

pub fn value_to_push(mnemonic: Mnemonic, registers: Registers) -> (value: u8)
    ensures
        value == push_value(mnemonic, registers),
{
    match mnemonic {
        Mnemonic::Php => registers.status.byte(true),
        _ => registers.a,
    }
}

pub fn apply_pull(mnemonic: Mnemonic, registers: Registers, value: u8) -> (after: Registers)
    ensures
        after == pull_effect(mnemonic, registers, value),
{
    match mnemonic {
        Mnemonic::Plp => Registers { status: StatusFlags::of_byte(value), ..registers },
        _ => Registers { a: value, status: registers.status.set_nz(value), ..registers },
    }
}

} // verus!
