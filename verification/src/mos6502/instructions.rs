//! The instruction set: mnemonics, addressing modes and the opcode table.

use vstd::prelude::*;

verus! {

#[derive(Debug, Clone, Copy, PartialEq, Eq, Structural)]
pub enum Mnemonic {
    Adc,
    And,
    Asl,
    Bcc,
    Bcs,
    Beq,
    Bit,
    Bmi,
    Bne,
    Bpl,
    Brk,
    Bvc,
    Bvs,
    Clc,
    Cld,
    Cli,
    Clv,
    Cmp,
    Cpx,
    Cpy,
    Dec,
    Dex,
    Dey,
    Eor,
    Inc,
    Inx,
    Iny,
    Jmp,
    Jsr,
    Lda,
    Ldx,
    Ldy,
    Lsr,
    Nop,
    Ora,
    Pha,
    Php,
    Pla,
    Plp,
    Rol,
    Ror,
    Rti,
    Rts,
    Sbc,
    Sec,
    Sed,
    Sei,
    Sta,
    Stx,
    Sty,
    Tax,
    Tay,
    Tsx,
    Txa,
    Txs,
    Tya,
    /// An opcode outside the documented set; it runs as a no-operation.
    Illegal,
}

#[derive(Debug, Clone, Copy, PartialEq, Eq, Structural)]
pub enum AddressingMode {
    Immediate,
    ZeroPage,
    ZeroPageX,
    ZeroPageY,
    Absolute,
    AbsoluteX,
    AbsoluteY,
    IndirectX,
    IndirectY,
    Indirect,
    Relative,
    Accumulator,
    Implied,
}

/// What an instruction does with its operand and with the bus.
#[derive(Debug, Clone, Copy, PartialEq, Eq, Structural)]
pub enum InstructionKind {
    /// Reads the operand and works it into the registers.
    Read,
    /// Writes a register to the operand's address.
    Store,
    /// Reads the operand, changes it and writes it back.
    Modify,
    /// Works on registers alone.
    Implied,
    /// Moves the program counter to the operand's address if a flag says so.
    Branch,
    Jump,
    Call,
    Return,
    ReturnFromInterrupt,
    Break,
    Push,
    Pull,
}

#[derive(Debug, Clone, Copy, PartialEq, Eq, Structural)]
pub struct Instruction {
    pub mnemonic: Mnemonic,
    pub mode: AddressingMode,
    /// The cycles that the instruction takes before any penalty.
    pub cycles: u8,
}

pub open spec fn instruction(mnemonic: Mnemonic, mode: AddressingMode, cycles: u8) -> Instruction {
    Instruction { mnemonic, mode, cycles }
}

impl AddressingMode {
    /// The number of operand bytes that follow the opcode.
    pub open spec fn operand_length(self) -> int {
        match self {
            AddressingMode::Implied | AddressingMode::Accumulator => 0,
            AddressingMode::Absolute | AddressingMode::AbsoluteX | AddressingMode::AbsoluteY
            | AddressingMode::Indirect => 2,
            _ => 1,
        }
    }

    /// The modes in which a read costs one more cycle when indexing leaves
    /// the page of the base address.
    pub open spec fn spec_has_page_cross_penalty(self) -> bool {
        self == AddressingMode::AbsoluteX || self == AddressingMode::AbsoluteY || self
            == AddressingMode::IndirectY
    }

    #[verifier::when_used_as_spec(spec_has_page_cross_penalty)]
    pub fn has_page_cross_penalty(self) -> (penalty: bool)
        ensures
            penalty == self.spec_has_page_cross_penalty(),
    {
        match self {
            AddressingMode::AbsoluteX | AddressingMode::AbsoluteY | AddressingMode::IndirectY => true,
            _ => false,
        }
    }
}

impl Mnemonic {
    pub open spec fn kind(self) -> InstructionKind {
        match self {
            Mnemonic::Lda | Mnemonic::Ldx | Mnemonic::Ldy | Mnemonic::Adc | Mnemonic::Sbc | Mnemonic::And | Mnemonic::Ora | Mnemonic::Eor | Mnemonic::Cmp | Mnemonic::Cpx | Mnemonic::Cpy | Mnemonic::Bit => InstructionKind::Read,
            Mnemonic::Sta | Mnemonic::Stx | Mnemonic::Sty => InstructionKind::Store,
            Mnemonic::Asl | Mnemonic::Lsr | Mnemonic::Rol | Mnemonic::Ror | Mnemonic::Inc | Mnemonic::Dec => InstructionKind::Modify,
            Mnemonic::Tax | Mnemonic::Tay | Mnemonic::Txa | Mnemonic::Tya | Mnemonic::Tsx | Mnemonic::Txs | Mnemonic::Inx | Mnemonic::Iny | Mnemonic::Dex | Mnemonic::Dey | Mnemonic::Clc | Mnemonic::Sec | Mnemonic::Cli | Mnemonic::Sei | Mnemonic::Clv | Mnemonic::Cld | Mnemonic::Sed | Mnemonic::Nop | Mnemonic::Illegal => InstructionKind::Implied,
            Mnemonic::Bcc | Mnemonic::Bcs | Mnemonic::Beq | Mnemonic::Bne | Mnemonic::Bmi | Mnemonic::Bpl | Mnemonic::Bvc | Mnemonic::Bvs => InstructionKind::Branch,
            Mnemonic::Jmp => InstructionKind::Jump,
            Mnemonic::Jsr => InstructionKind::Call,
            Mnemonic::Rts => InstructionKind::Return,
            Mnemonic::Rti => InstructionKind::ReturnFromInterrupt,
            Mnemonic::Brk => InstructionKind::Break,
            Mnemonic::Pha | Mnemonic::Php => InstructionKind::Push,
            Mnemonic::Pla | Mnemonic::Plp => InstructionKind::Pull,
        }
    }

    pub fn instruction_kind(self) -> (kind: InstructionKind)
        ensures
            kind == self.kind(),
    {
        match self {
            Mnemonic::Lda | Mnemonic::Ldx | Mnemonic::Ldy | Mnemonic::Adc | Mnemonic::Sbc | Mnemonic::And | Mnemonic::Ora | Mnemonic::Eor | Mnemonic::Cmp | Mnemonic::Cpx | Mnemonic::Cpy | Mnemonic::Bit => InstructionKind::Read,
            Mnemonic::Sta | Mnemonic::Stx | Mnemonic::Sty => InstructionKind::Store,
            Mnemonic::Asl | Mnemonic::Lsr | Mnemonic::Rol | Mnemonic::Ror | Mnemonic::Inc | Mnemonic::Dec => InstructionKind::Modify,
            Mnemonic::Tax | Mnemonic::Tay | Mnemonic::Txa | Mnemonic::Tya | Mnemonic::Tsx | Mnemonic::Txs | Mnemonic::Inx | Mnemonic::Iny | Mnemonic::Dex | Mnemonic::Dey | Mnemonic::Clc | Mnemonic::Sec | Mnemonic::Cli | Mnemonic::Sei | Mnemonic::Clv | Mnemonic::Cld | Mnemonic::Sed | Mnemonic::Nop | Mnemonic::Illegal => InstructionKind::Implied,
            Mnemonic::Bcc | Mnemonic::Bcs | Mnemonic::Beq | Mnemonic::Bne | Mnemonic::Bmi | Mnemonic::Bpl | Mnemonic::Bvc | Mnemonic::Bvs => InstructionKind::Branch,
            Mnemonic::Jmp => InstructionKind::Jump,
            Mnemonic::Jsr => InstructionKind::Call,
            Mnemonic::Rts => InstructionKind::Return,
            Mnemonic::Rti => InstructionKind::ReturnFromInterrupt,
            Mnemonic::Brk => InstructionKind::Break,
            Mnemonic::Pha | Mnemonic::Php => InstructionKind::Push,
            Mnemonic::Pla | Mnemonic::Plp => InstructionKind::Pull,
        }
    }
}

/// The opcode table: what each opcode byte stands for. Opcodes outside the
/// documented set stand for an implied no-operation of two cycles.
pub open spec fn decode(opcode: u8) -> Instruction {
    match opcode {
        0x00 => instruction(Mnemonic::Brk, AddressingMode::Implied, 7),
        0x01 => instruction(Mnemonic::Ora, AddressingMode::IndirectX, 6),
        0x05 => instruction(Mnemonic::Ora, AddressingMode::ZeroPage, 3),
        0x06 => instruction(Mnemonic::Asl, AddressingMode::ZeroPage, 5),
        0x08 => instruction(Mnemonic::Php, AddressingMode::Implied, 3),
        0x09 => instruction(Mnemonic::Ora, AddressingMode::Immediate, 2),
        0x0A => instruction(Mnemonic::Asl, AddressingMode::Accumulator, 2),
        0x0D => instruction(Mnemonic::Ora, AddressingMode::Absolute, 4),
        0x0E => instruction(Mnemonic::Asl, AddressingMode::Absolute, 6),
        0x10 => instruction(Mnemonic::Bpl, AddressingMode::Relative, 2),
        0x11 => instruction(Mnemonic::Ora, AddressingMode::IndirectY, 5),
        0x15 => instruction(Mnemonic::Ora, AddressingMode::ZeroPageX, 4),
        0x16 => instruction(Mnemonic::Asl, AddressingMode::ZeroPageX, 6),
        0x18 => instruction(Mnemonic::Clc, AddressingMode::Implied, 2),
        0x19 => instruction(Mnemonic::Ora, AddressingMode::AbsoluteY, 4),
        0x1D => instruction(Mnemonic::Ora, AddressingMode::AbsoluteX, 4),
        0x1E => instruction(Mnemonic::Asl, AddressingMode::AbsoluteX, 7),
        0x20 => instruction(Mnemonic::Jsr, AddressingMode::Absolute, 6),
        0x21 => instruction(Mnemonic::And, AddressingMode::IndirectX, 6),
        0x24 => instruction(Mnemonic::Bit, AddressingMode::ZeroPage, 3),
        0x25 => instruction(Mnemonic::And, AddressingMode::ZeroPage, 3),
        0x26 => instruction(Mnemonic::Rol, AddressingMode::ZeroPage, 5),
        0x28 => instruction(Mnemonic::Plp, AddressingMode::Implied, 4),
        0x29 => instruction(Mnemonic::And, AddressingMode::Immediate, 2),
        0x2A => instruction(Mnemonic::Rol, AddressingMode::Accumulator, 2),
        0x2C => instruction(Mnemonic::Bit, AddressingMode::Absolute, 4),
        0x2D => instruction(Mnemonic::And, AddressingMode::Absolute, 4),
        0x2E => instruction(Mnemonic::Rol, AddressingMode::Absolute, 6),
        0x30 => instruction(Mnemonic::Bmi, AddressingMode::Relative, 2),
        0x31 => instruction(Mnemonic::And, AddressingMode::IndirectY, 5),
        0x35 => instruction(Mnemonic::And, AddressingMode::ZeroPageX, 4),
        0x36 => instruction(Mnemonic::Rol, AddressingMode::ZeroPageX, 6),
        0x38 => instruction(Mnemonic::Sec, AddressingMode::Implied, 2),
        0x39 => instruction(Mnemonic::And, AddressingMode::AbsoluteY, 4),
        0x3D => instruction(Mnemonic::And, AddressingMode::AbsoluteX, 4),
        0x3E => instruction(Mnemonic::Rol, AddressingMode::AbsoluteX, 7),
        0x40 => instruction(Mnemonic::Rti, AddressingMode::Implied, 6),
        0x41 => instruction(Mnemonic::Eor, AddressingMode::IndirectX, 6),
        0x45 => instruction(Mnemonic::Eor, AddressingMode::ZeroPage, 3),
        0x46 => instruction(Mnemonic::Lsr, AddressingMode::ZeroPage, 5),
        0x48 => instruction(Mnemonic::Pha, AddressingMode::Implied, 3),
        0x49 => instruction(Mnemonic::Eor, AddressingMode::Immediate, 2),
        0x4A => instruction(Mnemonic::Lsr, AddressingMode::Accumulator, 2),
        0x4C => instruction(Mnemonic::Jmp, AddressingMode::Absolute, 3),
        0x4D => instruction(Mnemonic::Eor, AddressingMode::Absolute, 4),
        0x4E => instruction(Mnemonic::Lsr, AddressingMode::Absolute, 6),
        0x50 => instruction(Mnemonic::Bvc, AddressingMode::Relative, 2),
        0x51 => instruction(Mnemonic::Eor, AddressingMode::IndirectY, 5),
        0x55 => instruction(Mnemonic::Eor, AddressingMode::ZeroPageX, 4),
        0x56 => instruction(Mnemonic::Lsr, AddressingMode::ZeroPageX, 6),
        0x58 => instruction(Mnemonic::Cli, AddressingMode::Implied, 2),
        0x59 => instruction(Mnemonic::Eor, AddressingMode::AbsoluteY, 4),
        0x5D => instruction(Mnemonic::Eor, AddressingMode::AbsoluteX, 4),
        0x5E => instruction(Mnemonic::Lsr, AddressingMode::AbsoluteX, 7),
        0x60 => instruction(Mnemonic::Rts, AddressingMode::Implied, 6),
        0x61 => instruction(Mnemonic::Adc, AddressingMode::IndirectX, 6),
        0x65 => instruction(Mnemonic::Adc, AddressingMode::ZeroPage, 3),
        0x66 => instruction(Mnemonic::Ror, AddressingMode::ZeroPage, 5),
        0x68 => instruction(Mnemonic::Pla, AddressingMode::Implied, 4),
        0x69 => instruction(Mnemonic::Adc, AddressingMode::Immediate, 2),
        0x6A => instruction(Mnemonic::Ror, AddressingMode::Accumulator, 2),
        0x6C => instruction(Mnemonic::Jmp, AddressingMode::Indirect, 5),
        0x6D => instruction(Mnemonic::Adc, AddressingMode::Absolute, 4),
        0x6E => instruction(Mnemonic::Ror, AddressingMode::Absolute, 6),
        0x70 => instruction(Mnemonic::Bvs, AddressingMode::Relative, 2),
        0x71 => instruction(Mnemonic::Adc, AddressingMode::IndirectY, 5),
        0x75 => instruction(Mnemonic::Adc, AddressingMode::ZeroPageX, 4),
        0x76 => instruction(Mnemonic::Ror, AddressingMode::ZeroPageX, 6),
        0x78 => instruction(Mnemonic::Sei, AddressingMode::Implied, 2),
        0x79 => instruction(Mnemonic::Adc, AddressingMode::AbsoluteY, 4),
        0x7D => instruction(Mnemonic::Adc, AddressingMode::AbsoluteX, 4),
        0x7E => instruction(Mnemonic::Ror, AddressingMode::AbsoluteX, 7),
        0x81 => instruction(Mnemonic::Sta, AddressingMode::IndirectX, 6),
        0x84 => instruction(Mnemonic::Sty, AddressingMode::ZeroPage, 3),
        0x85 => instruction(Mnemonic::Sta, AddressingMode::ZeroPage, 3),
        0x86 => instruction(Mnemonic::Stx, AddressingMode::ZeroPage, 3),
        0x88 => instruction(Mnemonic::Dey, AddressingMode::Implied, 2),
        0x8A => instruction(Mnemonic::Txa, AddressingMode::Implied, 2),
        0x8C => instruction(Mnemonic::Sty, AddressingMode::Absolute, 4),
        0x8D => instruction(Mnemonic::Sta, AddressingMode::Absolute, 4),
        0x8E => instruction(Mnemonic::Stx, AddressingMode::Absolute, 4),
        0x90 => instruction(Mnemonic::Bcc, AddressingMode::Relative, 2),
        0x91 => instruction(Mnemonic::Sta, AddressingMode::IndirectY, 6),
        0x94 => instruction(Mnemonic::Sty, AddressingMode::ZeroPageX, 4),
        0x95 => instruction(Mnemonic::Sta, AddressingMode::ZeroPageX, 4),
        0x96 => instruction(Mnemonic::Stx, AddressingMode::ZeroPageY, 4),
        0x98 => instruction(Mnemonic::Tya, AddressingMode::Implied, 2),
        0x99 => instruction(Mnemonic::Sta, AddressingMode::AbsoluteY, 5),
        0x9A => instruction(Mnemonic::Txs, AddressingMode::Implied, 2),
        0x9D => instruction(Mnemonic::Sta, AddressingMode::AbsoluteX, 5),
        0xA0 => instruction(Mnemonic::Ldy, AddressingMode::Immediate, 2),
        0xA1 => instruction(Mnemonic::Lda, AddressingMode::IndirectX, 6),
        0xA2 => instruction(Mnemonic::Ldx, AddressingMode::Immediate, 2),
        0xA4 => instruction(Mnemonic::Ldy, AddressingMode::ZeroPage, 3),
        0xA5 => instruction(Mnemonic::Lda, AddressingMode::ZeroPage, 3),
        0xA6 => instruction(Mnemonic::Ldx, AddressingMode::ZeroPage, 3),
        0xA8 => instruction(Mnemonic::Tay, AddressingMode::Implied, 2),
        0xA9 => instruction(Mnemonic::Lda, AddressingMode::Immediate, 2),
        0xAA => instruction(Mnemonic::Tax, AddressingMode::Implied, 2),
        0xAC => instruction(Mnemonic::Ldy, AddressingMode::Absolute, 4),
        0xAD => instruction(Mnemonic::Lda, AddressingMode::Absolute, 4),
        0xAE => instruction(Mnemonic::Ldx, AddressingMode::Absolute, 4),
        0xB0 => instruction(Mnemonic::Bcs, AddressingMode::Relative, 2),
        0xB1 => instruction(Mnemonic::Lda, AddressingMode::IndirectY, 5),
        0xB4 => instruction(Mnemonic::Ldy, AddressingMode::ZeroPageX, 4),
        0xB5 => instruction(Mnemonic::Lda, AddressingMode::ZeroPageX, 4),
        0xB6 => instruction(Mnemonic::Ldx, AddressingMode::ZeroPageY, 4),
        0xB8 => instruction(Mnemonic::Clv, AddressingMode::Implied, 2),
        0xB9 => instruction(Mnemonic::Lda, AddressingMode::AbsoluteY, 4),
        0xBA => instruction(Mnemonic::Tsx, AddressingMode::Implied, 2),
        0xBC => instruction(Mnemonic::Ldy, AddressingMode::AbsoluteX, 4),
        0xBD => instruction(Mnemonic::Lda, AddressingMode::AbsoluteX, 4),
        0xBE => instruction(Mnemonic::Ldx, AddressingMode::AbsoluteY, 4),
        0xC0 => instruction(Mnemonic::Cpy, AddressingMode::Immediate, 2),
        0xC1 => instruction(Mnemonic::Cmp, AddressingMode::IndirectX, 6),
        0xC4 => instruction(Mnemonic::Cpy, AddressingMode::ZeroPage, 3),
        0xC5 => instruction(Mnemonic::Cmp, AddressingMode::ZeroPage, 3),
        0xC6 => instruction(Mnemonic::Dec, AddressingMode::ZeroPage, 5),
        0xC8 => instruction(Mnemonic::Iny, AddressingMode::Implied, 2),
        0xC9 => instruction(Mnemonic::Cmp, AddressingMode::Immediate, 2),
        0xCA => instruction(Mnemonic::Dex, AddressingMode::Implied, 2),
        0xCC => instruction(Mnemonic::Cpy, AddressingMode::Absolute, 4),
        0xCD => instruction(Mnemonic::Cmp, AddressingMode::Absolute, 4),
        0xCE => instruction(Mnemonic::Dec, AddressingMode::Absolute, 6),
        0xD0 => instruction(Mnemonic::Bne, AddressingMode::Relative, 2),
        0xD1 => instruction(Mnemonic::Cmp, AddressingMode::IndirectY, 5),
        0xD5 => instruction(Mnemonic::Cmp, AddressingMode::ZeroPageX, 4),
        0xD6 => instruction(Mnemonic::Dec, AddressingMode::ZeroPageX, 6),
        0xD8 => instruction(Mnemonic::Cld, AddressingMode::Implied, 2),
        0xD9 => instruction(Mnemonic::Cmp, AddressingMode::AbsoluteY, 4),
        0xDD => instruction(Mnemonic::Cmp, AddressingMode::AbsoluteX, 4),
        0xDE => instruction(Mnemonic::Dec, AddressingMode::AbsoluteX, 7),
        0xE0 => instruction(Mnemonic::Cpx, AddressingMode::Immediate, 2),
        0xE1 => instruction(Mnemonic::Sbc, AddressingMode::IndirectX, 6),
        0xE4 => instruction(Mnemonic::Cpx, AddressingMode::ZeroPage, 3),
        0xE5 => instruction(Mnemonic::Sbc, AddressingMode::ZeroPage, 3),
        0xE6 => instruction(Mnemonic::Inc, AddressingMode::ZeroPage, 5),
        0xE8 => instruction(Mnemonic::Inx, AddressingMode::Implied, 2),
        0xE9 => instruction(Mnemonic::Sbc, AddressingMode::Immediate, 2),
        0xEA => instruction(Mnemonic::Nop, AddressingMode::Implied, 2),
        0xEC => instruction(Mnemonic::Cpx, AddressingMode::Absolute, 4),
        0xED => instruction(Mnemonic::Sbc, AddressingMode::Absolute, 4),
        0xEE => instruction(Mnemonic::Inc, AddressingMode::Absolute, 6),
        0xF0 => instruction(Mnemonic::Beq, AddressingMode::Relative, 2),
        0xF1 => instruction(Mnemonic::Sbc, AddressingMode::IndirectY, 5),
        0xF5 => instruction(Mnemonic::Sbc, AddressingMode::ZeroPageX, 4),
        0xF6 => instruction(Mnemonic::Inc, AddressingMode::ZeroPageX, 6),
        0xF8 => instruction(Mnemonic::Sed, AddressingMode::Implied, 2),
        0xF9 => instruction(Mnemonic::Sbc, AddressingMode::AbsoluteY, 4),
        0xFD => instruction(Mnemonic::Sbc, AddressingMode::AbsoluteX, 4),
        0xFE => instruction(Mnemonic::Inc, AddressingMode::AbsoluteX, 7),
        _ => instruction(Mnemonic::Illegal, AddressingMode::Implied, 2),
    }
}

impl Instruction {
    pub fn new(mnemonic: Mnemonic, mode: AddressingMode, cycles: u8) -> (made: Self)
        ensures
            made == instruction(mnemonic, mode, cycles),
    {
        Instruction { mnemonic, mode, cycles }
    }

    /// Looks `opcode` up in the opcode table.
    pub fn decode(opcode: u8) -> (decoded: Self)
        ensures
            decoded == decode(opcode),
    {
        match opcode {
            0x00 => Instruction::new(Mnemonic::Brk, AddressingMode::Implied, 7),
            0x01 => Instruction::new(Mnemonic::Ora, AddressingMode::IndirectX, 6),
            0x05 => Instruction::new(Mnemonic::Ora, AddressingMode::ZeroPage, 3),
            0x06 => Instruction::new(Mnemonic::Asl, AddressingMode::ZeroPage, 5),
            0x08 => Instruction::new(Mnemonic::Php, AddressingMode::Implied, 3),
            0x09 => Instruction::new(Mnemonic::Ora, AddressingMode::Immediate, 2),
            0x0A => Instruction::new(Mnemonic::Asl, AddressingMode::Accumulator, 2),
            0x0D => Instruction::new(Mnemonic::Ora, AddressingMode::Absolute, 4),
            0x0E => Instruction::new(Mnemonic::Asl, AddressingMode::Absolute, 6),
            0x10 => Instruction::new(Mnemonic::Bpl, AddressingMode::Relative, 2),
            0x11 => Instruction::new(Mnemonic::Ora, AddressingMode::IndirectY, 5),
            0x15 => Instruction::new(Mnemonic::Ora, AddressingMode::ZeroPageX, 4),
            0x16 => Instruction::new(Mnemonic::Asl, AddressingMode::ZeroPageX, 6),
            0x18 => Instruction::new(Mnemonic::Clc, AddressingMode::Implied, 2),
            0x19 => Instruction::new(Mnemonic::Ora, AddressingMode::AbsoluteY, 4),
            0x1D => Instruction::new(Mnemonic::Ora, AddressingMode::AbsoluteX, 4),
            0x1E => Instruction::new(Mnemonic::Asl, AddressingMode::AbsoluteX, 7),
            0x20 => Instruction::new(Mnemonic::Jsr, AddressingMode::Absolute, 6),
            0x21 => Instruction::new(Mnemonic::And, AddressingMode::IndirectX, 6),
            0x24 => Instruction::new(Mnemonic::Bit, AddressingMode::ZeroPage, 3),
            0x25 => Instruction::new(Mnemonic::And, AddressingMode::ZeroPage, 3),
            0x26 => Instruction::new(Mnemonic::Rol, AddressingMode::ZeroPage, 5),
            0x28 => Instruction::new(Mnemonic::Plp, AddressingMode::Implied, 4),
            0x29 => Instruction::new(Mnemonic::And, AddressingMode::Immediate, 2),
            0x2A => Instruction::new(Mnemonic::Rol, AddressingMode::Accumulator, 2),
            0x2C => Instruction::new(Mnemonic::Bit, AddressingMode::Absolute, 4),
            0x2D => Instruction::new(Mnemonic::And, AddressingMode::Absolute, 4),
            0x2E => Instruction::new(Mnemonic::Rol, AddressingMode::Absolute, 6),
            0x30 => Instruction::new(Mnemonic::Bmi, AddressingMode::Relative, 2),
            0x31 => Instruction::new(Mnemonic::And, AddressingMode::IndirectY, 5),
            0x35 => Instruction::new(Mnemonic::And, AddressingMode::ZeroPageX, 4),
            0x36 => Instruction::new(Mnemonic::Rol, AddressingMode::ZeroPageX, 6),
            0x38 => Instruction::new(Mnemonic::Sec, AddressingMode::Implied, 2),
            0x39 => Instruction::new(Mnemonic::And, AddressingMode::AbsoluteY, 4),
            0x3D => Instruction::new(Mnemonic::And, AddressingMode::AbsoluteX, 4),
            0x3E => Instruction::new(Mnemonic::Rol, AddressingMode::AbsoluteX, 7),
            0x40 => Instruction::new(Mnemonic::Rti, AddressingMode::Implied, 6),
            0x41 => Instruction::new(Mnemonic::Eor, AddressingMode::IndirectX, 6),
            0x45 => Instruction::new(Mnemonic::Eor, AddressingMode::ZeroPage, 3),
            0x46 => Instruction::new(Mnemonic::Lsr, AddressingMode::ZeroPage, 5),
            0x48 => Instruction::new(Mnemonic::Pha, AddressingMode::Implied, 3),
            0x49 => Instruction::new(Mnemonic::Eor, AddressingMode::Immediate, 2),
            0x4A => Instruction::new(Mnemonic::Lsr, AddressingMode::Accumulator, 2),
            0x4C => Instruction::new(Mnemonic::Jmp, AddressingMode::Absolute, 3),
            0x4D => Instruction::new(Mnemonic::Eor, AddressingMode::Absolute, 4),
            0x4E => Instruction::new(Mnemonic::Lsr, AddressingMode::Absolute, 6),
            0x50 => Instruction::new(Mnemonic::Bvc, AddressingMode::Relative, 2),
            0x51 => Instruction::new(Mnemonic::Eor, AddressingMode::IndirectY, 5),
            0x55 => Instruction::new(Mnemonic::Eor, AddressingMode::ZeroPageX, 4),
            0x56 => Instruction::new(Mnemonic::Lsr, AddressingMode::ZeroPageX, 6),
            0x58 => Instruction::new(Mnemonic::Cli, AddressingMode::Implied, 2),
            0x59 => Instruction::new(Mnemonic::Eor, AddressingMode::AbsoluteY, 4),
            0x5D => Instruction::new(Mnemonic::Eor, AddressingMode::AbsoluteX, 4),
            0x5E => Instruction::new(Mnemonic::Lsr, AddressingMode::AbsoluteX, 7),
            0x60 => Instruction::new(Mnemonic::Rts, AddressingMode::Implied, 6),
            0x61 => Instruction::new(Mnemonic::Adc, AddressingMode::IndirectX, 6),
            0x65 => Instruction::new(Mnemonic::Adc, AddressingMode::ZeroPage, 3),
            0x66 => Instruction::new(Mnemonic::Ror, AddressingMode::ZeroPage, 5),
            0x68 => Instruction::new(Mnemonic::Pla, AddressingMode::Implied, 4),
            0x69 => Instruction::new(Mnemonic::Adc, AddressingMode::Immediate, 2),
            0x6A => Instruction::new(Mnemonic::Ror, AddressingMode::Accumulator, 2),
            0x6C => Instruction::new(Mnemonic::Jmp, AddressingMode::Indirect, 5),
            0x6D => Instruction::new(Mnemonic::Adc, AddressingMode::Absolute, 4),
            0x6E => Instruction::new(Mnemonic::Ror, AddressingMode::Absolute, 6),
            0x70 => Instruction::new(Mnemonic::Bvs, AddressingMode::Relative, 2),
            0x71 => Instruction::new(Mnemonic::Adc, AddressingMode::IndirectY, 5),
            0x75 => Instruction::new(Mnemonic::Adc, AddressingMode::ZeroPageX, 4),
            0x76 => Instruction::new(Mnemonic::Ror, AddressingMode::ZeroPageX, 6),
            0x78 => Instruction::new(Mnemonic::Sei, AddressingMode::Implied, 2),
            0x79 => Instruction::new(Mnemonic::Adc, AddressingMode::AbsoluteY, 4),
            0x7D => Instruction::new(Mnemonic::Adc, AddressingMode::AbsoluteX, 4),
            0x7E => Instruction::new(Mnemonic::Ror, AddressingMode::AbsoluteX, 7),
            0x81 => Instruction::new(Mnemonic::Sta, AddressingMode::IndirectX, 6),
            0x84 => Instruction::new(Mnemonic::Sty, AddressingMode::ZeroPage, 3),
            0x85 => Instruction::new(Mnemonic::Sta, AddressingMode::ZeroPage, 3),
            0x86 => Instruction::new(Mnemonic::Stx, AddressingMode::ZeroPage, 3),
            0x88 => Instruction::new(Mnemonic::Dey, AddressingMode::Implied, 2),
            0x8A => Instruction::new(Mnemonic::Txa, AddressingMode::Implied, 2),
            0x8C => Instruction::new(Mnemonic::Sty, AddressingMode::Absolute, 4),
            0x8D => Instruction::new(Mnemonic::Sta, AddressingMode::Absolute, 4),
            0x8E => Instruction::new(Mnemonic::Stx, AddressingMode::Absolute, 4),
            0x90 => Instruction::new(Mnemonic::Bcc, AddressingMode::Relative, 2),
            0x91 => Instruction::new(Mnemonic::Sta, AddressingMode::IndirectY, 6),
            0x94 => Instruction::new(Mnemonic::Sty, AddressingMode::ZeroPageX, 4),
            0x95 => Instruction::new(Mnemonic::Sta, AddressingMode::ZeroPageX, 4),
            0x96 => Instruction::new(Mnemonic::Stx, AddressingMode::ZeroPageY, 4),
            0x98 => Instruction::new(Mnemonic::Tya, AddressingMode::Implied, 2),
            0x99 => Instruction::new(Mnemonic::Sta, AddressingMode::AbsoluteY, 5),
            0x9A => Instruction::new(Mnemonic::Txs, AddressingMode::Implied, 2),
            0x9D => Instruction::new(Mnemonic::Sta, AddressingMode::AbsoluteX, 5),
            0xA0 => Instruction::new(Mnemonic::Ldy, AddressingMode::Immediate, 2),
            0xA1 => Instruction::new(Mnemonic::Lda, AddressingMode::IndirectX, 6),
            0xA2 => Instruction::new(Mnemonic::Ldx, AddressingMode::Immediate, 2),
            0xA4 => Instruction::new(Mnemonic::Ldy, AddressingMode::ZeroPage, 3),
            0xA5 => Instruction::new(Mnemonic::Lda, AddressingMode::ZeroPage, 3),
            0xA6 => Instruction::new(Mnemonic::Ldx, AddressingMode::ZeroPage, 3),
            0xA8 => Instruction::new(Mnemonic::Tay, AddressingMode::Implied, 2),
            0xA9 => Instruction::new(Mnemonic::Lda, AddressingMode::Immediate, 2),
            0xAA => Instruction::new(Mnemonic::Tax, AddressingMode::Implied, 2),
            0xAC => Instruction::new(Mnemonic::Ldy, AddressingMode::Absolute, 4),
            0xAD => Instruction::new(Mnemonic::Lda, AddressingMode::Absolute, 4),
            0xAE => Instruction::new(Mnemonic::Ldx, AddressingMode::Absolute, 4),
            0xB0 => Instruction::new(Mnemonic::Bcs, AddressingMode::Relative, 2),
            0xB1 => Instruction::new(Mnemonic::Lda, AddressingMode::IndirectY, 5),
            0xB4 => Instruction::new(Mnemonic::Ldy, AddressingMode::ZeroPageX, 4),
            0xB5 => Instruction::new(Mnemonic::Lda, AddressingMode::ZeroPageX, 4),
            0xB6 => Instruction::new(Mnemonic::Ldx, AddressingMode::ZeroPageY, 4),
            0xB8 => Instruction::new(Mnemonic::Clv, AddressingMode::Implied, 2),
            0xB9 => Instruction::new(Mnemonic::Lda, AddressingMode::AbsoluteY, 4),
            0xBA => Instruction::new(Mnemonic::Tsx, AddressingMode::Implied, 2),
            0xBC => Instruction::new(Mnemonic::Ldy, AddressingMode::AbsoluteX, 4),
            0xBD => Instruction::new(Mnemonic::Lda, AddressingMode::AbsoluteX, 4),
            0xBE => Instruction::new(Mnemonic::Ldx, AddressingMode::AbsoluteY, 4),
            0xC0 => Instruction::new(Mnemonic::Cpy, AddressingMode::Immediate, 2),
            0xC1 => Instruction::new(Mnemonic::Cmp, AddressingMode::IndirectX, 6),
            0xC4 => Instruction::new(Mnemonic::Cpy, AddressingMode::ZeroPage, 3),
            0xC5 => Instruction::new(Mnemonic::Cmp, AddressingMode::ZeroPage, 3),
            0xC6 => Instruction::new(Mnemonic::Dec, AddressingMode::ZeroPage, 5),
            0xC8 => Instruction::new(Mnemonic::Iny, AddressingMode::Implied, 2),
            0xC9 => Instruction::new(Mnemonic::Cmp, AddressingMode::Immediate, 2),
            0xCA => Instruction::new(Mnemonic::Dex, AddressingMode::Implied, 2),
            0xCC => Instruction::new(Mnemonic::Cpy, AddressingMode::Absolute, 4),
            0xCD => Instruction::new(Mnemonic::Cmp, AddressingMode::Absolute, 4),
            0xCE => Instruction::new(Mnemonic::Dec, AddressingMode::Absolute, 6),
            0xD0 => Instruction::new(Mnemonic::Bne, AddressingMode::Relative, 2),
            0xD1 => Instruction::new(Mnemonic::Cmp, AddressingMode::IndirectY, 5),
            0xD5 => Instruction::new(Mnemonic::Cmp, AddressingMode::ZeroPageX, 4),
            0xD6 => Instruction::new(Mnemonic::Dec, AddressingMode::ZeroPageX, 6),
            0xD8 => Instruction::new(Mnemonic::Cld, AddressingMode::Implied, 2),
            0xD9 => Instruction::new(Mnemonic::Cmp, AddressingMode::AbsoluteY, 4),
            0xDD => Instruction::new(Mnemonic::Cmp, AddressingMode::AbsoluteX, 4),
            0xDE => Instruction::new(Mnemonic::Dec, AddressingMode::AbsoluteX, 7),
            0xE0 => Instruction::new(Mnemonic::Cpx, AddressingMode::Immediate, 2),
            0xE1 => Instruction::new(Mnemonic::Sbc, AddressingMode::IndirectX, 6),
            0xE4 => Instruction::new(Mnemonic::Cpx, AddressingMode::ZeroPage, 3),
            0xE5 => Instruction::new(Mnemonic::Sbc, AddressingMode::ZeroPage, 3),
            0xE6 => Instruction::new(Mnemonic::Inc, AddressingMode::ZeroPage, 5),
            0xE8 => Instruction::new(Mnemonic::Inx, AddressingMode::Implied, 2),
            0xE9 => Instruction::new(Mnemonic::Sbc, AddressingMode::Immediate, 2),
            0xEA => Instruction::new(Mnemonic::Nop, AddressingMode::Implied, 2),
            0xEC => Instruction::new(Mnemonic::Cpx, AddressingMode::Absolute, 4),
            0xED => Instruction::new(Mnemonic::Sbc, AddressingMode::Absolute, 4),
            0xEE => Instruction::new(Mnemonic::Inc, AddressingMode::Absolute, 6),
            0xF0 => Instruction::new(Mnemonic::Beq, AddressingMode::Relative, 2),
            0xF1 => Instruction::new(Mnemonic::Sbc, AddressingMode::IndirectY, 5),
            0xF5 => Instruction::new(Mnemonic::Sbc, AddressingMode::ZeroPageX, 4),
            0xF6 => Instruction::new(Mnemonic::Inc, AddressingMode::ZeroPageX, 6),
            0xF8 => Instruction::new(Mnemonic::Sed, AddressingMode::Implied, 2),
            0xF9 => Instruction::new(Mnemonic::Sbc, AddressingMode::AbsoluteY, 4),
            0xFD => Instruction::new(Mnemonic::Sbc, AddressingMode::AbsoluteX, 4),
            0xFE => Instruction::new(Mnemonic::Inc, AddressingMode::AbsoluteX, 7),
            _ => Instruction::new(Mnemonic::Illegal, AddressingMode::Implied, 2),
        }
    }
}

} // verus!
