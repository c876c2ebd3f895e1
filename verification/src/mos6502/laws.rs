//! Laws of the 6502 core, stated over the models that its contracts use.

use vstd::prelude::*;
use crate::mos6502::alu::{branch_condition, implied_effect, modified, read_effect};
use crate::mos6502::bus::BusAccess;
use crate::mos6502::cpu::{
    execute_window, execution, fetched_instruction, penalty, preempting, resolve_window,
    resolved, step_outcome, Mos6502, Operand,
};
use crate::mos6502::instructions::{Instruction, InstructionKind, Mnemonic};
use crate::mos6502::registers::{
    address_after, lemma_address_after_twice, Registers, StatusFlags,
};

verus! {

/// The flags that an instruction may change, marked `true`.
pub open spec fn affected_flags(mnemonic: Mnemonic) -> StatusFlags {
    let none = StatusFlags {
        carry: false,
        zero: false,
        interrupt_disable: false,
        decimal: false,
        overflow: false,
        negative: false,
    };
    match mnemonic {
        Mnemonic::Adc | Mnemonic::Sbc => StatusFlags {
            carry: true,
            zero: true,
            overflow: true,
            negative: true,
            ..none
        },
        Mnemonic::And | Mnemonic::Ora | Mnemonic::Eor | Mnemonic::Lda | Mnemonic::Ldx
        | Mnemonic::Ldy | Mnemonic::Inc | Mnemonic::Dec | Mnemonic::Inx | Mnemonic::Iny
        | Mnemonic::Dex | Mnemonic::Dey | Mnemonic::Tax | Mnemonic::Tay | Mnemonic::Txa
        | Mnemonic::Tya | Mnemonic::Tsx | Mnemonic::Pla => StatusFlags {
            zero: true,
            negative: true,
            ..none
        },
        Mnemonic::Asl | Mnemonic::Lsr | Mnemonic::Rol | Mnemonic::Ror | Mnemonic::Cmp
        | Mnemonic::Cpx | Mnemonic::Cpy => StatusFlags {
            carry: true,
            zero: true,
            negative: true,
            ..none
        },
        Mnemonic::Bit => StatusFlags { zero: true, overflow: true, negative: true, ..none },
        Mnemonic::Clc | Mnemonic::Sec => StatusFlags { carry: true, ..none },
        Mnemonic::Cli | Mnemonic::Sei | Mnemonic::Brk => StatusFlags {
            interrupt_disable: true,
            ..none
        },
        Mnemonic::Cld | Mnemonic::Sed => StatusFlags { decimal: true, ..none },
        Mnemonic::Clv => StatusFlags { overflow: true, ..none },
        Mnemonic::Plp | Mnemonic::Rti => StatusFlags {
            carry: true,
            zero: true,
            interrupt_disable: true,
            decimal: true,
            overflow: true,
            negative: true,
        },
        _ => none,
    }
}

/// The instruction leaves the program counter right after its own bytes:
/// every instruction but jumps, calls, returns, BRK and branches that are
/// taken.
pub open spec fn falls_through(mnemonic: Mnemonic, status: StatusFlags) -> bool {
    match mnemonic.kind() {
        InstructionKind::Read | InstructionKind::Store | InstructionKind::Modify
        | InstructionKind::Implied | InstructionKind::Push | InstructionKind::Pull => true,
        InstructionKind::Branch => !branch_condition(mnemonic, status),
        _ => false,
    }
}

/// Every instruction that falls through moves the program counter past its
/// opcode and as many operand bytes as its addressing mode has.
#[verifier::rlimit(50)]
pub proof fn law_pc_advances_by_instruction_length(
    before: Mos6502,
    traffic: Seq<BusAccess>,
    after: Registers,
    cycles: u32,
)
    requires
        step_outcome(before, traffic, after, cycles),
        preempting(before) is None,
        falls_through(fetched_instruction(traffic).mnemonic, before.registers.status),
    ensures
        after.pc == address_after(
            before.registers.pc,
            1 + fetched_instruction(traffic).mode.operand_length(),
        ),
{
    let instruction = fetched_instruction(traffic);
    lemma_address_after_twice(before.registers.pc, 1, instruction.mode.operand_length());
    lemma_address_after_twice(address_after(before.registers.pc, 1), 0, 0);
}

/// From `before` to `after`, only flags have changed that `mnemonic` is
/// documented to change.
pub open spec fn only_documented_flags_changed(
    mnemonic: Mnemonic,
    before: StatusFlags,
    after: StatusFlags,
) -> bool {
    let affected = affected_flags(mnemonic);
    &&& !affected.carry ==> after.carry == before.carry
    &&& !affected.zero ==> after.zero == before.zero
    &&& !affected.interrupt_disable ==> after.interrupt_disable == before.interrupt_disable
    &&& !affected.decimal ==> after.decimal == before.decimal
    &&& !affected.overflow ==> after.overflow == before.overflow
    &&& !affected.negative ==> after.negative == before.negative
}

#[verifier::rlimit(50)]
proof fn lemma_read_flags(mnemonic: Mnemonic, registers: Registers, value: u8)
    requires
        mnemonic.kind() == InstructionKind::Read,
    ensures
        only_documented_flags_changed(
            mnemonic,
            registers.status,
            read_effect(mnemonic, registers, value).status,
        ),
{
}

#[verifier::rlimit(50)]
proof fn lemma_modify_flags(mnemonic: Mnemonic, status: StatusFlags, value: u8)
    requires
        mnemonic.kind() == InstructionKind::Modify,
    ensures
        only_documented_flags_changed(mnemonic, status, modified(mnemonic, status, value).status),
{
}

#[verifier::rlimit(50)]
proof fn lemma_implied_flags(mnemonic: Mnemonic, registers: Registers)
    requires
        mnemonic.kind() == InstructionKind::Implied,
    ensures
        only_documented_flags_changed(
            mnemonic,
            registers.status,
            implied_effect(mnemonic, registers).status,
        ),
{
}

#[verifier::rlimit(50)]
proof fn lemma_execution_flags(
    instruction: Instruction,
    operand: Operand,
    before: Registers,
    traffic: Seq<BusAccess>,
    after: Registers,
)
    requires
        execution(instruction, operand, before, traffic, after),
    ensures
        only_documented_flags_changed(instruction.mnemonic, before.status, after.status),
{
    let mnemonic = instruction.mnemonic;
    match mnemonic.kind() {
        InstructionKind::Read => {
            lemma_read_flags(mnemonic, before, traffic[0].value());
        },
        InstructionKind::Modify => {
            lemma_modify_flags(mnemonic, before.status, traffic[0].value());
            lemma_modify_flags(mnemonic, before.status, before.a);
        },
        InstructionKind::Implied => {
            lemma_implied_flags(mnemonic, before);
        },
        _ => {},
    }
}

/// Every instruction leaves the flags alone that it is not documented to
/// change.
#[verifier::rlimit(50)]
pub proof fn law_flags_change_only_as_documented(
    before: Mos6502,
    traffic: Seq<BusAccess>,
    after: Registers,
    cycles: u32,
)
    requires
        step_outcome(before, traffic, after, cycles),
        preempting(before) is None,
    ensures
        only_documented_flags_changed(
            fetched_instruction(traffic).mnemonic,
            before.registers.status,
            after.status,
        ),
{
    let instruction = fetched_instruction(traffic);
    let fetched = before.registers.with_pc(address_after(before.registers.pc, 1));
    let resolution = resolved(instruction.mode, fetched, resolve_window(traffic));
    lemma_execution_flags(
        instruction,
        resolution.operand,
        fetched.with_pc(resolution.pc),
        execute_window(traffic),
        after,
    );
}

/// Every instruction costs what the opcode table says, but for the documented
/// penalties: one cycle for a read in an indexed mode that crosses a page, one
/// for a branch that is taken and two for a branch that is taken into another
/// page.
#[verifier::rlimit(50)]
pub proof fn law_cycles_match_the_table(
    before: Mos6502,
    traffic: Seq<BusAccess>,
    after: Registers,
    cycles: u32,
)
    requires
        step_outcome(before, traffic, after, cycles),
        preempting(before) is None,
    ensures
        ({
            let instruction = fetched_instruction(traffic);
            let fetched = before.registers.with_pc(address_after(before.registers.pc, 1));
            let resolution = resolved(instruction.mode, fetched, resolve_window(traffic));
            let extra = penalty(instruction, resolution.operand, fetched.with_pc(resolution.pc));
            &&& cycles == instruction.cycles + extra
            &&& 0 <= extra <= 2
            &&& extra > 0 ==> {
                ||| instruction.mnemonic.kind() == InstructionKind::Branch && branch_condition(
                    instruction.mnemonic,
                    before.registers.status,
                )
                ||| instruction.mnemonic.kind() == InstructionKind::Read
                    && instruction.mode.spec_has_page_cross_penalty()
            }
            &&& extra == 2 ==> instruction.mnemonic.kind() == InstructionKind::Branch
        }),
{
}

/// An interrupt that preempts the instruction costs seven cycles, pushes three
/// bytes and reads the two bytes of its vector; only the non-maskable one is
/// acknowledged.
#[verifier::rlimit(50)]
pub proof fn law_interrupt_entry(
    before: Mos6502,
    traffic: Seq<BusAccess>,
    after: Registers,
    cycles: u32,
)
    requires
        step_outcome(before, traffic, after, cycles),
        preempting(before) is Some,
    ensures
        cycles == 7,
        after.status.interrupt_disable,
        after.sp == before.registers.pushed().pushed().pushed().sp,
        traffic.len() == (if before.nmi_pending {
            6int
        } else {
            5int
        }),
        traffic[0] is Write && traffic[1] is Write && traffic[2] is Write,
        before.nmi_pending ==> traffic[3] == BusAccess::AcknowledgeNmi,
{
}

} // verus!
