//! The 6502 itself: operand resolution, execution, interrupts.

use vstd::prelude::*;
use crate::mos6502::alu::{
    apply_implied, apply_pull, apply_read, branch_condition, branches, implied_effect, modified,
    modify, pull_effect, push_value, read_effect, store_value, value_to_push, value_to_store,
};
use crate::mos6502::bus::{BusAccess, BusInterface};
use crate::mos6502::instructions::{
    decode, AddressingMode, Instruction, InstructionKind, Mnemonic,
};
use crate::mos6502::registers::{
    address_after, address_before, address_of, address_plus, lemma_address_after_twice,
    make_address, next_in_page, page_wrapped_next, zero_page, zero_page_address, Registers,
    StatusFlags,
};

verus! {

/// Where the non-maskable interrupt's handler is found.
pub const NMI_VECTOR: u16 = 0xFFFA;

/// Where the program's entry is found.
pub const RESET_VECTOR: u16 = 0xFFFC;

/// Where the handler of interrupt requests and of BRK is found.
pub const IRQ_VECTOR: u16 = 0xFFFE;

/// The cycles that entering an interrupt takes.
pub const INTERRUPT_CYCLES: u32 = 7;

/// What an instruction works on.
#[derive(Debug, Clone, Copy, PartialEq, Eq, Structural)]
pub enum Operand {
    Implied,
    Accumulator,
    /// A byte in memory; `page_crossed` says that indexing or branching left
    /// the page in which it started.
    Address { address: u16, page_crossed: bool },
}

/// An operand and the program counter after the operand's bytes.
pub struct Resolution {
    pub operand: Operand,
    pub pc: u16,
}

/// The record `accesses` is `earlier` with more after it, or `earlier`
/// itself.
pub open spec fn continues(earlier: Seq<BusAccess>, accesses: Seq<BusAccess>) -> bool {
    earlier.len() <= accesses.len() && accesses.take(earlier.len() as int) =~= earlier
}

/// What has been recorded since the record was `earlier`.
pub open spec fn since(earlier: Seq<BusAccess>, accesses: Seq<BusAccess>) -> Seq<BusAccess> {
    accesses.skip(earlier.len() as int)
}

/// A read of `address` that was answered with what `access` carries.
pub open spec fn is_read(access: BusAccess, address: u16) -> bool {
    access == (BusAccess::Read { address, value: access.value() })
}

/// The two addresses lie in different pages of 256 bytes.
pub open spec fn pages_differ(first: u16, second: u16) -> bool {
    first / 0x100 != second / 0x100
}

/// A byte taken for a signed branch offset.
pub open spec fn branch_offset(value: u8) -> int {
    if value >= 0x80 {
        value - 0x100
    } else {
        value as int
    }
}

/// The number of reads that it takes to find the operand.
pub open spec fn resolve_reads(mode: AddressingMode) -> int {
    match mode {
        AddressingMode::Implied | AddressingMode::Accumulator | AddressingMode::Immediate => 0,
        AddressingMode::ZeroPage | AddressingMode::ZeroPageX | AddressingMode::ZeroPageY
        | AddressingMode::Relative => 1,
        AddressingMode::Absolute | AddressingMode::AbsoluteX | AddressingMode::AbsoluteY => 2,
        AddressingMode::IndirectX | AddressingMode::IndirectY => 3,
        AddressingMode::Indirect => 4,
    }
}

/// The operand in memory at `base` plus `index`.
pub open spec fn indexed(base: u16, index: u8) -> Operand {
    Operand::Address {
        address: address_after(base, index as int),
        page_crossed: pages_differ(base, address_after(base, index as int)),
    }
}

/// The operand that `mode` finds, with the program counter at the first
/// operand byte and `reads` the reads that finding it took.
///
/// An immediate operand is the byte at the program counter itself. Zero-page
/// addresses wrap within page 0 when they are indexed, and so do the
/// pointers of the two indexed indirect modes. The pointer of an indirect
/// jump wraps within its page. A branch target is taken from the address
/// after the offset byte.
pub open spec fn resolved(mode: AddressingMode, registers: Registers, reads: Seq<BusAccess>) -> Resolution {
    let pc = registers.pc;
    let first = reads[0].value();
    let second = reads[1].value();
    let third = reads[2].value();
    let fourth = reads[3].value();
    match mode {
        AddressingMode::Implied => Resolution { operand: Operand::Implied, pc },
        AddressingMode::Accumulator => Resolution { operand: Operand::Accumulator, pc },
        AddressingMode::Immediate => Resolution {
            operand: Operand::Address { address: pc, page_crossed: false },
            pc: address_after(pc, 1),
        },
        AddressingMode::ZeroPage => Resolution {
            operand: Operand::Address { address: zero_page(first, 0), page_crossed: false },
            pc: address_after(pc, 1),
        },
        AddressingMode::ZeroPageX => Resolution {
            operand: Operand::Address {
                address: zero_page(first, registers.x as int),
                page_crossed: false,
            },
            pc: address_after(pc, 1),
        },
        AddressingMode::ZeroPageY => Resolution {
            operand: Operand::Address {
                address: zero_page(first, registers.y as int),
                page_crossed: false,
            },
            pc: address_after(pc, 1),
        },
        AddressingMode::Relative => Resolution {
            operand: Operand::Address {
                address: address_after(address_after(pc, 1), branch_offset(first)),
                page_crossed: pages_differ(
                    address_after(pc, 1),
                    address_after(address_after(pc, 1), branch_offset(first)),
                ),
            },
            pc: address_after(pc, 1),
        },
        AddressingMode::Absolute => Resolution {
            operand: Operand::Address { address: address_of(second, first), page_crossed: false },
            pc: address_after(pc, 2),
        },
        AddressingMode::AbsoluteX => Resolution {
            operand: indexed(address_of(second, first), registers.x),
            pc: address_after(pc, 2),
        },
        AddressingMode::AbsoluteY => Resolution {
            operand: indexed(address_of(second, first), registers.y),
            pc: address_after(pc, 2),
        },
        AddressingMode::IndirectX => Resolution {
            operand: Operand::Address { address: address_of(third, second), page_crossed: false },
            pc: address_after(pc, 1),
        },
        AddressingMode::IndirectY => Resolution {
            operand: indexed(address_of(third, second), registers.y),
            pc: address_after(pc, 1),
        },
        AddressingMode::Indirect => Resolution {
            operand: Operand::Address { address: address_of(fourth, third), page_crossed: false },
            pc: address_after(pc, 2),
        },
    }
}

/// `reads` is exactly what finding the operand of `mode` reads: the operand
/// bytes at the program counter and, for the indirect modes, the two bytes of
/// the pointer where the operand bytes say.
pub open spec fn resolve_traffic(
    mode: AddressingMode,
    registers: Registers,
    reads: Seq<BusAccess>,
) -> bool {
    let pc = registers.pc;
    let first = reads[0].value();
    let second = reads[1].value();
    &&& reads.len() == resolve_reads(mode)
    &&& resolve_reads(mode) >= 1 ==> is_read(reads[0], pc)
    &&& match mode {
        AddressingMode::Absolute | AddressingMode::AbsoluteX | AddressingMode::AbsoluteY => is_read(
            reads[1],
            address_after(pc, 1),
        ),
        AddressingMode::IndirectX => {
            &&& is_read(reads[1], zero_page(first, registers.x as int))
            &&& is_read(reads[2], zero_page(first, registers.x + 1))
        },
        AddressingMode::IndirectY => {
            &&& is_read(reads[1], zero_page(first, 0))
            &&& is_read(reads[2], zero_page(first, 1))
        },
        AddressingMode::Indirect => {
            &&& is_read(reads[1], address_after(pc, 1))
            &&& is_read(reads[2], address_of(second, first))
            &&& is_read(reads[3], next_in_page(address_of(second, first)))
        },
        _ => true,
    }
}

/// The cycles that an instruction takes beyond its entry in the opcode table:
/// one for a read whose indexing crossed a page, one for a branch that is
/// taken and one more if it leaves its page.
pub open spec fn penalty(instruction: Instruction, operand: Operand, registers: Registers) -> int {
    match (instruction.mnemonic.kind(), operand) {
        (InstructionKind::Read, Operand::Address { page_crossed, .. }) => if page_crossed
            && instruction.mode.spec_has_page_cross_penalty() {
            1
        } else {
            0
        },
        (InstructionKind::Branch, Operand::Address { page_crossed, .. }) => if branch_condition(
            instruction.mnemonic,
            registers.status,
        ) {
            if page_crossed {
                2
            } else {
                1
            }
        } else {
            0
        },
        _ => 0,
    }
}

/// The address part of an operand; 0 for an operand that has none.
pub open spec fn operand_address(operand: Operand) -> u16 {
    match operand {
        Operand::Address { address, .. } => address,
        _ => 0,
    }
}

/// What carrying out `instruction` on `operand` does: `traffic` is exactly
/// its traffic on the bus and `after` are the registers that it leaves, with
/// `before.pc` the address after the instruction's last byte.
///
/// A read-modify-write instruction on memory writes the unchanged value back
/// before it writes the result. A call pushes the address of its own last
/// byte, and a return goes to the address after the one that it pulls. BRK
/// skips the byte after its opcode and pushes the flags with the break flag
/// set before it goes where the vector at 0xFFFE says, with interrupts
/// disabled.
pub open spec fn execution(
    instruction: Instruction,
    operand: Operand,
    before: Registers,
    traffic: Seq<BusAccess>,
    after: Registers,
) -> bool {
    let mnemonic = instruction.mnemonic;
    let address = operand_address(operand);
    match mnemonic.kind() {
        InstructionKind::Read => if operand is Address {
            &&& traffic.len() == 1
            &&& is_read(traffic[0], address)
            &&& after == read_effect(mnemonic, before, traffic[0].value())
        } else {
            traffic.len() == 0 && after == before
        },
        InstructionKind::Store => if operand is Address {
            &&& traffic == seq![
                BusAccess::Write { address, value: store_value(mnemonic, before) },
            ]
            &&& after == before
        } else {
            traffic.len() == 0 && after == before
        },
        InstructionKind::Modify => if operand is Address {
            let value = traffic[0].value();
            let result = modified(mnemonic, before.status, value);
            &&& traffic == seq![
                BusAccess::Read { address, value },
                BusAccess::Write { address, value },
                BusAccess::Write { address, value: result.value },
            ]
            &&& after == (Registers { status: result.status, ..before })
        } else {
            let result = modified(mnemonic, before.status, before.a);
            &&& traffic.len() == 0
            &&& after == (Registers { a: result.value, status: result.status, ..before })
        },
        InstructionKind::Implied => {
            &&& traffic.len() == 0
            &&& after == implied_effect(mnemonic, before)
        },
        InstructionKind::Branch => {
            &&& traffic.len() == 0
            &&& after == (if operand is Address && branch_condition(mnemonic, before.status) {
                before.with_pc(address)
            } else {
                before
            })
        },
        InstructionKind::Jump => {
            &&& traffic.len() == 0
            &&& after == (if operand is Address {
                before.with_pc(address)
            } else {
                before
            })
        },
        InstructionKind::Call => {
            let last = address_after(before.pc, -1);
            &&& traffic == seq![
                BusAccess::Write { address: before.stack_address(), value: (last / 0x100) as u8 },
                BusAccess::Write {
                    address: before.pushed().stack_address(),
                    value: (last % 0x100) as u8,
                },
            ]
            &&& after == before.pushed().pushed().with_pc(address)
        },
        InstructionKind::Return => {
            let low = traffic[0].value();
            let high = traffic[1].value();
            &&& traffic.len() == 2
            &&& is_read(traffic[0], before.pulled().stack_address())
            &&& is_read(traffic[1], before.pulled().pulled().stack_address())
            &&& after == before.pulled().pulled().with_pc(address_after(address_of(high, low), 1))
        },
        InstructionKind::ReturnFromInterrupt => {
            let flags = traffic[0].value();
            let low = traffic[1].value();
            let high = traffic[2].value();
            &&& traffic.len() == 3
            &&& is_read(traffic[0], before.pulled().stack_address())
            &&& is_read(traffic[1], before.pulled().pulled().stack_address())
            &&& is_read(traffic[2], before.pulled().pulled().pulled().stack_address())
            &&& after == (Registers {
                pc: address_of(high, low),
                status: StatusFlags::from_byte(flags),
                ..before.pulled().pulled().pulled()
            })
        },
        InstructionKind::Break => interrupt_entry(
            InterruptKind::Break,
            before.with_pc(address_after(before.pc, 1)),
            traffic,
            after,
        ),
        InstructionKind::Push => {
            &&& traffic == seq![
                BusAccess::Write {
                    address: before.stack_address(),
                    value: push_value(mnemonic, before),
                },
            ]
            &&& after == before.pushed()
        },
        InstructionKind::Pull => {
            &&& traffic.len() == 1
            &&& is_read(traffic[0], before.pulled().stack_address())
            &&& after == pull_effect(mnemonic, before.pulled(), traffic[0].value())
        },
    }
}

/// What makes the core leave the instruction stream for a handler.
#[derive(Debug, Clone, Copy, PartialEq, Eq, Structural)]
pub enum InterruptKind {
    NonMaskable,
    Request,
    Break,
}

impl InterruptKind {
    /// Where the handler's address is found.
    pub open spec fn vector(self) -> u16 {
        match self {
            InterruptKind::NonMaskable => NMI_VECTOR,
            _ => IRQ_VECTOR,
        }
    }

    pub fn vector_address(self) -> (vector: u16)
        ensures
            vector == self.vector(),
    {
        match self {
            InterruptKind::NonMaskable => NMI_VECTOR,
            _ => IRQ_VECTOR,
        }
    }
}

/// Entering a handler: the program counter, high byte first, and the flags go
/// onto the stack, the flags with the break flag set only for BRK; a
/// non-maskable interrupt is acknowledged; the handler's address is read from
/// the vector; and from then on interrupts are disabled.
pub open spec fn interrupt_entry(
    kind: InterruptKind,
    before: Registers,
    traffic: Seq<BusAccess>,
    after: Registers,
) -> bool {
    let pushes = seq![
        BusAccess::Write { address: before.stack_address(), value: (before.pc / 0x100) as u8 },
        BusAccess::Write {
            address: before.pushed().stack_address(),
            value: (before.pc % 0x100) as u8,
        },
        BusAccess::Write {
            address: before.pushed().pushed().stack_address(),
            value: before.status.to_byte(kind == InterruptKind::Break),
        },
    ];
    let acknowledged = if kind == InterruptKind::NonMaskable {
        pushes.push(BusAccess::AcknowledgeNmi)
    } else {
        pushes
    };
    let low = traffic[acknowledged.len() as int].value();
    let high = traffic[acknowledged.len() + 1 as int].value();
    &&& traffic == acknowledged.push(BusAccess::Read { address: kind.vector(), value: low }).push(
        BusAccess::Read { address: address_after(kind.vector(), 1), value: high },
    )
    &&& after == (Registers {
        pc: address_of(high, low),
        status: StatusFlags { interrupt_disable: true, ..before.status },
        ..before.pushed().pushed().pushed()
    })
}

/// The core: its registers and the interrupts that it has seen waiting.
#[derive(Debug, Clone, Copy, PartialEq, Eq, Structural)]
pub struct Mos6502 {
    pub registers: Registers,
    /// The non-maskable interrupt line was high when it was last sampled.
    pub nmi_pending: bool,
    /// The interrupt request line was high when it was last sampled.
    pub irq_pending: bool,
}

/// What the next step is: the entry into a handler for a waiting interrupt,
/// the non-maskable one first and a request only while interrupts are not
/// disabled, or else an instruction.
pub open spec fn preempting(cpu: Mos6502) -> Option<InterruptKind> {
    if cpu.nmi_pending {
        Some(InterruptKind::NonMaskable)
    } else if cpu.irq_pending && !cpu.registers.status.interrupt_disable {
        Some(InterruptKind::Request)
    } else {
        None
    }
}

/// The instruction that a step fetches: the opcode is what the first access
/// of the step carries.
pub open spec fn fetched_instruction(traffic: Seq<BusAccess>) -> Instruction {
    decode(traffic[0].value())
}

/// The part of a step's traffic that finds the operand.
pub open spec fn resolve_window(traffic: Seq<BusAccess>) -> Seq<BusAccess> {
    traffic.subrange(1, 1 + resolve_reads(fetched_instruction(traffic).mode))
}

/// The part of a step's traffic that carries the instruction out.
pub open spec fn execute_window(traffic: Seq<BusAccess>) -> Seq<BusAccess> {
    traffic.skip(1 + resolve_reads(fetched_instruction(traffic).mode))
}

/// One step from registers `before`: `traffic` is exactly the step's traffic
/// on the bus, `after` are the registers that it leaves and `cycles` is what
/// it costs.
///
/// A waiting interrupt takes the place of the instruction and costs seven
/// cycles. Otherwise the opcode is read at the program counter, the operand
/// is found, the instruction is carried out, and the cost is that of the
/// opcode table plus the penalty.
pub open spec fn step_outcome(
    before: Mos6502,
    traffic: Seq<BusAccess>,
    after: Registers,
    cycles: u32,
) -> bool {
    match preempting(before) {
        Some(kind) => {
            &&& interrupt_entry(kind, before.registers, traffic, after)
            &&& cycles == INTERRUPT_CYCLES
        },
        None => {
            let instruction = fetched_instruction(traffic);
            let fetched = before.registers.with_pc(address_after(before.registers.pc, 1));
            let resolution = resolved(instruction.mode, fetched, resolve_window(traffic));
            let ready = fetched.with_pc(resolution.pc);
            &&& traffic.len() >= 1 + resolve_reads(instruction.mode)
            &&& is_read(traffic[0], before.registers.pc)
            &&& resolve_traffic(instruction.mode, fetched, resolve_window(traffic))
            &&& execution(instruction, resolution.operand, ready, execute_window(traffic), after)
            &&& cycles == instruction.cycles + penalty(instruction, resolution.operand, ready)
        },
    }
}

/// A reset: the program counter comes from the vector at 0xFFFC, the stack
/// pointer goes down by three without anything being written, interrupts are
/// disabled and decimal mode is off.
pub open spec fn reset_outcome(before: Registers, traffic: Seq<BusAccess>, after: Registers) -> bool {
    let low = traffic[0].value();
    let high = traffic[1].value();
    &&& traffic == seq![
        BusAccess::Read { address: RESET_VECTOR, value: low },
        BusAccess::Read { address: address_after(RESET_VECTOR, 1), value: high },
    ]
    &&& after == (Registers {
        pc: address_of(high, low),
        status: StatusFlags { interrupt_disable: true, decimal: false, ..before.status },
        ..before.pushed().pushed().pushed()
    })
}

/// Continuing a record is transitive, and what was recorded in between stays
/// where it was.
pub proof fn lemma_continues_twice(
    first: Seq<BusAccess>,
    second: Seq<BusAccess>,
    third: Seq<BusAccess>,
)
    requires
        continues(first, second),
        continues(second, third),
    ensures
        continues(first, third),
        since(first, third).take(second.len() - first.len()) == since(first, second),
        since(first, third).skip(second.len() - first.len()) == since(second, third),
{
    assert forall|i: int| 0 <= i < second.len() implies third[i] == second[i] by {
        assert(third.take(second.len() as int)[i] == second[i]);
    }
    assert forall|i: int| 0 <= i < first.len() implies third[i] == first[i] by {
        assert(second.take(first.len() as int)[i] == first[i]);
    }
    assert(third.take(first.len() as int) =~= first);
    assert(since(first, third).take(second.len() - first.len()) =~= since(first, second));
    assert(since(first, third).skip(second.len() - first.len()) =~= since(second, third));
}

/// Pushes `value` onto the stack.
fn push<B: BusInterface>(registers: &mut Registers, bus: &mut B, value: u8)
    ensures
        final(bus).accesses() == old(bus).accesses().push(
            BusAccess::Write { address: old(registers).stack_address(), value },
        ),
        *final(registers) == old(registers).pushed(),
{
    bus.write(0x0100 + registers.sp as u16, value);
    registers.sp = registers.sp.wrapping_sub(1);
}

/// Pulls a byte off the stack.
fn pull<B: BusInterface>(registers: &mut Registers, bus: &mut B) -> (value: u8)
    ensures
        final(bus).accesses() == old(bus).accesses().push(
            BusAccess::Read { address: old(registers).pulled().stack_address(), value },
        ),
        *final(registers) == old(registers).pulled(),
{
    registers.sp = registers.sp.wrapping_add(1);
    bus.read(0x0100 + registers.sp as u16)
}

/// Reads the byte at the program counter and moves the program counter past
/// it.
fn fetch<B: BusInterface>(registers: &mut Registers, bus: &mut B) -> (value: u8)
    ensures
        final(bus).accesses() == old(bus).accesses().push(
            BusAccess::Read { address: old(registers).pc, value },
        ),
        *final(registers) == old(registers).with_pc(address_after(old(registers).pc, 1)),
{
    let value = bus.read(registers.pc);
    registers.pc = address_plus(registers.pc, 1);
    value
}

/// Reads the low byte of an address at `pointer` and its high byte at
/// `second`.
fn read_address<B: BusInterface>(bus: &mut B, pointer: u16, second: u16) -> (address: (u8, u8))
    ensures
        final(bus).accesses() == old(bus).accesses().push(
            BusAccess::Read { address: pointer, value: address.0 },
        ).push(BusAccess::Read { address: second, value: address.1 }),
{
    let low = bus.read(pointer);
    let high = bus.read(second);
    (low, high)
}

/// The operand at `base` plus `index`.
fn index_address(base: u16, index: u8) -> (operand: Operand)
    ensures
        operand == indexed(base, index),
{
    let address = address_plus(base, index as u16);
    Operand::Address { address, page_crossed: base / 0x100 != address / 0x100 }
}

/// Finding the operand of `mode` has taken the registers from `before` to
/// `after` and the bus record from `earlier` to `accesses`, and has found
/// `operand`.
pub open spec fn resolution(
    mode: AddressingMode,
    before: Registers,
    earlier: Seq<BusAccess>,
    operand: Operand,
    after: Registers,
    accesses: Seq<BusAccess>,
) -> bool {
    &&& continues(earlier, accesses)
    &&& resolve_traffic(mode, before, since(earlier, accesses))
    &&& operand == resolved(mode, before, since(earlier, accesses)).operand
    &&& after == before.with_pc(resolved(mode, before, since(earlier, accesses)).pc)
}

#[verifier::rlimit(50)]
fn resolve_zero_page<B: BusInterface>(
    registers: &mut Registers,
    bus: &mut B,
    mode: AddressingMode,
) -> (operand: Operand)
    requires
        mode == AddressingMode::ZeroPage || mode == AddressingMode::ZeroPageX || mode
            == AddressingMode::ZeroPageY,
    ensures
        resolution(
            mode,
            *old(registers),
            old(bus).accesses(),
            operand,
            *final(registers),
            final(bus).accesses(),
        ),
{
    let ghost earlier = bus.accesses();
    let first = fetch(registers, bus);
    let index: u8 = match mode {
        AddressingMode::ZeroPageX => registers.x,
        AddressingMode::ZeroPageY => registers.y,
        _ => 0,
    };
    proof {
        assert(bus.accesses().take(earlier.len() as int) =~= earlier);
        assert(since(earlier, bus.accesses()) =~= seq![
            BusAccess::Read { address: old(registers).pc, value: first },
        ]);
    }
    Operand::Address { address: zero_page_address(first, index), page_crossed: false }
}

/// The address that a branch at `next` with the given offset byte goes to.
fn branch_target(next: u16, offset: u8) -> (target: u16)
    ensures
        target == address_after(next, branch_offset(offset)),
{
    proof {
        reveal(address_after);
    }
    if offset >= 0x80 {
        next.wrapping_sub(0x100 - offset as u16)
    } else {
        next.wrapping_add(offset as u16)
    }
}

#[verifier::rlimit(50)]
fn resolve_relative<B: BusInterface>(registers: &mut Registers, bus: &mut B) -> (operand: Operand)
    ensures
        resolution(
            AddressingMode::Relative,
            *old(registers),
            old(bus).accesses(),
            operand,
            *final(registers),
            final(bus).accesses(),
        ),
{
    let ghost earlier = bus.accesses();
    let first = fetch(registers, bus);
    let next = registers.pc;
    let address = branch_target(next, first);
    proof {
        assert(bus.accesses().take(earlier.len() as int) =~= earlier);
        assert(since(earlier, bus.accesses()) =~= seq![
            BusAccess::Read { address: old(registers).pc, value: first },
        ]);
    }
    Operand::Address { address, page_crossed: next / 0x100 != address / 0x100 }
}

#[verifier::rlimit(50)]
fn resolve_absolute<B: BusInterface>(
    registers: &mut Registers,
    bus: &mut B,
    mode: AddressingMode,
) -> (operand: Operand)
    requires
        mode == AddressingMode::Absolute || mode == AddressingMode::AbsoluteX || mode
            == AddressingMode::AbsoluteY,
    ensures
        resolution(
            mode,
            *old(registers),
            old(bus).accesses(),
            operand,
            *final(registers),
            final(bus).accesses(),
        ),
{
    let ghost earlier = bus.accesses();
    let first = fetch(registers, bus);
    let second = fetch(registers, bus);
    proof {
        assert(bus.accesses().take(earlier.len() as int) =~= earlier);
        assert(since(earlier, bus.accesses()) =~= seq![
            BusAccess::Read { address: old(registers).pc, value: first },
            BusAccess::Read { address: address_after(old(registers).pc, 1), value: second },
        ]);
        lemma_address_after_twice(old(registers).pc, 1, 1);
    }
    let base = make_address(second, first);
    match mode {
        AddressingMode::AbsoluteX => index_address(base, registers.x),
        AddressingMode::AbsoluteY => index_address(base, registers.y),
        _ => Operand::Address { address: base, page_crossed: false },
    }
}

/// The zero-page address after the one `index` bytes after `base`.
fn next_in_zero_page(base: u8, index: u8) -> (address: u16)
    ensures
        address == zero_page(base, index + 1),
{
    proof {
        reveal(zero_page);
    }
    (base as u16 + index as u16 + 1) % 0x100
}

#[verifier::rlimit(50)]
fn resolve_indirect_x<B: BusInterface>(registers: &mut Registers, bus: &mut B) -> (operand: Operand)
    ensures
        resolution(
            AddressingMode::IndirectX,
            *old(registers),
            old(bus).accesses(),
            operand,
            *final(registers),
            final(bus).accesses(),
        ),
{
    let ghost earlier = bus.accesses();
    let first = fetch(registers, bus);
    let pointer = zero_page_address(first, registers.x);
    let pointer_high = next_in_zero_page(first, registers.x);
    let (low, high) = read_address(bus, pointer, pointer_high);
    proof {
        assert(bus.accesses().take(earlier.len() as int) =~= earlier);
        assert(since(earlier, bus.accesses()) =~= seq![
            BusAccess::Read { address: old(registers).pc, value: first },
            BusAccess::Read { address: pointer, value: low },
            BusAccess::Read { address: pointer_high, value: high },
        ]);
    }
    Operand::Address { address: make_address(high, low), page_crossed: false }
}

#[verifier::rlimit(50)]
fn resolve_indirect_y<B: BusInterface>(registers: &mut Registers, bus: &mut B) -> (operand: Operand)
    ensures
        resolution(
            AddressingMode::IndirectY,
            *old(registers),
            old(bus).accesses(),
            operand,
            *final(registers),
            final(bus).accesses(),
        ),
{
    let ghost earlier = bus.accesses();
    let first = fetch(registers, bus);
    let pointer = zero_page_address(first, 0);
    let pointer_high = zero_page_address(first, 1);
    let (low, high) = read_address(bus, pointer, pointer_high);
    proof {
        assert(bus.accesses().take(earlier.len() as int) =~= earlier);
        assert(since(earlier, bus.accesses()) =~= seq![
            BusAccess::Read { address: old(registers).pc, value: first },
            BusAccess::Read { address: pointer, value: low },
            BusAccess::Read { address: pointer_high, value: high },
        ]);
    }
    index_address(make_address(high, low), registers.y)
}

#[verifier::rlimit(50)]
fn resolve_indirect<B: BusInterface>(registers: &mut Registers, bus: &mut B) -> (operand: Operand)
    ensures
        resolution(
            AddressingMode::Indirect,
            *old(registers),
            old(bus).accesses(),
            operand,
            *final(registers),
            final(bus).accesses(),
        ),
{
    let ghost earlier = bus.accesses();
    let first = fetch(registers, bus);
    let second = fetch(registers, bus);
    let pointer = make_address(second, first);
    let pointer_high = page_wrapped_next(pointer);
    let (low, high) = read_address(bus, pointer, pointer_high);
    proof {
        lemma_address_after_twice(old(registers).pc, 1, 1);
        assert(bus.accesses().take(earlier.len() as int) =~= earlier);
        assert(since(earlier, bus.accesses()) =~= seq![
            BusAccess::Read { address: old(registers).pc, value: first },
            BusAccess::Read { address: address_after(old(registers).pc, 1), value: second },
            BusAccess::Read { address: pointer, value: low },
            BusAccess::Read { address: pointer_high, value: high },
        ]);
    }
    Operand::Address { address: make_address(high, low), page_crossed: false }
}

/// Finds the operand of an instruction whose opcode has just been fetched.
#[verifier::rlimit(50)]
pub fn resolve<B: BusInterface>(registers: &mut Registers, bus: &mut B, mode: AddressingMode) -> (operand:
    Operand)
    ensures
        resolution(
            mode,
            *old(registers),
            old(bus).accesses(),
            operand,
            *final(registers),
            final(bus).accesses(),
        ),
{
    proof {
        assert(bus.accesses().take(bus.accesses().len() as int) =~= bus.accesses());
    }
    match mode {
        AddressingMode::Implied => Operand::Implied,
        AddressingMode::Accumulator => Operand::Accumulator,
        AddressingMode::Immediate => {
            let address = registers.pc;
            registers.pc = address_plus(registers.pc, 1);
            Operand::Address { address, page_crossed: false }
        },
        AddressingMode::ZeroPage | AddressingMode::ZeroPageX | AddressingMode::ZeroPageY => resolve_zero_page(
            registers,
            bus,
            mode,
        ),
        AddressingMode::Relative => resolve_relative(registers, bus),
        AddressingMode::Absolute | AddressingMode::AbsoluteX | AddressingMode::AbsoluteY => resolve_absolute(
            registers,
            bus,
            mode,
        ),
        AddressingMode::IndirectX => resolve_indirect_x(registers, bus),
        AddressingMode::IndirectY => resolve_indirect_y(registers, bus),
        AddressingMode::Indirect => resolve_indirect(registers, bus),
    }
}

/// Enters the handler of an interrupt.
#[verifier::rlimit(50)]
pub fn enter_interrupt<B: BusInterface>(registers: &mut Registers, bus: &mut B, kind: InterruptKind)
    ensures
        continues(old(bus).accesses(), final(bus).accesses()),
        interrupt_entry(
            kind,
            *old(registers),
            since(old(bus).accesses(), final(bus).accesses()),
            *final(registers),
        ),
{
    let ghost earlier = bus.accesses();
    let pc = registers.pc;
    let flags = registers.status.byte(
        match kind {
            InterruptKind::Break => true,
            _ => false,
        },
    );
    push(registers, bus, (pc / 0x100) as u8);
    push(registers, bus, (pc % 0x100) as u8);
    push(registers, bus, flags);
    match kind {
        InterruptKind::NonMaskable => {
            bus.acknowledge_nmi();
        },
        _ => {},
    }
    let vector = kind.vector_address();
    let (low, high) = read_address(bus, vector, address_plus(vector, 1));
    registers.status.interrupt_disable = true;
    registers.pc = make_address(high, low);
    proof {
        let traffic = since(earlier, bus.accesses());
        assert(bus.accesses().take(earlier.len() as int) =~= earlier);
        let pushes = seq![
            BusAccess::Write { address: old(registers).stack_address(), value: (pc / 0x100) as u8 },
            BusAccess::Write {
                address: old(registers).pushed().stack_address(),
                value: (pc % 0x100) as u8,
            },
            BusAccess::Write {
                address: old(registers).pushed().pushed().stack_address(),
                value: flags,
            },
        ];
        let acknowledged = if kind == InterruptKind::NonMaskable {
            pushes.push(BusAccess::AcknowledgeNmi)
        } else {
            pushes
        };
        assert(traffic =~= acknowledged.push(
            BusAccess::Read { address: kind.vector(), value: low },
        ).push(BusAccess::Read { address: address_after(kind.vector(), 1), value: high }));
    }
}

/// Carrying out `instruction` on `operand` has taken the registers from
/// `before` to `after` and the bus record from `earlier` to `accesses`.
pub open spec fn executed(
    instruction: Instruction,
    operand: Operand,
    before: Registers,
    earlier: Seq<BusAccess>,
    after: Registers,
    accesses: Seq<BusAccess>,
) -> bool {
    &&& continues(earlier, accesses)
    &&& execution(instruction, operand, before, since(earlier, accesses), after)
}

#[verifier::rlimit(50)]
fn execute_on_memory<B: BusInterface>(
    registers: &mut Registers,
    bus: &mut B,
    instruction: Instruction,
    operand: Operand,
)
    requires
        instruction.mnemonic.kind() == InstructionKind::Read || instruction.mnemonic.kind()
            == InstructionKind::Store || instruction.mnemonic.kind() == InstructionKind::Modify,
    ensures
        executed(
            instruction,
            operand,
            *old(registers),
            old(bus).accesses(),
            *final(registers),
            final(bus).accesses(),
        ),
{
    let ghost earlier = bus.accesses();
    let mnemonic = instruction.mnemonic;
    proof {
        assert(earlier.take(earlier.len() as int) =~= earlier);
    }
    match operand {
        Operand::Address { address, .. } => match mnemonic.instruction_kind() {
            InstructionKind::Read => {
                let value = bus.read(address);
                *registers = apply_read(mnemonic, *registers, value);
                proof {
                    assert(bus.accesses().take(earlier.len() as int) =~= earlier);
                    assert(since(earlier, bus.accesses()) =~= seq![
                        BusAccess::Read { address, value },
                    ]);
                }
            },
            InstructionKind::Store => {
                let value = value_to_store(mnemonic, *registers);
                bus.write(address, value);
                proof {
                    assert(bus.accesses().take(earlier.len() as int) =~= earlier);
                    assert(since(earlier, bus.accesses()) =~= seq![
                        BusAccess::Write { address, value },
                    ]);
                }
            },
            _ => {
                let value = bus.read(address);
                let result = modify(mnemonic, registers.status, value);
                bus.write(address, value);
                bus.write(address, result.value);
                registers.status = result.status;
                proof {
                    assert(bus.accesses().take(earlier.len() as int) =~= earlier);
                    assert(since(earlier, bus.accesses()) =~= seq![
                        BusAccess::Read { address, value },
                        BusAccess::Write { address, value },
                        BusAccess::Write { address, value: result.value },
                    ]);
                }
            },
        },
        _ => match mnemonic.instruction_kind() {
            InstructionKind::Modify => {
                let result = modify(mnemonic, registers.status, registers.a);
                registers.a = result.value;
                registers.status = result.status;
            },
            _ => {},
        },
    }
}

#[verifier::rlimit(50)]
fn execute_call<B: BusInterface>(
    registers: &mut Registers,
    bus: &mut B,
    instruction: Instruction,
    operand: Operand,
)
    requires
        instruction.mnemonic.kind() == InstructionKind::Call,
    ensures
        executed(
            instruction,
            operand,
            *old(registers),
            old(bus).accesses(),
            *final(registers),
            final(bus).accesses(),
        ),
{
    let ghost earlier = bus.accesses();
    let last = address_before(registers.pc);
    push(registers, bus, (last / 0x100) as u8);
    push(registers, bus, (last % 0x100) as u8);
    registers.pc = match operand {
        Operand::Address { address, .. } => address,
        _ => 0,
    };
    proof {
        assert(bus.accesses().take(earlier.len() as int) =~= earlier);
        assert(since(earlier, bus.accesses()) =~= seq![
            BusAccess::Write { address: old(registers).stack_address(), value: (last / 0x100) as u8 },
            BusAccess::Write {
                address: old(registers).pushed().stack_address(),
                value: (last % 0x100) as u8,
            },
        ]);
    }
}

#[verifier::rlimit(50)]
fn execute_return<B: BusInterface>(
    registers: &mut Registers,
    bus: &mut B,
    instruction: Instruction,
    operand: Operand,
)
    requires
        instruction.mnemonic.kind() == InstructionKind::Return || instruction.mnemonic.kind()
            == InstructionKind::ReturnFromInterrupt,
    ensures
        executed(
            instruction,
            operand,
            *old(registers),
            old(bus).accesses(),
            *final(registers),
            final(bus).accesses(),
        ),
{
    let ghost earlier = bus.accesses();
    match instruction.mnemonic.instruction_kind() {
        InstructionKind::Return => {
            let low = pull(registers, bus);
            let high = pull(registers, bus);
            registers.pc = address_plus(make_address(high, low), 1);
            proof {
                assert(bus.accesses().take(earlier.len() as int) =~= earlier);
                assert(since(earlier, bus.accesses()) =~= seq![
                    BusAccess::Read { address: old(registers).pulled().stack_address(), value: low },
                    BusAccess::Read {
                        address: old(registers).pulled().pulled().stack_address(),
                        value: high,
                    },
                ]);
            }
        },
        _ => {
            let flags = pull(registers, bus);
            let low = pull(registers, bus);
            let high = pull(registers, bus);
            registers.status = StatusFlags::of_byte(flags);
            registers.pc = make_address(high, low);
            proof {
                assert(bus.accesses().take(earlier.len() as int) =~= earlier);
                assert(since(earlier, bus.accesses()) =~= seq![
                    BusAccess::Read { address: old(registers).pulled().stack_address(), value: flags },
                    BusAccess::Read {
                        address: old(registers).pulled().pulled().stack_address(),
                        value: low,
                    },
                    BusAccess::Read {
                        address: old(registers).pulled().pulled().pulled().stack_address(),
                        value: high,
                    },
                ]);
            }
        },
    }
}

#[verifier::rlimit(50)]
fn execute_on_stack<B: BusInterface>(
    registers: &mut Registers,
    bus: &mut B,
    instruction: Instruction,
    operand: Operand,
)
    requires
        instruction.mnemonic.kind() == InstructionKind::Push || instruction.mnemonic.kind()
            == InstructionKind::Pull,
    ensures
        executed(
            instruction,
            operand,
            *old(registers),
            old(bus).accesses(),
            *final(registers),
            final(bus).accesses(),
        ),
{
    let ghost earlier = bus.accesses();
    let mnemonic = instruction.mnemonic;
    match mnemonic.instruction_kind() {
        InstructionKind::Push => {
            let value = value_to_push(mnemonic, *registers);
            push(registers, bus, value);
            proof {
                assert(bus.accesses().take(earlier.len() as int) =~= earlier);
                assert(since(earlier, bus.accesses()) =~= seq![
                    BusAccess::Write { address: old(registers).stack_address(), value },
                ]);
            }
        },
        _ => {
            let value = pull(registers, bus);
            *registers = apply_pull(mnemonic, *registers, value);
            proof {
                assert(bus.accesses().take(earlier.len() as int) =~= earlier);
                assert(since(earlier, bus.accesses()) =~= seq![
                    BusAccess::Read { address: old(registers).pulled().stack_address(), value },
                ]);
            }
        },
    }
}

/// Carries out an instruction whose operand has been found.
#[verifier::rlimit(50)]
pub fn execute<B: BusInterface>(
    registers: &mut Registers,
    bus: &mut B,
    instruction: Instruction,
    operand: Operand,
)
    ensures
        executed(
            instruction,
            operand,
            *old(registers),
            old(bus).accesses(),
            *final(registers),
            final(bus).accesses(),
        ),
{
    let mnemonic = instruction.mnemonic;
    proof {
        assert(bus.accesses().take(bus.accesses().len() as int) =~= bus.accesses());
    }
    match mnemonic.instruction_kind() {
        InstructionKind::Read | InstructionKind::Store | InstructionKind::Modify => {
            execute_on_memory(registers, bus, instruction, operand);
        },
        InstructionKind::Implied => {
            *registers = apply_implied(mnemonic, *registers);
        },
        InstructionKind::Branch => {
            if let Operand::Address { address, .. } = operand {
                if branches(mnemonic, registers.status) {
                    registers.pc = address;
                }
            }
        },
        InstructionKind::Jump => {
            if let Operand::Address { address, .. } = operand {
                registers.pc = address;
            }
        },
        InstructionKind::Call => {
            execute_call(registers, bus, instruction, operand);
        },
        InstructionKind::Return | InstructionKind::ReturnFromInterrupt => {
            execute_return(registers, bus, instruction, operand);
        },
        InstructionKind::Break => {
            registers.pc = address_plus(registers.pc, 1);
            enter_interrupt(registers, bus, InterruptKind::Break);
        },
        InstructionKind::Push | InstructionKind::Pull => {
            execute_on_stack(registers, bus, instruction, operand);
        },
    }
}

impl Mos6502 {
    /// The core before its first reset.
    pub open spec fn initial() -> Self {
        Mos6502 { registers: Registers::initial(), nmi_pending: false, irq_pending: false }
    }

    #[must_use]
    pub fn new() -> (cpu: Self)
        ensures
            cpu == Mos6502::initial(),
    {
        Mos6502 {
            registers: Registers {
                pc: 0,
                a: 0,
                x: 0,
                y: 0,
                sp: 0,
                status: StatusFlags {
                    carry: false,
                    zero: false,
                    interrupt_disable: true,
                    decimal: false,
                    overflow: false,
                    negative: false,
                },
            },
            nmi_pending: false,
            irq_pending: false,
        }
    }

    /// Resets the core and samples the interrupt lines.
    #[verifier::rlimit(50)]
    pub fn reset<B: BusInterface>(&mut self, bus: &mut B)
        ensures
            continues(old(bus).accesses(), final(bus).accesses()),
            reset_outcome(
                old(self).registers,
                since(old(bus).accesses(), final(bus).accesses()),
                final(self).registers,
            ),
            final(self).nmi_pending == final(bus).nmi_line(),
            final(self).irq_pending == final(bus).irq_line(),
    {
        let ghost earlier = bus.accesses();
        let (low, high) = read_address(bus, RESET_VECTOR, address_plus(RESET_VECTOR, 1));
        self.registers.pc = make_address(high, low);
        self.registers.sp = self.registers.sp.wrapping_sub(3);
        self.registers.status.interrupt_disable = true;
        self.registers.status.decimal = false;
        self.nmi_pending = bus.nmi();
        self.irq_pending = bus.irq();
        proof {
            assert(bus.accesses().take(earlier.len() as int) =~= earlier);
            assert(since(earlier, bus.accesses()) =~= seq![
                BusAccess::Read { address: RESET_VECTOR, value: low },
                BusAccess::Read { address: address_after(RESET_VECTOR, 1), value: high },
            ]);
        }
    }

    /// Runs one step: an instruction, or the entry into the handler of an
    /// interrupt that was waiting. The interrupt lines are sampled when the
    /// step is done. Returns the cycles that the step took.
    #[verifier::rlimit(50)]
    pub fn step<B: BusInterface>(&mut self, bus: &mut B) -> (cycles: u32)
        ensures
            continues(old(bus).accesses(), final(bus).accesses()),
            step_outcome(
                *old(self),
                since(old(bus).accesses(), final(bus).accesses()),
                final(self).registers,
                cycles,
            ),
            final(self).nmi_pending == final(bus).nmi_line(),
            final(self).irq_pending == final(bus).irq_line(),
    {
        let ghost earlier = bus.accesses();
        let cycles = if self.nmi_pending {
            enter_interrupt(&mut self.registers, bus, InterruptKind::NonMaskable);
            INTERRUPT_CYCLES
        } else if self.irq_pending && !self.registers.status.interrupt_disable {
            enter_interrupt(&mut self.registers, bus, InterruptKind::Request);
            INTERRUPT_CYCLES
        } else {
            let opcode = fetch(&mut self.registers, bus);
            let ghost fetched = bus.accesses();
            let instruction = Instruction::decode(opcode);
            let operand = resolve(&mut self.registers, bus, instruction.mode);
            let ghost resolved = bus.accesses();
            let extra = extra_cycles(instruction, operand, self.registers);
            execute(&mut self.registers, bus, instruction, operand);
            proof {
                let accesses = bus.accesses();
                assert(fetched.take(earlier.len() as int) =~= earlier);
                lemma_continues_twice(fetched, resolved, accesses);
                lemma_continues_twice(earlier, fetched, accesses);
                let traffic = since(earlier, accesses);
                assert(traffic.take(1) == since(earlier, fetched));
                assert(traffic[0] == traffic.take(1)[0]);
                assert(traffic.skip(1) == since(fetched, accesses));
                assert(resolve_window(traffic) =~= since(fetched, resolved));
                assert(execute_window(traffic) =~= since(resolved, accesses));
            }
            instruction.cycles as u32 + extra
        };
        self.nmi_pending = bus.nmi();
        self.irq_pending = bus.irq();
        cycles
    }

    #[must_use]
    pub fn nmi_pending(&self) -> (pending: bool)
        ensures
            pending == self.nmi_pending,
    {
        self.nmi_pending
    }

    #[must_use]
    pub fn pc(&self) -> (pc: u16)
        ensures
            pc == self.registers.pc,
    {
        self.registers.pc
    }

    #[must_use]
    pub fn a(&self) -> (a: u8)
        ensures
            a == self.registers.a,
    {
        self.registers.a
    }

    #[must_use]
    pub fn x(&self) -> (x: u8)
        ensures
            x == self.registers.x,
    {
        self.registers.x
    }

    #[must_use]
    pub fn y(&self) -> (y: u8)
        ensures
            y == self.registers.y,
    {
        self.registers.y
    }

    #[must_use]
    pub fn sp(&self) -> (sp: u8)
        ensures
            sp == self.registers.sp,
    {
        self.registers.sp
    }

    /// The status register as a byte; the break flag reads as clear.
    #[must_use]
    pub fn p(&self) -> (p: u8)
        ensures
            p == self.registers.status.to_byte(false),
    {
        self.registers.status.byte(false)
    }
}

/// Counts the cycles that an instruction takes beyond the opcode table's.
fn extra_cycles(instruction: Instruction, operand: Operand, registers: Registers) -> (extra: u32)
    ensures
        extra == penalty(instruction, operand, registers),
{
    match operand {
        Operand::Address { page_crossed, .. } => match instruction.mnemonic.instruction_kind() {
            InstructionKind::Read => if page_crossed && instruction.mode.has_page_cross_penalty() {
                1
            } else {
                0
            },
            InstructionKind::Branch => if branches(instruction.mnemonic, registers.status) {
                if page_crossed {
                    2
                } else {
                    1
                }
            } else {
                0
            },
            _ => 0,
        },
        _ => 0,
    }
}

impl Default for Mos6502 {
    fn default() -> (cpu: Self)
        ensures
            cpu == Mos6502::initial(),
    {
        Self::new()
    }
}

} // verus!
