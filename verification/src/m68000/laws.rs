//! Laws of the 68000 core, stated over the models that its contracts use.

use vstd::prelude::*;
use crate::bits::lemma_signed_as_cast;
use crate::m68000::addressing::{misaligned, AddressingMode, Exception};
use crate::m68000::cpu::{decode, move_outcome, step, word_address, words_from, Instruction};
use crate::m68000::registers::{AddressRegister, OpSize, RegisterFile, SizedValue};
use crate::m68000::traits::BusAccess;

verus! {

/// The value that a move carries: the source operand itself where it is a
/// register or an immediate, else what the bus answered to the source read.
pub open spec fn moved_value(
    size: OpSize,
    source: AddressingMode,
    before: RegisterFile,
    earlier: Seq<BusAccess>,
    accesses: Seq<BusAccess>,
) -> SizedValue {
    if source.effective_address(before, size) is None {
        source.direct_operand(before, size)
    } else {
        accesses[earlier.len() as int].value()
    }
}

/// Neither the source nor the destination of the move is a word or a long
/// word at an odd address.
pub open spec fn move_is_aligned(
    size: OpSize,
    source: AddressingMode,
    dest: AddressingMode,
    before: RegisterFile,
) -> bool {
    &&& source.effective_address(before, size) matches Some(address) ==> !misaligned(address, size)
    &&& dest.effective_address(source.after_access(before, size), size) matches Some(address)
        ==> !misaligned(address, size)
}

/// A register that was written reads back as what was written.
pub proof fn law_address_register_read_back(
    registers: RegisterFile,
    register: AddressRegister,
    value: u32,
)
    requires
        registers.wf(),
        register.valid(),
    ensures
        registers.with_address(register, value).address_register(register) == value,
        registers.with_address(register, value).wf(),
{
}

/// Every move that completes sets N to the sign bit of the moved value and Z
/// to whether it is zero, clears V and C, and leaves X as it was. The program
/// counter, the interrupt mask and the mode flags stay as they were.
#[verifier::rlimit(50)]
pub proof fn law_move_flags(
    size: OpSize,
    source: AddressingMode,
    dest: AddressingMode,
    instruction_address: u32,
    before: RegisterFile,
    earlier: Seq<BusAccess>,
    after: RegisterFile,
    accesses: Seq<BusAccess>,
)
    requires
        move_outcome(size, source, dest, instruction_address, before, earlier, after, accesses),
        move_is_aligned(size, source, dest, before),
    ensures
        after.ccr.negative == moved_value(size, source, before, earlier, accesses).negative(),
        after.ccr.zero == (moved_value(size, source, before, earlier, accesses).raw() == 0),
        !after.ccr.overflow,
        !after.ccr.carry,
        after.ccr.extend == before.ccr.extend,
        after.pc == before.pc,
        after.interrupt_priority_mask == before.interrupt_priority_mask,
        after.supervisor_mode == before.supervisor_mode,
        after.trace_enabled == before.trace_enabled,
{
}

/// Every step that is a move, with the program counter and both operands
/// aligned, sets N and Z from the moved value, clears V and C and leaves X as
/// it was.
#[verifier::rlimit(50)]
pub proof fn law_step_move_flags(
    before: RegisterFile,
    earlier: Seq<BusAccess>,
    after: RegisterFile,
    accesses: Seq<BusAccess>,
)
    requires
        step(before, earlier, after, accesses),
        before.pc % 2 == 0,
        decode(before.pc, words_from(accesses, earlier.len() as int)).instruction is Move,
        ({
            let decoded = decode(before.pc, words_from(accesses, earlier.len() as int));
            move_is_aligned(
                decoded.instruction->size,
                decoded.instruction->source,
                decoded.instruction->dest,
                before.with_pc(word_address(before.pc, decoded.words)),
            )
        }),
    ensures
        ({
            let decoded = decode(before.pc, words_from(accesses, earlier.len() as int));
            let value = moved_value(
                decoded.instruction->size,
                decoded.instruction->source,
                before.with_pc(word_address(before.pc, decoded.words)),
                accesses.take(earlier.len() + decoded.words),
                accesses,
            );
            &&& after.ccr.negative == value.negative()
            &&& after.ccr.zero == (value.raw() == 0)
            &&& !after.ccr.overflow
            &&& !after.ccr.carry
            &&& after.ccr.extend == before.ccr.extend
            &&& after.pc == word_address(before.pc, decoded.words)
        }),
{
    let decoded = decode(before.pc, words_from(accesses, earlier.len() as int));
    law_move_flags(
        decoded.instruction->size,
        decoded.instruction->source,
        decoded.instruction->dest,
        before.pc,
        before.with_pc(word_address(before.pc, decoded.words)),
        accesses.take(earlier.len() + decoded.words),
        after,
        accesses,
    );
}

/// A move that runs into an address error leaves every condition code as it
/// was.
#[verifier::rlimit(50)]
pub proof fn law_faulting_move_keeps_flags(
    size: OpSize,
    source: AddressingMode,
    dest: AddressingMode,
    instruction_address: u32,
    before: RegisterFile,
    earlier: Seq<BusAccess>,
    after: RegisterFile,
    accesses: Seq<BusAccess>,
)
    requires
        move_outcome(size, source, dest, instruction_address, before, earlier, after, accesses),
        !move_is_aligned(size, source, dest, before),
    ensures
        after.ccr == before.ccr,
        after.supervisor_mode,
        !after.trace_enabled,
{
}

/// A word written to an address register reads back sign extended to 32 bits:
/// as the word taken for a signed 16-bit number, widened, and taken for
/// unsigned again.
pub proof fn law_address_word_write_sign_extends(
    registers: RegisterFile,
    register: AddressRegister,
    value: u16,
)
    requires
        registers.wf(),
        register.valid(),
    ensures
        registers.store_address(register, SizedValue::Word(value)).address_register(register)
            == value as i16 as i32 as u32,
        (AddressingMode::AddressDirect(register)).direct_store(
            registers,
            SizedValue::Word(value),
        ).address_register(register) == value as i16 as i32 as u32,
{
    lemma_signed_as_cast(0, value);
}

/// A read through a post-increment mode touches memory at the register's old
/// value and moves the register up only afterwards: when the access is
/// refused for its alignment, the register has not moved.
pub proof fn law_postincrement_read(
    register: AddressRegister,
    size: OpSize,
    before: RegisterFile,
    earlier: Seq<BusAccess>,
    result: Result<SizedValue, Exception>,
    after: RegisterFile,
    accesses: Seq<BusAccess>,
)
    requires
        before.wf(),
        register.valid(),
        (AddressingMode::AddressIndirectPostincrement(register)).read_outcome(
            size,
            before,
            earlier,
            result,
            after,
            accesses,
        ),
    ensures
        result matches Ok(value) ==> {
            &&& accesses == earlier.push(
                BusAccess::Read { address: before.address_register(register), value },
            )
            &&& after.address_register(register) == before.address_register(register).wrapping_add(
                size.increment_step(register),
            )
        },
        result is Err ==> {
            &&& accesses == earlier
            &&& after == before
        },
{
}

/// A write through a post-increment mode touches memory at the register's old
/// value and moves the register up only afterwards.
pub proof fn law_postincrement_write(
    register: AddressRegister,
    value: SizedValue,
    before: RegisterFile,
    earlier: Seq<BusAccess>,
    result: Result<(), Exception>,
    after: RegisterFile,
    accesses: Seq<BusAccess>,
)
    requires
        before.wf(),
        register.valid(),
        (AddressingMode::AddressIndirectPostincrement(register)).write_outcome(
            value,
            before,
            earlier,
            result,
            after,
            accesses,
        ),
    ensures
        result is Ok ==> {
            &&& accesses == earlier.push(
                BusAccess::Write { address: before.address_register(register), value },
            )
            &&& after.address_register(register) == before.address_register(register).wrapping_add(
                value.size().increment_step(register),
            )
        },
        result is Err ==> {
            &&& accesses == earlier
            &&& after == before
        },
{
}

/// A read through a pre-decrement mode moves the register down first and then
/// touches memory at the register's new value: when the access is refused for
/// its alignment, the register has moved all the same.
pub proof fn law_predecrement_read(
    register: AddressRegister,
    size: OpSize,
    before: RegisterFile,
    earlier: Seq<BusAccess>,
    result: Result<SizedValue, Exception>,
    after: RegisterFile,
    accesses: Seq<BusAccess>,
)
    requires
        before.wf(),
        register.valid(),
        (AddressingMode::AddressIndirectPredecrement(register)).read_outcome(
            size,
            before,
            earlier,
            result,
            after,
            accesses,
        ),
    ensures
        after.address_register(register) == before.address_register(register).wrapping_sub(
            size.increment_step(register),
        ),
        result matches Ok(value) ==> accesses == earlier.push(
            BusAccess::Read { address: after.address_register(register), value },
        ),
        result is Err ==> accesses == earlier,
{
}

/// A write through a pre-decrement mode moves the register down first and
/// then touches memory at the register's new value.
pub proof fn law_predecrement_write(
    register: AddressRegister,
    value: SizedValue,
    before: RegisterFile,
    earlier: Seq<BusAccess>,
    result: Result<(), Exception>,
    after: RegisterFile,
    accesses: Seq<BusAccess>,
)
    requires
        before.wf(),
        register.valid(),
        (AddressingMode::AddressIndirectPredecrement(register)).write_outcome(
            value,
            before,
            earlier,
            result,
            after,
            accesses,
        ),
    ensures
        after.address_register(register) == before.address_register(register).wrapping_sub(
            value.size().increment_step(register),
        ),
        result is Ok ==> accesses == earlier.push(
            BusAccess::Write { address: after.address_register(register), value },
        ),
        result is Err ==> accesses == earlier,
{
}

/// The fields of a status register word are the parts that it was put
/// together from.
proof fn lemma_status_register_fields(
    trace: bool,
    supervisor: bool,
    mask: u8,
    extend: bool,
    negative: bool,
    zero: bool,
    overflow: bool,
    carry: bool,
    value: u16,
)
    by (bit_vector)
    requires
        mask < 8,
        value == (if trace { 0x8000u16 } else { 0 }) + (if supervisor { 0x1000u16 } else { 0 }) + ((
        mask as u16) * 0x100) + (if extend { 16u16 } else { 0 }) + (if negative { 8u16 } else { 0 })
            + (if zero { 4u16 } else { 0 }) + (if overflow { 2u16 } else { 0 }) + (if carry {
            1u16
        } else {
            0
        }),
    ensures
        ({
            let low: u8 = (value % 0x100) as u8;
            &&& ((value / 0x8000) % 2 == 1) == trace
            &&& ((value / 0x1000) % 2 == 1) == supervisor
            &&& (value / 0x100) % 8 == mask
            &&& (low % 2 == 1) == carry
            &&& ((low / 2) % 2 == 1) == overflow
            &&& ((low / 4) % 2 == 1) == zero
            &&& ((low / 8) % 2 == 1) == negative
            &&& ((low / 16) % 2 == 1) == extend
        }),
{
}

/// Writing the status register back to itself changes nothing, as long as the
/// interrupt mask has no more than its three bits.
#[verifier::rlimit(50)]
pub proof fn law_status_register_round_trip(registers: RegisterFile)
    requires
        registers.interrupt_priority_mask < 8,
    ensures
        registers.with_status_register(registers.status_register()) == registers,
{
    lemma_status_register_fields(
        registers.trace_enabled,
        registers.supervisor_mode,
        registers.interrupt_priority_mask,
        registers.ccr.extend,
        registers.ccr.negative,
        registers.ccr.zero,
        registers.ccr.overflow,
        registers.ccr.carry,
        registers.status_register(),
    );
    let after = registers.with_status_register(registers.status_register());
    assert(after.ccr == registers.ccr);
    assert(after =~= registers);
}

} // verus!
