//! Decoding and executing instructions.

use vstd::prelude::*;
use crate::bits::{
    byte_as_signed, long_from_words, make_long, signed_byte, signed_word, word_as_signed,
};
use crate::m68000::addressing::{misaligned, AddressingMode, Exception};
use crate::m68000::registers::{
    AddressRegister, ConditionCodes, DataRegister, IndexRegister, IndexSize, OpSize, RegisterFile,
    Registers, SizedValue,
};
use crate::m68000::traits::{BusAccess, BusInterface};

verus! {

#[derive(Debug, Clone, Copy, PartialEq, Eq, Structural)]
pub enum Instruction {
    Move { size: OpSize, source: AddressingMode, dest: AddressingMode },
    Illegal,
}

impl Instruction {
    /// The instruction can be carried out: its operands name registers that
    /// exist, and a move's destination takes writes of the move's width.
    pub open spec fn valid(self) -> bool {
        match self {
            Instruction::Move { size, source, dest } => {
                &&& source.valid()
                &&& dest.valid()
                &&& dest.spec_is_writable()
                &&& !(dest is AddressDirect && size == OpSize::Byte)
            },
            Instruction::Illegal => true,
        }
    }
}

/// The address of the word `index` words after the one at `pc`; the program
/// counter wraps at 32 bits.
pub open spec fn word_address(pc: u32, index: int) -> u32 {
    ((pc + 2 * index) % 0x1_0000_0000) as u32
}

/// How many extension words follow the opcode for an operand given by the
/// three mode bits and the three register bits.
pub open spec fn extension_words(mode: u8, register: u8, size: OpSize) -> int {
    match mode % 8 {
        5 => 1,
        6 => 1,
        7 => match register % 8 {
            0 => 1,
            1 => 2,
            2 => 1,
            3 => 1,
            4 => if size == OpSize::LongWord {
                2
            } else {
                1
            },
            _ => 0,
        },
        _ => 0,
    }
}

/// The index register and index size that a brief extension word names: bit
/// 15 chooses an address register over a data register, bits 14..12 number
/// it, and bit 11 chooses the whole register over its sign-extended low word.
pub open spec fn index_of(extension: u16) -> (IndexRegister, IndexSize) {
    let number = ((extension / 0x1000) % 8) as u8;
    (
        if extension >= 0x8000 {
            IndexRegister::Address(AddressRegister(number))
        } else {
            IndexRegister::Data(DataRegister(number))
        },
        if (extension / 0x800) % 2 == 1 {
            IndexSize::LongWord
        } else {
            IndexSize::SignExtendedWord
        },
    )
}

/// The addressing mode that mode bits, register bits and extension words
/// encode, or `None` for the reserved combinations. `pc` is the address of the
/// first extension word; `first` and `second` are the extension words, of
/// which the mode uses as many as `extension_words` says.
#[verifier::opaque]
pub open spec fn addressing_mode(
    mode: u8,
    register: u8,
    size: OpSize,
    pc: u32,
    first: u16,
    second: u16,
) -> Option<AddressingMode> {
    let number = register % 8;
    match mode % 8 {
        0 => Some(AddressingMode::DataDirect(DataRegister(number))),
        1 => Some(AddressingMode::AddressDirect(AddressRegister(number))),
        2 => Some(AddressingMode::AddressIndirect(AddressRegister(number))),
        3 => Some(AddressingMode::AddressIndirectPostincrement(AddressRegister(number))),
        4 => Some(AddressingMode::AddressIndirectPredecrement(AddressRegister(number))),
        5 => Some(
            AddressingMode::AddressIndirectDisplacement(AddressRegister(number), signed_word(first)),
        ),
        6 => Some(
            AddressingMode::AddressIndirectIndexed(
                AddressRegister(number),
                index_of(first).0,
                index_of(first).1,
                signed_byte((first % 0x100) as u8),
            ),
        ),
        _ => match number {
            0 => Some(AddressingMode::AbsoluteShort(signed_word(first))),
            1 => Some(AddressingMode::AbsoluteLong(long_from_words(first, second))),
            2 => Some(AddressingMode::PcRelativeDisplacement(pc, signed_word(first))),
            3 => Some(
                AddressingMode::PcRelativeIndexed(
                    pc,
                    index_of(first).0,
                    index_of(first).1,
                    signed_byte((first % 0x100) as u8),
                ),
            ),
            4 => Some(
                AddressingMode::Immediate(
                    match size {
                        OpSize::Byte => (first % 0x100) as u32,
                        OpSize::Word => first as u32,
                        OpSize::LongWord => long_from_words(first, second),
                    },
                ),
            ),
            _ => None,
        },
    }
}

/// The width of the move that `opcode` encodes: the top nibble is 1 for a
/// byte, 3 for a word and 2 for a long word.
pub open spec fn move_size(opcode: u16) -> OpSize {
    if opcode / 0x1000 == 1 {
        OpSize::Byte
    } else if opcode / 0x1000 == 3 {
        OpSize::Word
    } else {
        OpSize::LongWord
    }
}

/// The mode and the register of a move's source: bits 5..3 and bits 2..0.
pub open spec fn source_bits(opcode: u16) -> (u8, u8) {
    (((opcode / 8) % 8) as u8, (opcode % 8) as u8)
}

/// The mode and the register of a move's destination: bits 8..6 and bits
/// 11..9.
pub open spec fn dest_bits(opcode: u16) -> (u8, u8) {
    (((opcode / 0x40) % 8) as u8, ((opcode / 0x200) % 8) as u8)
}

/// An instruction and the number of words, opcode included, that encode it.
pub struct Decoded {
    pub instruction: Instruction,
    pub words: int,
}

/// The instruction that the words at `pc` encode; `words[0]` is the opcode.
///
/// Opcodes whose top nibble is 1, 2 or 3 are moves of a byte, a long word and
/// a word. The source operand is in bits 5..0 as mode then register, the
/// destination in bits 11..6 as register then mode; the source's extension
/// words come first. A move with a reserved operand encoding, with a
/// destination that cannot be written, or of a byte into an address register
/// is illegal, and so is every other opcode. An illegal instruction still
/// counts the extension words that were read before it was found out.
#[verifier::opaque]
pub open spec fn decode(pc: u32, words: Seq<u16>) -> Decoded {
    let opcode = words[0];
    let family = opcode / 0x1000;
    if family == 1 || family == 2 || family == 3 {
        let size = move_size(opcode);
        let (source_mode, source_register) = source_bits(opcode);
        let (dest_mode, dest_register) = dest_bits(opcode);
        let source_words = extension_words(source_mode, source_register, size);
        let dest_words = extension_words(dest_mode, dest_register, size);
        match addressing_mode(
            source_mode,
            source_register,
            size,
            word_address(pc, 1),
            words[1],
            words[2],
        ) {
            None => Decoded { instruction: Instruction::Illegal, words: 1 },
            Some(source) => match addressing_mode(
                dest_mode,
                dest_register,
                size,
                word_address(pc, 1 + source_words),
                words[1 + source_words],
                words[2 + source_words],
            ) {
                None => Decoded { instruction: Instruction::Illegal, words: 1 + source_words },
                Some(dest) => Decoded {
                    instruction: if dest.spec_is_writable() && !(dest is AddressDirect && size
                        == OpSize::Byte) {
                        Instruction::Move { size, source, dest }
                    } else {
                        Instruction::Illegal
                    },
                    words: 1 + source_words + dest_words,
                },
            },
        }
    } else {
        Decoded { instruction: Instruction::Illegal, words: 1 }
    }
}

/// Since the record was `earlier`, the bus has seen exactly `count` accesses:
/// reads of the words at `pc`, `pc + 2` and so on, in that order.
#[verifier::opaque]
pub open spec fn fetched(
    earlier: Seq<BusAccess>,
    accesses: Seq<BusAccess>,
    pc: u32,
    count: int,
) -> bool {
    &&& accesses.len() == earlier.len() + count
    &&& forall|i: int| 0 <= i < earlier.len() ==> accesses[i] == earlier[i]
    &&& forall|i: int|
        earlier.len() <= i < accesses.len() ==> accesses[i] == (BusAccess::Read {
            address: word_address(pc, i - earlier.len()),
            value: SizedValue::Word(accesses[i].word()),
        })
}

/// The record `accesses` is `earlier` with more accesses after it, or `earlier`
/// itself.
pub open spec fn continues(earlier: Seq<BusAccess>, accesses: Seq<BusAccess>) -> bool {
    earlier.len() <= accesses.len() && accesses.take(earlier.len() as int) =~= earlier
}

/// The words that the accesses from position `start` on carried.
pub open spec fn words_from(accesses: Seq<BusAccess>, start: int) -> Seq<u16> {
    Seq::new((accesses.len() - start) as nat, |k: int| accesses[start + k].word())
}

/// The condition codes after a move of `value`: N and Z describe the value, V
/// and C are clear, X stays.
pub open spec fn move_flags(ccr: ConditionCodes, value: SizedValue) -> ConditionCodes {
    ConditionCodes {
        carry: false,
        overflow: false,
        zero: value.raw() == 0,
        negative: value.negative(),
        extend: ccr.extend,
    }
}

/// Entering an exception: the address of the instruction that raised it and
/// then the status register, as it stood, go onto the supervisor stack; the
/// core turns to supervisor mode with tracing off; and the program counter is
/// loaded from the exception's slot in the vector table at address 0.
pub open spec fn exception_outcome(
    exception: Exception,
    instruction_address: u32,
    before: RegisterFile,
    earlier: Seq<BusAccess>,
    after: RegisterFile,
    accesses: Seq<BusAccess>,
) -> bool {
    let pc_slot = before.ssp.wrapping_sub(4);
    let sr_slot = pc_slot.wrapping_sub(2);
    &&& accesses == earlier.push(
        BusAccess::Write { address: pc_slot, value: SizedValue::LongWord(instruction_address) },
    ).push(
        BusAccess::Write { address: sr_slot, value: SizedValue::Word(before.status_register()) },
    ).push(
        BusAccess::Read {
            address: (4 * exception.vector()) as u32,
            value: SizedValue::LongWord(after.pc),
        },
    )
    &&& after == (RegisterFile {
        supervisor_mode: true,
        trace_enabled: false,
        ssp: sr_slot,
        pc: after.pc,
        ..before
    })
}

/// Writing the moved `value` to `dest` and setting the flags, or the address
/// error that the write ran into.
pub open spec fn store_outcome(
    dest: AddressingMode,
    value: SizedValue,
    instruction_address: u32,
    before: RegisterFile,
    earlier: Seq<BusAccess>,
    after: RegisterFile,
    accesses: Seq<BusAccess>,
) -> bool {
    let size = value.size();
    match dest.effective_address(before, size) {
        None => {
            &&& after == dest.direct_store(before, value).with_ccr(move_flags(before.ccr, value))
            &&& accesses == earlier
        },
        Some(address) => if misaligned(address, size) {
            exception_outcome(
                Exception::AddressError,
                instruction_address,
                dest.before_access(before, size),
                earlier,
                after,
                accesses,
            )
        } else {
            &&& after == dest.after_access(before, size).with_ccr(move_flags(before.ccr, value))
            &&& accesses == earlier.push(BusAccess::Write { address, value })
        },
    }
}

/// A whole move: the source is read, then the value is stored and the flags
/// are set. An address error on either side ends the move there, with the
/// flags as they were, and enters the exception.
pub open spec fn move_outcome(
    size: OpSize,
    source: AddressingMode,
    dest: AddressingMode,
    instruction_address: u32,
    before: RegisterFile,
    earlier: Seq<BusAccess>,
    after: RegisterFile,
    accesses: Seq<BusAccess>,
) -> bool {
    match source.effective_address(before, size) {
        None => store_outcome(
            dest,
            source.direct_operand(before, size),
            instruction_address,
            before,
            earlier,
            after,
            accesses,
        ),
        Some(address) => if misaligned(address, size) {
            exception_outcome(
                Exception::AddressError,
                instruction_address,
                source.before_access(before, size),
                earlier,
                after,
                accesses,
            )
        } else {
            let value = accesses[earlier.len() as int].value();
            &&& earlier.len() < accesses.len()
            &&& value.size() == size
            &&& accesses[earlier.len() as int] == (BusAccess::Read { address, value })
            &&& store_outcome(
                dest,
                value,
                instruction_address,
                source.after_access(before, size),
                accesses.take(earlier.len() + 1 as int),
                after,
                accesses,
            )
            &&& accesses.take(earlier.len() as int) == earlier
        },
    }
}

/// What carrying out a decoded instruction does.
pub open spec fn instruction_outcome(
    instruction: Instruction,
    instruction_address: u32,
    before: RegisterFile,
    earlier: Seq<BusAccess>,
    after: RegisterFile,
    accesses: Seq<BusAccess>,
) -> bool {
    match instruction {
        Instruction::Move { size, source, dest } => move_outcome(
            size,
            source,
            dest,
            instruction_address,
            before,
            earlier,
            after,
            accesses,
        ),
        Instruction::Illegal => exception_outcome(
            Exception::IllegalInstruction,
            instruction_address,
            before,
            earlier,
            after,
            accesses,
        ),
    }
}

/// One step of the core, from register file `before` with bus record
/// `earlier` to register file `after` with bus record `accesses`.
///
/// With an odd program counter the step is an address error and nothing is
/// fetched. Otherwise the words of one instruction are fetched, the program
/// counter moves past them, and the instruction is carried out.
pub open spec fn step(
    before: RegisterFile,
    earlier: Seq<BusAccess>,
    after: RegisterFile,
    accesses: Seq<BusAccess>,
) -> bool {
    if before.pc % 2 == 1 {
        exception_outcome(Exception::AddressError, before.pc, before, earlier, after, accesses)
    } else {
        let decoded = decode(before.pc, words_from(accesses, earlier.len() as int));
        let fetch_end = earlier.len() + decoded.words;
        &&& fetch_end <= accesses.len()
        &&& fetched(earlier, accesses.take(fetch_end), before.pc, decoded.words)
        &&& instruction_outcome(
            decoded.instruction,
            before.pc,
            before.with_pc(word_address(before.pc, decoded.words)),
            accesses.take(fetch_end),
            after,
            accesses,
        )
    }
}

/// Two runs of fetches, the second starting where the first stopped, are one
/// run.
pub proof fn lemma_fetched_append(
    first: Seq<BusAccess>,
    second: Seq<BusAccess>,
    third: Seq<BusAccess>,
    pc: u32,
    count: int,
    more: int,
)
    requires
        0 <= count,
        0 <= more,
        fetched(first, second, pc, count),
        fetched(second, third, word_address(pc, count), more),
    ensures
        fetched(first, third, pc, count + more),
{
    reveal(fetched);
    assert forall|i: int| first.len() <= i < third.len() implies third[i] == (BusAccess::Read {
        address: word_address(pc, i - first.len()),
        value: SizedValue::Word(third[i].word()),
    }) by {
        if i < second.len() {
            assert(third[i] == second[i]);
        } else {
            assert(word_address(word_address(pc, count), i - second.len()) == word_address(
                pc,
                i - first.len(),
            ));
        }
    }
}

/// An addressing mode depends on no more extension words than it consumes.
pub proof fn lemma_addressing_mode_words(
    mode: u8,
    register: u8,
    size: OpSize,
    pc: u32,
    first: u16,
    second: u16,
    other_first: u16,
    other_second: u16,
)
    requires
        extension_words(mode, register, size) >= 1 ==> first == other_first,
        extension_words(mode, register, size) >= 2 ==> second == other_second,
    ensures
        addressing_mode(mode, register, size, pc, first, second) == addressing_mode(
            mode,
            register,
            size,
            pc,
            other_first,
            other_second,
        ),
{
    reveal(addressing_mode);
}

/// A run of fetches leaves what was on record before in place.
pub proof fn lemma_fetched_continues(
    earlier: Seq<BusAccess>,
    accesses: Seq<BusAccess>,
    pc: u32,
    count: int,
)
    requires
        0 <= count,
        fetched(earlier, accesses, pc, count),
    ensures
        accesses.len() == earlier.len() + count,
        forall|i: int| 0 <= i < earlier.len() ==> accesses[i] == earlier[i],
        continues(earlier, accesses),
{
    reveal(fetched);
    assert(accesses.take(earlier.len() as int) =~= earlier);
}

/// An instruction depends on no more words than encode it.
#[verifier::rlimit(50)]
pub proof fn lemma_decode_words(pc: u32, words: Seq<u16>, other: Seq<u16>)
    requires
        forall|k: int| 0 <= k < decode(pc, words).words ==> words[k] == other[k],
    ensures
        decode(pc, words) == decode(pc, other),
{
    reveal(addressing_mode);
    reveal(decode);
    let opcode = words[0];
    assert(decode(pc, words).words >= 1);
    assert(words[0] == other[0]);
    let family = opcode / 0x1000;
    if family == 1 || family == 2 || family == 3 {
        let size = move_size(opcode);
        let (source_mode, source_register) = source_bits(opcode);
        let (dest_mode, dest_register) = dest_bits(opcode);
        let source_words = extension_words(source_mode, source_register, size);
        let dest_words = extension_words(dest_mode, dest_register, size);
        let source = addressing_mode(
            source_mode,
            source_register,
            size,
            word_address(pc, 1),
            words[1],
            words[2],
        );
        if source is Some {
            assert(decode(pc, words).words >= 1 + source_words);
        }
        lemma_addressing_mode_words(
            source_mode,
            source_register,
            size,
            word_address(pc, 1),
            words[1],
            words[2],
            other[1],
            other[2],
        );
        if source is Some {
            let dest = addressing_mode(
                dest_mode,
                dest_register,
                size,
                word_address(pc, 1 + source_words),
                words[1 + source_words],
                words[2 + source_words],
            );
            if dest is Some {
                assert(decode(pc, words).words == 1 + source_words + dest_words);
            }
            lemma_addressing_mode_words(
                dest_mode,
                dest_register,
                size,
                word_address(pc, 1 + source_words),
                words[1 + source_words],
                words[2 + source_words],
                other[1 + source_words],
                other[2 + source_words],
            );
        }
    }
}

/// Fetching the opcode of a move, then the source's extension words, then
/// the destination's, has fetched what `decode` makes of those words.
#[verifier::rlimit(50)]
pub proof fn lemma_decode_fetched(
    pc: u32,
    earlier: Seq<BusAccess>,
    opcode_read: Seq<BusAccess>,
    source_read: Seq<BusAccess>,
    accesses: Seq<BusAccess>,
    opcode: u16,
    source: Option<AddressingMode>,
    dest: Option<AddressingMode>,
)
    requires
        opcode / 0x1000 == 1 || opcode / 0x1000 == 2 || opcode / 0x1000 == 3,
        fetched(earlier, opcode_read, pc, 1),
        opcode == opcode_read[earlier.len() as int].word(),
        fetched(
            opcode_read,
            source_read,
            word_address(pc, 1),
            extension_words(source_bits(opcode).0, source_bits(opcode).1, move_size(opcode)),
        ),
        source == addressing_mode(
            source_bits(opcode).0,
            source_bits(opcode).1,
            move_size(opcode),
            word_address(pc, 1),
            source_read[opcode_read.len() as int].word(),
            source_read[opcode_read.len() + 1 as int].word(),
        ),
        source is None ==> accesses == source_read,
        source is Some ==> fetched(
            source_read,
            accesses,
            word_address(
                pc,
                1 + extension_words(source_bits(opcode).0, source_bits(opcode).1, move_size(opcode)),
            ),
            extension_words(dest_bits(opcode).0, dest_bits(opcode).1, move_size(opcode)),
        ),
        source is Some ==> dest == addressing_mode(
            dest_bits(opcode).0,
            dest_bits(opcode).1,
            move_size(opcode),
            word_address(
                pc,
                1 + extension_words(source_bits(opcode).0, source_bits(opcode).1, move_size(opcode)),
            ),
            accesses[source_read.len() as int].word(),
            accesses[source_read.len() + 1 as int].word(),
        ),
    ensures
        ({
            let decoded = decode(pc, words_from(accesses, earlier.len() as int));
            let size = move_size(opcode);
            &&& fetched(earlier, accesses, pc, decoded.words)
            &&& accesses.len() == earlier.len() + decoded.words
            &&& decoded.instruction == match (source, dest) {
                (Some(source), Some(dest)) => if dest.spec_is_writable() && !(dest is AddressDirect
                    && size == OpSize::Byte) {
                    Instruction::Move { size, source, dest }
                } else {
                    Instruction::Illegal
                },
                _ => Instruction::Illegal,
            }
            &&& word_address(pc, decoded.words) == (if source is Some {
                word_address(
                    word_address(
                        word_address(pc, 1),
                        extension_words(source_bits(opcode).0, source_bits(opcode).1, size),
                    ),
                    extension_words(dest_bits(opcode).0, dest_bits(opcode).1, size),
                )
            } else {
                word_address(
                    word_address(pc, 1),
                    extension_words(source_bits(opcode).0, source_bits(opcode).1, size),
                )
            })
        }),
{
    reveal(decode);
    let size = move_size(opcode);
    let (source_mode, source_register) = source_bits(opcode);
    let (dest_mode, dest_register) = dest_bits(opcode);
    let source_words = extension_words(source_mode, source_register, size);
    let dest_words = extension_words(dest_mode, dest_register, size);
    let words = words_from(accesses, earlier.len() as int);
    lemma_fetched_continues(earlier, opcode_read, pc, 1);
    lemma_fetched_continues(opcode_read, source_read, word_address(pc, 1), source_words);
    lemma_fetched_append(earlier, opcode_read, source_read, pc, 1, source_words);
    if source is Some {
        lemma_fetched_continues(
            source_read,
            accesses,
            word_address(pc, 1 + source_words),
            dest_words,
        );
        lemma_fetched_append(earlier, source_read, accesses, pc, 1 + source_words, dest_words);
    } else {
        assert(source_words == 0) by {
            reveal(addressing_mode);
        }
    }
    assert(words[0] == opcode);
    lemma_addressing_mode_words(
        source_mode,
        source_register,
        size,
        word_address(pc, 1),
        source_read[opcode_read.len() as int].word(),
        source_read[opcode_read.len() + 1 as int].word(),
        words[1],
        words[2],
    );
    if source is Some {
        lemma_addressing_mode_words(
            dest_mode,
            dest_register,
            size,
            word_address(pc, 1 + source_words),
            accesses[source_read.len() as int].word(),
            accesses[source_read.len() + 1 as int].word(),
            words[1 + source_words],
            words[2 + source_words],
        );
        if dest is None {
            assert(dest_words == 0) by {
                reveal(addressing_mode);
            }
        }
    }
}

/// A record that continues `earlier.push(access)` has `access` right after
/// what `earlier` holds.
pub proof fn lemma_continues_after_push(
    earlier: Seq<BusAccess>,
    access: BusAccess,
    accesses: Seq<BusAccess>,
)
    requires
        continues(earlier.push(access), accesses),
    ensures
        earlier.len() < accesses.len(),
        accesses[earlier.len() as int] == access,
        accesses.take(earlier.len() + 1 as int) == earlier.push(access),
        continues(earlier, accesses),
{
    let pushed = earlier.push(access);
    assert(accesses.take(pushed.len() as int)[earlier.len() as int] == pushed[earlier.len() as int]);
    assert forall|i: int| 0 <= i < earlier.len() implies accesses[i] == earlier[i] by {
        assert(accesses.take(pushed.len() as int)[i] == pushed[i]);
    }
    assert(accesses.take(earlier.len() as int) =~= earlier);
}

/// Continuing a record is transitive.
pub proof fn lemma_continues_twice(
    first: Seq<BusAccess>,
    second: Seq<BusAccess>,
    third: Seq<BusAccess>,
)
    requires
        continues(first, second),
        continues(second, third),
    ensures
        continues(first, third),
{
    assert forall|i: int| 0 <= i < first.len() implies third[i] == first[i] by {
        assert(third.take(second.len() as int)[i] == second[i]);
        assert(second.take(first.len() as int)[i] == first[i]);
    }
    assert(third.take(first.len() as int) =~= first);
}

/// What was decoded from a record is decoded from every record that continues
/// it.
#[verifier::rlimit(50)]
pub proof fn lemma_decode_continued(
    pc: u32,
    earlier: Seq<BusAccess>,
    decoded: Seq<BusAccess>,
    accesses: Seq<BusAccess>,
)
    requires
        fetched(
            earlier,
            decoded,
            pc,
            decode(pc, words_from(decoded, earlier.len() as int)).words,
        ),
        continues(decoded, accesses),
    ensures
        decode(pc, words_from(accesses, earlier.len() as int)) == decode(
            pc,
            words_from(decoded, earlier.len() as int),
        ),
        decoded.len() == earlier.len() + decode(
            pc,
            words_from(decoded, earlier.len() as int),
        ).words,
        accesses.take(decoded.len() as int) == decoded,
        continues(earlier, accesses),
{
    let words = words_from(decoded, earlier.len() as int);
    let other = words_from(accesses, earlier.len() as int);
    assert(decode(pc, words).words >= 1) by {
        reveal(decode);
    }
    lemma_fetched_continues(earlier, decoded, pc, decode(pc, words).words);
    assert forall|k: int| 0 <= k < decode(pc, words).words implies words[k] == other[k] by {
        assert(accesses.take(decoded.len() as int)[earlier.len() + k] == decoded[earlier.len()
            + k]);
    }
    lemma_decode_words(pc, words, other);
    lemma_continues_twice(earlier, decoded, accesses);
}

/// Splits a brief extension word into its index register and index size.
pub fn parse_index(extension: u16) -> (index: (IndexRegister, IndexSize))
    ensures
        index == index_of(extension),
        index.0.valid(),
{
    let index_register_number = ((extension / 0x1000) % 8) as u8;
    let index_register = if extension >= 0x8000 {
        IndexRegister::Address(AddressRegister(index_register_number))
    } else {
        IndexRegister::Data(DataRegister(index_register_number))
    };
    let index_size = if (extension / 0x800) % 2 == 1 {
        IndexSize::LongWord
    } else {
        IndexSize::SignExtendedWord
    };
    (index_register, index_size)
}

/// Runs one instruction on borrowed registers and a borrowed bus.
pub struct InstructionExecutor<'registers, 'bus, B> {
    pub registers: &'registers mut Registers,
    pub bus: &'bus mut B,
    /// Where the instruction being run starts.
    pub instruction_address: u32,
}

impl<'registers, 'bus, B: BusInterface> InstructionExecutor<'registers, 'bus, B> {
    pub fn new(registers: &'registers mut Registers, bus: &'bus mut B) -> (executor: Self)
        ensures
            *executor.registers == *old(registers),
            *final(registers) == *final(executor.registers),
            *executor.bus == *old(bus),
            *final(bus) == *final(executor.bus),
            executor.instruction_address == old(registers).pc,
    {
        let instruction_address = registers.pc;
        Self { registers, bus, instruction_address }
    }

    /// Reads the word at the program counter and moves the program counter
    /// past it.
    pub fn fetch_operand(&mut self) -> (operand: u16)
        ensures
            fetched(old(self).bus.accesses(), final(self).bus.accesses(), old(self).registers.pc, 1),
            operand == final(self).bus.accesses()[old(self).bus.accesses().len() as int].word(),
            final(self).registers@ == old(self).registers@.with_pc(
                word_address(old(self).registers.pc, 1),
            ),
            final(self).instruction_address == old(self).instruction_address,
            *final(final(self).registers) == *final(old(self).registers),
            *final(final(self).bus) == *final(old(self).bus),
    {
        proof {
            reveal(fetched);
        }
        let operand = self.bus.read_word(self.registers.pc);
        self.registers.pc = self.registers.pc.wrapping_add(2);
        operand
    }

    /// Resolves an operand's mode and register bits, fetching the extension
    /// words that the mode calls for.
    #[verifier::rlimit(50)]
    pub fn fetch_addressing_mode(&mut self, mode: u8, register: u8, size: OpSize) -> (resolved:
        Option<AddressingMode>)
        ensures
            fetched(
                old(self).bus.accesses(),
                final(self).bus.accesses(),
                old(self).registers.pc,
                extension_words(mode, register, size),
            ),
            resolved == addressing_mode(
                mode,
                register,
                size,
                old(self).registers.pc,
                final(self).bus.accesses()[old(self).bus.accesses().len() as int].word(),
                final(self).bus.accesses()[old(self).bus.accesses().len() + 1 as int].word(),
            ),
            resolved matches Some(found) ==> found.valid(),
            final(self).registers@ == old(self).registers@.with_pc(
                word_address(old(self).registers.pc, extension_words(mode, register, size)),
            ),
            final(self).instruction_address == old(self).instruction_address,
            *final(final(self).registers) == *final(old(self).registers),
            *final(final(self).bus) == *final(old(self).bus),
    {
        proof {
            reveal(fetched);
            reveal(addressing_mode);
        }
        let number = register % 8;
        match mode % 8 {
            0 => Some(AddressingMode::DataDirect(DataRegister(number))),
            1 => Some(AddressingMode::AddressDirect(AddressRegister(number))),
            2 => Some(AddressingMode::AddressIndirect(AddressRegister(number))),
            3 => Some(AddressingMode::AddressIndirectPostincrement(AddressRegister(number))),
            4 => Some(AddressingMode::AddressIndirectPredecrement(AddressRegister(number))),
            5 => {
                let extension = self.fetch_operand();
                Some(
                    AddressingMode::AddressIndirectDisplacement(
                        AddressRegister(number),
                        word_as_signed(extension),
                    ),
                )
            },
            6 => {
                let extension = self.fetch_operand();
                let (index_register, index_size) = parse_index(extension);
                Some(
                    AddressingMode::AddressIndirectIndexed(
                        AddressRegister(number),
                        index_register,
                        index_size,
                        byte_as_signed((extension % 0x100) as u8),
                    ),
                )
            },
            _ => match number {
                0 => {
                    let extension = self.fetch_operand();
                    Some(AddressingMode::AbsoluteShort(word_as_signed(extension)))
                },
                1 => {
                    let extension_0 = self.fetch_operand();
                    let extension_1 = self.fetch_operand();
                    Some(AddressingMode::AbsoluteLong(make_long(extension_0, extension_1)))
                },
                2 => {
                    let pc = self.registers.pc;
                    let extension = self.fetch_operand();
                    Some(AddressingMode::PcRelativeDisplacement(pc, word_as_signed(extension)))
                },
                3 => {
                    let pc = self.registers.pc;
                    let extension = self.fetch_operand();
                    let (index_register, index_size) = parse_index(extension);
                    Some(
                        AddressingMode::PcRelativeIndexed(
                            pc,
                            index_register,
                            index_size,
                            byte_as_signed((extension % 0x100) as u8),
                        ),
                    )
                },
                4 => {
                    let extension_0 = self.fetch_operand();
                    let immediate_value: u32 = match size {
                        OpSize::Byte => (extension_0 % 0x100) as u32,
                        OpSize::Word => extension_0 as u32,
                        OpSize::LongWord => {
                            let extension_1 = self.fetch_operand();
                            make_long(extension_0, extension_1)
                        },
                    };
                    Some(AddressingMode::Immediate(immediate_value))
                },
                _ => None,
            },
        }
    }

    /// Resolves the operand that the low six bits of `opcode` give as mode
    /// then register.
    pub fn fetch_addressing_mode_from_opcode(&mut self, opcode: u16, size: OpSize) -> (resolved:
        Option<AddressingMode>)
        ensures
            fetched(
                old(self).bus.accesses(),
                final(self).bus.accesses(),
                old(self).registers.pc,
                extension_words(((opcode / 8) % 8) as u8, (opcode % 8) as u8, size),
            ),
            resolved == addressing_mode(
                ((opcode / 8) % 8) as u8,
                (opcode % 8) as u8,
                size,
                old(self).registers.pc,
                final(self).bus.accesses()[old(self).bus.accesses().len() as int].word(),
                final(self).bus.accesses()[old(self).bus.accesses().len() + 1 as int].word(),
            ),
            resolved matches Some(found) ==> found.valid(),
            final(self).registers@ == old(self).registers@.with_pc(
                word_address(
                    old(self).registers.pc,
                    extension_words(((opcode / 8) % 8) as u8, (opcode % 8) as u8, size),
                ),
            ),
            final(self).instruction_address == old(self).instruction_address,
            *final(final(self).registers) == *final(old(self).registers),
            *final(final(self).bus) == *final(old(self).bus),
    {
        let mode = ((opcode / 8) % 8) as u8;
        let register = (opcode % 8) as u8;
        self.fetch_addressing_mode(mode, register, size)
    }

    /// Fetches and decodes the instruction at the program counter.
    #[verifier::rlimit(50)]
    pub fn decode_instruction(&mut self) -> (instruction: Instruction)
        ensures
            ({
                let earlier = old(self).bus.accesses();
                let accesses = final(self).bus.accesses();
                let pc = old(self).registers.pc;
                let decoded = decode(pc, words_from(accesses, earlier.len() as int));
                &&& instruction == decoded.instruction
                &&& fetched(earlier, accesses, pc, decoded.words)
                &&& final(self).registers@ == old(self).registers@.with_pc(
                    word_address(pc, decoded.words),
                )
            }),
            instruction.valid(),
            final(self).instruction_address == old(self).instruction_address,
            *final(final(self).registers) == *final(old(self).registers),
            *final(final(self).bus) == *final(old(self).bus),
    {
        let ghost earlier = self.bus.accesses();
        let ghost pc = self.registers.pc;
        let opcode = self.fetch_operand();
        let ghost opcode_read = self.bus.accesses();
        let family = opcode / 0x1000;
        if family == 1 || family == 2 || family == 3 {
            let size = if family == 1 {
                OpSize::Byte
            } else if family == 3 {
                OpSize::Word
            } else {
                OpSize::LongWord
            };
            let resolved_source = self.fetch_addressing_mode_from_opcode(opcode, size);
            let ghost source_read = self.bus.accesses();
            let source = match resolved_source {
                Some(source) => source,
                None => {
                    proof {
                        lemma_decode_fetched(
                            pc,
                            earlier,
                            opcode_read,
                            source_read,
                            source_read,
                            opcode,
                            resolved_source,
                            None,
                        );
                    }
                    return Instruction::Illegal;
                },
            };
            let dest_mode = ((opcode / 0x40) % 8) as u8;
            let dest_register = ((opcode / 0x200) % 8) as u8;
            let resolved_dest = self.fetch_addressing_mode(dest_mode, dest_register, size);
            proof {
                lemma_decode_fetched(
                    pc,
                    earlier,
                    opcode_read,
                    source_read,
                    self.bus.accesses(),
                    opcode,
                    resolved_source,
                    resolved_dest,
                );
            }
            let dest = match resolved_dest {
                Some(dest) => dest,
                None => {
                    return Instruction::Illegal;
                },
            };
            if !dest.is_writable() || (dest.is_address_direct() && size == OpSize::Byte) {
                return Instruction::Illegal;
            }
            Instruction::Move { size, source, dest }
        } else {
            proof {
                reveal(decode);
                lemma_fetched_continues(earlier, opcode_read, pc, 1);
                assert(words_from(opcode_read, earlier.len() as int)[0] == opcode);
            }
            Instruction::Illegal
        }
    }

    /// Enters `exception` on behalf of the instruction being run.
    #[verifier::rlimit(50)]
    pub fn raise(&mut self, exception: Exception)
        ensures
            exception_outcome(
                exception,
                old(self).instruction_address,
                old(self).registers@,
                old(self).bus.accesses(),
                final(self).registers@,
                final(self).bus.accesses(),
            ),
            continues(old(self).bus.accesses(), final(self).bus.accesses()),
            final(self).instruction_address == old(self).instruction_address,
            *final(final(self).registers) == *final(old(self).registers),
            *final(final(self).bus) == *final(old(self).bus),
    {
        let ghost earlier = self.bus.accesses();
        let status_register = self.registers.status_register();
        self.registers.supervisor_mode = true;
        self.registers.trace_enabled = false;
        let pc_slot = self.registers.ssp.wrapping_sub(4);
        self.bus.write_long_word(pc_slot, self.instruction_address);
        let sr_slot = pc_slot.wrapping_sub(2);
        self.bus.write_word(sr_slot, status_register);
        self.registers.ssp = sr_slot;
        self.registers.pc = self.bus.read_long_word(4 * exception.vector_number());
        proof {
            assert(self.bus.accesses().take(earlier.len() as int) =~= earlier);
        }
    }

    /// Moves a value of width `size` from `source` to `dest` and sets the
    /// flags from it.
    #[verifier::rlimit(50)]
    pub fn mov(&mut self, size: OpSize, source: AddressingMode, dest: AddressingMode)
        requires
            (Instruction::Move { size, source, dest }).valid(),
        ensures
            move_outcome(
                size,
                source,
                dest,
                old(self).instruction_address,
                old(self).registers@,
                old(self).bus.accesses(),
                final(self).registers@,
                final(self).bus.accesses(),
            ),
            continues(old(self).bus.accesses(), final(self).bus.accesses()),
            final(self).instruction_address == old(self).instruction_address,
            *final(final(self).registers) == *final(old(self).registers),
            *final(final(self).bus) == *final(old(self).bus),
    {
        let ghost earlier = self.bus.accesses();
        let ghost before = self.registers@;
        match source.read_from(self.registers, self.bus, size) {
            Err(exception) => {
                self.raise(exception);
            },
            Ok(value) => {
                let ghost read_done = self.bus.accesses();
                let ccr = self.registers.ccr;
                match dest.write_to(self.registers, self.bus, value) {
                    Ok(()) => {
                        self.registers.ccr = ConditionCodes {
                            carry: false,
                            overflow: false,
                            zero: value.is_zero(),
                            negative: value.sign_bit(),
                            extend: ccr.extend,
                        };
                        proof {
                            assert(self.bus.accesses().take(read_done.len() as int) =~= read_done);
                        }
                    },
                    Err(exception) => {
                        self.raise(exception);
                    },
                }
                proof {
                    let accesses = self.bus.accesses();
                    assert(continues(read_done, accesses));
                    match source.effective_address(before, size) {
                        Some(address) => {
                            lemma_continues_after_push(
                                earlier,
                                BusAccess::Read { address, value },
                                accesses,
                            );
                        },
                        None => {},
                    }
                }
            },
        }
    }

    /// Carries out a decoded instruction. An illegal one enters the
    /// illegal-instruction exception.
    pub fn execute_instruction(&mut self, instruction: Instruction)
        requires
            instruction.valid(),
        ensures
            instruction_outcome(
                instruction,
                old(self).instruction_address,
                old(self).registers@,
                old(self).bus.accesses(),
                final(self).registers@,
                final(self).bus.accesses(),
            ),
            continues(old(self).bus.accesses(), final(self).bus.accesses()),
            final(self).instruction_address == old(self).instruction_address,
            *final(final(self).registers) == *final(old(self).registers),
            *final(final(self).bus) == *final(old(self).bus),
    {
        match instruction {
            Instruction::Move { size, source, dest } => self.mov(size, source, dest),
            Instruction::Illegal => self.raise(Exception::IllegalInstruction),
        }
    }

    /// Runs one step: an instruction, or the exception that takes its place.
    #[verifier::rlimit(50)]
    pub fn execute(self)
        requires
            self.instruction_address == self.registers.pc,
        ensures
            step(
                old(self.registers)@,
                old(self.bus).accesses(),
                final(self.registers)@,
                final(self.bus).accesses(),
            ),
            continues(old(self.bus).accesses(), final(self.bus).accesses()),
    {
        let mut executor = self;
        let ghost earlier = executor.bus.accesses();
        let ghost pc = executor.registers.pc;
        if executor.registers.pc % 2 == 1 {
            executor.raise(Exception::AddressError);
        } else {
            let instruction = executor.decode_instruction();
            let ghost decoded = executor.bus.accesses();
            executor.execute_instruction(instruction);
            proof {
                lemma_decode_continued(pc, earlier, decoded, executor.bus.accesses());
            }
        }
    }
}

/// A Motorola 68000.
pub struct M68000 {
    registers: Registers,
}

impl View for M68000 {
    type V = RegisterFile;

    closed spec fn view(&self) -> RegisterFile {
        self.registers@
    }
}

impl M68000 {
    #[must_use]
    pub fn new() -> (cpu: Self)
        ensures
            cpu@ == RegisterFile::initial(),
    {
        Self { registers: Registers::new() }
    }

    #[must_use]
    pub fn data_registers(&self) -> (registers: [u32; 8])
        ensures
            registers@ == self@.data,
    {
        self.registers.data
    }

    pub fn set_data_registers(&mut self, registers: [u32; 8])
        ensures
            final(self)@ == (RegisterFile { data: registers@, ..old(self)@ }),
    {
        self.registers.data = registers;
    }

    #[must_use]
    pub fn address_registers(&self) -> (registers: [u32; 7])
        ensures
            registers@ == self@.address,
    {
        self.registers.address
    }

    #[must_use]
    pub fn user_stack_pointer(&self) -> (usp: u32)
        ensures
            usp == self@.usp,
    {
        self.registers.usp
    }

    #[must_use]
    pub fn supervisor_stack_pointer(&self) -> (ssp: u32)
        ensures
            ssp == self@.ssp,
    {
        self.registers.ssp
    }

    pub fn set_address_registers(&mut self, registers: [u32; 7], usp: u32, ssp: u32)
        ensures
            final(self)@ == (RegisterFile { address: registers@, usp, ssp, ..old(self)@ }),
    {
        self.registers.address = registers;
        self.registers.usp = usp;
        self.registers.ssp = ssp;
    }

    #[must_use]
    pub fn status_register(&self) -> (value: u16)
        ensures
            value == self@.status_register(),
    {
        self.registers.status_register()
    }

    pub fn set_status_register(&mut self, status_register: u16)
        ensures
            final(self)@ == old(self)@.with_status_register(status_register),
    {
        self.registers.set_status_register(status_register);
    }

    #[must_use]
    pub fn pc(&self) -> (pc: u32)
        ensures
            pc == self@.pc,
    {
        self.registers.pc
    }

    pub fn set_pc(&mut self, pc: u32)
        ensures
            final(self)@ == old(self)@.with_pc(pc),
    {
        self.registers.pc = pc;
    }

    /// Runs one step on `bus`: the instruction at the program counter, or the
    /// exception that takes its place.
    pub fn execute_instruction<B: BusInterface>(&mut self, bus: &mut B)
        ensures
            step(old(self)@, old(bus).accesses(), final(self)@, final(bus).accesses()),
            continues(old(bus).accesses(), final(bus).accesses()),
    {
        InstructionExecutor::new(&mut self.registers, bus).execute();
    }
}

impl Default for M68000 {
    fn default() -> (cpu: Self)
        ensures
            cpu@ == RegisterFile::initial(),
    {
        Self::new()
    }
}

} // verus!
