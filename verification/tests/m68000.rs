use jgenesis_cores::m68000::addressing::{AddressingMode, Exception};
use jgenesis_cores::m68000::bus::InMemoryBus;
use jgenesis_cores::m68000::cpu::{parse_index, Instruction, InstructionExecutor, M68000};
use jgenesis_cores::m68000::registers::{
    AddressRegister, ConditionCodes, DataRegister, IndexRegister, IndexSize, OpSize, Registers,
    SizedValue,
};
use jgenesis_cores::m68000::traits::BusInterface;

#[test]
fn decode_mov() {
    // MOVE.w A3, D7
    let opcode = 0b0011_111_000_001_011;

    let mut registers = Registers::new();
    let mut bus = InMemoryBus::new();

    registers.pc = 0x1234;
    bus.write_word(registers.pc, opcode);

    let instruction = InstructionExecutor::new(&mut registers, &mut bus).decode_instruction();
    assert_eq!(
        instruction,
        Instruction::Move {
            size: OpSize::Word,
            source: AddressingMode::AddressDirect(AddressRegister(3)),
            dest: AddressingMode::DataDirect(DataRegister(7)),
        }
    );
    assert_eq!(registers.pc, 0x1234 + 2);

    // MOVE.b #$12, ($3456, A4)
    let opcode = 0b0001_100_101_111_100;
    registers.pc = 0x1234;
    bus.write_word(registers.pc, opcode);
    bus.write_word(registers.pc.wrapping_add(2), 0xFF12);
    bus.write_word(registers.pc.wrapping_add(4), 0x3456);

    let instruction = InstructionExecutor::new(&mut registers, &mut bus).decode_instruction();
    assert_eq!(
        instruction,
        Instruction::Move {
            size: OpSize::Byte,
            source: AddressingMode::Immediate(0x12),
            dest: AddressingMode::AddressIndirectDisplacement(AddressRegister(4), 0x3456),
        }
    );
    assert_eq!(registers.pc, 0x1234 + 6);
}

fn cpu_at(pc: u32) -> M68000 {
    let mut cpu = M68000::new();
    cpu.set_pc(pc);
    cpu
}

#[test]
fn new_cpu_is_zeroed_in_supervisor_mode() {
    let cpu = M68000::new();
    assert_eq!(cpu.data_registers(), [0; 8]);
    assert_eq!(cpu.address_registers(), [0; 7]);
    assert_eq!(cpu.user_stack_pointer(), 0);
    assert_eq!(cpu.supervisor_stack_pointer(), 0);
    assert_eq!(cpu.pc(), 0);
    assert_eq!(cpu.status_register(), 0x1000);
    assert_eq!(M68000::default().status_register(), 0x1000);
}

#[test]
fn move_word_address_register_to_data_register() {
    let mut cpu = cpu_at(0x1234);
    let mut bus = InMemoryBus::new();
    cpu.set_address_registers([0, 0, 0, 0x0000_BEEF, 0, 0, 0], 0, 0);
    cpu.set_data_registers([0, 0, 0, 0, 0, 0, 0, 0x1357_2468]);
    cpu.set_status_register(0x101F);
    bus.write_word(0x1234, 0b0011_111_000_001_011);

    cpu.execute_instruction(&mut bus);

    assert_eq!(cpu.data_registers()[7], 0x1357_BEEF);
    assert_eq!(cpu.pc(), 0x1236);
    // N set, Z, V and C clear, X kept
    assert_eq!(cpu.status_register(), 0x1018);
}

#[test]
fn move_byte_immediate_to_displaced_address() {
    let mut cpu = cpu_at(0x1234);
    let mut bus = InMemoryBus::new();
    cpu.set_address_registers([0, 0, 0, 0, 0x0000_1000, 0, 0], 0, 0);
    cpu.set_status_register(0x100F);
    bus.write_word(0x1234, 0b0001_100_101_111_100);
    bus.write_word(0x1236, 0xFF12);
    bus.write_word(0x1238, 0x3456);

    cpu.execute_instruction(&mut bus);

    assert_eq!(bus.read_memory(0x4456), 0x12);
    assert_eq!(bus.read_memory(0x4455), 0);
    assert_eq!(bus.read_memory(0x4457), 0);
    assert_eq!(cpu.pc(), 0x123A);
    assert_eq!(cpu.status_register(), 0x1000);
}

#[test]
fn move_byte_immediate_to_address_indirect() {
    // 0x18BC has destination mode 010: MOVE.b #$12, (A4)
    let mut cpu = cpu_at(0x1234);
    let mut bus = InMemoryBus::new();
    cpu.set_address_registers([0, 0, 0, 0, 0x0000_1000, 0, 0], 0, 0);
    bus.write_word(0x1234, 0x18BC);
    bus.write_word(0x1236, 0xFF12);
    bus.write_word(0x1238, 0x3456);

    cpu.execute_instruction(&mut bus);

    assert_eq!(bus.read_memory(0x1000), 0x12);
    assert_eq!(bus.read_memory(0x4456), 0);
    assert_eq!(cpu.pc(), 0x1238);
}

#[test]
fn move_zero_sets_only_the_zero_flag() {
    let mut cpu = cpu_at(0x100);
    let mut bus = InMemoryBus::new();
    cpu.set_status_register(0x101B);
    cpu.set_data_registers([5, 0xFFFF_0000, 0, 0, 0, 0, 0, 0]);
    // MOVE.w D1, D0
    bus.write_word(0x100, 0b0011_000_000_000_001);

    cpu.execute_instruction(&mut bus);

    assert_eq!(cpu.data_registers()[0], 0);
    assert_eq!(cpu.status_register(), 0x1014);
}

#[test]
fn move_long_overwrites_the_whole_data_register() {
    let mut cpu = cpu_at(0x100);
    let mut bus = InMemoryBus::new();
    cpu.set_data_registers([0xAAAA_AAAA, 0, 0, 0, 0, 0, 0, 0]);
    // MOVE.l #$80000001, D0
    bus.write_word(0x100, 0b0010_000_000_111_100);
    bus.write_word(0x102, 0x8000);
    bus.write_word(0x104, 0x0001);

    cpu.execute_instruction(&mut bus);

    assert_eq!(cpu.data_registers()[0], 0x8000_0001);
    assert_eq!(cpu.pc(), 0x106);
    assert_eq!(cpu.status_register(), 0x1008);
}

#[test]
fn data_register_byte_and_word_writes_keep_upper_bits() {
    let mut registers = Registers::new();
    registers.data[2] = 0x1122_3344;
    DataRegister(2).write_byte_to(&mut registers, 0xAB);
    assert_eq!(registers.data[2], 0x1122_33AB);
    DataRegister(2).write_word_to(&mut registers, 0xCDEF);
    assert_eq!(registers.data[2], 0x1122_CDEF);
    DataRegister(2).write_long_word_to(&mut registers, 0x0102_0304);
    assert_eq!(DataRegister(2).read_from(&registers), 0x0102_0304);
}

#[test]
fn address_register_word_write_is_sign_extended() {
    let mut registers = Registers::new();
    AddressRegister(3).write_word_to(&mut registers, 0x8001);
    assert_eq!(AddressRegister(3).read_from(&registers), 0xFFFF_8001);
    AddressRegister(3).write_word_to(&mut registers, 0x7FFF);
    assert_eq!(AddressRegister(3).read_from(&registers), 0x0000_7FFF);
    for value in [0u16, 1, 0x7FFF, 0x8000, 0xFFFF, 0x1234, 0xBEEF] {
        AddressRegister(5).write_word_to(&mut registers, value);
        assert_eq!(AddressRegister(5).read_from(&registers), value as i16 as i32 as u32);
    }
}

#[test]
fn movea_word_sign_extends_into_the_address_register() {
    let mut cpu = cpu_at(0x100);
    let mut bus = InMemoryBus::new();
    // MOVEA.w #$FFFE, A2
    bus.write_word(0x100, 0b0011_010_001_111_100);
    bus.write_word(0x102, 0xFFFE);

    cpu.execute_instruction(&mut bus);

    assert_eq!(cpu.address_registers()[2], 0xFFFF_FFFE);
    assert_eq!(cpu.pc(), 0x104);
}

#[test]
fn a7_follows_the_supervisor_flag() {
    let mut registers = Registers::new();
    assert!(AddressRegister(7).is_stack_pointer());
    assert!(!AddressRegister(6).is_stack_pointer());
    AddressRegister(7).write_long_word_to(&mut registers, 0x1000);
    assert_eq!(registers.ssp, 0x1000);
    assert_eq!(registers.usp, 0);
    registers.supervisor_mode = false;
    AddressRegister(7).write_long_word_to(&mut registers, 0x2000);
    assert_eq!(registers.usp, 0x2000);
    assert_eq!(AddressRegister(7).read_from(&registers), 0x2000);
    registers.supervisor_mode = true;
    assert_eq!(AddressRegister(7).read_from(&registers), 0x1000);
}

#[test]
fn status_register_layout() {
    let mut registers = Registers::new();
    registers.set_status_register(0xFFFF);
    assert_eq!(registers.interrupt_priority_mask, 7);
    assert!(registers.supervisor_mode);
    assert!(registers.trace_enabled);
    assert_eq!(
        registers.ccr,
        ConditionCodes { carry: true, overflow: true, zero: true, negative: true, extend: true }
    );
    assert_eq!(registers.status_register(), 0x971F);

    registers.set_status_register(0x0504);
    assert_eq!(registers.interrupt_priority_mask, 5);
    assert!(!registers.supervisor_mode);
    assert!(!registers.trace_enabled);
    assert_eq!(
        registers.ccr,
        ConditionCodes {
            carry: false,
            overflow: false,
            zero: true,
            negative: false,
            extend: false
        }
    );
    assert_eq!(registers.status_register(), 0x0504);
    assert_eq!(u8::from(registers.ccr), 0x04);
    assert_eq!(ConditionCodes::from(0x11u8).extend, true);
    assert_eq!(ConditionCodes::from(0x11u8).carry, true);
}

#[test]
fn supervisor_flag_is_bit_12_of_the_status_register() {
    let mut registers = Registers::new();
    assert_eq!(registers.status_register(), 0x1000);
    registers.set_status_register(0x2000);
    assert!(!registers.supervisor_mode);
    assert_eq!(registers.status_register(), 0x0000);
    registers.set_status_register(0x1000);
    assert!(registers.supervisor_mode);
    assert!(!registers.trace_enabled);
    assert_eq!(registers.interrupt_priority_mask, 0);
    assert_eq!(registers.status_register(), 0x1000);
    registers.set_status_register(0x8000);
    assert!(registers.trace_enabled);
    assert!(!registers.supervisor_mode);
    assert_eq!(registers.status_register(), 0x8000);
    registers.set_status_register(0x0700);
    assert_eq!(registers.interrupt_priority_mask, 7);
    assert_eq!(registers.status_register(), 0x0700);
}

#[test]
fn postincrement_reads_then_moves_the_register() {
    let mut registers = Registers::new();
    let mut bus = InMemoryBus::new();
    registers.address[1] = 0x2000;
    bus.write_long_word(0x2000, 0x0102_0304);
    let mode = AddressingMode::AddressIndirectPostincrement(AddressRegister(1));

    assert_eq!(mode.read_from(&mut registers, &mut bus, OpSize::Byte), Ok(SizedValue::Byte(1)));
    assert_eq!(registers.address[1], 0x2001);
    assert_eq!(mode.read_from(&mut registers, &mut bus, OpSize::Byte), Ok(SizedValue::Byte(2)));
    assert_eq!(registers.address[1], 0x2002);
    assert_eq!(
        mode.read_from(&mut registers, &mut bus, OpSize::Word),
        Ok(SizedValue::Word(0x0304))
    );
    assert_eq!(registers.address[1], 0x2004);
    registers.address[1] = 0x2000;
    assert_eq!(
        mode.read_from(&mut registers, &mut bus, OpSize::LongWord),
        Ok(SizedValue::LongWord(0x0102_0304))
    );
    assert_eq!(registers.address[1], 0x2004);
}

#[test]
fn predecrement_moves_the_register_then_writes() {
    let mut registers = Registers::new();
    let mut bus = InMemoryBus::new();
    registers.address[1] = 0x2004;
    let mode = AddressingMode::AddressIndirectPredecrement(AddressRegister(1));

    assert_eq!(mode.write_to(&mut registers, &mut bus, SizedValue::Word(0xABCD)), Ok(()));
    assert_eq!(registers.address[1], 0x2002);
    assert_eq!(bus.read_word(0x2002), 0xABCD);
    assert_eq!(mode.write_to(&mut registers, &mut bus, SizedValue::Byte(0x7E)), Ok(()));
    assert_eq!(registers.address[1], 0x2001);
    assert_eq!(bus.read_memory(0x2001), 0x7E);
}

#[test]
fn stack_pointer_steps_by_two_on_bytes() {
    let mut registers = Registers::new();
    let mut bus = InMemoryBus::new();
    registers.ssp = 0x3000;
    let push = AddressingMode::AddressIndirectPredecrement(AddressRegister(7));
    let pop = AddressingMode::AddressIndirectPostincrement(AddressRegister(7));

    assert_eq!(push.write_to(&mut registers, &mut bus, SizedValue::Byte(0x55)), Ok(()));
    assert_eq!(registers.ssp, 0x2FFE);
    assert_eq!(bus.read_memory(0x2FFE), 0x55);
    assert_eq!(pop.read_from(&mut registers, &mut bus, OpSize::Byte), Ok(SizedValue::Byte(0x55)));
    assert_eq!(registers.ssp, 0x3000);
    assert_eq!(OpSize::Byte.increment_step_for(AddressRegister(7)), 2);
    assert_eq!(OpSize::Byte.increment_step_for(AddressRegister(0)), 1);
    assert_eq!(OpSize::Word.increment_step_for(AddressRegister(0)), 2);
    assert_eq!(OpSize::LongWord.increment_step_for(AddressRegister(7)), 4);
}

#[test]
fn misaligned_postincrement_leaves_the_register_and_predecrement_moves_it() {
    let mut registers = Registers::new();
    let mut bus = InMemoryBus::new();
    registers.address[0] = 0x2001;
    registers.address[1] = 0x2003;
    let post = AddressingMode::AddressIndirectPostincrement(AddressRegister(0));
    let pre = AddressingMode::AddressIndirectPredecrement(AddressRegister(1));

    assert_eq!(
        post.read_from(&mut registers, &mut bus, OpSize::Word),
        Err(Exception::AddressError)
    );
    assert_eq!(registers.address[0], 0x2001);
    assert_eq!(
        pre.write_to(&mut registers, &mut bus, SizedValue::Word(1)),
        Err(Exception::AddressError)
    );
    assert_eq!(registers.address[1], 0x2001);
    assert_eq!(bus.read_word(0x2000), 0);
    assert_eq!(bus.read_word(0x2002), 0);
}

#[test]
fn displacement_and_index_are_sign_extended() {
    let mut registers = Registers::new();
    let mut bus = InMemoryBus::new();
    registers.address[2] = 0x0001_0000;
    registers.data[3] = 0x1234_FFFE;
    bus.write_memory(0x0000_FFF0, 0x11);
    bus.write_memory(0x0000_FFFA, 0x22);
    bus.write_memory(0x1235_FFFA & 0xFF_FFFF, 0x33);

    let displaced = AddressingMode::AddressIndirectDisplacement(AddressRegister(2), -16);
    assert_eq!(
        displaced.read_from(&mut registers, &mut bus, OpSize::Byte),
        Ok(SizedValue::Byte(0x11))
    );
    assert_eq!(displaced.locate(&registers, OpSize::Byte), Some(0x0000_FFF0));

    let word_index = AddressingMode::AddressIndirectIndexed(
        AddressRegister(2),
        IndexRegister::Data(DataRegister(3)),
        IndexSize::SignExtendedWord,
        -4,
    );
    assert_eq!(word_index.locate(&registers, OpSize::Byte), Some(0x0000_FFFA));
    assert_eq!(
        word_index.read_from(&mut registers, &mut bus, OpSize::Byte),
        Ok(SizedValue::Byte(0x22))
    );

    let long_index = AddressingMode::AddressIndirectIndexed(
        AddressRegister(2),
        IndexRegister::Data(DataRegister(3)),
        IndexSize::LongWord,
        -4,
    );
    assert_eq!(long_index.locate(&registers, OpSize::Byte), Some(0x1235_FFFA));

    assert_eq!(
        AddressingMode::AbsoluteShort(-2).locate(&registers, OpSize::Byte),
        Some(0xFFFF_FFFE)
    );
    assert_eq!(
        AddressingMode::PcRelativeDisplacement(0x100, -0x10).locate(&registers, OpSize::Byte),
        Some(0xF0)
    );
    assert_eq!(AddressingMode::Immediate(7).locate(&registers, OpSize::Byte), None);
}

#[test]
fn brief_extension_word_fields() {
    assert_eq!(
        parse_index(0xB800),
        (IndexRegister::Address(AddressRegister(3)), IndexSize::LongWord)
    );
    assert_eq!(
        parse_index(0x5000),
        (IndexRegister::Data(DataRegister(5)), IndexSize::SignExtendedWord)
    );
}

#[test]
fn decode_every_source_mode() {
    let cases: [(u16, [u16; 2], AddressingMode, u32); 12] = [
        (0b000_010, [0, 0], AddressingMode::DataDirect(DataRegister(2)), 2),
        (0b001_010, [0, 0], AddressingMode::AddressDirect(AddressRegister(2)), 2),
        (0b010_010, [0, 0], AddressingMode::AddressIndirect(AddressRegister(2)), 2),
        (0b011_010, [0, 0], AddressingMode::AddressIndirectPostincrement(AddressRegister(2)), 2),
        (0b100_010, [0, 0], AddressingMode::AddressIndirectPredecrement(AddressRegister(2)), 2),
        (
            0b101_010,
            [0x8000, 0],
            AddressingMode::AddressIndirectDisplacement(AddressRegister(2), -0x8000),
            4,
        ),
        (
            0b110_010,
            [0x98FF, 0],
            AddressingMode::AddressIndirectIndexed(
                AddressRegister(2),
                IndexRegister::Address(AddressRegister(1)),
                IndexSize::LongWord,
                -1,
            ),
            4,
        ),
        (0b111_000, [0xFFFE, 0], AddressingMode::AbsoluteShort(-2), 4),
        (0b111_001, [0x0012, 0x3456], AddressingMode::AbsoluteLong(0x0012_3456), 6),
        (0b111_010, [0x0010, 0], AddressingMode::PcRelativeDisplacement(0x402, 0x10), 4),
        (
            0b111_011,
            [0x2003, 0],
            AddressingMode::PcRelativeIndexed(
                0x402,
                IndexRegister::Data(DataRegister(2)),
                IndexSize::SignExtendedWord,
                3,
            ),
            4,
        ),
        (0b111_100, [0x1234, 0x5678], AddressingMode::Immediate(0x1234_5678), 6),
    ];
    for (bits, extension, source, length) in cases {
        let mut registers = Registers::new();
        let mut bus = InMemoryBus::new();
        registers.pc = 0x400;
        // MOVE.l <source>, D0
        bus.write_word(0x400, 0x2000 | bits);
        bus.write_word(0x402, extension[0]);
        bus.write_word(0x404, extension[1]);
        let instruction = InstructionExecutor::new(&mut registers, &mut bus).decode_instruction();
        assert_eq!(
            instruction,
            Instruction::Move {
                size: OpSize::LongWord,
                source,
                dest: AddressingMode::DataDirect(DataRegister(0)),
            }
        );
        assert_eq!(registers.pc, 0x400 + length);
    }
}

#[test]
fn decode_rejects_what_cannot_be_moved() {
    let illegal: [u16; 7] = [
        0x0000,
        0x4E71,
        // reserved source encoding
        0b0011_000_000_111_101,
        // reserved destination encoding
        0b0011_111_111_000_000,
        // PC-relative destination
        0b0011_010_111_000_000,
        // immediate destination
        0b0011_100_111_000_000,
        // byte move to an address register
        0b0001_000_001_000_000,
    ];
    for opcode in illegal {
        let mut registers = Registers::new();
        let mut bus = InMemoryBus::new();
        registers.pc = 0x400;
        bus.write_word(0x400, opcode);
        let instruction = InstructionExecutor::new(&mut registers, &mut bus).decode_instruction();
        assert_eq!(instruction, Instruction::Illegal);
    }
}

#[test]
fn illegal_instruction_enters_vector_four() {
    let mut cpu = cpu_at(0x400);
    let mut bus = InMemoryBus::new();
    cpu.set_address_registers([0; 7], 0x8000, 0x1000);
    cpu.set_status_register(0x8215);
    bus.write_word(0x400, 0x4E71);
    bus.write_long_word(0x10, 0x0000_2000);

    cpu.execute_instruction(&mut bus);

    assert_eq!(cpu.pc(), 0x2000);
    assert_eq!(cpu.supervisor_stack_pointer(), 0x1000 - 6);
    assert_eq!(cpu.user_stack_pointer(), 0x8000);
    assert_eq!(bus.read_long_word(0x1000 - 4), 0x400);
    assert_eq!(bus.read_word(0x1000 - 6), 0x8215);
    // supervisor on, trace off, the rest as before
    assert_eq!(cpu.status_register(), 0x1215);
}

#[test]
fn odd_program_counter_is_an_address_error() {
    let mut cpu = cpu_at(0x401);
    let mut bus = InMemoryBus::new();
    cpu.set_address_registers([0; 7], 0, 0x1000);
    bus.write_long_word(0x0C, 0x0000_3000);

    cpu.execute_instruction(&mut bus);

    assert_eq!(cpu.pc(), 0x3000);
    assert_eq!(bus.read_long_word(0x0FFC), 0x401);
    assert_eq!(bus.read_word(0x0FFA), 0x1000);
    assert_eq!(cpu.supervisor_stack_pointer(), 0x0FFA);
}

#[test]
fn misaligned_word_move_is_an_address_error_and_keeps_flags() {
    let mut cpu = cpu_at(0x400);
    let mut bus = InMemoryBus::new();
    cpu.set_address_registers([0x2001, 0, 0, 0, 0, 0, 0], 0, 0x1000);
    cpu.set_data_registers([0, 0x7777_7777, 0, 0, 0, 0, 0, 0]);
    cpu.set_status_register(0x101F);
    // MOVE.w (A0), D1
    bus.write_word(0x400, 0b0011_001_000_010_000);
    bus.write_long_word(0x0C, 0x0000_3000);

    cpu.execute_instruction(&mut bus);

    assert_eq!(cpu.pc(), 0x3000);
    assert_eq!(cpu.data_registers()[1], 0x7777_7777);
    assert_eq!(cpu.status_register(), 0x101F);
    assert_eq!(bus.read_long_word(0x0FFC), 0x400);
    assert_eq!(bus.read_word(0x0FFA), 0x101F);
}

#[test]
fn memory_is_big_endian_and_wraps_at_24_bits() {
    let mut bus = InMemoryBus::new();
    bus.write_long_word(0x100, 0x0102_0304);
    assert_eq!(bus.read_memory(0x100), 1);
    assert_eq!(bus.read_memory(0x103), 4);
    assert_eq!(bus.read_word(0x101), 0x0203);
    bus.write_word(0xFF_FFFF, 0xA1B2);
    assert_eq!(bus.read_memory(0xFF_FFFF), 0xA1);
    assert_eq!(bus.read_memory(0), 0xB2);
    assert_eq!(bus.read_memory(0x0100_0000), 0xB2);
    assert_eq!(bus.read_long_word(0xFFFF_FFFF), 0xA1B2_0000);
}

#[test]
fn sized_value_predicates() {
    assert!(SizedValue::Byte(0).is_zero());
    assert!(!SizedValue::Word(1).is_zero());
    assert!(SizedValue::Byte(0x80).sign_bit());
    assert!(!SizedValue::Word(0x0080).sign_bit());
    assert!(SizedValue::Word(0x8000).sign_bit());
    assert!(!SizedValue::LongWord(0x7FFF_FFFF).sign_bit());
    assert!(SizedValue::LongWord(0x8000_0000).sign_bit());
    assert_eq!(SizedValue::truncate(OpSize::Byte, 0x1234_5678), SizedValue::Byte(0x78));
    assert_eq!(SizedValue::truncate(OpSize::Word, 0x1234_5678), SizedValue::Word(0x5678));
}

#[test]
fn writable_and_address_direct_modes() {
    assert!(AddressingMode::AddressDirect(AddressRegister(0)).is_address_direct());
    assert!(!AddressingMode::DataDirect(DataRegister(0)).is_address_direct());
    assert!(AddressingMode::AbsoluteLong(0).is_writable());
    assert!(!AddressingMode::Immediate(0).is_writable());
    assert!(!AddressingMode::PcRelativeDisplacement(0, 0).is_writable());
    assert!(
        !AddressingMode::PcRelativeIndexed(
            0,
            IndexRegister::Data(DataRegister(0)),
            IndexSize::LongWord,
            0
        )
        .is_writable()
    );
}

/// A bus that is written outside the library: it records what is done to it.
struct Recorder {
    inner: InMemoryBus,
    log: Vec<(char, u32, u32)>,
}

impl BusInterface for Recorder {
    fn read_memory(&mut self, address: u32) -> u8 {
        let value = self.inner.read_memory(address);
        self.log.push(('r', address, u32::from(value)));
        value
    }

    fn read_word(&mut self, address: u32) -> u16 {
        let value = self.inner.read_word(address);
        self.log.push(('R', address, u32::from(value)));
        value
    }

    fn read_long_word(&mut self, address: u32) -> u32 {
        let value = self.inner.read_long_word(address);
        self.log.push(('L', address, value));
        value
    }

    fn write_memory(&mut self, address: u32, value: u8) {
        self.log.push(('w', address, u32::from(value)));
        self.inner.write_memory(address, value);
    }

    fn write_word(&mut self, address: u32, value: u16) {
        self.log.push(('W', address, u32::from(value)));
        self.inner.write_word(address, value);
    }

    fn write_long_word(&mut self, address: u32, value: u32) {
        self.log.push(('M', address, value));
        self.inner.write_long_word(address, value);
    }
}

#[test]
fn bus_traffic_of_a_move_and_of_an_exception() {
    let mut bus = Recorder { inner: InMemoryBus::new(), log: Vec::new() };
    // MOVE.l (A0)+, -(A1)
    bus.inner.write_word(0x400, 0b0010_001_100_011_000);
    bus.inner.write_long_word(0x2000, 0xCAFE_F00D);
    bus.inner.write_word(0x402, 0xFFFF);
    bus.inner.write_long_word(0x10, 0x0000_0600);
    let mut cpu = cpu_at(0x400);
    cpu.set_address_registers([0x2000, 0x3000, 0, 0, 0, 0, 0], 0, 0x8000);
    cpu.set_status_register(0x1700);

    cpu.execute_instruction(&mut bus);
    assert_eq!(
        bus.log,
        vec![('R', 0x400, 0x2318), ('L', 0x2000, 0xCAFE_F00D), ('M', 0x2FFC, 0xCAFE_F00D)]
    );
    assert_eq!(cpu.address_registers()[0], 0x2004);
    assert_eq!(cpu.address_registers()[1], 0x2FFC);
    assert_eq!(cpu.status_register(), 0x1708);

    bus.log.clear();
    cpu.execute_instruction(&mut bus);
    assert_eq!(
        bus.log,
        vec![('R', 0x402, 0xFFFF), ('M', 0x7FFC, 0x402), ('W', 0x7FFA, 0x1708), ('L', 0x10, 0x600)]
    );
    assert_eq!(cpu.pc(), 0x600);
}
