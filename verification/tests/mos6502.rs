use jgenesis_cores::mos6502::bus::{BusInterface, RamBus};
use jgenesis_cores::mos6502::cpu::Mos6502;
use jgenesis_cores::mos6502::instructions::{AddressingMode, Instruction, Mnemonic};

const C: u8 = 0x01;
const Z: u8 = 0x02;
const I: u8 = 0x04;
const D: u8 = 0x08;
const U: u8 = 0x20;
const V: u8 = 0x40;
const N: u8 = 0x80;

/// A bus that is written outside the library: it records what is done to it.
struct Recorder {
    memory: Vec<u8>,
    log: Vec<(char, u16, u8)>,
    nmi: bool,
    irq: bool,
    acknowledged: u32,
}

impl Recorder {
    fn new() -> Self {
        Self { memory: vec![0; 0x1_0000], log: Vec::new(), nmi: false, irq: false, acknowledged: 0 }
    }
}

impl BusInterface for Recorder {
    fn read(&mut self, address: u16) -> u8 {
        let value = self.memory[usize::from(address)];
        self.log.push(('r', address, value));
        value
    }

    fn write(&mut self, address: u16, value: u8) {
        self.log.push(('w', address, value));
        self.memory[usize::from(address)] = value;
    }

    fn nmi(&self) -> bool {
        self.nmi
    }

    fn acknowledge_nmi(&mut self) {
        self.log.push(('a', 0, 0));
        self.acknowledged += 1;
        self.nmi = false;
    }

    fn irq(&self) -> bool {
        self.irq
    }
}

/// A bus with `program` at 0x8000 and the reset vector pointing there, and a core that has
/// been reset on it.
fn machine(program: &[u8]) -> (Mos6502, RamBus) {
    let mut bus = RamBus::new();
    for (i, byte) in program.iter().enumerate() {
        bus.write(0x8000 + i as u16, *byte);
    }
    bus.write(0xFFFC, 0x00);
    bus.write(0xFFFD, 0x80);
    let mut cpu = Mos6502::new();
    cpu.reset(&mut bus);
    (cpu, bus)
}

fn run(cpu: &mut Mos6502, bus: &mut RamBus, steps: usize) -> u32 {
    let mut cycles = 0;
    for _ in 0..steps {
        cycles += cpu.step(bus);
    }
    cycles
}

#[test]
fn lda_immediate() {
    let (mut cpu, mut bus) = machine(&[0xA9, 0x42, 0x00]);
    assert_eq!(cpu.pc(), 0x8000);
    let cycles = cpu.step(&mut bus);
    assert_eq!(cpu.a(), 0x42);
    assert_eq!(cpu.p() & Z, 0);
    assert_eq!(cpu.p() & N, 0);
    assert_eq!(cpu.pc(), 0x8002);
    assert_eq!(cycles, 2);
}

#[test]
fn nmi_entry() {
    let mut bus = Recorder::new();
    bus.memory[0xFFFC] = 0x00;
    bus.memory[0xFFFD] = 0x80;
    bus.memory[0xFFFA] = 0x00;
    bus.memory[0xFFFB] = 0x90;
    // a NOP, at whose end the line is found high
    bus.memory[0x8000] = 0xEA;
    let mut cpu = Mos6502::new();
    cpu.reset(&mut bus);
    bus.nmi = true;
    cpu.step(&mut bus);
    assert!(cpu.nmi_pending());
    assert_eq!(cpu.pc(), 0x8001);
    let sp = cpu.sp();
    let p = cpu.p();
    bus.log.clear();

    let cycles = cpu.step(&mut bus);

    assert_eq!(cpu.pc(), 0x9000);
    assert_eq!(cycles, 7);
    assert_eq!(cpu.sp(), sp.wrapping_sub(3));
    let stack = 0x0100 + u16::from(sp);
    assert_eq!(
        bus.log,
        vec![
            ('w', stack, 0x80),
            ('w', stack - 1, 0x01),
            ('w', stack - 2, p),
            ('a', 0, 0),
            ('r', 0xFFFA, 0x00),
            ('r', 0xFFFB, 0x90),
        ]
    );
    assert_eq!(p & 0x10, 0);
    assert_eq!(p & 0x20, 0x20);
    assert_eq!(bus.acknowledged, 1);
    assert!(!cpu.nmi_pending());
    assert_ne!(cpu.p() & I, 0);
}

#[test]
fn nmi_seen_at_reset_is_taken_by_the_first_step() {
    let mut bus = RamBus::new();
    bus.write(0xFFFC, 0x00);
    bus.write(0xFFFD, 0x80);
    bus.write(0xFFFA, 0x00);
    bus.write(0xFFFB, 0x90);
    bus.set_nmi(true);
    let mut cpu = Mos6502::new();
    cpu.reset(&mut bus);
    assert!(cpu.nmi_pending());
    assert_eq!(cpu.step(&mut bus), 7);
    assert_eq!(cpu.pc(), 0x9000);
    assert!(!bus.nmi());
    assert!(!cpu.nmi_pending());
}

#[test]
fn reset_reads_the_vector_and_moves_the_stack_pointer() {
    let (cpu, _) = machine(&[]);
    assert_eq!(cpu.pc(), 0x8000);
    assert_eq!(cpu.sp(), 0xFD);
    assert_eq!(cpu.p(), U | I);
    assert_eq!((cpu.a(), cpu.x(), cpu.y()), (0, 0, 0));
    assert!(!cpu.nmi_pending());
    let fresh = Mos6502::new();
    assert_eq!(fresh.sp(), 0);
    assert_eq!(fresh.p(), U | I);
    assert_eq!(Mos6502::default(), fresh);

    // reset clears the decimal flag
    let (mut cpu, mut bus) = machine(&[0xF8]);
    cpu.step(&mut bus);
    assert_ne!(cpu.p() & D, 0);
    cpu.reset(&mut bus);
    assert_eq!(cpu.p() & D, 0);
    assert_eq!(cpu.sp(), 0xFA);
}

#[test]
fn irq_waits_for_the_interrupt_disable_flag() {
    // SEI is in force after reset: CLI, NOP, NOP
    let (mut cpu, mut bus) = machine(&[0xEA, 0x58, 0xEA, 0xEA]);
    bus.write(0xFFFE, 0x34);
    bus.write(0xFFFF, 0x12);
    bus.set_irq(true);
    cpu.step(&mut bus);
    assert_eq!(cpu.pc(), 0x8001);
    // masked: the next step is an instruction
    cpu.step(&mut bus);
    assert_eq!(cpu.pc(), 0x8002);
    assert_eq!(cpu.p() & I, 0);
    let sp = cpu.sp();
    let cycles = cpu.step(&mut bus);
    assert_eq!(cycles, 7);
    assert_eq!(cpu.pc(), 0x1234);
    assert_ne!(cpu.p() & I, 0);
    assert_eq!(bus.read(0x0100 + u16::from(sp)), 0x80);
    assert_eq!(bus.read(0x0100 + u16::from(sp.wrapping_sub(1))), 0x02);
    assert_eq!(bus.read(0x0100 + u16::from(sp.wrapping_sub(2))), U);
    assert!(!cpu.nmi_pending());
}

#[test]
fn nmi_comes_before_irq() {
    let (mut cpu, mut bus) = machine(&[0x58, 0xEA]);
    bus.write(0xFFFA, 0x00);
    bus.write(0xFFFB, 0x90);
    bus.write(0xFFFE, 0x00);
    bus.write(0xFFFF, 0xA0);
    bus.set_nmi(true);
    bus.set_irq(true);
    cpu.step(&mut bus);
    cpu.step(&mut bus);
    assert_eq!(cpu.pc(), 0x9000);
}

#[test]
fn brk_pushes_with_the_break_flag_and_rti_returns() {
    let (mut cpu, mut bus) = machine(&[0x38, 0x00, 0xFF, 0xEA]);
    bus.write(0xFFFE, 0x00);
    bus.write(0xFFFF, 0x90);
    bus.write(0x9000, 0x40);
    cpu.step(&mut bus);
    let sp = cpu.sp();
    let cycles = cpu.step(&mut bus);
    assert_eq!(cycles, 7);
    assert_eq!(cpu.pc(), 0x9000);
    assert_eq!(cpu.sp(), sp.wrapping_sub(3));
    assert_eq!(bus.read(0x0100 + u16::from(sp)), 0x80);
    assert_eq!(bus.read(0x0100 + u16::from(sp.wrapping_sub(1))), 0x03);
    assert_eq!(bus.read(0x0100 + u16::from(sp.wrapping_sub(2))), U | 0x10 | I | C);
    let cycles = cpu.step(&mut bus);
    assert_eq!(cycles, 6);
    assert_eq!(cpu.pc(), 0x8003);
    assert_eq!(cpu.sp(), sp);
    assert_eq!(cpu.p(), U | I | C);
}

#[test]
fn illegal_opcode_is_a_two_cycle_no_operation() {
    let (mut cpu, mut bus) = machine(&[0x02, 0xFF, 0x89]);
    let before = cpu;
    for expected_pc in [0x8001u16, 0x8002, 0x8003] {
        assert_eq!(cpu.step(&mut bus), 2);
        assert_eq!(cpu.pc(), expected_pc);
        assert_eq!(
            (cpu.a(), cpu.x(), cpu.y(), cpu.sp(), cpu.p()),
            (before.a(), before.x(), before.y(), before.sp(), before.p())
        );
    }
    assert_eq!(Instruction::decode(0x02).mnemonic, Mnemonic::Illegal);
    assert_eq!(
        Instruction::decode(0xBD),
        Instruction::new(Mnemonic::Lda, AddressingMode::AbsoluteX, 4)
    );
}

#[test]
fn loads_set_n_and_z() {
    let (mut cpu, mut bus) = machine(&[0xA9, 0x00, 0xA2, 0x80, 0xA0, 0x7F]);
    cpu.step(&mut bus);
    assert_eq!(cpu.p(), U | I | Z);
    cpu.step(&mut bus);
    assert_eq!(cpu.x(), 0x80);
    assert_eq!(cpu.p(), U | I | N);
    cpu.step(&mut bus);
    assert_eq!(cpu.y(), 0x7F);
    assert_eq!(cpu.p(), U | I);
}

#[test]
fn addressing_modes_find_their_operands() {
    let (mut cpu, mut bus) = machine(&[
        0xA2, 0x04, // LDX #4
        0xA0, 0x10, // LDY #$10
        0xA5, 0x20, // LDA $20
        0xB5, 0xFE, // LDA $FE,X -> $02
        0xB6, 0xF8, // LDX $F8,Y -> $08
        0xAD, 0x34, 0x12, // LDA $1234
        0xBD, 0xFE, 0x12, // LDA $12FE,X -> $1306 (X = 8)
        0xB9, 0x00, 0x13, // LDA $1300,Y -> $1310
        0xA1, 0xFC, // LDA ($FC,X) -> pointer at $04
        0xB1, 0xFF, // LDA ($FF),Y -> pointer at $FF/$00
    ]);
    bus.write(0x0020, 0x11);
    bus.write(0x0002, 0x22);
    bus.write(0x0008, 0x08);
    bus.write(0x1234, 0x33);
    bus.write(0x1306, 0x44);
    bus.write(0x1310, 0x55);
    bus.write(0x0004, 0x00);
    bus.write(0x0005, 0x20);
    bus.write(0x2000, 0x66);
    bus.write(0x00FF, 0xF8);
    bus.write(0x0000, 0x20);
    bus.write(0x2108, 0x77);

    assert_eq!(run(&mut cpu, &mut bus, 2), 4);
    assert_eq!(cpu.step(&mut bus), 3);
    assert_eq!(cpu.a(), 0x11);
    assert_eq!(cpu.step(&mut bus), 4);
    assert_eq!(cpu.a(), 0x22);
    assert_eq!(cpu.step(&mut bus), 4);
    assert_eq!(cpu.x(), 0x08);
    assert_eq!(cpu.step(&mut bus), 4);
    assert_eq!(cpu.a(), 0x33);
    // page crossed: one more cycle
    assert_eq!(cpu.step(&mut bus), 5);
    assert_eq!(cpu.a(), 0x44);
    assert_eq!(cpu.step(&mut bus), 4);
    assert_eq!(cpu.a(), 0x55);
    assert_eq!(cpu.step(&mut bus), 6);
    assert_eq!(cpu.a(), 0x66);
    // pointer wraps in page 0, indexing crosses a page
    assert_eq!(cpu.step(&mut bus), 6);
    assert_eq!(cpu.a(), 0x77);
    assert_eq!(cpu.pc(), 0x8000 + 23);
}

#[test]
fn stores_write_registers_without_page_penalty() {
    let (mut cpu, mut bus) = machine(&[
        0xA9, 0xAA, 0xA2, 0xBB, 0xA0, 0xCC, // LDA, LDX, LDY
        0x85, 0x10, // STA $10
        0x86, 0x11, // STX $11
        0x84, 0x12, // STY $12
        0x9D, 0x80, 0x12, // STA $1280,X -> $133B
        0x91, 0x20, // STA ($20),Y
    ]);
    bus.write(0x0020, 0x90);
    bus.write(0x0021, 0x30);
    let p = {
        run(&mut cpu, &mut bus, 3);
        cpu.p()
    };
    assert_eq!(cpu.step(&mut bus), 3);
    assert_eq!(cpu.step(&mut bus), 3);
    assert_eq!(cpu.step(&mut bus), 3);
    assert_eq!(cpu.step(&mut bus), 5);
    assert_eq!(cpu.step(&mut bus), 6);
    assert_eq!(bus.read(0x10), 0xAA);
    assert_eq!(bus.read(0x11), 0xBB);
    assert_eq!(bus.read(0x12), 0xCC);
    assert_eq!(bus.read(0x133B), 0xAA);
    assert_eq!(bus.read(0x315C), 0xAA);
    assert_eq!(cpu.p(), p);
}

fn adc(a: u8, value: u8, flags: u8) -> (u8, u8) {
    // PLP needs the flags on the stack: LDA #flags, PHA, PLP, LDA #a, ADC #value
    let (mut cpu, mut bus) = machine(&[0xA9, flags, 0x48, 0x28, 0xA9, a, 0x69, value]);
    run(&mut cpu, &mut bus, 3);
    let carry_and_decimal = cpu.p() & (C | D);
    assert_eq!(carry_and_decimal, flags & (C | D));
    run(&mut cpu, &mut bus, 2);
    (cpu.a(), cpu.p() & (N | V | Z | C))
}

fn sbc(a: u8, value: u8, flags: u8) -> (u8, u8) {
    let (mut cpu, mut bus) = machine(&[0xA9, flags, 0x48, 0x28, 0xA9, a, 0xE9, value]);
    run(&mut cpu, &mut bus, 5);
    (cpu.a(), cpu.p() & (N | V | Z | C))
}

#[test]
fn binary_addition_and_subtraction() {
    assert_eq!(adc(0x10, 0x20, 0), (0x30, 0));
    assert_eq!(adc(0x10, 0x20, C), (0x31, 0));
    assert_eq!(adc(0xFF, 0x01, 0), (0x00, Z | C));
    assert_eq!(adc(0x7F, 0x01, 0), (0x80, N | V));
    assert_eq!(adc(0x80, 0x80, 0), (0x00, V | Z | C));
    assert_eq!(adc(0x80, 0xFF, 0), (0x7F, V | C));
    assert_eq!(sbc(0x50, 0x10, C), (0x40, C));
    assert_eq!(sbc(0x50, 0x10, 0), (0x3F, C));
    assert_eq!(sbc(0x10, 0x20, C), (0xF0, N));
    assert_eq!(sbc(0x80, 0x01, C), (0x7F, V | C));
    assert_eq!(sbc(0x00, 0x00, C), (0x00, Z | C));
}

#[test]
fn decimal_addition_and_subtraction() {
    assert_eq!(adc(0x09, 0x01, D), (0x10, 0));
    assert_eq!(adc(0x58, 0x46, D | C), (0x05, C | N | V));
    assert_eq!(adc(0x99, 0x01, D), (0x00, C | N));
    assert_eq!(adc(0x12, 0x34, D), (0x46, 0));
    assert_eq!(adc(0x15, 0x26, D), (0x41, 0));
    assert_eq!(adc(0x81, 0x92, D), (0x73, C | V));
    assert_eq!(sbc(0x46, 0x12, D | C), (0x34, C));
    assert_eq!(sbc(0x40, 0x13, D | C), (0x27, C));
    assert_eq!(sbc(0x32, 0x02, D), (0x29, C));
    assert_eq!(sbc(0x12, 0x21, D | C), (0x91, N));
    assert_eq!(sbc(0x21, 0x34, D | C), (0x87, N));
}

#[test]
fn logic_compare_and_bit() {
    let (mut cpu, mut bus) = machine(&[
        0xA9, 0xF0, // LDA #$F0
        0x29, 0x3C, // AND #$3C -> $30
        0x09, 0x81, // ORA #$81 -> $B1
        0x49, 0xB1, // EOR #$B1 -> 0
        0xA9, 0x40, // LDA #$40
        0xC9, 0x40, // CMP #$40
        0xC9, 0x41, // CMP #$41
        0xC9, 0x3F, // CMP #$3F
        0x24, 0x10, // BIT $10
        0xA2, 0x05, 0xE0, 0x06, // LDX #5, CPX #6
        0xA0, 0x05, 0xC0, 0x05, // LDY #5, CPY #5
    ]);
    bus.write(0x10, 0xC0);
    run(&mut cpu, &mut bus, 2);
    assert_eq!((cpu.a(), cpu.p()), (0x30, U | I));
    cpu.step(&mut bus);
    assert_eq!((cpu.a(), cpu.p()), (0xB1, U | I | N));
    cpu.step(&mut bus);
    assert_eq!((cpu.a(), cpu.p()), (0x00, U | I | Z));
    run(&mut cpu, &mut bus, 2);
    assert_eq!(cpu.p(), U | I | Z | C);
    cpu.step(&mut bus);
    assert_eq!(cpu.p(), U | I | N);
    cpu.step(&mut bus);
    assert_eq!(cpu.p(), U | I | C);
    assert_eq!(cpu.step(&mut bus), 3);
    assert_eq!(cpu.p(), U | I | C | N | V);
    assert_eq!(cpu.a(), 0x40);
    run(&mut cpu, &mut bus, 2);
    assert_eq!(cpu.p(), U | I | V | N);
    run(&mut cpu, &mut bus, 2);
    assert_eq!(cpu.p(), U | I | V | Z | C);
}

#[test]
fn shifts_and_rotations() {
    let (mut cpu, mut bus) = machine(&[
        0xA9, 0x81, // LDA #$81
        0x0A, // ASL A -> $02, C
        0x2A, // ROL A -> $05
        0x4A, // LSR A -> $02, C
        0x6A, // ROR A -> $81
        0x6A, // ROR A -> $40, C
        0x06, 0x10, // ASL $10
        0x66, 0x10, // ROR $10
        0xE6, 0x11, // INC $11
        0xC6, 0x12, // DEC $12
        0xFE, 0xFF, 0x12, // INC $12FF,X
    ]);
    bus.write(0x10, 0x40);
    bus.write(0x11, 0xFF);
    bus.write(0x12, 0x00);
    bus.write(0x12FF, 0x7F);
    cpu.step(&mut bus);
    assert_eq!(cpu.step(&mut bus), 2);
    assert_eq!((cpu.a(), cpu.p()), (0x02, U | I | C));
    cpu.step(&mut bus);
    assert_eq!((cpu.a(), cpu.p()), (0x05, U | I));
    cpu.step(&mut bus);
    assert_eq!((cpu.a(), cpu.p()), (0x02, U | I | C));
    cpu.step(&mut bus);
    assert_eq!((cpu.a(), cpu.p()), (0x81, U | I | N));
    cpu.step(&mut bus);
    assert_eq!((cpu.a(), cpu.p()), (0x40, U | I | C));
    assert_eq!(cpu.step(&mut bus), 5);
    assert_eq!((bus.read(0x10), cpu.p()), (0x80, U | I | N));
    cpu.step(&mut bus);
    assert_eq!((bus.read(0x10), cpu.p()), (0x40, U | I));
    cpu.step(&mut bus);
    assert_eq!((bus.read(0x11), cpu.p()), (0x00, U | I | Z));
    cpu.step(&mut bus);
    assert_eq!((bus.read(0x12), cpu.p()), (0xFF, U | I | N));
    assert_eq!(cpu.step(&mut bus), 7);
    assert_eq!((bus.read(0x12FF), cpu.p()), (0x80, U | I | N));
}

#[test]
fn transfers_increments_and_flag_instructions() {
    let (mut cpu, mut bus) = machine(&[
        0xA9, 0x80, 0xAA, 0xA8, // LDA #$80, TAX, TAY
        0xE8, 0xC8, 0xCA, 0x88, // INX, INY, DEX, DEY
        0xA2, 0xFF, 0xE8, // LDX #$FF, INX
        0x9A, 0xBA, // TXS, TSX
        0x8A, 0x98, // TXA, TYA
        0x38, 0xF8, 0x78, 0x18, 0xD8, 0x58, // SEC SED SEI CLC CLD CLI
        0xB8, // CLV
    ]);
    run(&mut cpu, &mut bus, 3);
    assert_eq!((cpu.x(), cpu.y(), cpu.p()), (0x80, 0x80, U | I | N));
    run(&mut cpu, &mut bus, 2);
    assert_eq!((cpu.x(), cpu.y()), (0x81, 0x81));
    run(&mut cpu, &mut bus, 2);
    assert_eq!((cpu.x(), cpu.y()), (0x80, 0x80));
    run(&mut cpu, &mut bus, 2);
    assert_eq!((cpu.x(), cpu.p()), (0x00, U | I | Z));
    // TXS changes no flag
    cpu.step(&mut bus);
    assert_eq!((cpu.sp(), cpu.p()), (0x00, U | I | Z));
    cpu.step(&mut bus);
    assert_eq!(cpu.p(), U | I | Z);
    cpu.step(&mut bus);
    assert_eq!((cpu.a(), cpu.p()), (0x00, U | I | Z));
    cpu.step(&mut bus);
    assert_eq!((cpu.a(), cpu.p()), (0x80, U | I | N));
    run(&mut cpu, &mut bus, 3);
    assert_eq!(cpu.p(), U | I | N | C | D);
    run(&mut cpu, &mut bus, 3);
    assert_eq!(cpu.p(), U | N);
    assert_eq!(cpu.step(&mut bus), 2);
    assert_eq!(cpu.p(), U | N);
}

#[test]
fn branches_cost_more_when_taken_and_when_they_leave_the_page() {
    let (mut cpu, mut bus) = machine(&[
        0xA9, 0x00, // LDA #0
        0xD0, 0x10, // BNE +16: not taken
        0xF0, 0x02, // BEQ +2: taken
        0xEA, 0xEA, //
        0xF0, 0x80, // BEQ -128: taken, to 0x7F8A
    ]);
    cpu.step(&mut bus);
    assert_eq!(cpu.step(&mut bus), 2);
    assert_eq!(cpu.pc(), 0x8004);
    assert_eq!(cpu.step(&mut bus), 3);
    assert_eq!(cpu.pc(), 0x8008);
    assert_eq!(cpu.step(&mut bus), 4);
    assert_eq!(cpu.pc(), 0x7F8A);
}

#[test]
fn every_branch_tests_its_flag() {
    // (set-up opcode, branch opcode, taken)
    let cases: [(u8, u8, bool); 8] = [
        (0x18, 0x90, true),  // CLC, BCC
        (0x38, 0x90, false), // SEC, BCC
        (0x38, 0xB0, true),  // SEC, BCS
        (0x18, 0xB0, false), // CLC, BCS
        (0xB8, 0x50, true),  // CLV, BVC
        (0xB8, 0x70, false), // CLV, BVS
        (0xEA, 0x10, true),  // BPL
        (0xEA, 0x30, false), // BMI
    ];
    for (setup, branch, taken) in cases {
        let (mut cpu, mut bus) = machine(&[setup, branch, 0x04]);
        cpu.step(&mut bus);
        cpu.step(&mut bus);
        assert_eq!(cpu.pc(), if taken { 0x8007 } else { 0x8003 });
    }
}

#[test]
fn jumps_calls_and_returns() {
    let (mut cpu, mut bus) = machine(&[
        0x20, 0x10, 0x80, // JSR $8010
        0x4C, 0x20, 0x80, // JMP $8020
    ]);
    bus.write(0x8010, 0x60); // RTS
    bus.write(0x8020, 0x6C); // JMP ($30FF)
    bus.write(0x8021, 0xFF);
    bus.write(0x8022, 0x30);
    bus.write(0x30FF, 0x78);
    bus.write(0x3000, 0x56); // the pointer's high byte comes from the same page
    bus.write(0x3100, 0x99);
    let sp = cpu.sp();
    assert_eq!(cpu.step(&mut bus), 6);
    assert_eq!(cpu.pc(), 0x8010);
    assert_eq!(cpu.sp(), sp.wrapping_sub(2));
    assert_eq!(bus.read(0x0100 + u16::from(sp)), 0x80);
    assert_eq!(bus.read(0x0100 + u16::from(sp.wrapping_sub(1))), 0x02);
    assert_eq!(cpu.step(&mut bus), 6);
    assert_eq!(cpu.pc(), 0x8003);
    assert_eq!(cpu.sp(), sp);
    assert_eq!(cpu.step(&mut bus), 3);
    assert_eq!(cpu.pc(), 0x8020);
    assert_eq!(cpu.step(&mut bus), 5);
    assert_eq!(cpu.pc(), 0x5678);
}

#[test]
fn stack_instructions_and_wrapping() {
    let (mut cpu, mut bus) = machine(&[
        0xA2, 0x00, 0x9A, // LDX #0, TXS
        0xA9, 0xC3, 0x48, // LDA #$C3, PHA
        0x08, // PHP
        0xA9, 0x00, // LDA #0
        0x28, // PLP
        0x68, // PLA
    ]);
    run(&mut cpu, &mut bus, 3);
    assert_eq!(cpu.step(&mut bus), 3);
    assert_eq!(cpu.sp(), 0xFF);
    assert_eq!(bus.read(0x0100), 0xC3);
    assert_eq!(cpu.step(&mut bus), 3);
    assert_eq!(cpu.sp(), 0xFE);
    assert_eq!(bus.read(0x01FF), U | 0x10 | I | N);
    cpu.step(&mut bus);
    assert_eq!(cpu.p(), U | I | Z);
    assert_eq!(cpu.step(&mut bus), 4);
    assert_eq!(cpu.p(), U | I | N);
    assert_eq!(cpu.step(&mut bus), 4);
    assert_eq!(cpu.a(), 0xC3);
    assert_eq!(cpu.sp(), 0x00);
}

#[test]
fn read_modify_write_writes_the_old_value_first() {
    let mut bus = Recorder::new();
    bus.memory[0x8000] = 0xEE; // INC $4000
    bus.memory[0x8001] = 0x00;
    bus.memory[0x8002] = 0x40;
    bus.memory[0x4000] = 0x41;
    bus.memory[0xFFFD] = 0x80;
    let mut cpu = Mos6502::new();
    cpu.reset(&mut bus);
    bus.log.clear();
    assert_eq!(cpu.step(&mut bus), 6);
    assert_eq!(
        bus.log,
        vec![
            ('r', 0x8000, 0xEE),
            ('r', 0x8001, 0x00),
            ('r', 0x8002, 0x40),
            ('r', 0x4000, 0x41),
            ('w', 0x4000, 0x41),
            ('w', 0x4000, 0x42),
        ]
    );
}
