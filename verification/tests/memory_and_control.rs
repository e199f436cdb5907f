use mos6502::bus::Bus;
use mos6502::constants::{AddressingMode, Status};
use mos6502::cpu::CPU;

/// A processor with `program` at 0x0600, about to fetch there.
fn machine(program: &[u8]) -> CPU {
    let mut cpu = CPU::new(Bus::new());
    for (offset, byte) in program.iter().enumerate() {
        cpu.write(0x0600 + offset as u16, *byte);
    }
    cpu.program_counter = 0x0600;
    cpu
}

/// Runs the instruction at the program counter to its last cycle and returns
/// the number of ticks that took.
fn run_instruction(cpu: &mut CPU) -> u64 {
    assert_eq!(cpu.cycles, 0);
    let mut ticks = 1;
    cpu.clock();
    while cpu.cycles > 0 {
        cpu.clock();
        ticks += 1;
    }
    ticks
}

#[test]
fn new_bus_is_zeroed() {
    let bus = Bus::new();
    assert_eq!(bus.ram.len(), 65536);
    assert!(bus.ram.iter().all(|byte| *byte == 0));
    assert_eq!(bus.read(0x0000, false), 0);
    assert_eq!(bus.read(0xFFFF, true), 0);
}

#[test]
fn bus_write_changes_one_byte() {
    let mut bus = Bus::new();
    bus.write(0x1234, 0xAB);
    bus.write(0xFFFF, 0xCD);
    bus.write(0x0000, 0xEF);
    assert_eq!(bus.read(0x1234, false), 0xAB);
    assert_eq!(bus.read(0xFFFF, false), 0xCD);
    assert_eq!(bus.read(0x0000, false), 0xEF);
    assert_eq!(bus.read(0x1233, false), 0x00);
    assert_eq!(bus.read(0x1235, false), 0x00);
    let changed = bus.ram.iter().filter(|byte| **byte != 0).count();
    assert_eq!(changed, 3);
}

#[test]
fn new_cpu_has_initial_registers() {
    let cpu = CPU::new(Bus::new());
    assert_eq!(cpu.a, 0);
    assert_eq!(cpu.x, 0);
    assert_eq!(cpu.y, 0);
    assert_eq!(cpu.stack_pointer, 0xFD);
    assert_eq!(cpu.program_counter, 0);
    assert_eq!(cpu.cycles, 0);
    assert!(!cpu.complete);
    assert_eq!(cpu.status.to_byte(), 0x24);
    assert!(cpu.status.interrupt);
    assert!(cpu.status.unused);
}

#[test]
fn cpu_read_and_write_pass_through_to_the_bus() {
    let mut cpu = CPU::new(Bus::new());
    cpu.write(0x8000, 0x5A);
    assert_eq!(cpu.read(0x8000), 0x5A);
    assert_eq!(cpu.bus.read(0x8000, false), 0x5A);
    cpu.bus.write(0x8001, 0xA5);
    assert_eq!(cpu.read(0x8001), 0xA5);
}

#[test]
fn load_copies_the_program_and_sets_the_reset_vector() {
    let mut cpu = CPU::new(Bus::new());
    cpu.write(0x05FF, 0x77);
    cpu.write(0x0603, 0x77);
    cpu.load(&vec![0xA9, 0x42, 0x00]);
    assert_eq!(cpu.read(0x0600), 0xA9);
    assert_eq!(cpu.read(0x0601), 0x42);
    assert_eq!(cpu.read(0x0602), 0x00);
    assert_eq!(cpu.read(0x0603), 0x77);
    assert_eq!(cpu.read(0x05FF), 0x77);
    assert_eq!(cpu.read(0xFFFC), 0x00);
    assert_eq!(cpu.read(0xFFFD), 0x06);
    assert_eq!(cpu.program_counter, 0);
    cpu.reset();
    assert_eq!(cpu.program_counter, 0x0600);
}

#[test]
fn load_of_an_empty_program_only_sets_the_reset_vector() {
    let mut cpu = CPU::new(Bus::new());
    cpu.write(0x0600, 0x11);
    cpu.write(0xFFFC, 0x99);
    cpu.load(&Vec::new());
    assert_eq!(cpu.read(0x0600), 0x11);
    assert_eq!(cpu.read(0xFFFC), 0x00);
    assert_eq!(cpu.read(0xFFFD), 0x06);
}

#[test]
fn load_of_the_longest_program_ends_under_the_reset_vector() {
    let mut cpu = CPU::new(Bus::new());
    let program = vec![0xEAu8; 0xFA00];
    cpu.load(&program);
    assert_eq!(cpu.read(0x0600), 0xEA);
    assert_eq!(cpu.read(0xFFFB), 0xEA);
    assert_eq!(cpu.read(0xFFFC), 0x00);
    assert_eq!(cpu.read(0xFFFD), 0x06);
    assert_eq!(cpu.read(0xFFFE), 0xEA);
    assert_eq!(cpu.read(0xFFFF), 0xEA);
    assert_eq!(cpu.read(0x05FF), 0x00);
}

#[test]
fn reset_reloads_registers_and_program_counter() {
    let mut cpu = CPU::new(Bus::new());
    cpu.write(0xFFFC, 0x34);
    cpu.write(0xFFFD, 0x12);
    cpu.a = 1;
    cpu.x = 2;
    cpu.y = 3;
    cpu.stack_pointer = 0x10;
    cpu.status = Status::from_byte(0xC3);
    cpu.complete = true;
    cpu.reset();
    assert_eq!(cpu.program_counter, 0x1234);
    assert_eq!(cpu.a, 0);
    assert_eq!(cpu.x, 0);
    assert_eq!(cpu.y, 0);
    assert_eq!(cpu.stack_pointer, 0xFD);
    assert_eq!(cpu.cycles, 8);
    assert_eq!(cpu.status.to_byte(), 0xC3);
    assert!(cpu.complete);
}

#[test]
fn reset_twice_is_reset_once() {
    let mut once = CPU::new(Bus::new());
    once.write(0xFFFC, 0xCD);
    once.write(0xFFFD, 0xAB);
    once.a = 0x11;
    once.x = 0x22;
    once.y = 0x33;
    once.stack_pointer = 0x44;
    once.cycles = 3;
    once.status = Status::from_byte(0x81);
    let mut twice = CPU::new(once.bus);
    twice.a = once.a;
    twice.x = once.x;
    twice.y = once.y;
    twice.stack_pointer = once.stack_pointer;
    twice.cycles = once.cycles;
    twice.status = once.status;

    once.reset();
    twice.reset();
    twice.reset();

    assert_eq!(twice.a, once.a);
    assert_eq!(twice.x, once.x);
    assert_eq!(twice.y, once.y);
    assert_eq!(twice.stack_pointer, once.stack_pointer);
    assert_eq!(twice.program_counter, once.program_counter);
    assert_eq!(twice.program_counter, 0xABCD);
    assert_eq!(twice.cycles, once.cycles);
    assert_eq!(twice.status, once.status);
    assert_eq!(twice.complete, once.complete);
    assert!(twice.bus.ram == once.bus.ram);
}

#[test]
fn nmi_pushes_state_and_takes_its_vector() {
    let mut cpu = CPU::new(Bus::new());
    cpu.write(0xFFFA, 0x00);
    cpu.write(0xFFFB, 0x90);
    cpu.program_counter = 0x1234;
    cpu.status = Status::from_byte(0b1101_0011);
    cpu.nmi();
    assert_eq!(cpu.program_counter, 0x9000);
    assert_eq!(cpu.stack_pointer, 0xFA);
    assert_eq!(cpu.read(0x01FD), 0x12);
    assert_eq!(cpu.read(0x01FC), 0x34);
    // break cleared, unused and interrupt set, in the pushed byte and in the flags
    assert_eq!(cpu.read(0x01FB), 0b1110_0111);
    assert_eq!(cpu.status.to_byte(), 0b1110_0111);
    assert_eq!(cpu.cycles, 8);
}

#[test]
fn nmi_is_taken_even_with_interrupts_disabled() {
    let mut cpu = CPU::new(Bus::new());
    cpu.write(0xFFFA, 0x78);
    cpu.write(0xFFFB, 0x56);
    assert!(cpu.status.interrupt);
    cpu.nmi();
    assert_eq!(cpu.program_counter, 0x5678);
    assert_eq!(cpu.read(0x01FB), 0x24);
}

#[test]
fn irq_is_ignored_while_interrupts_are_disabled() {
    let mut cpu = CPU::new(Bus::new());
    cpu.write(0xFFFE, 0x00);
    cpu.write(0xFFFF, 0x80);
    cpu.program_counter = 0x1234;
    assert!(cpu.status.interrupt);
    cpu.irq();
    assert_eq!(cpu.program_counter, 0x1234);
    assert_eq!(cpu.stack_pointer, 0xFD);
    assert_eq!(cpu.cycles, 0);
    assert_eq!(cpu.read(0x01FD), 0x00);
    assert_eq!(cpu.status.to_byte(), 0x24);
}

#[test]
fn irq_pushes_state_and_takes_its_vector() {
    let mut cpu = CPU::new(Bus::new());
    cpu.write(0xFFFE, 0x00);
    cpu.write(0xFFFF, 0x80);
    cpu.program_counter = 0xBEEF;
    cpu.status = Status::from_byte(0b0001_0001);
    cpu.irq();
    assert_eq!(cpu.program_counter, 0x8000);
    assert_eq!(cpu.stack_pointer, 0xFA);
    assert_eq!(cpu.read(0x01FD), 0xBE);
    assert_eq!(cpu.read(0x01FC), 0xEF);
    assert_eq!(cpu.read(0x01FB), 0b0010_0101);
    assert_eq!(cpu.status.to_byte(), 0b0010_0101);
    assert_eq!(cpu.cycles, 7);
}

#[test]
fn clock_only_pays_while_cycles_are_owed() {
    let mut cpu = machine(&[0xA9, 0x42]);
    cpu.cycles = 3;
    cpu.clock();
    assert_eq!(cpu.cycles, 2);
    assert_eq!(cpu.program_counter, 0x0600);
    assert_eq!(cpu.a, 0);
    cpu.clock();
    cpu.clock();
    assert_eq!(cpu.cycles, 0);
    assert_eq!(cpu.program_counter, 0x0600);
    assert_eq!(cpu.a, 0);
    cpu.clock();
    assert_eq!(cpu.a, 0x42);
    assert_eq!(cpu.program_counter, 0x0602);
    assert_eq!(cpu.cycles, 1);
}

#[test]
fn clock_after_reset_pays_eight_cycles_before_the_first_fetch() {
    let mut cpu = CPU::new(Bus::new());
    cpu.load(&vec![0xA2, 0x07]);
    cpu.reset();
    for _ in 0..8 {
        assert_eq!(cpu.x, 0);
        assert_eq!(cpu.program_counter, 0x0600);
        cpu.clock();
    }
    assert_eq!(cpu.cycles, 0);
    cpu.clock();
    assert_eq!(cpu.x, 7);
    assert_eq!(cpu.program_counter, 0x0602);
}

#[test]
fn clock_steps_over_the_operand_bytes() {
    // NOP, LDA #$01, LDA $1234
    let mut cpu = machine(&[0xEA, 0xA9, 0x01, 0xAD, 0x34, 0x12]);
    assert_eq!(run_instruction(&mut cpu), 2);
    assert_eq!(cpu.program_counter, 0x0601);
    assert_eq!(run_instruction(&mut cpu), 2);
    assert_eq!(cpu.program_counter, 0x0603);
    assert_eq!(run_instruction(&mut cpu), 4);
    assert_eq!(cpu.program_counter, 0x0606);
}

#[test]
fn program_counter_wraps_at_the_end_of_memory() {
    let mut cpu = CPU::new(Bus::new());
    cpu.write(0xFFFF, 0xEA);
    cpu.program_counter = 0xFFFF;
    cpu.clock();
    assert_eq!(cpu.program_counter, 0x0000);

    // LDA #$xx whose operand lies at 0x0000
    let mut cpu = CPU::new(Bus::new());
    cpu.write(0xFFFF, 0xA9);
    cpu.write(0x0000, 0x5C);
    cpu.program_counter = 0xFFFF;
    cpu.clock();
    assert_eq!(cpu.a, 0x5C);
    assert_eq!(cpu.program_counter, 0x0001);
}

#[test]
fn every_instruction_bills_its_base_cycles_without_penalty() {
    // LDA #, LDA zp, LDA zp,X, LDA abs, STA abs,X, INC abs,X, PHA, PLA, JMP abs
    let cases: [(&[u8], u64); 9] = [
        (&[0xA9, 0x01], 2),
        (&[0xA5, 0x10], 3),
        (&[0xB5, 0x10], 4),
        (&[0xAD, 0x00, 0x20], 4),
        (&[0x9D, 0x00, 0x20], 5),
        (&[0xFE, 0x00, 0x20], 7),
        (&[0x48], 3),
        (&[0x68], 4),
        (&[0x4C, 0x00, 0x20], 3),
    ];
    for (program, cycles) in cases {
        let mut cpu = machine(program);
        assert_eq!(run_instruction(&mut cpu), cycles);
    }
}

#[test]
fn indexed_reads_cost_a_cycle_more_across_a_page() {
    // LDA $10FF,X with X = 1
    let mut cpu = machine(&[0xBD, 0xFF, 0x10]);
    cpu.x = 1;
    cpu.write(0x1100, 0x77);
    assert_eq!(run_instruction(&mut cpu), 5);
    assert_eq!(cpu.a, 0x77);
    // the same within the page
    let mut cpu = machine(&[0xBD, 0xFE, 0x10]);
    cpu.x = 1;
    assert_eq!(run_instruction(&mut cpu), 4);
    // LDA ($10),Y with the base at 0x20FF and Y = 1
    let mut cpu = machine(&[0xB1, 0x10]);
    cpu.write(0x0010, 0xFF);
    cpu.write(0x0011, 0x20);
    cpu.write(0x2100, 0x66);
    cpu.y = 1;
    assert_eq!(run_instruction(&mut cpu), 6);
    assert_eq!(cpu.a, 0x66);
    // LDX $10FF,Y and LDY $10FF,X
    let mut cpu = machine(&[0xBE, 0xFF, 0x10]);
    cpu.y = 1;
    assert_eq!(run_instruction(&mut cpu), 5);
    let mut cpu = machine(&[0xBC, 0xFF, 0x10]);
    cpu.x = 1;
    assert_eq!(run_instruction(&mut cpu), 5);
}

#[test]
fn stores_cost_the_same_across_a_page() {
    // STA $10FF,X with X = 1
    let mut cpu = machine(&[0x9D, 0xFF, 0x10]);
    cpu.x = 1;
    cpu.a = 0x3C;
    assert_eq!(run_instruction(&mut cpu), 5);
    assert_eq!(cpu.read(0x1100), 0x3C);
    // STA ($10),Y
    let mut cpu = machine(&[0x91, 0x10]);
    cpu.write(0x0010, 0xFF);
    cpu.write(0x0011, 0x20);
    cpu.y = 1;
    cpu.a = 0x3D;
    assert_eq!(run_instruction(&mut cpu), 6);
    assert_eq!(cpu.read(0x2100), 0x3D);
}

#[test]
fn ticks_of_an_instruction_change_nothing_but_the_cycles_owed() {
    // ADC $10FF,X across a page: five cycles
    let mut cpu = machine(&[0x7D, 0xFF, 0x10]);
    cpu.x = 1;
    cpu.a = 0x10;
    cpu.write(0x1100, 0x05);
    cpu.clock();
    assert_eq!(cpu.cycles, 4);
    let (a, pc, status) = (cpu.a, cpu.program_counter, cpu.status);
    assert_eq!(a, 0x15);
    assert_eq!(pc, 0x0603);
    for owed in [3u64, 2, 1, 0] {
        cpu.clock();
        assert_eq!(cpu.cycles, owed);
        assert_eq!(cpu.a, a);
        assert_eq!(cpu.program_counter, pc);
        assert_eq!(cpu.status, status);
    }
}

#[test]
fn cycle_helpers_add_at_most_one_cycle() {
    let mut cpu = CPU::new(Bus::new());
    cpu.cycle_if(AddressingMode::AbsoluteX, AddressingMode::AbsoluteX, true);
    assert_eq!(cpu.cycles, 1);
    cpu.cycle_if(AddressingMode::AbsoluteX, AddressingMode::AbsoluteX, false);
    assert_eq!(cpu.cycles, 1);
    cpu.cycle_if(AddressingMode::AbsoluteX, AddressingMode::AbsoluteY, true);
    assert_eq!(cpu.cycles, 1);
    cpu.indexed_cycles(AddressingMode::AbsoluteX, true);
    assert_eq!(cpu.cycles, 2);
    cpu.indexed_cycles(AddressingMode::AbsoluteY, true);
    assert_eq!(cpu.cycles, 3);
    cpu.indexed_cycles(AddressingMode::IndirectY, true);
    assert_eq!(cpu.cycles, 4);
    cpu.indexed_cycles(AddressingMode::IndirectY, false);
    assert_eq!(cpu.cycles, 4);
    cpu.indexed_cycles(AddressingMode::ZeroPageX, true);
    cpu.indexed_cycles(AddressingMode::Absolute, true);
    cpu.indexed_cycles(AddressingMode::IndirectX, true);
    assert_eq!(cpu.cycles, 4);
}
