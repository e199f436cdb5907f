use mos6502::bus::Bus;
use mos6502::constants::OpCode;
use mos6502::cpu::CPU;

/// A processor with `program` at 0x0600, about to fetch there.
fn machine(program: &[u8]) -> CPU {
    let mut cpu = CPU::new(Bus::new());
    for (offset, byte) in program.iter().enumerate() {
        cpu.write(0x0600 + offset as u16, *byte);
    }
    cpu.program_counter = 0x0600;
    cpu
}

/// Runs the instruction at the program counter to its last cycle and returns
/// the number of ticks that took.
fn run_instruction(cpu: &mut CPU) -> u64 {
    assert_eq!(cpu.cycles, 0);
    assert!(OpCode::lookup(cpu.read(cpu.program_counter)).is_some());
    let mut ticks = 1;
    cpu.clock();
    while cpu.cycles > 0 {
        cpu.clock();
        ticks += 1;
    }
    ticks
}

#[test]
fn lda_immediate_loads_the_accumulator() {
    let mut cpu = machine(&[0xA9, 0x42]);
    cpu.clock();
    cpu.clock();
    assert_eq!(cpu.a, 0x42);
    assert!(!cpu.status.zero);
    assert!(!cpu.status.negative);
    assert_eq!(cpu.program_counter, 0x0602);
    assert_eq!(cpu.cycles, 0);
}

#[test]
fn adc_of_two_positives_overflows_into_a_negative() {
    let mut cpu = machine(&[0x69, 0x50]);
    cpu.a = 0x50;
    cpu.status.carry = false;
    run_instruction(&mut cpu);
    assert_eq!(cpu.a, 0xA0);
    assert!(!cpu.status.carry);
    assert!(cpu.status.overflow);
    assert!(!cpu.status.zero);
    assert!(cpu.status.negative);
}

#[test]
fn subroutine_call_returns_to_the_caller() {
    let mut cpu =
        machine(&[0x20, 0x09, 0x06, 0xA9, 0x01, 0x00, 0x00, 0x00, 0x00, 0xA9, 0x02, 0x60]);
    // JSR $0609
    assert_eq!(run_instruction(&mut cpu), 6);
    assert_eq!(cpu.program_counter, 0x0609);
    // LDA #$02
    run_instruction(&mut cpu);
    assert_eq!(cpu.a, 0x02);
    // RTS
    assert_eq!(run_instruction(&mut cpu), 6);
    assert_eq!(cpu.program_counter, 0x0603);
    assert_eq!(cpu.stack_pointer, 0xFD);
    // LDA #$01, then BRK
    let mut instructions = 3;
    while !cpu.complete {
        run_instruction(&mut cpu);
        instructions += 1;
    }
    assert_eq!(instructions, 5);
    assert_eq!(cpu.a, 0x01);
    assert!(cpu.complete);
}

#[test]
fn taken_branch_within_the_page_costs_three_cycles() {
    let mut cpu = machine(&[0xD0, 0x7F]);
    cpu.status.zero = false;
    let ticks = run_instruction(&mut cpu);
    assert_eq!(cpu.program_counter, 0x0681);
    assert_eq!(ticks, 3);
}

#[test]
fn taken_branch_across_a_page_costs_five_cycles() {
    let mut cpu = CPU::new(Bus::new());
    cpu.write(0x06F0, 0xD0);
    cpu.write(0x06F1, 0x7F);
    cpu.program_counter = 0x06F0;
    cpu.status.zero = false;
    let ticks = run_instruction(&mut cpu);
    assert_eq!(cpu.program_counter, 0x0771);
    assert_eq!(ticks, 5);
    // backwards out of the page
    let mut cpu = machine(&[0xD0, 0xFD]);
    cpu.status.zero = false;
    let ticks = run_instruction(&mut cpu);
    assert_eq!(cpu.program_counter, 0x05FF);
    assert_eq!(ticks, 5);
}

#[test]
fn branch_not_taken_costs_two_cycles_and_skips_the_offset() {
    let mut cpu = machine(&[0xD0, 0x7F]);
    cpu.status.zero = true;
    let ticks = run_instruction(&mut cpu);
    assert_eq!(cpu.program_counter, 0x0602);
    assert_eq!(ticks, 2);
}

#[test]
fn bit_sets_flags_from_memory() {
    let mut cpu = machine(&[0x24, 0x10]);
    cpu.write(0x0010, 0xC0);
    cpu.a = 0x00;
    assert_eq!(run_instruction(&mut cpu), 3);
    assert!(cpu.status.zero);
    assert!(cpu.status.overflow);
    assert!(cpu.status.negative);
    assert_eq!(cpu.a, 0x00);
    assert_eq!(cpu.program_counter, 0x0602);
}

#[test]
fn indirect_jump_goes_where_the_pointer_says() {
    let mut cpu = machine(&[0x6C, 0x00, 0x30]);
    cpu.write(0x3000, 0x34);
    cpu.write(0x3001, 0x12);
    assert_eq!(run_instruction(&mut cpu), 5);
    assert_eq!(cpu.program_counter, 0x1234);
}

#[test]
fn pushes_wrap_around_the_bottom_of_the_stack() {
    let mut cpu = machine(&[0x48, 0x48]);
    cpu.stack_pointer = 0x00;
    cpu.a = 0x5A;
    run_instruction(&mut cpu);
    assert_eq!(cpu.stack_pointer, 0xFF);
    assert_eq!(cpu.read(0x0100), 0x5A);
    cpu.a = 0xA5;
    run_instruction(&mut cpu);
    assert_eq!(cpu.stack_pointer, 0xFE);
    assert_eq!(cpu.read(0x01FF), 0xA5);
}

#[test]
fn brk_halts_and_continues_at_the_interrupt_vector() {
    let mut cpu = machine(&[0x00]);
    cpu.write(0xFFFE, 0x00);
    cpu.write(0xFFFF, 0x80);
    assert_eq!(run_instruction(&mut cpu), 7);
    assert!(cpu.complete);
    assert_eq!(cpu.program_counter, 0x8000);
    // the return address skips the padding byte
    assert_eq!(cpu.read(0x01FD), 0x06);
    assert_eq!(cpu.read(0x01FC), 0x02);
    assert_eq!(cpu.read(0x01FB), 0x34);
    assert!(!cpu.status.break_command);
}

#[test]
fn interrupt_handler_returns_with_rti() {
    // main: NOP NOP; handler at 0x0700: LDX #$09, RTI
    let mut cpu = machine(&[0xEA, 0xEA]);
    cpu.write(0x0700, 0xA2);
    cpu.write(0x0701, 0x09);
    cpu.write(0x0702, 0x40);
    cpu.write(0xFFFE, 0x00);
    cpu.write(0xFFFF, 0x07);
    cpu.status.interrupt = false;
    cpu.status.carry = true;
    run_instruction(&mut cpu);
    cpu.irq();
    assert_eq!(cpu.program_counter, 0x0700);
    assert!(cpu.status.interrupt);
    while cpu.cycles > 0 {
        cpu.clock();
    }
    run_instruction(&mut cpu);
    assert_eq!(cpu.x, 0x09);
    assert_eq!(run_instruction(&mut cpu), 6);
    assert_eq!(cpu.program_counter, 0x0601);
    assert_eq!(cpu.stack_pointer, 0xFD);
    // the flags come back as they were pushed: with interrupt set
    assert!(cpu.status.carry);
    assert!(cpu.status.interrupt);
    assert!(cpu.status.unused);
    assert!(!cpu.status.break_command);
}

#[test]
fn a_jump_to_the_byte_behind_the_opcode_still_steps_over_the_operand() {
    // JMP $0601: the program counter ends where it stood after the fetch
    let mut cpu = machine(&[0x4C, 0x01, 0x06]);
    run_instruction(&mut cpu);
    assert_eq!(cpu.program_counter, 0x0603);
}

#[test]
fn loop_counts_down_to_zero() {
    // LDX #$05; loop: DEX; BNE loop; BRK
    let mut cpu = machine(&[0xA2, 0x05, 0xCA, 0xD0, 0xFD, 0x00]);
    let mut ticks = 0;
    while !cpu.complete {
        ticks += run_instruction(&mut cpu);
    }
    assert_eq!(cpu.x, 0);
    assert!(cpu.status.zero);
    // LDX 2, five times DEX 2, four taken branches 3, one not taken 2, BRK 7
    assert_eq!(ticks, 2 + 5 * 2 + 4 * 3 + 2 + 7);
}

#[test]
fn sum_of_a_table_in_memory() {
    // LDY #$03; LDA #$00; CLC; loop: ADC $0FFF,Y; DEY; BNE loop; STA $20; BRK
    let mut cpu = machine(&[
        0xA0, 0x03, 0xA9, 0x00, 0x18, 0x79, 0xFF, 0x0F, 0x88, 0xD0, 0xFA, 0x85, 0x20, 0x00,
    ]);
    cpu.write(0x1000, 10);
    cpu.write(0x1001, 20);
    cpu.write(0x1002, 30);
    let mut ticks = 0;
    while !cpu.complete {
        ticks += run_instruction(&mut cpu);
    }
    assert_eq!(cpu.read(0x0020), 60);
    assert_eq!(cpu.a, 60);
    // each ADC crosses from page 0x0F into page 0x10: five cycles
    assert_eq!(ticks, 2 + 2 + 2 + 3 * 5 + 3 * 2 + 2 * 3 + 2 + 3 + 7);
}
