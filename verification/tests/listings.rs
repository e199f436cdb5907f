use mos6502::bus::Bus;
use mos6502::constants::{AddressingMode, OpCode, Operation};
use mos6502::cpu::CPU;
use mos6502::listing::Instruction;
use mos6502::state::{PROGRAM_LIMIT, PROGRAM_START};

fn instruction(opcode: u8, low: u8, high: u8) -> Instruction {
    let row = OpCode::lookup(opcode).unwrap();
    Instruction {
        address: 0x0600,
        opcode,
        operation: row.operation,
        addressing_mode: row.addressing_mode,
        bytes: row.bytes,
        low,
        high,
    }
}

fn with_mode(mode: AddressingMode, low: u8, high: u8) -> Instruction {
    Instruction {
        address: 0x0600,
        opcode: 0xEA,
        operation: Operation::NOP,
        addressing_mode: mode,
        bytes: mode.length(),
        low,
        high,
    }
}

#[test]
fn program_splits_into_its_instructions() {
    // LDA #$42; STA $0200; TAX; BNE *-3; BRK
    let program = vec![0xA9, 0x42, 0x8D, 0x00, 0x02, 0xAA, 0xD0, 0xFD, 0x00];
    let lines = CPU::listing(&program).unwrap();
    assert_eq!(lines.len(), 5);
    assert_eq!(
        lines[0],
        Instruction {
            address: 0x0600,
            opcode: 0xA9,
            operation: Operation::LDA,
            addressing_mode: AddressingMode::Immediate,
            bytes: 2,
            low: 0x42,
            high: 0x00,
        }
    );
    assert_eq!(
        lines[1],
        Instruction {
            address: 0x0602,
            opcode: 0x8D,
            operation: Operation::STA,
            addressing_mode: AddressingMode::Absolute,
            bytes: 3,
            low: 0x00,
            high: 0x02,
        }
    );
    assert_eq!(
        lines[2],
        Instruction {
            address: 0x0605,
            opcode: 0xAA,
            operation: Operation::TAX,
            addressing_mode: AddressingMode::Implicit,
            bytes: 1,
            low: 0x00,
            high: 0x00,
        }
    );
    assert_eq!(lines[3].address, 0x0606);
    assert_eq!(lines[3].operation, Operation::BNE);
    assert_eq!(lines[3].low, 0xFD);
    assert_eq!(lines[4].address, 0x0608);
    assert_eq!(lines[4].operation, Operation::BRK);
    let total: usize = lines.iter().map(|line| line.bytes as usize).sum();
    assert_eq!(total, program.len());
}

#[test]
fn listing_starts_at_the_load_address() {
    assert_eq!(PROGRAM_START, 0x0600);
    let lines = CPU::listing(&vec![0xEA]).unwrap();
    assert_eq!(lines.len(), 1);
    assert_eq!(lines[0].address, 0x0600);
    assert_eq!(lines[0].bytes, 1);
}

#[test]
fn empty_program_has_no_listing() {
    assert!(CPU::listing(&Vec::new()).is_none());
}

#[test]
fn unofficial_opcode_has_no_listing() {
    assert!(CPU::listing(&vec![0x02]).is_none());
    assert!(CPU::listing(&vec![0xEA, 0xA9, 0x01, 0xFF]).is_none());
    // an operand byte may be anything
    assert!(CPU::listing(&vec![0xA9, 0xFF]).is_some());
}

#[test]
fn cut_off_instruction_has_no_listing() {
    assert!(CPU::listing(&vec![0xA9]).is_none());
    assert!(CPU::listing(&vec![0xEA, 0x8D, 0x00]).is_none());
    assert!(CPU::listing(&vec![0xEA, 0x8D, 0x00, 0x02]).is_some());
}

#[test]
fn program_beyond_memory_has_no_listing() {
    assert_eq!(PROGRAM_LIMIT, 0xFA00);
    let longest = vec![0xEAu8; 0xFA00];
    let lines = CPU::listing(&longest).unwrap();
    assert_eq!(lines.len(), 0xFA00);
    assert_eq!(lines[0xF9FF].address, 0xFFFF);
    let too_long = vec![0xEAu8; 0xFA01];
    assert!(CPU::listing(&too_long).is_none());
}

#[test]
fn every_official_opcode_lists_with_its_row() {
    for byte in 0..=255u8 {
        if let Some(row) = OpCode::lookup(byte) {
            let mut program = vec![byte];
            for extra in 1..row.bytes {
                program.push(0x10 * extra);
            }
            let lines = CPU::listing(&program).unwrap();
            assert_eq!(lines.len(), 1);
            assert_eq!(lines[0].opcode, byte);
            assert_eq!(lines[0].operation, row.operation);
            assert_eq!(lines[0].addressing_mode, row.addressing_mode);
            assert_eq!(lines[0].bytes, row.bytes);
            assert_eq!(lines[0].low, if row.bytes >= 2 { 0x10 } else { 0 });
            assert_eq!(lines[0].high, if row.bytes >= 3 { 0x20 } else { 0 });
        }
    }
}

#[test]
fn operands_are_written_in_assembler_notation() {
    let cases = [
        (AddressingMode::Immediate, "#$AB"),
        (AddressingMode::ZeroPage, "$AB"),
        (AddressingMode::ZeroPageX, "$AB,X"),
        (AddressingMode::ZeroPageY, "$AB,Y"),
        (AddressingMode::Absolute, "$CDAB"),
        (AddressingMode::AbsoluteX, "$CDAB,X"),
        (AddressingMode::AbsoluteY, "$CDAB,Y"),
        (AddressingMode::Indirect, "($CDAB)"),
        (AddressingMode::IndirectX, "($AB,X)"),
        (AddressingMode::IndirectY, "($AB),Y"),
        (AddressingMode::Relative, "*-85"),
        (AddressingMode::Accumulator, "A"),
        (AddressingMode::Implicit, ""),
    ];
    for (mode, text) in cases {
        assert_eq!(with_mode(mode, 0xAB, 0xCD).operand_text(), text);
    }
}

#[test]
fn bytes_are_written_as_two_upper_case_hex_digits() {
    for byte in 0..=255u8 {
        let text = with_mode(AddressingMode::ZeroPage, byte, 0).operand_text();
        assert_eq!(text, format!("${:02X}", byte));
        let text = with_mode(AddressingMode::Absolute, byte, !byte).operand_text();
        assert_eq!(text, format!("${:02X}{:02X}", !byte, byte));
    }
}

#[test]
fn branch_offsets_are_written_signed() {
    for byte in 0..=255u8 {
        let text = with_mode(AddressingMode::Relative, byte, 0).operand_text();
        assert_eq!(text, format!("*{:+}", byte as i8));
    }
    assert_eq!(with_mode(AddressingMode::Relative, 0x00, 0).operand_text(), "*+0");
    assert_eq!(with_mode(AddressingMode::Relative, 0x7F, 0).operand_text(), "*+127");
    assert_eq!(with_mode(AddressingMode::Relative, 0x80, 0).operand_text(), "*-128");
    assert_eq!(with_mode(AddressingMode::Relative, 0xFF, 0).operand_text(), "*-1");
    assert_eq!(with_mode(AddressingMode::Relative, 0x0A, 0).operand_text(), "*+10");
    assert_eq!(with_mode(AddressingMode::Relative, 0x9C, 0).operand_text(), "*-100");
}

#[test]
fn listing_lines_show_address_bytes_mnemonic_and_operand() {
    assert_eq!(instruction(0xA9, 0x42, 0).listing_line(), "$0600\t\tA9 42     \tLDA #$42");
    assert_eq!(instruction(0x8D, 0x00, 0x02).listing_line(), "$0600\t\t8D 00 02 \tSTA $0200");
    assert_eq!(instruction(0xAA, 0, 0).listing_line(), "$0600\t\tAA         \tTAX ");
    assert_eq!(instruction(0x0A, 0, 0).listing_line(), "$0600\t\t0A         \tASL A");
    assert_eq!(instruction(0xD0, 0xFD, 0).listing_line(), "$0600\t\tD0 FD     \tBNE *-3");
    let mut far = instruction(0x6C, 0xFE, 0xCA);
    far.address = 0xBEEF;
    assert_eq!(far.listing_line(), "$BEEF\t\t6C FE CA \tJMP ($CAFE)");
}

#[test]
fn trace_lines_use_the_given_name_and_a_narrow_layout() {
    assert_eq!(instruction(0xA9, 0x42, 0).trace_line("LDA"), "$0600\tA9 42    \tLDA #$42");
    assert_eq!(instruction(0x8D, 0x00, 0x02).trace_line("STA"), "$0600\t8D 00 02 \tSTA $0200");
    assert_eq!(instruction(0xEA, 0, 0).trace_line("???"), "$0600\tEA       \t??? ");
    let mut none = instruction(0xEA, 0, 0);
    none.bytes = 0;
    assert_eq!(none.trace_line("NOP"), "$0600\t         \tNOP ");
}

#[test]
fn lines_agree_with_formatted_output_for_every_opcode() {
    for byte in 0..=255u8 {
        if let Some(row) = OpCode::lookup(byte) {
            let mut line = instruction(byte, 0x3C, 0xF1);
            line.address = 0x12AB;
            if row.bytes < 3 {
                line.high = 0;
            }
            if row.bytes < 2 {
                line.low = 0;
            }
            let dump = match row.bytes {
                1 => format!("{:02X} ", byte),
                2 => format!("{:02X} {:02X} ", byte, 0x3C),
                _ => format!("{:02X} {:02X} {:02X} ", byte, 0x3C, 0xF1),
            };
            let operand = line.operand_text();
            let listing = format!(
                "${:04X}\t\t{}{}\t{} {}",
                0x12AB,
                dump,
                "    ".repeat(3 - row.bytes as usize),
                row.name,
                operand
            );
            assert_eq!(line.listing_line(), listing);
            let trace = format!(
                "${:04X}\t{}{}\t{} {}",
                0x12AB,
                dump,
                "   ".repeat(3 - row.bytes as usize),
                row.name,
                operand
            );
            assert_eq!(line.trace_line(&row.name), trace);
        }
    }
}

#[test]
fn instruction_at_the_program_counter_reads_its_operand_bytes() {
    let mut cpu = CPU::new(Bus::new());
    cpu.write(0x0600, 0x8D);
    cpu.write(0x0601, 0x34);
    cpu.write(0x0602, 0x12);
    cpu.program_counter = 0x0600;
    let row = OpCode::lookup(0x8D).unwrap();
    let found = cpu.instruction(&row);
    assert_eq!(
        found,
        Instruction {
            address: 0x0600,
            opcode: 0x8D,
            operation: Operation::STA,
            addressing_mode: AddressingMode::Absolute,
            bytes: 3,
            low: 0x34,
            high: 0x12,
        }
    );
    assert_eq!(found.trace_line(&row.name), "$0600\t8D 34 12 \tSTA $1234");
    // a shorter row leaves the bytes it has not at zero
    let row = OpCode::lookup(0xA9).unwrap();
    let found = cpu.instruction(&row);
    assert_eq!((found.bytes, found.low, found.high), (2, 0x34, 0x00));
    let row = OpCode::lookup(0xEA).unwrap();
    let found = cpu.instruction(&row);
    assert_eq!((found.bytes, found.low, found.high), (1, 0x00, 0x00));
    // a row whose mode asks for more than its length still shows its operand
    let odd = OpCode::new("ODD", 0x8D, AddressingMode::Absolute, 1, 4, Operation::STA);
    let found = cpu.instruction(&odd);
    assert_eq!((found.bytes, found.low, found.high), (1, 0x34, 0x12));
    assert_eq!(found.trace_line(&odd.name), "$0600\t8D       \tODD $1234");
}

#[test]
fn instruction_at_the_end_of_memory_wraps() {
    let mut cpu = CPU::new(Bus::new());
    cpu.write(0xFFFF, 0xAD);
    cpu.write(0x0000, 0x34);
    cpu.write(0x0001, 0x12);
    cpu.program_counter = 0xFFFF;
    let row = OpCode::lookup(0xAD).unwrap();
    let found = cpu.instruction(&row);
    assert_eq!((found.address, found.low, found.high), (0xFFFF, 0x34, 0x12));
}

#[test]
fn disassembly_is_the_header_and_a_line_for_each_instruction() {
    // LDA #$42; STA $0200; TAX; BNE *-3; BRK
    let program = vec![0xA9, 0x42, 0x8D, 0x00, 0x02, 0xAA, 0xD0, 0xFD, 0x00];
    let text = CPU::disassemble(&program).unwrap();
    let expected = "Address\t\tHexdump\t\tDissassembly\n\
                    -------------------------------\n\
                    $0600\t\tA9 42     \tLDA #$42\n\
                    $0602\t\t8D 00 02 \tSTA $0200\n\
                    $0605\t\tAA         \tTAX \n\
                    $0606\t\tD0 FD     \tBNE *-3\n\
                    $0608\t\t00         \tBRK \n";
    assert_eq!(text, expected);
}

#[test]
fn disassembly_of_a_program_that_does_not_divide_is_none() {
    assert!(CPU::disassemble(&Vec::new()).is_none());
    assert!(CPU::disassemble(&vec![0x02]).is_none());
    assert!(CPU::disassemble(&vec![0xA9]).is_none());
    assert!(CPU::disassemble(&vec![0xEAu8; 0xFA01]).is_none());
    assert!(CPU::disassemble(&vec![0xEA]).is_some());
}

#[test]
fn disassembly_has_a_line_for_each_instruction_of_the_listing() {
    let program = vec![0xA2, 0x05, 0xCA, 0xD0, 0xFD, 0x4C, 0x00, 0x06];
    let lines = CPU::listing(&program).unwrap();
    let text = CPU::disassemble(&program).unwrap();
    let mut expected = String::from("Address\t\tHexdump\t\tDissassembly\n");
    expected.push_str("-------------------------------\n");
    for line in &lines {
        expected.push_str(&line.listing_line());
        expected.push('\n');
    }
    assert_eq!(text, expected);
    assert_eq!(text.lines().count(), 2 + lines.len());
}

#[test]
fn print_instruction_shows_the_instruction_at_the_program_counter() {
    let mut cpu = CPU::new(Bus::new());
    cpu.write(0x0600, 0xBD);
    cpu.write(0x0601, 0xFF);
    cpu.write(0x0602, 0x10);
    cpu.program_counter = 0x0600;
    cpu.x = 7;
    let row = OpCode::lookup(0xBD).unwrap();
    assert_eq!(cpu.print_instruction(&row), "$0600\tBD FF 10 \tLDA $10FF,X");
    assert_eq!(cpu.program_counter, 0x0600);
    assert_eq!(cpu.x, 7);
    assert_eq!(cpu.cycles, 0);
    cpu.write(0x0600, 0x0A);
    let row = OpCode::lookup(0x0A).unwrap();
    assert_eq!(cpu.print_instruction(&row), "$0600\t0A       \tASL A");
    cpu.write(0x0600, 0xF0);
    cpu.write(0x0601, 0x80);
    let row = OpCode::lookup(0xF0).unwrap();
    assert_eq!(cpu.print_instruction(&row), "$0600\tF0 80    \tBEQ *-128");
}
