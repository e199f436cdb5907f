//! The text of a listing: hexadecimal numbers, operands in assembler
//! notation, the lines that show one instruction each, and the listing of a
//! whole program.

use crate::arith::{high_byte, lemma_split_bits, lemma_wrapping16, low_byte, signed, wrap16};
use crate::constants::{AddressingMode, OpCode};
use crate::cpu::CPU;
use crate::listing::{listing_from, well_formed_from, Instruction};
use crate::state::PROGRAM_LIMIT;
use vstd::prelude::*;
use vstd::string::StringExecFns;

verus! {

/// The character of a digit, upper case from ten on.
pub open spec fn digit(value: int) -> char
    recommends
        0 <= value < 16,
{
    if value == 0 {
        '0'
    } else if value == 1 {
        '1'
    } else if value == 2 {
        '2'
    } else if value == 3 {
        '3'
    } else if value == 4 {
        '4'
    } else if value == 5 {
        '5'
    } else if value == 6 {
        '6'
    } else if value == 7 {
        '7'
    } else if value == 8 {
        '8'
    } else if value == 9 {
        '9'
    } else if value == 10 {
        'A'
    } else if value == 11 {
        'B'
    } else if value == 12 {
        'C'
    } else if value == 13 {
        'D'
    } else if value == 14 {
        'E'
    } else {
        'F'
    }
}

/// A byte as two hexadecimal digits.
pub open spec fn hex_byte(value: u8) -> Seq<char> {
    seq![digit(value as int / 16), digit(value as int % 16)]
}

/// A word as four hexadecimal digits.
pub open spec fn hex_word(value: u16) -> Seq<char> {
    hex_byte(high_byte(value)) + hex_byte(low_byte(value))
}

/// A number below a thousand in decimal, without leading zeros.
pub open spec fn decimal(value: int) -> Seq<char>
    recommends
        0 <= value < 1000,
{
    if value >= 100 {
        seq![digit(value / 100), digit((value / 10) % 10), digit(value % 10)]
    } else if value >= 10 {
        seq![digit(value / 10), digit(value % 10)]
    } else {
        seq![digit(value)]
    }
}

/// A byte read as a signed number, in decimal, always with its sign.
pub open spec fn signed_decimal(value: u8) -> Seq<char> {
    if signed(value) < 0 {
        seq!['-'] + decimal(-signed(value))
    } else {
        seq!['+'] + decimal(signed(value))
    }
}

/// `unit` repeated `count` times.
pub open spec fn repeated(unit: Seq<char>, count: nat) -> Seq<char>
    decreases count,
{
    if count == 0 {
        Seq::empty()
    } else {
        repeated(unit, (count - 1) as nat) + unit
    }
}

/// The operand of an instruction in assembler notation.
pub open spec fn operand_text(mode: AddressingMode, low: u8, high: u8) -> Seq<char> {
    match mode {
        AddressingMode::Immediate => "#$"@ + hex_byte(low),
        AddressingMode::ZeroPage => "$"@ + hex_byte(low),
        AddressingMode::ZeroPageX => "$"@ + hex_byte(low) + ",X"@,
        AddressingMode::ZeroPageY => "$"@ + hex_byte(low) + ",Y"@,
        AddressingMode::Absolute => "$"@ + hex_byte(high) + hex_byte(low),
        AddressingMode::AbsoluteX => "$"@ + hex_byte(high) + hex_byte(low) + ",X"@,
        AddressingMode::AbsoluteY => "$"@ + hex_byte(high) + hex_byte(low) + ",Y"@,
        AddressingMode::Indirect => "($"@ + hex_byte(high) + hex_byte(low) + ")"@,
        AddressingMode::IndirectX => "($"@ + hex_byte(low) + ",X)"@,
        AddressingMode::IndirectY => "($"@ + hex_byte(low) + "),Y"@,
        AddressingMode::Relative => "*"@ + signed_decimal(low),
        AddressingMode::Accumulator => "A"@,
        AddressingMode::Implicit => Seq::empty(),
    }
}

impl Instruction {
    /// The bytes of the instruction in hexadecimal, each followed by a blank.
    pub open spec fn spec_hexdump(self) -> Seq<char> {
        (if self.bytes >= 1 {
            hex_byte(self.opcode) + " "@
        } else {
            Seq::empty()
        }) + (if self.bytes >= 2 {
            hex_byte(self.low) + " "@
        } else {
            Seq::empty()
        }) + (if self.bytes >= 3 {
            hex_byte(self.high) + " "@
        } else {
            Seq::empty()
        })
    }

    /// The instruction as a line of text: its address, its bytes, filled up
    /// with `unit` for each byte short of three, then `name` and the operand.
    /// `gap` stands between the address and the bytes.
    pub open spec fn spec_line(self, name: Seq<char>, gap: Seq<char>, unit: Seq<char>) -> Seq<
        char,
    > {
        "$"@ + hex_word(self.address) + gap + self.spec_hexdump() + repeated(
            unit,
            (3 - self.bytes) as nat,
        ) + "\t"@ + name + " "@ + operand_text(self.addressing_mode, self.low, self.high)
    }

    /// The line of the instruction in a listing of a program.
    pub open spec fn spec_listing_line(self) -> Seq<char> {
        self.spec_line(self.operation.mnemonic(), "\t\t"@, "    "@)
    }

    /// The line of the instruction in a trace, under the given name.
    pub open spec fn spec_trace_line(self, name: Seq<char>) -> Seq<char> {
        self.spec_line(name, "\t"@, "   "@)
    }
}

/// The lines of a listing, each ended by a line feed.
pub open spec fn listing_text(lines: Seq<Instruction>) -> Seq<char>
    decreases lines.len(),
{
    if lines.len() == 0 {
        Seq::empty()
    } else {
        listing_text(lines.drop_last()) + lines.last().spec_listing_line() + "\n"@
    }
}

/// The two lines that head a listing.
pub open spec fn listing_header() -> Seq<char> {
    "Address\t\tHexdump\t\tDissassembly\n"@ + "-------------------------------\n"@
}

/// The text of one digit.
fn digit_text(value: u8) -> (text: &'static str)
    requires
        value < 16,
    ensures
        text@ == seq![digit(value as int)],
{
    proof {
        reveal_strlit("0");
        reveal_strlit("1");
        reveal_strlit("2");
        reveal_strlit("3");
        reveal_strlit("4");
        reveal_strlit("5");
        reveal_strlit("6");
        reveal_strlit("7");
        reveal_strlit("8");
        reveal_strlit("9");
        reveal_strlit("A");
        reveal_strlit("B");
        reveal_strlit("C");
        reveal_strlit("D");
        reveal_strlit("E");
        reveal_strlit("F");
    }
    let text = match value {
        0 => "0",
        1 => "1",
        2 => "2",
        3 => "3",
        4 => "4",
        5 => "5",
        6 => "6",
        7 => "7",
        8 => "8",
        9 => "9",
        10 => "A",
        11 => "B",
        12 => "C",
        13 => "D",
        14 => "E",
        _ => "F",
    };
    assert(text@ =~= seq![digit(value as int)]);
    text
}

/// Appends a byte as two hexadecimal digits.
fn push_hex_byte(text: &mut String, value: u8)
    ensures
        final(text)@ == old(text)@ + hex_byte(value),
{
    text.append(digit_text(value / 16));
    text.append(digit_text(value % 16));
    assert(text@ =~= old(text)@ + hex_byte(value));
}

/// Appends a byte read as a signed number, in decimal with its sign.
fn push_signed_decimal(text: &mut String, value: u8)
    ensures
        final(text)@ == old(text)@ + signed_decimal(value),
{
    proof {
        reveal_strlit("-");
        reveal_strlit("+");
    }
    let magnitude: u8 = if value >= 0x80 {
        text.append("-");
        ((256 - value as u16) as u8)
    } else {
        text.append("+");
        value
    };
    if magnitude >= 100 {
        text.append(digit_text(magnitude / 100));
    }
    if magnitude >= 10 {
        text.append(digit_text((magnitude / 10) % 10));
    }
    text.append(digit_text(magnitude % 10));
    assert(text@ =~= old(text)@ + signed_decimal(value));
}

/// Appends `unit` as many times as `bytes` is short of three.
fn push_padding(text: &mut String, unit: &str, bytes: u8)
    requires
        bytes <= 3,
    ensures
        final(text)@ == old(text)@ + repeated(unit@, (3 - bytes) as nat),
{
    let mut done: u8 = 0;
    while done < 3 - bytes
        invariant
            bytes <= 3,
            done <= 3 - bytes,
            text@ == old(text)@ + repeated(unit@, done as nat),
        decreases 3 - bytes - done,
    {
        text.append(unit);
        done += 1;
        assert(text@ =~= old(text)@ + repeated(unit@, done as nat));
    }
}

impl Instruction {
    /// The operand in assembler notation.
    pub fn operand_text(&self) -> (text: String)
        ensures
            text@ == operand_text(self.addressing_mode, self.low, self.high),
    {
        let mut text = String::new();
        match self.addressing_mode {
            AddressingMode::Immediate => {
                text.append("#$");
                push_hex_byte(&mut text, self.low);
            },
            AddressingMode::ZeroPage => {
                text.append("$");
                push_hex_byte(&mut text, self.low);
            },
            AddressingMode::ZeroPageX => {
                text.append("$");
                push_hex_byte(&mut text, self.low);
                text.append(",X");
            },
            AddressingMode::ZeroPageY => {
                text.append("$");
                push_hex_byte(&mut text, self.low);
                text.append(",Y");
            },
            AddressingMode::Absolute => {
                text.append("$");
                push_hex_byte(&mut text, self.high);
                push_hex_byte(&mut text, self.low);
            },
            AddressingMode::AbsoluteX => {
                text.append("$");
                push_hex_byte(&mut text, self.high);
                push_hex_byte(&mut text, self.low);
                text.append(",X");
            },
            AddressingMode::AbsoluteY => {
                text.append("$");
                push_hex_byte(&mut text, self.high);
                push_hex_byte(&mut text, self.low);
                text.append(",Y");
            },
            AddressingMode::Indirect => {
                text.append("($");
                push_hex_byte(&mut text, self.high);
                push_hex_byte(&mut text, self.low);
                text.append(")");
            },
            AddressingMode::IndirectX => {
                text.append("($");
                push_hex_byte(&mut text, self.low);
                text.append(",X)");
            },
            AddressingMode::IndirectY => {
                text.append("($");
                push_hex_byte(&mut text, self.low);
                text.append("),Y");
            },
            AddressingMode::Relative => {
                text.append("*");
                push_signed_decimal(&mut text, self.low);
            },
            AddressingMode::Accumulator => {
                text.append("A");
            },
            AddressingMode::Implicit => {},
        }
        assert(text@ =~= operand_text(self.addressing_mode, self.low, self.high));
        text
    }

    /// The instruction as a line of text; see `spec_line`.
    fn line(&self, name: &str, gap: &str, unit: &str) -> (text: String)
        requires
            self.bytes <= 3,
        ensures
            text@ == self.spec_line(name@, gap@, unit@),
    {
        let mut text = String::new();
        text.append("$");
        proof {
            lemma_split_bits(self.address);
        }
        push_hex_byte(&mut text, (self.address >> 8) as u8);
        push_hex_byte(&mut text, self.address as u8);
        text.append(gap);
        let ghost head = text@;
        if self.bytes >= 1 {
            push_hex_byte(&mut text, self.opcode);
            text.append(" ");
        }
        if self.bytes >= 2 {
            push_hex_byte(&mut text, self.low);
            text.append(" ");
        }
        if self.bytes >= 3 {
            push_hex_byte(&mut text, self.high);
            text.append(" ");
        }
        assert(text@ =~= head + self.spec_hexdump());
        push_padding(&mut text, unit, self.bytes);
        text.append("\t");
        text.append(name);
        text.append(" ");
        let operand = self.operand_text();
        text.append(operand.as_str());
        assert(text@ =~= self.spec_line(name@, gap@, unit@));
        text
    }

    /// The line of the instruction in a listing of a program: its address,
    /// its bytes, its mnemonic and its operand.
    pub fn listing_line(&self) -> (text: String)
        requires
            self.bytes <= 3,
        ensures
            text@ == self.spec_listing_line(),
    {
        self.line(self.operation.name(), "\t\t", "    ")
    }

    /// The line of the instruction in a trace, under the given name.
    pub fn trace_line(&self, name: &str) -> (text: String)
        requires
            self.bytes <= 3,
        ensures
            text@ == self.spec_trace_line(name@),
    {
        self.line(name, "\t", "   ")
    }
}

impl CPU {
    /// The instruction at the program counter, as the given table row
    /// describes it: the byte at the program counter, the row's operation,
    /// mode and length, and the operand bytes behind the program counter as
    /// far as the row's length or mode calls for them.
    pub open spec fn spec_instruction(&self, opcode: &OpCode) -> Instruction {
        let state = self@;
        let length = opcode.addressing_mode.instruction_length();
        Instruction {
            address: state.program_counter,
            opcode: state.read(state.program_counter),
            operation: opcode.operation,
            addressing_mode: opcode.addressing_mode,
            bytes: opcode.bytes,
            low: if opcode.bytes >= 2 || length >= 2 {
                state.read(wrap16(state.program_counter + 1))
            } else {
                0
            },
            high: if opcode.bytes >= 3 || length >= 3 {
                state.read(wrap16(state.program_counter + 2))
            } else {
                0
            },
        }
    }

    /// The instruction at the program counter, as the given table row
    /// describes it.
    pub fn instruction(&self, opcode: &OpCode) -> (instruction: Instruction)
        ensures
            instruction == self.spec_instruction(opcode),
    {
        proof {
            lemma_wrapping16(self.program_counter, 1);
            lemma_wrapping16(self.program_counter, 2);
        }
        let length = opcode.addressing_mode.length();
        let low = if opcode.bytes >= 2 || length >= 2 {
            self.read(self.program_counter.wrapping_add(1))
        } else {
            0
        };
        let high = if opcode.bytes >= 3 || length >= 3 {
            self.read(self.program_counter.wrapping_add(2))
        } else {
            0
        };
        Instruction {
            address: self.program_counter,
            opcode: self.read(self.program_counter),
            operation: opcode.operation,
            addressing_mode: opcode.addressing_mode,
            bytes: opcode.bytes,
            low,
            high,
        }
    }

    /// The text that shows the instruction at the program counter, as the
    /// given table row describes it and under the row's name: the program
    /// counter, the bytes of the instruction, the name and the operand.
    /// Nothing changes. The row must have a length of at most three.
    pub fn print_instruction(&mut self, opcode: &OpCode) -> (text: String)
        requires
            opcode.bytes <= 3,
        ensures
            *final(self) == *old(self),
            text@ == old(self).spec_instruction(opcode).spec_trace_line(opcode.name@),
    {
        self.instruction(opcode).trace_line(opcode.name.as_str())
    }

    /// The listing of a program as text: the two lines of the header, then a
    /// line for each instruction. There is a listing where the program fits
    /// behind `PROGRAM_START` and is one whole official instruction after
    /// another.
    pub fn disassemble(program: &Vec<u8>) -> (text: Option<String>)
        ensures
            text is Some <==> program@.len() <= PROGRAM_LIMIT && well_formed_from(program@, 0),
            text matches Some(text) ==> text@ == listing_header() + listing_text(
                listing_from(program@, 0),
            ),
    {
        match CPU::listing(program) {
            None => None,
            Some(lines) => {
                let mut text = String::new();
                text.append("Address\t\tHexdump\t\tDissassembly\n");
                text.append("-------------------------------\n");
                assert(lines@.take(0) =~= Seq::empty());
                for k in 0..lines.len()
                    invariant
                        forall|k: int|
                            0 <= k < lines@.len() ==> 1 <= #[trigger] lines@[k].bytes <= 3,
                        text@ == listing_header() + listing_text(lines@.take(k as int)),
                {
                    let line = lines[k].listing_line();
                    text.append(line.as_str());
                    text.append("\n");
                    proof {
                        let shown = lines@.take(k + 1);
                        assert(shown.drop_last() =~= lines@.take(k as int));
                        assert(shown.last() == lines@[k as int]);
                        assert(text@ =~= listing_header() + listing_text(shown));
                    }
                }
                assert(lines@.take(lines@.len() as int) =~= lines@);
                Some(text)
            },
        }
    }
}

} // verus!
