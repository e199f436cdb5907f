//! The status word, the addressing modes and the table of official opcodes.

use std::collections::HashMap;
use vstd::prelude::*;

verus! {

/// The eight processor flags.
#[derive(Clone, Copy, Debug, PartialEq, Eq, Structural)]
pub struct Status {
    pub carry: bool,
    pub zero: bool,
    pub interrupt: bool,
    pub decimal: bool,
    pub break_command: bool,
    pub unused: bool,
    pub overflow: bool,
    pub negative: bool,
}

/// The weight of a flag in the packed byte: `weight` when set, zero when clear.
pub open spec fn flag_weight(flag: bool, weight: int) -> int {
    if flag {
        weight
    } else {
        0
    }
}

/// Whether bit `position` (0 is the least significant) of `byte` is set.
pub open spec fn bit_is_set(byte: u8, position: nat) -> bool
    recommends
        position < 8,
{
    let divisor: int = if position == 0 {
        1
    } else if position == 1 {
        2
    } else if position == 2 {
        4
    } else if position == 3 {
        8
    } else if position == 4 {
        16
    } else if position == 5 {
        32
    } else if position == 6 {
        64
    } else {
        128
    };
    (byte as int / divisor) % 2 == 1
}

impl Status {
    /// The packed byte: carry is bit 0, then zero, interrupt, decimal, break,
    /// unused, overflow, and negative is bit 7.
    pub open spec fn spec_to_byte(self) -> u8 {
        (flag_weight(self.carry, 1) + flag_weight(self.zero, 2) + flag_weight(self.interrupt, 4)
            + flag_weight(self.decimal, 8) + flag_weight(self.break_command, 16) + flag_weight(
            self.unused,
            32,
        ) + flag_weight(self.overflow, 64) + flag_weight(self.negative, 128)) as u8
    }

    /// The flags that a packed byte stands for: each flag is the bit at its position.
    pub open spec fn spec_from_byte(input: u8) -> Status {
        Status {
            carry: bit_is_set(input, 0),
            zero: bit_is_set(input, 1),
            interrupt: bit_is_set(input, 2),
            decimal: bit_is_set(input, 3),
            break_command: bit_is_set(input, 4),
            unused: bit_is_set(input, 5),
            overflow: bit_is_set(input, 6),
            negative: bit_is_set(input, 7),
        }
    }

    /// All flags clear.
    pub fn new() -> (status: Status)
        ensures
            status == Status::spec_from_byte(0),
            status.spec_to_byte() == 0,
    {
        Status {
            carry: false,
            zero: false,
            interrupt: false,
            decimal: false,
            break_command: false,
            unused: false,
            overflow: false,
            negative: false,
        }
    }

    /// Packs the flags into a byte.
    pub fn to_byte(&self) -> (result: u8)
        ensures
            result == self.spec_to_byte(),
            Status::spec_from_byte(result) == *self,
    {
        let mut result: u8 = 0x00;
        result |= (self.carry as u8) << 0;
        result |= (self.zero as u8) << 1;
        result |= (self.interrupt as u8) << 2;
        result |= (self.decimal as u8) << 3;
        result |= (self.break_command as u8) << 4;
        result |= (self.unused as u8) << 5;
        result |= (self.overflow as u8) << 6;
        result |= (self.negative as u8) << 7;
        proof {
            lemma_packed_bits(
                self.carry,
                self.zero,
                self.interrupt,
                self.decimal,
                self.break_command,
                self.unused,
                self.overflow,
                self.negative,
            );
            lemma_status_round_trip(*self);
        }
        result
    }

    /// Unpacks a byte into the flags.
    pub fn from_byte(input: u8) -> (result: Status)
        ensures
            result == Status::spec_from_byte(input),
            result.spec_to_byte() == input,
    {
        let mut result = Status::new();
        result.carry = (input & 0b0000_0001) != 0;
        result.zero = (input & 0b0000_0010) != 0;
        result.interrupt = (input & 0b0000_0100) != 0;
        result.decimal = (input & 0b0000_1000) != 0;
        result.break_command = (input & 0b0001_0000) != 0;
        result.unused = (input & 0b0010_0000) != 0;
        result.overflow = (input & 0b0100_0000) != 0;
        result.negative = (input & 0b1000_0000) != 0;
        proof {
            lemma_masked_bits(input);
            lemma_byte_round_trip(input);
        }
        result
    }
}

/// Joining the flags, each shifted to its position, adds up their weights.
proof fn lemma_packed_bits(
    b0: bool,
    b1: bool,
    b2: bool,
    b3: bool,
    b4: bool,
    b5: bool,
    b6: bool,
    b7: bool,
)
    ensures
        (0u8 | (b0 as u8) << 0 | (b1 as u8) << 1 | (b2 as u8) << 2 | (b3 as u8) << 3 | (b4 as u8)
            << 4 | (b5 as u8) << 5 | (b6 as u8) << 6 | (b7 as u8) << 7) == flag_weight(b0, 1)
            + flag_weight(b1, 2) + flag_weight(b2, 4) + flag_weight(b3, 8) + flag_weight(b4, 16)
            + flag_weight(b5, 32) + flag_weight(b6, 64) + flag_weight(b7, 128),
{
    assert((0u8 | (b0 as u8) << 0 | (b1 as u8) << 1 | (b2 as u8) << 2 | (b3 as u8) << 3 | (b4 as u8)
        << 4 | (b5 as u8) << 5 | (b6 as u8) << 6 | (b7 as u8) << 7) == (if b0 { 1int } else { 0 })
        + (if b1 { 2int } else { 0 }) + (if b2 { 4int } else { 0 }) + (if b3 { 8int } else { 0 })
        + (if b4 { 16int } else { 0 }) + (if b5 { 32int } else { 0 })
        + (if b6 { 64int } else { 0 }) + (if b7 { 128int } else { 0 })) by (bit_vector);
}

/// Masking a byte with the weight of a position tests the bit there.
pub proof fn lemma_masked_bits(input: u8)
    ensures
        (input & 0x01 != 0) == bit_is_set(input, 0),
        (input & 0x02 != 0) == bit_is_set(input, 1),
        (input & 0x04 != 0) == bit_is_set(input, 2),
        (input & 0x08 != 0) == bit_is_set(input, 3),
        (input & 0x10 != 0) == bit_is_set(input, 4),
        (input & 0x20 != 0) == bit_is_set(input, 5),
        (input & 0x40 != 0) == bit_is_set(input, 6),
        (input & 0x80 != 0) == bit_is_set(input, 7),
{
    assert((input & 0x01 != 0) == ((input / 1) % 2 == 1)) by (bit_vector);
    assert((input & 0x02 != 0) == ((input / 2) % 2 == 1)) by (bit_vector);
    assert((input & 0x04 != 0) == ((input / 4) % 2 == 1)) by (bit_vector);
    assert((input & 0x08 != 0) == ((input / 8) % 2 == 1)) by (bit_vector);
    assert((input & 0x10 != 0) == ((input / 16) % 2 == 1)) by (bit_vector);
    assert((input & 0x20 != 0) == ((input / 32) % 2 == 1)) by (bit_vector);
    assert((input & 0x40 != 0) == ((input / 64) % 2 == 1)) by (bit_vector);
    assert((input & 0x80 != 0) == ((input / 128) % 2 == 1)) by (bit_vector);
}

/// Each bit of a sum of weights tells whether its weight is part of the sum.
proof fn lemma_weighed_bits(
    byte: u8,
    b0: bool,
    b1: bool,
    b2: bool,
    b3: bool,
    b4: bool,
    b5: bool,
    b6: bool,
    b7: bool,
)
    requires
        byte == flag_weight(b0, 1) + flag_weight(b1, 2) + flag_weight(b2, 4) + flag_weight(b3, 8)
            + flag_weight(b4, 16) + flag_weight(b5, 32) + flag_weight(b6, 64) + flag_weight(
            b7,
            128,
        ),
    ensures
        bit_is_set(byte, 0) == b0,
        bit_is_set(byte, 1) == b1,
        bit_is_set(byte, 2) == b2,
        bit_is_set(byte, 3) == b3,
        bit_is_set(byte, 4) == b4,
        bit_is_set(byte, 5) == b5,
        bit_is_set(byte, 6) == b6,
        bit_is_set(byte, 7) == b7,
{
    assert((((byte / 1) % 2 == 1) == b0) && (((byte / 2) % 2 == 1) == b1) && (((byte / 4) % 2
        == 1) == b2) && (((byte / 8) % 2 == 1) == b3) && (((byte / 16) % 2 == 1) == b4) && (((byte
        / 32) % 2 == 1) == b5) && (((byte / 64) % 2 == 1) == b6) && (((byte / 128) % 2 == 1)
        == b7)) by (bit_vector)
        requires
            byte == (if b0 { 1int } else { 0 }) + (if b1 { 2int } else { 0 }) + (if b2 {
                4int
            } else {
                0
            }) + (if b3 { 8int } else { 0 }) + (if b4 { 16int } else { 0 }) + (if b5 {
                32int
            } else {
                0
            }) + (if b6 { 64int } else { 0 }) + (if b7 { 128int } else { 0 }),
    ;
}

/// Unpacking the packed form of any status gives that status back.
pub proof fn lemma_status_round_trip(status: Status)
    ensures
        Status::spec_from_byte(status.spec_to_byte()) == status,
{
    lemma_weighed_bits(
        status.spec_to_byte(),
        status.carry,
        status.zero,
        status.interrupt,
        status.decimal,
        status.break_command,
        status.unused,
        status.overflow,
        status.negative,
    );
}

/// Packing the flags that a byte stands for gives that byte back.
pub proof fn lemma_byte_round_trip(input: u8)
    ensures
        Status::spec_from_byte(input).spec_to_byte() == input,
{
    assert((if (input / 1) % 2 == 1 { 1int } else { 0 })
        + (if (input / 2) % 2 == 1 { 2int } else { 0 })
        + (if (input / 4) % 2 == 1 { 4int } else { 0 })
        + (if (input / 8) % 2 == 1 { 8int } else { 0 })
        + (if (input / 16) % 2 == 1 { 16int } else { 0 })
        + (if (input / 32) % 2 == 1 { 32int } else { 0 })
        + (if (input / 64) % 2 == 1 { 64int } else { 0 })
        + (if (input / 128) % 2 == 1 { 128int } else { 0 }) == input) by (bit_vector);
}

/// How an instruction finds its operand.
#[derive(Clone, Copy, Debug, PartialEq, Eq, Structural)]
pub enum AddressingMode {
    Implicit,
    Accumulator,
    Immediate,
    ZeroPage,
    ZeroPageX,
    ZeroPageY,
    Relative,
    Absolute,
    AbsoluteX,
    AbsoluteY,
    Indirect,
    IndirectX,
    IndirectY,
}

impl AddressingMode {
    /// The length in bytes of an instruction in this mode, opcode byte included.
    pub open spec fn instruction_length(self) -> u8 {
        match self {
            AddressingMode::Implicit | AddressingMode::Accumulator => 1,
            AddressingMode::Immediate
            | AddressingMode::ZeroPage
            | AddressingMode::ZeroPageX
            | AddressingMode::ZeroPageY
            | AddressingMode::Relative
            | AddressingMode::IndirectX
            | AddressingMode::IndirectY => 2,
            AddressingMode::Absolute
            | AddressingMode::AbsoluteX
            | AddressingMode::AbsoluteY
            | AddressingMode::Indirect => 3,
        }
    }
}

/// The operation that an instruction performs, named by its mnemonic.
#[allow(clippy::upper_case_acronyms)]
#[derive(Clone, Copy, Debug, PartialEq, Eq, Structural)]
pub enum Operation {
    ADC,
    AND,
    ASL,
    BCC,
    BCS,
    BEQ,
    BIT,
    BMI,
    BNE,
    BPL,
    BRK,
    BVC,
    BVS,
    CLC,
    CLD,
    CLI,
    CLV,
    CMP,
    CPX,
    CPY,
    DEC,
    DEX,
    DEY,
    EOR,
    INC,
    INX,
    INY,
    JMP,
    JSR,
    LDA,
    LDX,
    LDY,
    LSR,
    NOP,
    ORA,
    PHA,
    PHP,
    PLA,
    PLP,
    ROL,
    ROR,
    RTI,
    RTS,
    SBC,
    SEC,
    SED,
    SEI,
    STA,
    STX,
    STY,
    TAX,
    TAY,
    TSX,
    TXA,
    TXS,
    TYA,
}

impl Operation {
    /// The three-letter mnemonic.
    pub open spec fn mnemonic(self) -> Seq<char> {
        match self {
            Operation::ADC => "ADC"@,
            Operation::AND => "AND"@,
            Operation::ASL => "ASL"@,
            Operation::BCC => "BCC"@,
            Operation::BCS => "BCS"@,
            Operation::BEQ => "BEQ"@,
            Operation::BIT => "BIT"@,
            Operation::BMI => "BMI"@,
            Operation::BNE => "BNE"@,
            Operation::BPL => "BPL"@,
            Operation::BRK => "BRK"@,
            Operation::BVC => "BVC"@,
            Operation::BVS => "BVS"@,
            Operation::CLC => "CLC"@,
            Operation::CLD => "CLD"@,
            Operation::CLI => "CLI"@,
            Operation::CLV => "CLV"@,
            Operation::CMP => "CMP"@,
            Operation::CPX => "CPX"@,
            Operation::CPY => "CPY"@,
            Operation::DEC => "DEC"@,
            Operation::DEX => "DEX"@,
            Operation::DEY => "DEY"@,
            Operation::EOR => "EOR"@,
            Operation::INC => "INC"@,
            Operation::INX => "INX"@,
            Operation::INY => "INY"@,
            Operation::JMP => "JMP"@,
            Operation::JSR => "JSR"@,
            Operation::LDA => "LDA"@,
            Operation::LDX => "LDX"@,
            Operation::LDY => "LDY"@,
            Operation::LSR => "LSR"@,
            Operation::NOP => "NOP"@,
            Operation::ORA => "ORA"@,
            Operation::PHA => "PHA"@,
            Operation::PHP => "PHP"@,
            Operation::PLA => "PLA"@,
            Operation::PLP => "PLP"@,
            Operation::ROL => "ROL"@,
            Operation::ROR => "ROR"@,
            Operation::RTI => "RTI"@,
            Operation::RTS => "RTS"@,
            Operation::SBC => "SBC"@,
            Operation::SEC => "SEC"@,
            Operation::SED => "SED"@,
            Operation::SEI => "SEI"@,
            Operation::STA => "STA"@,
            Operation::STX => "STX"@,
            Operation::STY => "STY"@,
            Operation::TAX => "TAX"@,
            Operation::TAY => "TAY"@,
            Operation::TSX => "TSX"@,
            Operation::TXA => "TXA"@,
            Operation::TXS => "TXS"@,
            Operation::TYA => "TYA"@,
        }
    }
}

/// One row of the opcode table.
#[derive(Debug)]
pub struct OpCode {
    pub name: String,
    pub opcode: u8,
    pub addressing_mode: AddressingMode,
    pub bytes: u8,
    pub cycles: u8,
    pub operation: Operation,
}

/// What a row of the opcode table holds, with the name as a sequence of characters.
pub struct Descriptor {
    pub name: Seq<char>,
    pub opcode: u8,
    pub addressing_mode: AddressingMode,
    pub bytes: u8,
    pub cycles: u8,
    pub operation: Operation,
}

impl View for OpCode {
    type V = Descriptor;

    open spec fn view(&self) -> Descriptor {
        Descriptor {
            name: self.name@,
            opcode: self.opcode,
            addressing_mode: self.addressing_mode,
            bytes: self.bytes,
            cycles: self.cycles,
            operation: self.operation,
        }
    }
}

/// A table row: the operation, its addressing mode and its base cycle count.
pub open spec fn row(operation: Operation, mode: AddressingMode, cycles: u8) -> Option<
    (Operation, AddressingMode, u8),
> {
    Some((operation, mode, cycles))
}

/// The official instruction set in opcode order: what each opcode byte decodes to,
/// and `None` for the bytes that are no official opcode.
#[verifier::opaque]
pub open spec fn decode(opcode: u8) -> Option<(Operation, AddressingMode, u8)> {
    match opcode {
        0x00 => row(Operation::BRK, AddressingMode::Implicit, 7),
        0x01 => row(Operation::ORA, AddressingMode::IndirectX, 6),
        0x05 => row(Operation::ORA, AddressingMode::ZeroPage, 3),
        0x06 => row(Operation::ASL, AddressingMode::ZeroPage, 5),
        0x08 => row(Operation::PHP, AddressingMode::Implicit, 3),
        0x09 => row(Operation::ORA, AddressingMode::Immediate, 2),
        0x0A => row(Operation::ASL, AddressingMode::Accumulator, 2),
        0x0D => row(Operation::ORA, AddressingMode::Absolute, 4),
        0x0E => row(Operation::ASL, AddressingMode::Absolute, 6),
        0x10 => row(Operation::BPL, AddressingMode::Relative, 2),
        0x11 => row(Operation::ORA, AddressingMode::IndirectY, 5),
        0x15 => row(Operation::ORA, AddressingMode::ZeroPageX, 4),
        0x16 => row(Operation::ASL, AddressingMode::ZeroPageX, 6),
        0x18 => row(Operation::CLC, AddressingMode::Implicit, 2),
        0x19 => row(Operation::ORA, AddressingMode::AbsoluteY, 4),
        0x1D => row(Operation::ORA, AddressingMode::AbsoluteX, 4),
        0x1E => row(Operation::ASL, AddressingMode::AbsoluteX, 7),
        0x20 => row(Operation::JSR, AddressingMode::Absolute, 6),
        0x21 => row(Operation::AND, AddressingMode::IndirectX, 6),
        0x24 => row(Operation::BIT, AddressingMode::ZeroPage, 3),
        0x25 => row(Operation::AND, AddressingMode::ZeroPage, 3),
        0x26 => row(Operation::ROL, AddressingMode::ZeroPage, 5),
        0x28 => row(Operation::PLP, AddressingMode::Implicit, 4),
        0x29 => row(Operation::AND, AddressingMode::Immediate, 2),
        0x2A => row(Operation::ROL, AddressingMode::Accumulator, 2),
        0x2C => row(Operation::BIT, AddressingMode::Absolute, 4),
        0x2D => row(Operation::AND, AddressingMode::Absolute, 4),
        0x2E => row(Operation::ROL, AddressingMode::Absolute, 6),
        0x30 => row(Operation::BMI, AddressingMode::Relative, 2),
        0x31 => row(Operation::AND, AddressingMode::IndirectY, 5),
        0x35 => row(Operation::AND, AddressingMode::ZeroPageX, 4),
        0x36 => row(Operation::ROL, AddressingMode::ZeroPageX, 6),
        0x38 => row(Operation::SEC, AddressingMode::Implicit, 2),
        0x39 => row(Operation::AND, AddressingMode::AbsoluteY, 4),
        0x3D => row(Operation::AND, AddressingMode::AbsoluteX, 4),
        0x3E => row(Operation::ROL, AddressingMode::AbsoluteX, 7),
        0x40 => row(Operation::RTI, AddressingMode::Implicit, 6),
        0x41 => row(Operation::EOR, AddressingMode::IndirectX, 6),
        0x45 => row(Operation::EOR, AddressingMode::ZeroPage, 3),
        0x46 => row(Operation::LSR, AddressingMode::ZeroPage, 5),
        0x48 => row(Operation::PHA, AddressingMode::Implicit, 3),
        0x49 => row(Operation::EOR, AddressingMode::Immediate, 2),
        0x4A => row(Operation::LSR, AddressingMode::Accumulator, 2),
        0x4C => row(Operation::JMP, AddressingMode::Absolute, 3),
        0x4D => row(Operation::EOR, AddressingMode::Absolute, 4),
        0x4E => row(Operation::LSR, AddressingMode::Absolute, 6),
        0x50 => row(Operation::BVC, AddressingMode::Relative, 2),
        0x51 => row(Operation::EOR, AddressingMode::IndirectY, 5),
        0x55 => row(Operation::EOR, AddressingMode::ZeroPageX, 4),
        0x56 => row(Operation::LSR, AddressingMode::ZeroPageX, 6),
        0x58 => row(Operation::CLI, AddressingMode::Implicit, 2),
        0x59 => row(Operation::EOR, AddressingMode::AbsoluteY, 4),
        0x5D => row(Operation::EOR, AddressingMode::AbsoluteX, 4),
        0x5E => row(Operation::LSR, AddressingMode::AbsoluteX, 7),
        0x60 => row(Operation::RTS, AddressingMode::Implicit, 6),
        0x61 => row(Operation::ADC, AddressingMode::IndirectX, 6),
        0x65 => row(Operation::ADC, AddressingMode::ZeroPage, 3),
        0x66 => row(Operation::ROR, AddressingMode::ZeroPage, 5),
        0x68 => row(Operation::PLA, AddressingMode::Implicit, 4),
        0x69 => row(Operation::ADC, AddressingMode::Immediate, 2),
        0x6A => row(Operation::ROR, AddressingMode::Accumulator, 2),
        0x6C => row(Operation::JMP, AddressingMode::Indirect, 5),
        0x6D => row(Operation::ADC, AddressingMode::Absolute, 4),
        0x6E => row(Operation::ROR, AddressingMode::Absolute, 6),
        0x70 => row(Operation::BVS, AddressingMode::Relative, 2),
        0x71 => row(Operation::ADC, AddressingMode::IndirectY, 5),
        0x75 => row(Operation::ADC, AddressingMode::ZeroPageX, 4),
        0x76 => row(Operation::ROR, AddressingMode::ZeroPageX, 6),
        0x78 => row(Operation::SEI, AddressingMode::Implicit, 2),
        0x79 => row(Operation::ADC, AddressingMode::AbsoluteY, 4),
        0x7D => row(Operation::ADC, AddressingMode::AbsoluteX, 4),
        0x7E => row(Operation::ROR, AddressingMode::AbsoluteX, 7),
        0x81 => row(Operation::STA, AddressingMode::IndirectX, 6),
        0x84 => row(Operation::STY, AddressingMode::ZeroPage, 3),
        0x85 => row(Operation::STA, AddressingMode::ZeroPage, 3),
        0x86 => row(Operation::STX, AddressingMode::ZeroPage, 3),
        0x88 => row(Operation::DEY, AddressingMode::Implicit, 2),
        0x8A => row(Operation::TXA, AddressingMode::Implicit, 2),
        0x8C => row(Operation::STY, AddressingMode::Absolute, 4),
        0x8D => row(Operation::STA, AddressingMode::Absolute, 4),
        0x8E => row(Operation::STX, AddressingMode::Absolute, 4),
        0x90 => row(Operation::BCC, AddressingMode::Relative, 2),
        0x91 => row(Operation::STA, AddressingMode::IndirectY, 6),
        0x94 => row(Operation::STY, AddressingMode::ZeroPageX, 4),
        0x95 => row(Operation::STA, AddressingMode::ZeroPageX, 4),
        0x96 => row(Operation::STX, AddressingMode::ZeroPageY, 4),
        0x98 => row(Operation::TYA, AddressingMode::Implicit, 2),
        0x99 => row(Operation::STA, AddressingMode::AbsoluteY, 5),
        0x9A => row(Operation::TXS, AddressingMode::Implicit, 2),
        0x9D => row(Operation::STA, AddressingMode::AbsoluteX, 5),
        0xA0 => row(Operation::LDY, AddressingMode::Immediate, 2),
        0xA1 => row(Operation::LDA, AddressingMode::IndirectX, 6),
        0xA2 => row(Operation::LDX, AddressingMode::Immediate, 2),
        0xA4 => row(Operation::LDY, AddressingMode::ZeroPage, 3),
        0xA5 => row(Operation::LDA, AddressingMode::ZeroPage, 3),
        0xA6 => row(Operation::LDX, AddressingMode::ZeroPage, 3),
        0xA8 => row(Operation::TAY, AddressingMode::Implicit, 2),
        0xA9 => row(Operation::LDA, AddressingMode::Immediate, 2),
        0xAA => row(Operation::TAX, AddressingMode::Implicit, 2),
        0xAC => row(Operation::LDY, AddressingMode::Absolute, 4),
        0xAD => row(Operation::LDA, AddressingMode::Absolute, 4),
        0xAE => row(Operation::LDX, AddressingMode::Absolute, 4),
        0xB0 => row(Operation::BCS, AddressingMode::Relative, 2),
        0xB1 => row(Operation::LDA, AddressingMode::IndirectY, 5),
        0xB4 => row(Operation::LDY, AddressingMode::ZeroPageX, 4),
        0xB5 => row(Operation::LDA, AddressingMode::ZeroPageX, 4),
        0xB6 => row(Operation::LDX, AddressingMode::ZeroPageY, 4),
        0xB8 => row(Operation::CLV, AddressingMode::Implicit, 2),
        0xB9 => row(Operation::LDA, AddressingMode::AbsoluteY, 4),
        0xBA => row(Operation::TSX, AddressingMode::Implicit, 2),
        0xBC => row(Operation::LDY, AddressingMode::AbsoluteX, 4),
        0xBD => row(Operation::LDA, AddressingMode::AbsoluteX, 4),
        0xBE => row(Operation::LDX, AddressingMode::AbsoluteY, 4),
        0xC0 => row(Operation::CPY, AddressingMode::Immediate, 2),
        0xC1 => row(Operation::CMP, AddressingMode::IndirectX, 6),
        0xC4 => row(Operation::CPY, AddressingMode::ZeroPage, 3),
        0xC5 => row(Operation::CMP, AddressingMode::ZeroPage, 3),
        0xC6 => row(Operation::DEC, AddressingMode::ZeroPage, 5),
        0xC8 => row(Operation::INY, AddressingMode::Implicit, 2),
        0xC9 => row(Operation::CMP, AddressingMode::Immediate, 2),
        0xCA => row(Operation::DEX, AddressingMode::Implicit, 2),
        0xCC => row(Operation::CPY, AddressingMode::Absolute, 4),
        0xCD => row(Operation::CMP, AddressingMode::Absolute, 4),
        0xCE => row(Operation::DEC, AddressingMode::Absolute, 6),
        0xD0 => row(Operation::BNE, AddressingMode::Relative, 2),
        0xD1 => row(Operation::CMP, AddressingMode::IndirectY, 5),
        0xD5 => row(Operation::CMP, AddressingMode::ZeroPageX, 4),
        0xD6 => row(Operation::DEC, AddressingMode::ZeroPageX, 6),
        0xD8 => row(Operation::CLD, AddressingMode::Implicit, 2),
        0xD9 => row(Operation::CMP, AddressingMode::AbsoluteY, 4),
        0xDD => row(Operation::CMP, AddressingMode::AbsoluteX, 4),
        0xDE => row(Operation::DEC, AddressingMode::AbsoluteX, 7),
        0xE0 => row(Operation::CPX, AddressingMode::Immediate, 2),
        0xE1 => row(Operation::SBC, AddressingMode::IndirectX, 6),
        0xE4 => row(Operation::CPX, AddressingMode::ZeroPage, 3),
        0xE5 => row(Operation::SBC, AddressingMode::ZeroPage, 3),
        0xE6 => row(Operation::INC, AddressingMode::ZeroPage, 5),
        0xE8 => row(Operation::INX, AddressingMode::Implicit, 2),
        0xE9 => row(Operation::SBC, AddressingMode::Immediate, 2),
        0xEA => row(Operation::NOP, AddressingMode::Implicit, 2),
        0xEC => row(Operation::CPX, AddressingMode::Absolute, 4),
        0xED => row(Operation::SBC, AddressingMode::Absolute, 4),
        0xEE => row(Operation::INC, AddressingMode::Absolute, 6),
        0xF0 => row(Operation::BEQ, AddressingMode::Relative, 2),
        0xF1 => row(Operation::SBC, AddressingMode::IndirectY, 5),
        0xF5 => row(Operation::SBC, AddressingMode::ZeroPageX, 4),
        0xF6 => row(Operation::INC, AddressingMode::ZeroPageX, 6),
        0xF8 => row(Operation::SED, AddressingMode::Implicit, 2),
        0xF9 => row(Operation::SBC, AddressingMode::AbsoluteY, 4),
        0xFD => row(Operation::SBC, AddressingMode::AbsoluteX, 4),
        0xFE => row(Operation::INC, AddressingMode::AbsoluteX, 7),
        _ => None,
    }
}

/// The table row of an opcode byte: the mnemonic of its operation, the byte itself,
/// the addressing mode, the length that the mode implies, and the base cycle count.
pub open spec fn descriptor(opcode: u8) -> Option<Descriptor> {
    match decode(opcode) {
        Some((operation, mode, cycles)) => Some(
            Descriptor {
                name: operation.mnemonic(),
                opcode,
                addressing_mode: mode,
                bytes: mode.instruction_length(),
                cycles,
                operation,
            },
        ),
        None => None,
    }
}

impl AddressingMode {
    /// The length in bytes of an instruction in this mode, opcode byte included.
    pub fn length(self) -> (bytes: u8)
        ensures
            bytes == self.instruction_length(),
    {
        match self {
            AddressingMode::Implicit | AddressingMode::Accumulator => 1,
            AddressingMode::Absolute
            | AddressingMode::AbsoluteX
            | AddressingMode::AbsoluteY
            | AddressingMode::Indirect => 3,
            _ => 2,
        }
    }
}

impl Operation {
    /// The three-letter mnemonic.
    pub fn name(self) -> (name: &'static str)
        ensures
            name@ == self.mnemonic(),
    {
        match self {
            Operation::ADC => "ADC",
            Operation::AND => "AND",
            Operation::ASL => "ASL",
            Operation::BCC => "BCC",
            Operation::BCS => "BCS",
            Operation::BEQ => "BEQ",
            Operation::BIT => "BIT",
            Operation::BMI => "BMI",
            Operation::BNE => "BNE",
            Operation::BPL => "BPL",
            Operation::BRK => "BRK",
            Operation::BVC => "BVC",
            Operation::BVS => "BVS",
            Operation::CLC => "CLC",
            Operation::CLD => "CLD",
            Operation::CLI => "CLI",
            Operation::CLV => "CLV",
            Operation::CMP => "CMP",
            Operation::CPX => "CPX",
            Operation::CPY => "CPY",
            Operation::DEC => "DEC",
            Operation::DEX => "DEX",
            Operation::DEY => "DEY",
            Operation::EOR => "EOR",
            Operation::INC => "INC",
            Operation::INX => "INX",
            Operation::INY => "INY",
            Operation::JMP => "JMP",
            Operation::JSR => "JSR",
            Operation::LDA => "LDA",
            Operation::LDX => "LDX",
            Operation::LDY => "LDY",
            Operation::LSR => "LSR",
            Operation::NOP => "NOP",
            Operation::ORA => "ORA",
            Operation::PHA => "PHA",
            Operation::PHP => "PHP",
            Operation::PLA => "PLA",
            Operation::PLP => "PLP",
            Operation::ROL => "ROL",
            Operation::ROR => "ROR",
            Operation::RTI => "RTI",
            Operation::RTS => "RTS",
            Operation::SBC => "SBC",
            Operation::SEC => "SEC",
            Operation::SED => "SED",
            Operation::SEI => "SEI",
            Operation::STA => "STA",
            Operation::STX => "STX",
            Operation::STY => "STY",
            Operation::TAX => "TAX",
            Operation::TAY => "TAY",
            Operation::TSX => "TSX",
            Operation::TXA => "TXA",
            Operation::TXS => "TXS",
            Operation::TYA => "TYA",
        }
    }

    /// Decodes an opcode byte: the operation, its addressing mode and its base
    /// cycle count, or `None` where the byte is no official opcode.
    pub fn decode(opcode: u8) -> (decoded: Option<(Operation, AddressingMode, u8)>)
        ensures
            decoded == decode(opcode),
    {
        proof {
            reveal(decode);
        }
        let decoded = match opcode {
            0x69 => (Operation::ADC, AddressingMode::Immediate, 2u8),
            0x65 => (Operation::ADC, AddressingMode::ZeroPage, 3u8),
            0x75 => (Operation::ADC, AddressingMode::ZeroPageX, 4u8),
            0x6D => (Operation::ADC, AddressingMode::Absolute, 4u8),
            0x7D => (Operation::ADC, AddressingMode::AbsoluteX, 4u8),
            0x79 => (Operation::ADC, AddressingMode::AbsoluteY, 4u8),
            0x61 => (Operation::ADC, AddressingMode::IndirectX, 6u8),
            0x71 => (Operation::ADC, AddressingMode::IndirectY, 5u8),
            0x29 => (Operation::AND, AddressingMode::Immediate, 2u8),
            0x25 => (Operation::AND, AddressingMode::ZeroPage, 3u8),
            0x35 => (Operation::AND, AddressingMode::ZeroPageX, 4u8),
            0x2D => (Operation::AND, AddressingMode::Absolute, 4u8),
            0x3D => (Operation::AND, AddressingMode::AbsoluteX, 4u8),
            0x39 => (Operation::AND, AddressingMode::AbsoluteY, 4u8),
            0x21 => (Operation::AND, AddressingMode::IndirectX, 6u8),
            0x31 => (Operation::AND, AddressingMode::IndirectY, 5u8),
            0x0A => (Operation::ASL, AddressingMode::Accumulator, 2u8),
            0x06 => (Operation::ASL, AddressingMode::ZeroPage, 5u8),
            0x16 => (Operation::ASL, AddressingMode::ZeroPageX, 6u8),
            0x0E => (Operation::ASL, AddressingMode::Absolute, 6u8),
            0x1E => (Operation::ASL, AddressingMode::AbsoluteX, 7u8),
            0x90 => (Operation::BCC, AddressingMode::Relative, 2u8),
            0xB0 => (Operation::BCS, AddressingMode::Relative, 2u8),
            0xF0 => (Operation::BEQ, AddressingMode::Relative, 2u8),
            0x24 => (Operation::BIT, AddressingMode::ZeroPage, 3u8),
            0x2C => (Operation::BIT, AddressingMode::Absolute, 4u8),
            0x30 => (Operation::BMI, AddressingMode::Relative, 2u8),
            0xD0 => (Operation::BNE, AddressingMode::Relative, 2u8),
            0x10 => (Operation::BPL, AddressingMode::Relative, 2u8),
            0x00 => (Operation::BRK, AddressingMode::Implicit, 7u8),
            0x50 => (Operation::BVC, AddressingMode::Relative, 2u8),
            0x70 => (Operation::BVS, AddressingMode::Relative, 2u8),
            0x18 => (Operation::CLC, AddressingMode::Implicit, 2u8),
            0xD8 => (Operation::CLD, AddressingMode::Implicit, 2u8),
            0x58 => (Operation::CLI, AddressingMode::Implicit, 2u8),
            0xB8 => (Operation::CLV, AddressingMode::Implicit, 2u8),
            0xC9 => (Operation::CMP, AddressingMode::Immediate, 2u8),
            0xC5 => (Operation::CMP, AddressingMode::ZeroPage, 3u8),
            0xD5 => (Operation::CMP, AddressingMode::ZeroPageX, 4u8),
            0xCD => (Operation::CMP, AddressingMode::Absolute, 4u8),
            0xDD => (Operation::CMP, AddressingMode::AbsoluteX, 4u8),
            0xD9 => (Operation::CMP, AddressingMode::AbsoluteY, 4u8),
            0xC1 => (Operation::CMP, AddressingMode::IndirectX, 6u8),
            0xD1 => (Operation::CMP, AddressingMode::IndirectY, 5u8),
            0xE0 => (Operation::CPX, AddressingMode::Immediate, 2u8),
            0xE4 => (Operation::CPX, AddressingMode::ZeroPage, 3u8),
            0xEC => (Operation::CPX, AddressingMode::Absolute, 4u8),
            0xC0 => (Operation::CPY, AddressingMode::Immediate, 2u8),
            0xC4 => (Operation::CPY, AddressingMode::ZeroPage, 3u8),
            0xCC => (Operation::CPY, AddressingMode::Absolute, 4u8),
            0xC6 => (Operation::DEC, AddressingMode::ZeroPage, 5u8),
            0xD6 => (Operation::DEC, AddressingMode::ZeroPageX, 6u8),
            0xCE => (Operation::DEC, AddressingMode::Absolute, 6u8),
            0xDE => (Operation::DEC, AddressingMode::AbsoluteX, 7u8),
            0xCA => (Operation::DEX, AddressingMode::Implicit, 2u8),
            0x88 => (Operation::DEY, AddressingMode::Implicit, 2u8),
            0x49 => (Operation::EOR, AddressingMode::Immediate, 2u8),
            0x45 => (Operation::EOR, AddressingMode::ZeroPage, 3u8),
            0x55 => (Operation::EOR, AddressingMode::ZeroPageX, 4u8),
            0x4D => (Operation::EOR, AddressingMode::Absolute, 4u8),
            0x5D => (Operation::EOR, AddressingMode::AbsoluteX, 4u8),
            0x59 => (Operation::EOR, AddressingMode::AbsoluteY, 4u8),
            0x41 => (Operation::EOR, AddressingMode::IndirectX, 6u8),
            0x51 => (Operation::EOR, AddressingMode::IndirectY, 5u8),
            0xE6 => (Operation::INC, AddressingMode::ZeroPage, 5u8),
            0xF6 => (Operation::INC, AddressingMode::ZeroPageX, 6u8),
            0xEE => (Operation::INC, AddressingMode::Absolute, 6u8),
            0xFE => (Operation::INC, AddressingMode::AbsoluteX, 7u8),
            0xE8 => (Operation::INX, AddressingMode::Implicit, 2u8),
            0xC8 => (Operation::INY, AddressingMode::Implicit, 2u8),
            0x4C => (Operation::JMP, AddressingMode::Absolute, 3u8),
            0x6C => (Operation::JMP, AddressingMode::Indirect, 5u8),
            0x20 => (Operation::JSR, AddressingMode::Absolute, 6u8),
            0xA9 => (Operation::LDA, AddressingMode::Immediate, 2u8),
            0xA5 => (Operation::LDA, AddressingMode::ZeroPage, 3u8),
            0xB5 => (Operation::LDA, AddressingMode::ZeroPageX, 4u8),
            0xAD => (Operation::LDA, AddressingMode::Absolute, 4u8),
            0xBD => (Operation::LDA, AddressingMode::AbsoluteX, 4u8),
            0xB9 => (Operation::LDA, AddressingMode::AbsoluteY, 4u8),
            0xA1 => (Operation::LDA, AddressingMode::IndirectX, 6u8),
            0xB1 => (Operation::LDA, AddressingMode::IndirectY, 5u8),
            0xA2 => (Operation::LDX, AddressingMode::Immediate, 2u8),
            0xA6 => (Operation::LDX, AddressingMode::ZeroPage, 3u8),
            0xB6 => (Operation::LDX, AddressingMode::ZeroPageY, 4u8),
            0xAE => (Operation::LDX, AddressingMode::Absolute, 4u8),
            0xBE => (Operation::LDX, AddressingMode::AbsoluteY, 4u8),
            0xA0 => (Operation::LDY, AddressingMode::Immediate, 2u8),
            0xA4 => (Operation::LDY, AddressingMode::ZeroPage, 3u8),
            0xB4 => (Operation::LDY, AddressingMode::ZeroPageX, 4u8),
            0xAC => (Operation::LDY, AddressingMode::Absolute, 4u8),
            0xBC => (Operation::LDY, AddressingMode::AbsoluteX, 4u8),
            0x4A => (Operation::LSR, AddressingMode::Accumulator, 2u8),
            0x46 => (Operation::LSR, AddressingMode::ZeroPage, 5u8),
            0x56 => (Operation::LSR, AddressingMode::ZeroPageX, 6u8),
            0x4E => (Operation::LSR, AddressingMode::Absolute, 6u8),
            0x5E => (Operation::LSR, AddressingMode::AbsoluteX, 7u8),
            0xEA => (Operation::NOP, AddressingMode::Implicit, 2u8),
            0x09 => (Operation::ORA, AddressingMode::Immediate, 2u8),
            0x05 => (Operation::ORA, AddressingMode::ZeroPage, 3u8),
            0x15 => (Operation::ORA, AddressingMode::ZeroPageX, 4u8),
            0x0D => (Operation::ORA, AddressingMode::Absolute, 4u8),
            0x1D => (Operation::ORA, AddressingMode::AbsoluteX, 4u8),
            0x19 => (Operation::ORA, AddressingMode::AbsoluteY, 4u8),
            0x01 => (Operation::ORA, AddressingMode::IndirectX, 6u8),
            0x11 => (Operation::ORA, AddressingMode::IndirectY, 5u8),
            0x48 => (Operation::PHA, AddressingMode::Implicit, 3u8),
            0x08 => (Operation::PHP, AddressingMode::Implicit, 3u8),
            0x68 => (Operation::PLA, AddressingMode::Implicit, 4u8),
            0x28 => (Operation::PLP, AddressingMode::Implicit, 4u8),
            0x2A => (Operation::ROL, AddressingMode::Accumulator, 2u8),
            0x26 => (Operation::ROL, AddressingMode::ZeroPage, 5u8),
            0x36 => (Operation::ROL, AddressingMode::ZeroPageX, 6u8),
            0x2E => (Operation::ROL, AddressingMode::Absolute, 6u8),
            0x3E => (Operation::ROL, AddressingMode::AbsoluteX, 7u8),
            0x6A => (Operation::ROR, AddressingMode::Accumulator, 2u8),
            0x66 => (Operation::ROR, AddressingMode::ZeroPage, 5u8),
            0x76 => (Operation::ROR, AddressingMode::ZeroPageX, 6u8),
            0x6E => (Operation::ROR, AddressingMode::Absolute, 6u8),
            0x7E => (Operation::ROR, AddressingMode::AbsoluteX, 7u8),
            0x40 => (Operation::RTI, AddressingMode::Implicit, 6u8),
            0x60 => (Operation::RTS, AddressingMode::Implicit, 6u8),
            0xE9 => (Operation::SBC, AddressingMode::Immediate, 2u8),
            0xE5 => (Operation::SBC, AddressingMode::ZeroPage, 3u8),
            0xF5 => (Operation::SBC, AddressingMode::ZeroPageX, 4u8),
            0xED => (Operation::SBC, AddressingMode::Absolute, 4u8),
            0xFD => (Operation::SBC, AddressingMode::AbsoluteX, 4u8),
            0xF9 => (Operation::SBC, AddressingMode::AbsoluteY, 4u8),
            0xE1 => (Operation::SBC, AddressingMode::IndirectX, 6u8),
            0xF1 => (Operation::SBC, AddressingMode::IndirectY, 5u8),
            0x38 => (Operation::SEC, AddressingMode::Implicit, 2u8),
            0xF8 => (Operation::SED, AddressingMode::Implicit, 2u8),
            0x78 => (Operation::SEI, AddressingMode::Implicit, 2u8),
            0x85 => (Operation::STA, AddressingMode::ZeroPage, 3u8),
            0x95 => (Operation::STA, AddressingMode::ZeroPageX, 4u8),
            0x8D => (Operation::STA, AddressingMode::Absolute, 4u8),
            0x9D => (Operation::STA, AddressingMode::AbsoluteX, 5u8),
            0x99 => (Operation::STA, AddressingMode::AbsoluteY, 5u8),
            0x81 => (Operation::STA, AddressingMode::IndirectX, 6u8),
            0x91 => (Operation::STA, AddressingMode::IndirectY, 6u8),
            0x86 => (Operation::STX, AddressingMode::ZeroPage, 3u8),
            0x96 => (Operation::STX, AddressingMode::ZeroPageY, 4u8),
            0x8E => (Operation::STX, AddressingMode::Absolute, 4u8),
            0x84 => (Operation::STY, AddressingMode::ZeroPage, 3u8),
            0x94 => (Operation::STY, AddressingMode::ZeroPageX, 4u8),
            0x8C => (Operation::STY, AddressingMode::Absolute, 4u8),
            0xAA => (Operation::TAX, AddressingMode::Implicit, 2u8),
            0xA8 => (Operation::TAY, AddressingMode::Implicit, 2u8),
            0xBA => (Operation::TSX, AddressingMode::Implicit, 2u8),
            0x8A => (Operation::TXA, AddressingMode::Implicit, 2u8),
            0x9A => (Operation::TXS, AddressingMode::Implicit, 2u8),
            0x98 => (Operation::TYA, AddressingMode::Implicit, 2u8),
            _ => {
                return None;
            },
        };
        Some(decoded)
    }
}

/// Every official instruction has a base cost of two to seven cycles and a
/// length of one to three bytes, and its table row carries its opcode byte.
pub proof fn lemma_decoded_cycles(opcode: u8)
    ensures
        decode(opcode) matches Some((_, _, cycles)) ==> 2 <= cycles <= 7,
        descriptor(opcode) matches Some(row) ==> row.opcode == opcode && 1 <= row.bytes <= 3 && 2
            <= row.cycles <= 7,
{
    reveal(decode);
}

impl OpCode {
    /// A table row with the given contents.
    pub fn new(
        name: &str,
        opcode: u8,
        addressing_mode: AddressingMode,
        bytes: u8,
        cycles: u8,
        operation: Operation,
    ) -> (row: OpCode)
        ensures
            row@ == (Descriptor {
                name: name@,
                opcode,
                addressing_mode,
                bytes,
                cycles,
                operation,
            }),
    {
        OpCode { name: name.to_owned(), opcode, addressing_mode, bytes, cycles, operation }
    }

    /// The table of official opcodes as a map from opcode byte to row.
    pub fn table() -> (table: HashMap<u8, OpCode>)
        ensures
            forall|opcode: u8| table@.contains_key(opcode) <==> descriptor(opcode) is Some,
            forall|opcode: u8|
                table@.contains_key(opcode) ==> descriptor(opcode) == Some(table@[opcode]@),
    {
        let mut table: HashMap<u8, OpCode> = HashMap::new();
        let mut next: u16 = 0;
        while next < 256
            invariant
                next <= 256,
                forall|opcode: u8|
                    table@.contains_key(opcode) <==> opcode < next && descriptor(opcode) is Some,
                forall|opcode: u8|
                    table@.contains_key(opcode) ==> descriptor(opcode) == Some(table@[opcode]@),
            decreases 256 - next,
        {
            let opcode = next as u8;
            if let Some(row) = OpCode::lookup(opcode) {
                table.insert(opcode, row);
            }
            next += 1;
        }
        table
    }

    /// Looks an opcode byte up in the table of official opcodes.
    pub fn lookup(opcode: u8) -> (found: Option<OpCode>)
        ensures
            match found {
                Some(row) => descriptor(opcode) == Some(row@),
                None => descriptor(opcode) is None,
            },
    {
        match Operation::decode(opcode) {
            Some((operation, mode, cycles)) => Some(
                OpCode::new(operation.name(), opcode, mode, mode.length(), cycles, operation),
            ),
            None => None,
        }
    }
}

} // verus!
