//! The processor as a mathematical value, and what each operation does to it.

use crate::arith::{
    high_byte, low_byte, pages_differ, sign_bit, sign_flipped, signed, word, wrap16, wrap8,
};
use crate::constants::{bit_is_set, decode, AddressingMode, Operation, Status};
use vstd::prelude::*;

verus! {

/// Everything the processor holds: the memory, the registers, the flags, the
/// cycles still owed for the instruction in progress, and the halt latch.
#[verifier::ext_equal]
pub struct State {
    pub mem: Seq<u8>,
    pub status: Status,
    pub a: u8,
    pub x: u8,
    pub y: u8,
    pub stack_pointer: u8,
    pub program_counter: u16,
    pub complete: bool,
    pub cycles: u64,
}

/// Where the non-maskable interrupt vector lies.
pub const NMI_VECTOR: u16 = 0xFFFA;

/// Where the reset vector lies.
pub const RESET_VECTOR: u16 = 0xFFFC;

/// Where the vector for interrupt requests and for BRK lies.
pub const IRQ_VECTOR: u16 = 0xFFFE;

/// The first address of the stack page.
pub const STACK_BASE: u16 = 0x0100;

/// The address at which a program is loaded and listed.
pub const PROGRAM_START: u16 = 0x0600;

/// The most bytes that fit between `PROGRAM_START` and the end of memory.
pub const PROGRAM_LIMIT: usize = 0xFA00;

impl State {
    /// The memory covers the whole 16-bit address space.
    pub open spec fn wf(self) -> bool {
        self.mem.len() == 65536
    }

    // ------------------------------------------------------------------
    // Memory and stack
    // ------------------------------------------------------------------
    /// The byte at `addr`.
    pub open spec fn read(self, addr: u16) -> u8 {
        self.mem[addr as int]
    }

    /// The state with `data` stored at `addr`.
    pub open spec fn write(self, addr: u16, data: u8) -> State {
        State { mem: self.mem.update(addr as int, data), ..self }
    }

    /// The little-endian word at `addr`; the address of its high byte wraps.
    pub open spec fn read_word(self, addr: u16) -> u16 {
        word(self.read(wrap16(addr + 1)), self.read(addr))
    }

    /// The address in page 1 that the stack pointer refers to.
    pub open spec fn stack_address(self) -> u16 {
        (STACK_BASE + self.stack_pointer) as u16
    }

    /// Push: store at the stack address, then step the stack pointer down.
    pub open spec fn push(self, data: u8) -> State {
        State {
            stack_pointer: wrap8(self.stack_pointer - 1),
            ..self.write(self.stack_address(), data)
        }
    }

    /// The state after a pop: the stack pointer stepped up.
    pub open spec fn popped(self) -> State {
        State { stack_pointer: wrap8(self.stack_pointer + 1), ..self }
    }

    /// The byte that a pop returns: the one at the stepped-up stack pointer.
    pub open spec fn pop_value(self) -> u8 {
        self.read(self.popped().stack_address())
    }

    /// Push a word, high byte first.
    pub open spec fn push_word(self, value: u16) -> State {
        self.push(high_byte(value)).push(low_byte(value))
    }

    // ------------------------------------------------------------------
    // Addressing
    // ------------------------------------------------------------------
    /// The address that an indexed mode starts from, before the index register
    /// is added; zero for the other modes.
    pub open spec fn base_address(self, mode: AddressingMode) -> u16 {
        match mode {
            AddressingMode::AbsoluteX | AddressingMode::AbsoluteY => self.read_word(
                self.program_counter,
            ),
            AddressingMode::IndirectY => {
                let pointer = self.read(self.program_counter);
                word(self.mem[pointer + 1], self.mem[pointer as int])
            },
            _ => 0,
        }
    }

    /// The effective address of the operand, with the program counter at the
    /// first operand byte. All address arithmetic wraps: within page zero for
    /// the zero-page modes, within the address space for the others. The
    /// pointer of the indexed indirect mode wraps within page zero, but the
    /// high byte of the address is read from the byte behind the pointer,
    /// which for a pointer of 0xFF is 0x0100; likewise for the indirect
    /// indexed mode.
    pub open spec fn operand_address(self, mode: AddressingMode) -> u16 {
        let pc = self.program_counter;
        match mode {
            AddressingMode::Implicit | AddressingMode::Accumulator | AddressingMode::Relative => 0,
            AddressingMode::Immediate => pc,
            AddressingMode::ZeroPage => self.read(pc) as u16,
            AddressingMode::ZeroPageX => wrap8(self.read(pc) + self.x) as u16,
            AddressingMode::ZeroPageY => wrap8(self.read(pc) + self.y) as u16,
            AddressingMode::Absolute => self.read_word(pc),
            AddressingMode::AbsoluteX => wrap16(self.base_address(mode) + self.x),
            AddressingMode::AbsoluteY => wrap16(self.base_address(mode) + self.y),
            AddressingMode::Indirect => self.read_word(self.read_word(pc)),
            AddressingMode::IndirectX => {
                let pointer = wrap8(self.read(pc) + self.x);
                word(self.mem[pointer + 1], self.mem[pointer as int])
            },
            AddressingMode::IndirectY => wrap16(self.base_address(mode) + self.y),
        }
    }

    /// Whether adding the index register left the page of the base address:
    /// whether the high bytes of the two differ. Only the three indexed modes
    /// that can cost a cycle report a crossing.
    pub open spec fn page_crossed(self, mode: AddressingMode) -> bool {
        match mode {
            AddressingMode::AbsoluteX | AddressingMode::AbsoluteY | AddressingMode::IndirectY =>
                pages_differ(self.operand_address(mode), self.base_address(mode)),
            _ => false,
        }
    }

    /// The operand: the accumulator where the mode names no memory, else the
    /// byte at the effective address.
    pub open spec fn operand(self, mode: AddressingMode) -> u8 {
        if mode == AddressingMode::Implicit || mode == AddressingMode::Accumulator {
            self.a
        } else {
            self.read(self.operand_address(mode))
        }
    }

    // ------------------------------------------------------------------
    // Flags and cycles
    // ------------------------------------------------------------------
    /// Zero and negative set from `value`: zero iff it is 0, negative iff bit 7 is set.
    pub open spec fn with_zn(self, value: u8) -> State {
        State {
            status: Status { zero: value == 0, negative: sign_bit(value), ..self.status },
            ..self
        }
    }

    /// The state with `extra` cycles added to those owed.
    pub open spec fn charge(self, extra: int) -> State {
        State { cycles: (self.cycles + extra) as u64, ..self }
    }

    /// One cycle where `mode` is the mode `needed` and `condition` holds, else none.
    pub open spec fn extra_cycle(
        mode: AddressingMode,
        needed: AddressingMode,
        condition: bool,
    ) -> int {
        if needed == mode && condition {
            1
        } else {
            0
        }
    }

    /// One cycle where `mode` is one of the three indexed modes that can cross
    /// a page and `crossed` holds, else none.
    pub open spec fn indexed_extra(mode: AddressingMode, crossed: bool) -> int {
        State::extra_cycle(mode, AddressingMode::AbsoluteX, crossed) + State::extra_cycle(
            mode,
            AddressingMode::AbsoluteY,
            crossed,
        ) + State::extra_cycle(mode, AddressingMode::IndirectY, crossed)
    }

    /// The extra cycle of an indexed read that crosses a page.
    pub open spec fn index_penalty(self, mode: AddressingMode) -> int {
        if self.page_crossed(mode) {
            1
        } else {
            0
        }
    }

    /// The accumulator loaded with `value`, and zero and negative set from it.
    pub open spec fn load_a(self, value: u8) -> State {
        State { a: value, ..self }.with_zn(value)
    }

    /// The X register loaded with `value`, and zero and negative set from it.
    pub open spec fn load_x(self, value: u8) -> State {
        State { x: value, ..self }.with_zn(value)
    }

    /// The Y register loaded with `value`, and zero and negative set from it.
    pub open spec fn load_y(self, value: u8) -> State {
        State { y: value, ..self }.with_zn(value)
    }

    /// `value` stored at `addr`, and zero and negative set from it.
    pub open spec fn store_zn(self, addr: u16, value: u8) -> State {
        self.write(addr, value).with_zn(value)
    }

    /// The state with the carry flag replaced.
    pub open spec fn with_carry(self, carry: bool) -> State {
        State { status: Status { carry, ..self.status }, ..self }
    }

    /// The state with the flags replaced.
    pub open spec fn with_status(self, status: Status) -> State {
        State { status, ..self }
    }

    /// The state with the program counter replaced.
    pub open spec fn with_pc(self, program_counter: u16) -> State {
        State { program_counter, ..self }
    }

    /// The carry flag as a number.
    pub open spec fn carry_in(self) -> int {
        if self.status.carry {
            1
        } else {
            0
        }
    }

    /// The flags as pulled from the stack: break cleared, unused set.
    pub open spec fn pulled_status(byte: u8) -> Status {
        Status { break_command: false, unused: true, ..Status::spec_from_byte(byte) }
    }

    // ------------------------------------------------------------------
    // Loads, stores, transfers
    // ------------------------------------------------------------------
    /// Load the accumulator with the operand; an indexed read that crosses a page costs a cycle.
    pub open spec fn lda(self, mode: AddressingMode) -> State {
        self.charge(self.index_penalty(mode)).load_a(self.operand(mode))
    }

    /// Load X with the operand; a read indexed by Y that crosses a page costs a cycle.
    pub open spec fn ldx(self, mode: AddressingMode) -> State {
        self.charge(
            State::extra_cycle(mode, AddressingMode::AbsoluteY, self.page_crossed(mode)),
        ).load_x(self.operand(mode))
    }

    /// Load Y with the operand; a read indexed by X that crosses a page costs a cycle.
    pub open spec fn ldy(self, mode: AddressingMode) -> State {
        self.charge(
            State::extra_cycle(mode, AddressingMode::AbsoluteX, self.page_crossed(mode)),
        ).load_y(self.operand(mode))
    }

    /// Store the accumulator at the effective address.
    pub open spec fn sta(self, mode: AddressingMode) -> State {
        self.write(self.operand_address(mode), self.a)
    }

    /// Store X at the effective address.
    pub open spec fn stx(self, mode: AddressingMode) -> State {
        self.write(self.operand_address(mode), self.x)
    }

    /// Store Y at the effective address.
    pub open spec fn sty(self, mode: AddressingMode) -> State {
        self.write(self.operand_address(mode), self.y)
    }

    /// Copy the accumulator to X.
    pub open spec fn tax(self) -> State {
        self.load_x(self.a)
    }

    /// Copy the accumulator to Y.
    pub open spec fn tay(self) -> State {
        self.load_y(self.a)
    }

    /// Copy the stack pointer to X.
    pub open spec fn tsx(self) -> State {
        self.load_x(self.stack_pointer)
    }

    /// Copy X to the accumulator.
    pub open spec fn txa(self) -> State {
        self.load_a(self.x)
    }

    /// The only transfer that leaves the flags alone.
    pub open spec fn txs(self) -> State {
        State { stack_pointer: self.x, ..self }
    }

    /// Copy Y to the accumulator.
    pub open spec fn tya(self) -> State {
        self.load_a(self.y)
    }

    // ------------------------------------------------------------------
    // Stack
    // ------------------------------------------------------------------
    /// Push the accumulator.
    pub open spec fn pha(self) -> State {
        self.push(self.a)
    }

    /// The pushed byte has break and unused set; the flags themselves stay.
    pub open spec fn php(self) -> State {
        self.push(Status { break_command: true, unused: true, ..self.status }.spec_to_byte())
    }

    /// Pop into the accumulator.
    pub open spec fn pla(self) -> State {
        self.popped().load_a(self.pop_value())
    }

    /// Pop into the flags; break is then clear and unused set.
    pub open spec fn plp(self) -> State {
        self.popped().with_status(State::pulled_status(self.pop_value()))
    }

    // ------------------------------------------------------------------
    // Logic and arithmetic
    // ------------------------------------------------------------------
    /// The accumulator and the operand, bit by bit; a page crossing costs a cycle.
    pub open spec fn and(self, mode: AddressingMode) -> State {
        self.charge(self.index_penalty(mode)).load_a(self.a & self.operand(mode))
    }

    /// The accumulator exclusive-or the operand, bit by bit; a page crossing costs a cycle.
    pub open spec fn eor(self, mode: AddressingMode) -> State {
        self.charge(self.index_penalty(mode)).load_a(self.a ^ self.operand(mode))
    }

    /// The accumulator or the operand, bit by bit; a page crossing costs a cycle.
    pub open spec fn ora(self, mode: AddressingMode) -> State {
        self.charge(self.index_penalty(mode)).load_a(self.a | self.operand(mode))
    }

    /// The accumulator after an addition or subtraction that produced `sum`
    /// from the accumulator and `operand`: the low byte of the sum, with carry
    /// set iff the sum exceeds a byte and overflow set by the sign test.
    pub open spec fn accumulate(self, mode: AddressingMode, operand: u8, sum: int) -> State {
        let result = wrap8(sum);
        self.with_status(
            Status {
                carry: sum > 0xFF,
                overflow: sign_flipped(operand, self.a, result),
                ..self.status
            },
        ).charge(self.index_penalty(mode)).load_a(result)
    }

    /// Binary addition with carry; the decimal flag is not consulted.
    pub open spec fn adc(self, mode: AddressingMode) -> State {
        let operand = self.operand(mode);
        self.accumulate(mode, operand, self.a + operand + self.carry_in())
    }

    /// Binary subtraction with borrow, as the sum of the accumulator and the
    /// negated operand less the borrow, taken modulo 65536. The decimal flag is
    /// not consulted.
    pub open spec fn sbc(self, mode: AddressingMode) -> State {
        let negated = wrap8(-(self.operand(mode) as int));
        self.accumulate(mode, negated, wrap16(self.a + negated - (1 - self.carry_in())) as int)
    }

    /// The byte at the effective address less one, modulo 256.
    pub open spec fn dec(self, mode: AddressingMode) -> State {
        let addr = self.operand_address(mode);
        self.store_zn(addr, wrap8(self.read(addr) - 1))
    }

    /// X less one, modulo 256.
    pub open spec fn dex(self) -> State {
        self.load_x(wrap8(self.x - 1))
    }

    /// Y less one, modulo 256.
    pub open spec fn dey(self) -> State {
        self.load_y(wrap8(self.y - 1))
    }

    /// The byte at the effective address plus one, modulo 256.
    pub open spec fn inc(self, mode: AddressingMode) -> State {
        let addr = self.operand_address(mode);
        self.store_zn(addr, wrap8(self.read(addr) + 1))
    }

    /// X plus one, modulo 256.
    pub open spec fn inx(self) -> State {
        self.load_x(wrap8(self.x + 1))
    }

    /// Y plus one, modulo 256.
    pub open spec fn iny(self) -> State {
        self.load_y(wrap8(self.y + 1))
    }

    // ------------------------------------------------------------------
    // Shifts and rotates
    // ------------------------------------------------------------------
    /// The byte that a shift or rotate works on: the accumulator in
    /// accumulator mode, else the byte at the effective address.
    pub open spec fn shift_input(self, mode: AddressingMode) -> u8 {
        if mode == AddressingMode::Accumulator {
            self.a
        } else {
            self.read(self.operand_address(mode))
        }
    }

    /// The state after a shift or rotate that turned the input into `result`
    /// and shifted `carry` out.
    pub open spec fn shifted(self, mode: AddressingMode, carry: bool, result: u8) -> State {
        if mode == AddressingMode::Accumulator {
            self.with_carry(carry).load_a(result)
        } else {
            self.with_carry(carry).store_zn(self.operand_address(mode), result)
        }
    }

    /// Shift left: bit 7 goes to carry, bit 0 becomes zero.
    pub open spec fn asl(self, mode: AddressingMode) -> State {
        let value = self.shift_input(mode);
        self.shifted(mode, sign_bit(value), wrap8(value * 2))
    }

    /// Shift right: bit 0 goes to carry, bit 7 becomes zero.
    pub open spec fn lsr(self, mode: AddressingMode) -> State {
        let value = self.shift_input(mode);
        self.shifted(mode, value % 2 == 1, value / 2)
    }

    /// Rotate left: bit 7 goes to carry, and the carry before to bit 0.
    pub open spec fn rol(self, mode: AddressingMode) -> State {
        let value = self.shift_input(mode);
        self.shifted(mode, sign_bit(value), wrap8(value * 2 + self.carry_in()))
    }

    /// Rotate right: bit 0 goes to carry, and the carry before to bit 7.
    pub open spec fn ror(self, mode: AddressingMode) -> State {
        let value = self.shift_input(mode);
        self.shifted(mode, value % 2 == 1, (value / 2 + 128 * self.carry_in()) as u8)
    }

    // ------------------------------------------------------------------
    // Jumps and subroutines
    // ------------------------------------------------------------------
    /// Continue at the effective address. An indirect jump reads the high byte of its
    /// target from the address behind the pointer, also where the pointer ends a page.
    pub open spec fn jmp(self, mode: AddressingMode) -> State {
        self.with_pc(self.operand_address(mode))
    }

    /// The return address pushed is that of the last byte of the instruction.
    pub open spec fn jsr(self, mode: AddressingMode) -> State {
        self.push_word(wrap16(self.program_counter + 1)).with_pc(self.operand_address(mode))
    }

    /// The word that two pops return, low byte first.
    pub open spec fn pop_word_value(self) -> u16 {
        word(self.popped().pop_value(), self.pop_value())
    }

    /// Pop the return address, low byte first, and continue behind it.
    pub open spec fn rts(self) -> State {
        self.popped().popped().with_pc(wrap16(self.pop_word_value() + 1))
    }

    /// Pop the flags (break then clear, unused set) and the program counter, and
    /// continue there.
    pub open spec fn rti(self) -> State {
        self.popped().popped().popped().with_status(State::pulled_status(self.pop_value())).with_pc(
            self.popped().pop_word_value(),
        )
    }

    // ------------------------------------------------------------------
    // Comparisons
    // ------------------------------------------------------------------
    /// Zero is set iff the accumulator and the byte at the effective address share no
    /// bit; overflow and negative are bits 6 and 7 of that byte.
    pub open spec fn bit(self, mode: AddressingMode) -> State {
        let value = self.read(self.operand_address(mode));
        self.with_status(
            Status {
                zero: self.a & value == 0,
                overflow: bit_is_set(value, 6),
                negative: sign_bit(value),
                ..self.status
            },
        )
    }

    /// Flags of comparing `register` with `value`: carry iff the register is
    /// not less, zero and negative from the difference modulo 256.
    pub open spec fn compared(self, register: u8, value: u8) -> State {
        self.with_carry(register >= value).with_zn(wrap8(register - value))
    }

    /// Compare the accumulator with the operand; a page crossing costs a cycle.
    pub open spec fn cmp(self, mode: AddressingMode) -> State {
        self.charge(self.index_penalty(mode)).compared(self.a, self.operand(mode))
    }

    /// Compare X with the operand.
    pub open spec fn cpx(self, mode: AddressingMode) -> State {
        self.compared(self.x, self.operand(mode))
    }

    /// Compare Y with the operand.
    pub open spec fn cpy(self, mode: AddressingMode) -> State {
        self.compared(self.y, self.operand(mode))
    }

    // ------------------------------------------------------------------
    // Branches
    // ------------------------------------------------------------------
    /// Where a taken branch goes: past the offset byte, plus the signed offset.
    pub open spec fn branch_target(self) -> u16 {
        wrap16(self.program_counter + 1 + signed(self.read(self.program_counter)))
    }

    /// What a branch costs beyond its base cycles: nothing when not taken, one
    /// cycle when taken, and two more when the target is on another page than
    /// the offset byte.
    pub open spec fn branch_penalty(self, condition: bool) -> int {
        if !condition {
            0
        } else if pages_differ(self.program_counter, self.branch_target()) {
            3
        } else {
            1
        }
    }

    /// A branch: taken where the condition holds, with its penalty; else nothing changes.
    pub open spec fn branch(self, condition: bool) -> State {
        if condition {
            self.charge(self.branch_penalty(condition)).with_pc(self.branch_target())
        } else {
            self
        }
    }

    /// Branch if carry is clear.
    pub open spec fn bcc(self) -> State {
        self.branch(!self.status.carry)
    }

    /// Branch if carry is set.
    pub open spec fn bcs(self) -> State {
        self.branch(self.status.carry)
    }

    /// Branch if zero is set.
    pub open spec fn beq(self) -> State {
        self.branch(self.status.zero)
    }

    /// Branch if negative is set.
    pub open spec fn bmi(self) -> State {
        self.branch(self.status.negative)
    }

    /// Branch if zero is clear.
    pub open spec fn bne(self) -> State {
        self.branch(!self.status.zero)
    }

    /// Branch if negative is clear.
    pub open spec fn bpl(self) -> State {
        self.branch(!self.status.negative)
    }

    /// Branch if overflow is clear.
    pub open spec fn bvc(self) -> State {
        self.branch(!self.status.overflow)
    }

    /// Branch if overflow is set.
    pub open spec fn bvs(self) -> State {
        self.branch(self.status.overflow)
    }

    // ------------------------------------------------------------------
    // Status and system
    // ------------------------------------------------------------------
    /// Skip the padding byte, push the return address and the flags with break
    /// set, clear break, continue at the interrupt vector, and latch the halt.
    pub open spec fn brk(self) -> State {
        let pushed = self.push_word(wrap16(self.program_counter + 1)).push(
            Status { break_command: true, ..self.status }.spec_to_byte(),
        );
        State {
            program_counter: pushed.read_word(IRQ_VECTOR),
            status: Status { break_command: false, ..self.status },
            complete: true,
            ..pushed
        }
    }

    /// Clear carry.
    pub open spec fn clc(self) -> State {
        self.with_carry(false)
    }

    /// Clear decimal.
    pub open spec fn cld(self) -> State {
        self.with_status(Status { decimal: false, ..self.status })
    }

    /// Clear interrupt.
    pub open spec fn cli(self) -> State {
        self.with_status(Status { interrupt: false, ..self.status })
    }

    /// Clear overflow.
    pub open spec fn clv(self) -> State {
        self.with_status(Status { overflow: false, ..self.status })
    }

    /// Set carry.
    pub open spec fn sec(self) -> State {
        self.with_carry(true)
    }

    /// Set decimal, which the arithmetic does not consult.
    pub open spec fn sed(self) -> State {
        self.with_status(Status { decimal: true, ..self.status })
    }

    /// Set interrupt.
    pub open spec fn sei(self) -> State {
        self.with_status(Status { interrupt: true, ..self.status })
    }

    // ------------------------------------------------------------------
    // Entry sequences
    // ------------------------------------------------------------------
    /// Registers to their initial values, the program counter from the reset
    /// vector, eight cycles owed. Memory, flags and the halt latch stay.
    pub open spec fn reset(self) -> State {
        State {
            program_counter: self.read_word(RESET_VECTOR),
            a: 0,
            x: 0,
            y: 0,
            stack_pointer: 0xFD,
            cycles: 8,
            ..self
        }
    }

    /// Push the program counter and the flags (break cleared, unused and
    /// interrupt set, which they also are afterwards), continue at `vector`,
    /// with `cost` cycles owed.
    pub open spec fn interrupt(self, vector: u16, cost: u64) -> State {
        let status = Status { break_command: false, unused: true, interrupt: true, ..self.status };
        let pushed = self.push_word(self.program_counter).push(status.spec_to_byte());
        State { program_counter: pushed.read_word(vector), status, cycles: cost, ..pushed }
    }

    /// Non-maskable interrupt: through the vector at 0xFFFA, for eight cycles.
    pub open spec fn nmi(self) -> State {
        self.interrupt(NMI_VECTOR, 8)
    }

    /// Ignored while the interrupt flag is set.
    pub open spec fn irq(self) -> State {
        if self.status.interrupt {
            self
        } else {
            self.interrupt(IRQ_VECTOR, 7)
        }
    }

    /// The program stored from `PROGRAM_START` on, then the reset vector
    /// stored, which points there.
    pub open spec fn load(self, program: Seq<u8>) -> State {
        State {
            mem: Seq::new(
                self.mem.len(),
                |addr: int|
                    if addr == RESET_VECTOR {
                        0x00u8
                    } else if addr == RESET_VECTOR + 1 {
                        0x06u8
                    } else if PROGRAM_START <= addr < PROGRAM_START + program.len() {
                        program[addr - PROGRAM_START]
                    } else {
                        self.mem[addr]
                    },
            ),
            ..self
        }
    }

    // ------------------------------------------------------------------
    // Dispatch and clocking
    // ------------------------------------------------------------------
    /// What `operation` does in `mode`, with the program counter at the first
    /// operand byte.
    pub open spec fn execute(self, operation: Operation, mode: AddressingMode) -> State {
        match operation {
            Operation::ADC => self.adc(mode),
            Operation::AND => self.and(mode),
            Operation::ASL => self.asl(mode),
            Operation::BCC => self.bcc(),
            Operation::BCS => self.bcs(),
            Operation::BEQ => self.beq(),
            Operation::BIT => self.bit(mode),
            Operation::BMI => self.bmi(),
            Operation::BNE => self.bne(),
            Operation::BPL => self.bpl(),
            Operation::BRK => self.brk(),
            Operation::BVC => self.bvc(),
            Operation::BVS => self.bvs(),
            Operation::CLC => self.clc(),
            Operation::CLD => self.cld(),
            Operation::CLI => self.cli(),
            Operation::CLV => self.clv(),
            Operation::CMP => self.cmp(mode),
            Operation::CPX => self.cpx(mode),
            Operation::CPY => self.cpy(mode),
            Operation::DEC => self.dec(mode),
            Operation::DEX => self.dex(),
            Operation::DEY => self.dey(),
            Operation::EOR => self.eor(mode),
            Operation::INC => self.inc(mode),
            Operation::INX => self.inx(),
            Operation::INY => self.iny(),
            Operation::JMP => self.jmp(mode),
            Operation::JSR => self.jsr(mode),
            Operation::LDA => self.lda(mode),
            Operation::LDX => self.ldx(mode),
            Operation::LDY => self.ldy(mode),
            Operation::LSR => self.lsr(mode),
            Operation::NOP => self,
            Operation::ORA => self.ora(mode),
            Operation::PHA => self.pha(),
            Operation::PHP => self.php(),
            Operation::PLA => self.pla(),
            Operation::PLP => self.plp(),
            Operation::ROL => self.rol(mode),
            Operation::ROR => self.ror(mode),
            Operation::RTI => self.rti(),
            Operation::RTS => self.rts(),
            Operation::SBC => self.sbc(mode),
            Operation::SEC => self.sec(),
            Operation::SED => self.sed(),
            Operation::SEI => self.sei(),
            Operation::STA => self.sta(mode),
            Operation::STX => self.stx(mode),
            Operation::STY => self.sty(mode),
            Operation::TAX => self.tax(),
            Operation::TAY => self.tay(),
            Operation::TSX => self.tsx(),
            Operation::TXA => self.txa(),
            Operation::TXS => self.txs(),
            Operation::TYA => self.tya(),
        }
    }

    /// The cycles that `operation` in `mode` costs beyond its base cycles: the
    /// page-crossing cycle of the indexed reads, and the cycles of a taken branch.
    pub open spec fn penalty(self, operation: Operation, mode: AddressingMode) -> int {
        match operation {
            Operation::LDA
            | Operation::AND
            | Operation::EOR
            | Operation::ORA
            | Operation::ADC
            | Operation::SBC
            | Operation::CMP => self.index_penalty(mode),
            Operation::LDX => State::extra_cycle(
                mode,
                AddressingMode::AbsoluteY,
                self.page_crossed(mode),
            ),
            Operation::LDY => State::extra_cycle(
                mode,
                AddressingMode::AbsoluteX,
                self.page_crossed(mode),
            ),
            Operation::BCC => self.branch_penalty(!self.status.carry),
            Operation::BCS => self.branch_penalty(self.status.carry),
            Operation::BEQ => self.branch_penalty(self.status.zero),
            Operation::BMI => self.branch_penalty(self.status.negative),
            Operation::BNE => self.branch_penalty(!self.status.zero),
            Operation::BPL => self.branch_penalty(!self.status.negative),
            Operation::BVC => self.branch_penalty(!self.status.overflow),
            Operation::BVS => self.branch_penalty(self.status.overflow),
            _ => 0,
        }
    }

    /// Whether the byte at the program counter is an official opcode.
    pub open spec fn can_fetch(self) -> bool {
        decode(self.read(self.program_counter)) is Some
    }

    /// The state once the opcode byte is fetched: the program counter is past
    /// it, and the base cycles of the instruction are owed.
    pub open spec fn fetched(self) -> State {
        let (_operation, _mode, cycles) = decode(self.read(self.program_counter)).unwrap();
        State { program_counter: wrap16(self.program_counter + 1), cycles: cycles as u64, ..self }
    }

    /// One whole instruction: fetch, execute, and, where the operation left the
    /// program counter at the first operand byte, step over the operand bytes.
    pub open spec fn step(self) -> State {
        let (operation, mode, _cycles) = decode(self.read(self.program_counter)).unwrap();
        let fetched = self.fetched();
        let executed = fetched.execute(operation, mode);
        if executed.program_counter == fetched.program_counter {
            executed.with_pc(wrap16(executed.program_counter + mode.instruction_length() - 1))
        } else {
            executed
        }
    }

    /// One clock tick: with no cycle owed, a whole instruction runs first;
    /// then one owed cycle is paid.
    pub open spec fn clock(self) -> State {
        let begun = if self.cycles == 0 {
            self.step()
        } else {
            self
        };
        State { cycles: (begun.cycles - 1) as u64, ..begun }
    }

    /// The state after `ticks` clock ticks.
    pub open spec fn run(self, ticks: nat) -> State
        decreases ticks,
    {
        if ticks == 0 {
            self
        } else {
            self.clock().run((ticks - 1) as nat)
        }
    }
}

/// An operation adds its penalty to the cycles owed, and nothing else.
pub proof fn lemma_execute_cost(state: State, operation: Operation, mode: AddressingMode)
    ensures
        state.execute(operation, mode).cycles == (state.cycles + state.penalty(
            operation,
            mode,
        )) as u64,
        0 <= state.penalty(operation, mode) <= 3,
{
}

} // verus!
