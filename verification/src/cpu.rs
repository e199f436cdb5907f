//! The processor: its registers, the addressing-mode resolver, the stack, the
//! entry sequences and the clocking loop.

use crate::arith::{
    lemma_page_bits, lemma_sign_bits, lemma_sign_extension, lemma_split_bits, lemma_word_bits,
    lemma_wrap16, lemma_wrapping16, lemma_wrapping8, pages_differ, word,
};
use crate::bus::Bus;
use crate::constants::{lemma_decoded_cycles, AddressingMode, Operation, Status};
use crate::state::{
    lemma_execute_cost, State, IRQ_VECTOR, NMI_VECTOR, PROGRAM_LIMIT, PROGRAM_START, RESET_VECTOR,
    STACK_BASE,
};
use vstd::prelude::*;

verus! {

/// A 6502 processor together with the memory it runs on.
pub struct CPU {
    pub bus: Bus,
    pub status: Status,
    pub a: u8,
    pub x: u8,
    pub y: u8,
    pub stack_pointer: u8,
    pub program_counter: u16,
    pub complete: bool,
    pub cycles: u64,
}

impl View for CPU {
    type V = State;

    open spec fn view(&self) -> State {
        State {
            mem: self.bus@,
            status: self.status,
            a: self.a,
            x: self.x,
            y: self.y,
            stack_pointer: self.stack_pointer,
            program_counter: self.program_counter,
            complete: self.complete,
            cycles: self.cycles,
        }
    }
}

impl CPU {
    /// A processor on the given memory: registers zero, the stack pointer at
    /// 0xFD, only the interrupt and unused flags set, nothing owed, not halted.
    pub fn new(bus: Bus) -> (cpu: CPU)
        ensures
            cpu@ == (State {
                mem: bus@,
                status: Status::spec_from_byte(0x24),
                a: 0,
                x: 0,
                y: 0,
                stack_pointer: 0xFD,
                program_counter: 0,
                complete: false,
                cycles: 0,
            }),
            cpu@.wf(),
    {
        CPU {
            bus: bus,
            status: Status::from_byte(0b100100),
            a: 0x00,
            x: 0x00,
            y: 0x00,
            stack_pointer: 0xFD,
            program_counter: 0x0000,
            cycles: 0,
            complete: false,
        }
    }

    /// The memory of a processor always covers the whole address space.
    pub proof fn lemma_wf(&self)
        ensures
            self@.wf(),
    {
    }

    /// The byte at `addr`.
    pub fn read(&self, addr: u16) -> (data: u8)
        ensures
            data == self@.read(addr),
    {
        return self.bus.read(addr, false);
    }

    /// Stores `data` at `addr`.
    pub fn write(&mut self, addr: u16, data: u8)
        ensures
            final(self)@ == old(self)@.write(addr, data),
    {
        self.bus.write(addr, data);
    }

    /// Copies a program to `PROGRAM_START` and points the reset vector there.
    /// The program must fit between `PROGRAM_START` and the end of memory.
    pub fn load(&mut self, program: &Vec<u8>)
        requires
            program@.len() <= PROGRAM_LIMIT,
        ensures
            final(self)@ == old(self)@.load(program@),
    {
        let ghost start = self@;
        let count = program.len() as u16;
        for i in 0..count
            invariant
                count == program@.len(),
                count <= PROGRAM_LIMIT,
                self@.wf(),
                self@ == (State {
                    mem: Seq::new(
                        65536,
                        |addr: int|
                            if PROGRAM_START <= addr < PROGRAM_START + i {
                                program@[addr - PROGRAM_START]
                            } else {
                                start.mem[addr]
                            },
                    ),
                    ..start
                }),
        {
            self.write(PROGRAM_START + i, program[i as usize]);
        }
        self.write(RESET_VECTOR, 0x00);
        self.write(RESET_VECTOR + 1, 0x06);
    }

    /// Reloads the program counter from the reset vector and the registers
    /// with their initial values; eight cycles are owed.
    pub fn reset(&mut self)
        ensures
            final(self)@ == old(self)@.reset(),
    {
        proof {
            lemma_wrap16(RESET_VECTOR + 1);
        }
        let low = self.read(RESET_VECTOR);
        let high = self.read(RESET_VECTOR + 1);

        self.program_counter = self.hilo_to_u16(high, low);

        self.a = 0;
        self.x = 0;
        self.y = 0;
        self.stack_pointer = 0xFD;

        self.cycles = 8;
    }

    /// Non-maskable interrupt.
    pub fn nmi(&mut self)
        ensures
            final(self)@ == old(self)@.nmi(),
    {
        proof {
            lemma_split_bits(self.program_counter);
        }
        self.stack_push((self.program_counter >> 8) as u8);
        self.stack_push(self.program_counter as u8);

        self.status.break_command = false;
        self.status.unused = true;
        self.status.interrupt = true;

        self.stack_push(self.status.to_byte());

        proof {
            lemma_wrap16(NMI_VECTOR + 1);
        }
        let low = self.read(NMI_VECTOR);
        let high = self.read(NMI_VECTOR + 1);
        self.program_counter = self.hilo_to_u16(high, low);

        self.cycles = 8;
    }

    /// Interrupt request; ignored while the interrupt flag is set.
    pub fn irq(&mut self)
        ensures
            final(self)@ == old(self)@.irq(),
    {
        if !self.status.interrupt {
            proof {
                lemma_split_bits(self.program_counter);
            }
            self.stack_push((self.program_counter >> 8) as u8);
            self.stack_push(self.program_counter as u8);

            self.status.break_command = false;
            self.status.unused = true;
            self.status.interrupt = true;

            self.stack_push(self.status.to_byte());

            proof {
                lemma_wrap16(IRQ_VECTOR + 1);
            }
            let low = self.read(IRQ_VECTOR);
            let high = self.read(IRQ_VECTOR + 1);
            self.program_counter = self.hilo_to_u16(high, low);

            self.cycles = 7;
        }
    }

    /// One clock tick. With no cycle owed, the instruction at the program
    /// counter is fetched and executed first; its opcode must be official.
    pub fn clock(&mut self)
        requires
            old(self)@.cycles == 0 ==> old(self)@.can_fetch(),
        ensures
            final(self)@ == old(self)@.clock(),
    {
        if self.cycles == 0 {
            let opcode = self.read(self.program_counter);
            // By the precondition the byte is an opcode.
            if let Some((operation, mode, cycles)) = Operation::decode(opcode) {
                proof {
                    lemma_decoded_cycles(opcode);
                    lemma_wrapping16(self.program_counter, 1);
                }
                self.program_counter = self.program_counter.wrapping_add(1);
                self.cycles = cycles as u64;
                let pg_state = self.program_counter;

                proof {
                    lemma_execute_cost(self@, operation, mode);
                }
                self.execute(operation, mode);

                if self.program_counter == pg_state {
                    proof {
                        lemma_wrapping16(
                            self.program_counter,
                            (mode.instruction_length() - 1) as u16,
                        );
                    }
                    self.program_counter = self.program_counter.wrapping_add(
                        (mode.length() as u16) - 1,
                    );
                }
            }
        }
        self.cycles -= 1;
    }

    // ADDRESSING MODE
    /// Resolves the operand of an instruction in the given mode, with the
    /// program counter at the first operand byte: the effective address, and
    /// whether indexing crossed a page. Nothing changes.
    pub fn get_address(&mut self, addressing_mode: AddressingMode) -> (resolved: (u16, bool))
        ensures
            *final(self) == *old(self),
            resolved.0 == old(self)@.operand_address(addressing_mode),
            resolved.1 == old(self)@.page_crossed(addressing_mode),
    {
        proof {
            let operand = self@.read(self.program_counter);
            lemma_wrapping16(self.program_counter, 1);
            lemma_wrapping8(operand, self.x);
            lemma_wrapping8(operand, self.y);
        }
        match addressing_mode {
            AddressingMode::Implicit => (0, false),
            AddressingMode::Accumulator => (0, false),
            AddressingMode::Immediate => (self.program_counter, false),
            AddressingMode::ZeroPage => (self.read(self.program_counter) as u16, false),
            AddressingMode::ZeroPageX => (
                self.read(self.program_counter).wrapping_add(self.x) as u16,
                false,
            ),
            AddressingMode::ZeroPageY => (
                self.read(self.program_counter).wrapping_add(self.y) as u16,
                false,
            ),
            AddressingMode::Relative => (0, false),
            AddressingMode::Absolute => {
                let low = self.read(self.program_counter);
                let high = self.read(self.program_counter.wrapping_add(1));

                (self.hilo_to_u16(high, low), false)
            },
            AddressingMode::AbsoluteX => {
                let low = self.read(self.program_counter);
                let high = self.read(self.program_counter.wrapping_add(1));

                let address = self.hilo_to_u16(high, low).wrapping_add(self.x as u16);
                proof {
                    lemma_word_bits(high, low);
                    lemma_wrapping16(word(high, low), self.x as u16);
                }
                (address, self.page_cross(address, (high as u16) << 8))
            },
            AddressingMode::AbsoluteY => {
                let low = self.read(self.program_counter);
                let high = self.read(self.program_counter.wrapping_add(1));

                let address = self.hilo_to_u16(high, low).wrapping_add(self.y as u16);
                proof {
                    lemma_word_bits(high, low);
                    lemma_wrapping16(word(high, low), self.y as u16);
                }
                (address, self.page_cross(address, (high as u16) << 8))
            },
            AddressingMode::Indirect => {
                let pointer_low = self.read(self.program_counter);
                let pointer_high = self.read(self.program_counter.wrapping_add(1));

                let pointer = self.hilo_to_u16(pointer_high, pointer_low);
                proof {
                    lemma_wrapping16(pointer, 1);
                }

                let low = self.read(pointer);
                let high = self.read(pointer.wrapping_add(1));

                (self.hilo_to_u16(high, low), false)
            },
            AddressingMode::IndirectX => {
                let pointer = self.read(self.program_counter).wrapping_add(self.x);

                let low = self.read(pointer as u16);
                let high = self.read((pointer as u16) + 1);

                (self.hilo_to_u16(high, low), false)
            },
            AddressingMode::IndirectY => {
                let pointer = self.read(self.program_counter) as u16;

                let low = self.read(pointer);
                let high = self.read(pointer + 1);

                let address = self.hilo_to_u16(high, low).wrapping_add(self.y as u16);
                proof {
                    lemma_word_bits(high, low);
                    lemma_wrapping16(word(high, low), self.y as u16);
                }
                (address, self.page_cross(address, (high as u16) << 8))
            },
        }
    }

    /// Fetches the operand of an instruction in the given mode, and whether
    /// indexing crossed a page. Nothing changes.
    pub fn get_data(&mut self, addressing_mode: AddressingMode) -> (fetched: (u8, bool))
        ensures
            *final(self) == *old(self),
            fetched.0 == old(self)@.operand(addressing_mode),
            fetched.1 == old(self)@.page_crossed(addressing_mode),
    {
        if !((addressing_mode == AddressingMode::Implicit) || (addressing_mode
            == AddressingMode::Accumulator)) {
            let (address, page_boundary_cross) = self.get_address(addressing_mode);

            return (self.read(address), page_boundary_cross);
        } else {
            return (self.a, false);
        }
    }

    // UTILS
    /// Sets the zero flag iff `register` is zero and the negative flag iff its
    /// bit 7 is set.
    pub fn update_zero_and_negative_flags(&mut self, register: u8)
        ensures
            final(self)@ == old(self)@.with_zn(register),
    {
        proof {
            lemma_sign_bits(register);
        }
        self.status.zero = register == 0;
        self.status.negative = register >> 7 != 0;
    }

    /// Owes one more cycle where the mode is the needed one and the condition holds.
    pub fn cycle_if(
        &mut self,
        addressing_mode: AddressingMode,
        needed_addressing_mode: AddressingMode,
        condition: bool,
    )
        requires
            old(self)@.cycles + State::extra_cycle(
                addressing_mode,
                needed_addressing_mode,
                condition,
            ) <= u64::MAX,
        ensures
            final(self)@ == old(self)@.charge(
                State::extra_cycle(addressing_mode, needed_addressing_mode, condition),
            ),
    {
        if needed_addressing_mode == addressing_mode && condition {
            self.cycles += 1;
        }
    }

    /// Owes one more cycle where the mode is one of the three indexed modes
    /// that can cross a page, and it did.
    pub fn indexed_cycles(&mut self, addressing_mode: AddressingMode, page_boundary_crossed: bool)
        requires
            old(self)@.cycles + State::indexed_extra(addressing_mode, page_boundary_crossed)
                <= u64::MAX,
        ensures
            final(self)@ == old(self)@.charge(
                State::indexed_extra(addressing_mode, page_boundary_crossed),
            ),
    {
        self.cycle_if(addressing_mode, AddressingMode::AbsoluteX, page_boundary_crossed);
        self.cycle_if(addressing_mode, AddressingMode::AbsoluteY, page_boundary_crossed);
        self.cycle_if(addressing_mode, AddressingMode::IndirectY, page_boundary_crossed);
    }

    /// Whether two addresses lie on different pages.
    pub fn page_cross(&self, input1: u16, input2: u16) -> (crossed: bool)
        ensures
            crossed == pages_differ(input1, input2),
    {
        proof {
            lemma_page_bits(input1, input2);
        }
        (input1 & 0xFF00) != (input2 & 0xFF00)
    }

    /// Steps the stack pointer up and returns the byte it then refers to.
    pub fn stack_pop(&mut self) -> (data: u8)
        ensures
            final(self)@ == old(self)@.popped(),
            data == old(self)@.pop_value(),
    {
        proof {
            lemma_wrapping8(self.stack_pointer, 1);
        }
        self.stack_pointer = self.stack_pointer.wrapping_add(1);
        self.read(STACK_BASE + (self.stack_pointer as u16))
    }

    /// Stores `data` where the stack pointer refers to and steps it down.
    pub fn stack_push(&mut self, data: u8)
        ensures
            final(self)@ == old(self)@.push(data),
    {
        proof {
            lemma_wrapping8(self.stack_pointer, 1);
        }
        self.write(STACK_BASE + (self.stack_pointer as u16), data);
        self.stack_pointer = self.stack_pointer.wrapping_sub(1);
    }

    /// The word with the given high and low bytes.
    pub fn hilo_to_u16(&self, high: u8, low: u8) -> (value: u16)
        ensures
            value == word(high, low),
    {
        proof {
            lemma_word_bits(high, low);
        }
        (high as u16) << 8 | low as u16
    }

    // COMMONS
    /// Takes the branch where the condition holds: the program counter, which
    /// is at the offset byte, moves past it and by the signed offset, for one
    /// cycle, and two more where that leaves the page.
    pub fn branch(&mut self, _addressing_mode: AddressingMode, condition: bool)
        requires
            old(self)@.cycles + old(self)@.branch_penalty(condition) <= u64::MAX,
        ensures
            final(self)@ == old(self)@.branch(condition),
    {
        if condition {
            let offset = self.read(self.program_counter);
            let jump = offset as i8;
            proof {
                lemma_sign_extension(self.program_counter, offset);
            }

            let old_pc = self.program_counter;
            let target = self.program_counter.wrapping_add(1).wrapping_add(jump as u16);
            let crossed = self.page_cross(old_pc, target);

            self.cycles += 1;
            self.program_counter = target;
            self.cycles += (crossed as u64) * 2;
        }
    }

    /// Performs `operation` in the given mode, with the program counter at the
    /// first operand byte.
    pub fn execute(&mut self, operation: Operation, addressing_mode: AddressingMode)
        requires
            old(self)@.cycles + old(self)@.penalty(operation, addressing_mode) <= u64::MAX,
        ensures
            final(self)@ == old(self)@.execute(operation, addressing_mode),
    {
        proof {
            // Naming the cases lets the solver go through them one by one.
            assert(
                operation is ADC || operation is AND || operation is ASL || operation is BCC
                    || operation is BCS || operation is BEQ || operation is BIT
                    || operation is BMI || operation is BNE || operation is BPL
                    || operation is BRK || operation is BVC || operation is BVS
                    || operation is CLC || operation is CLD || operation is CLI
                    || operation is CLV || operation is CMP || operation is CPX
                    || operation is CPY || operation is DEC || operation is DEX
                    || operation is DEY || operation is EOR || operation is INC
                    || operation is INX || operation is INY || operation is JMP
                    || operation is JSR || operation is LDA || operation is LDX
                    || operation is LDY || operation is LSR || operation is NOP
                    || operation is ORA || operation is PHA || operation is PHP
                    || operation is PLA || operation is PLP || operation is ROL
                    || operation is ROR || operation is RTI || operation is RTS
                    || operation is SBC || operation is SEC || operation is SED
                    || operation is SEI || operation is STA || operation is STX
                    || operation is STY || operation is TAX || operation is TAY
                    || operation is TSX || operation is TXA || operation is TXS
                    || operation is TYA
            );
        }
        match operation {
            Operation::ADC => self.ADC(addressing_mode),
            Operation::AND => self.AND(addressing_mode),
            Operation::ASL => self.ASL(addressing_mode),
            Operation::BCC => self.BCC(addressing_mode),
            Operation::BCS => self.BCS(addressing_mode),
            Operation::BEQ => self.BEQ(addressing_mode),
            Operation::BIT => self.BIT(addressing_mode),
            Operation::BMI => self.BMI(addressing_mode),
            Operation::BNE => self.BNE(addressing_mode),
            Operation::BPL => self.BPL(addressing_mode),
            Operation::BRK => self.BRK(addressing_mode),
            Operation::BVC => self.BVC(addressing_mode),
            Operation::BVS => self.BVS(addressing_mode),
            Operation::CLC => self.CLC(addressing_mode),
            Operation::CLD => self.CLD(addressing_mode),
            Operation::CLI => self.CLI(addressing_mode),
            Operation::CLV => self.CLV(addressing_mode),
            Operation::CMP => self.CMP(addressing_mode),
            Operation::CPX => self.CPX(addressing_mode),
            Operation::CPY => self.CPY(addressing_mode),
            Operation::DEC => self.DEC(addressing_mode),
            Operation::DEX => self.DEX(addressing_mode),
            Operation::DEY => self.DEY(addressing_mode),
            Operation::EOR => self.EOR(addressing_mode),
            Operation::INC => self.INC(addressing_mode),
            Operation::INX => self.INX(addressing_mode),
            Operation::INY => self.INY(addressing_mode),
            Operation::JMP => self.JMP(addressing_mode),
            Operation::JSR => self.JSR(addressing_mode),
            Operation::LDA => self.LDA(addressing_mode),
            Operation::LDX => self.LDX(addressing_mode),
            Operation::LDY => self.LDY(addressing_mode),
            Operation::LSR => self.LSR(addressing_mode),
            Operation::NOP => self.NOP(addressing_mode),
            Operation::ORA => self.ORA(addressing_mode),
            Operation::PHA => self.PHA(addressing_mode),
            Operation::PHP => self.PHP(addressing_mode),
            Operation::PLA => self.PLA(addressing_mode),
            Operation::PLP => self.PLP(addressing_mode),
            Operation::ROL => self.ROL(addressing_mode),
            Operation::ROR => self.ROR(addressing_mode),
            Operation::RTI => self.RTI(addressing_mode),
            Operation::RTS => self.RTS(addressing_mode),
            Operation::SBC => self.SBC(addressing_mode),
            Operation::SEC => self.SEC(addressing_mode),
            Operation::SED => self.SED(addressing_mode),
            Operation::SEI => self.SEI(addressing_mode),
            Operation::STA => self.STA(addressing_mode),
            Operation::STX => self.STX(addressing_mode),
            Operation::STY => self.STY(addressing_mode),
            Operation::TAX => self.TAX(addressing_mode),
            Operation::TAY => self.TAY(addressing_mode),
            Operation::TSX => self.TSX(addressing_mode),
            Operation::TXA => self.TXA(addressing_mode),
            Operation::TXS => self.TXS(addressing_mode),
            Operation::TYA => self.TYA(addressing_mode),
        }
    }
}

} // verus!
