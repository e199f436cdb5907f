//! The operations of the instruction set. Each takes the addressing mode of
//! the instruction and finds the program counter at the first operand byte.

use crate::arith::{
    lemma_overflow_bits, lemma_shift_bits, lemma_sign_bits, lemma_split_bits, lemma_wrap16,
    lemma_wrapping16, lemma_wrapping8,
};
use crate::constants::{lemma_masked_bits, AddressingMode, Status};
use crate::cpu::CPU;
use crate::state::{State, IRQ_VECTOR};
use vstd::prelude::*;

verus! {

impl CPU {
    // MEMORY OPERATIONS
    /// Load accumulator.
    #[allow(non_snake_case)]
    pub fn LDA(&mut self, addressing_mode: AddressingMode)
        requires
            old(self)@.cycles + old(self)@.index_penalty(addressing_mode) <= u64::MAX,
        ensures
            final(self)@ == old(self)@.lda(addressing_mode),
    {
        let (value, page_boundary_cross) = self.get_data(addressing_mode);
        self.a = value;

        self.indexed_cycles(addressing_mode, page_boundary_cross);

        self.update_zero_and_negative_flags(self.a);
    }

    /// Load X register.
    #[allow(non_snake_case)]
    pub fn LDX(&mut self, addressing_mode: AddressingMode)
        requires
            old(self)@.cycles + State::extra_cycle(
                addressing_mode,
                AddressingMode::AbsoluteY,
                old(self)@.page_crossed(addressing_mode),
            ) <= u64::MAX,
        ensures
            final(self)@ == old(self)@.ldx(addressing_mode),
    {
        let (value, page_boundary_cross) = self.get_data(addressing_mode);
        self.x = value;

        self.cycle_if(addressing_mode, AddressingMode::AbsoluteY, page_boundary_cross);

        self.update_zero_and_negative_flags(self.x);
    }

    /// Load Y register.
    #[allow(non_snake_case)]
    pub fn LDY(&mut self, addressing_mode: AddressingMode)
        requires
            old(self)@.cycles + State::extra_cycle(
                addressing_mode,
                AddressingMode::AbsoluteX,
                old(self)@.page_crossed(addressing_mode),
            ) <= u64::MAX,
        ensures
            final(self)@ == old(self)@.ldy(addressing_mode),
    {
        let (value, page_boundary_cross) = self.get_data(addressing_mode);
        self.y = value;

        self.cycle_if(addressing_mode, AddressingMode::AbsoluteX, page_boundary_cross);

        self.update_zero_and_negative_flags(self.y);
    }

    /// Store accumulator.
    #[allow(non_snake_case)]
    pub fn STA(&mut self, addressing_mode: AddressingMode)
        ensures
            final(self)@ == old(self)@.sta(addressing_mode),
    {
        let value = self.get_address(addressing_mode).0;

        self.write(value, self.a);
    }

    /// Store X register.
    #[allow(non_snake_case)]
    pub fn STX(&mut self, addressing_mode: AddressingMode)
        ensures
            final(self)@ == old(self)@.stx(addressing_mode),
    {
        let value = self.get_address(addressing_mode).0;

        self.write(value, self.x);
    }

    /// Store Y register.
    #[allow(non_snake_case)]
    pub fn STY(&mut self, addressing_mode: AddressingMode)
        ensures
            final(self)@ == old(self)@.sty(addressing_mode),
    {
        let value = self.get_address(addressing_mode).0;

        self.write(value, self.y);
    }

    // REGISTER TRANSFER OPERATIONS
    /// Transfer accumulator to X.
    #[allow(non_snake_case)]
    pub fn TAX(&mut self, _addressing_mode: AddressingMode)
        ensures
            final(self)@ == old(self)@.tax(),
    {
        self.x = self.a;

        self.update_zero_and_negative_flags(self.x);
    }

    /// Transfer accumulator to Y.
    #[allow(non_snake_case)]
    pub fn TAY(&mut self, _addressing_mode: AddressingMode)
        ensures
            final(self)@ == old(self)@.tay(),
    {
        self.y = self.a;

        self.update_zero_and_negative_flags(self.y);
    }

    /// Transfer stack pointer to X.
    #[allow(non_snake_case)]
    pub fn TSX(&mut self, _addressing_mode: AddressingMode)
        ensures
            final(self)@ == old(self)@.tsx(),
    {
        self.x = self.stack_pointer;

        self.update_zero_and_negative_flags(self.x);
    }

    /// Transfer X to accumulator.
    #[allow(non_snake_case)]
    pub fn TXA(&mut self, _addressing_mode: AddressingMode)
        ensures
            final(self)@ == old(self)@.txa(),
    {
        self.a = self.x;

        self.update_zero_and_negative_flags(self.x);
    }

    /// Transfer X to stack pointer. The flags stay.
    #[allow(non_snake_case)]
    pub fn TXS(&mut self, _addressing_mode: AddressingMode)
        ensures
            final(self)@ == old(self)@.txs(),
    {
        self.stack_pointer = self.x;
    }

    /// Transfer Y to accumulator.
    #[allow(non_snake_case)]
    pub fn TYA(&mut self, _addressing_mode: AddressingMode)
        ensures
            final(self)@ == old(self)@.tya(),
    {
        self.a = self.y;

        self.update_zero_and_negative_flags(self.y);
    }

    // STACK OPERATIONS
    /// Push accumulator.
    #[allow(non_snake_case)]
    pub fn PHA(&mut self, _addressing_mode: AddressingMode)
        ensures
            final(self)@ == old(self)@.pha(),
    {
        self.stack_push(self.a);
    }

    /// Push processor status, with break and unused set in the pushed byte.
    #[allow(non_snake_case)]
    pub fn PHP(&mut self, _addressing_mode: AddressingMode)
        ensures
            final(self)@ == old(self)@.php(),
    {
        let mut status = self.status.clone();
        status.break_command = true;
        status.unused = true;

        self.stack_push(status.to_byte());
    }

    /// Pull accumulator.
    #[allow(non_snake_case)]
    pub fn PLA(&mut self, _addressing_mode: AddressingMode)
        ensures
            final(self)@ == old(self)@.pla(),
    {
        let value = self.stack_pop();
        self.a = value;

        self.update_zero_and_negative_flags(self.a);
    }

    /// Pull processor status; break is then clear and unused set.
    #[allow(non_snake_case)]
    pub fn PLP(&mut self, _addressing_mode: AddressingMode)
        ensures
            final(self)@ == old(self)@.plp(),
    {
        self.status = Status::from_byte(self.stack_pop());
        self.status.break_command = false;
        self.status.unused = true;
    }

    // LOGICAL OPERATIONS
    /// Logical AND into the accumulator.
    #[allow(non_snake_case)]
    pub fn AND(&mut self, addressing_mode: AddressingMode)
        requires
            old(self)@.cycles + old(self)@.index_penalty(addressing_mode) <= u64::MAX,
        ensures
            final(self)@ == old(self)@.and(addressing_mode),
    {
        let (value, page_boundary_cross) = self.get_data(addressing_mode);
        self.a &= value;

        self.indexed_cycles(addressing_mode, page_boundary_cross);

        self.update_zero_and_negative_flags(self.a);
    }

    /// Exclusive OR into the accumulator.
    #[allow(non_snake_case)]
    pub fn EOR(&mut self, addressing_mode: AddressingMode)
        requires
            old(self)@.cycles + old(self)@.index_penalty(addressing_mode) <= u64::MAX,
        ensures
            final(self)@ == old(self)@.eor(addressing_mode),
    {
        let (value, page_boundary_cross) = self.get_data(addressing_mode);
        self.a ^= value;

        self.indexed_cycles(addressing_mode, page_boundary_cross);

        self.update_zero_and_negative_flags(self.a);
    }

    /// Logical OR into the accumulator.
    #[allow(non_snake_case)]
    pub fn ORA(&mut self, addressing_mode: AddressingMode)
        requires
            old(self)@.cycles + old(self)@.index_penalty(addressing_mode) <= u64::MAX,
        ensures
            final(self)@ == old(self)@.ora(addressing_mode),
    {
        let (value, page_boundary_cross) = self.get_data(addressing_mode);
        self.a |= value;

        self.indexed_cycles(addressing_mode, page_boundary_cross);

        self.update_zero_and_negative_flags(self.a);
    }

    // ARITHMETIC OPERATIONS
    /// Add with carry.
    #[allow(non_snake_case)]
    pub fn ADC(&mut self, addressing_mode: AddressingMode)
        requires
            old(self)@.cycles + old(self)@.index_penalty(addressing_mode) <= u64::MAX,
        ensures
            final(self)@ == old(self)@.adc(addressing_mode),
    {
        let (value, page_boundary_cross) = self.get_data(addressing_mode);
        let addition = (self.a as u16).wrapping_add(value as u16).wrapping_add(
            self.status.carry as u16,
        );
        let result = addition as u8;
        proof {
            let carry = self.status.carry as u16;
            lemma_wrapping16(self.a as u16, value as u16);
            lemma_wrap16(self.a + value);
            lemma_wrapping16((self.a + value) as u16, carry);
            lemma_wrap16(self.a + value + carry);
            lemma_split_bits(addition);
            lemma_overflow_bits(value, self.a, result);
        }

        self.status.carry = addition > 0xFF;
        self.status.overflow = (value ^ result) & (result ^ self.a) & 0x80 != 0;

        self.indexed_cycles(addressing_mode, page_boundary_cross);

        self.a = result;
        self.update_zero_and_negative_flags(self.a);
    }

    /// Decrement memory.
    #[allow(non_snake_case)]
    pub fn DEC(&mut self, addressing_mode: AddressingMode)
        ensures
            final(self)@ == old(self)@.dec(addressing_mode),
    {
        let address = self.get_address(addressing_mode).0;
        let value = self.read(address);
        proof {
            lemma_wrapping8(value, 1);
        }
        let result = value.wrapping_sub(1);
        self.write(address, result);

        self.update_zero_and_negative_flags(result);
    }

    /// Decrement X register.
    #[allow(non_snake_case)]
    pub fn DEX(&mut self, _addressing_mode: AddressingMode)
        ensures
            final(self)@ == old(self)@.dex(),
    {
        proof {
            lemma_wrapping8(self.x, 1);
        }
        self.x = self.x.wrapping_sub(1);

        self.update_zero_and_negative_flags(self.x);
    }

    /// Decrement Y register.
    #[allow(non_snake_case)]
    pub fn DEY(&mut self, _addressing_mode: AddressingMode)
        ensures
            final(self)@ == old(self)@.dey(),
    {
        proof {
            lemma_wrapping8(self.y, 1);
        }
        self.y = self.y.wrapping_sub(1);

        self.update_zero_and_negative_flags(self.y);
    }

    /// Increment memory.
    #[allow(non_snake_case)]
    pub fn INC(&mut self, addressing_mode: AddressingMode)
        ensures
            final(self)@ == old(self)@.inc(addressing_mode),
    {
        let address = self.get_address(addressing_mode).0;
        let value = self.read(address);
        proof {
            lemma_wrapping8(value, 1);
        }
        let result = value.wrapping_add(1);
        self.write(address, result);

        self.update_zero_and_negative_flags(result);
    }

    /// Increment X register.
    #[allow(non_snake_case)]
    pub fn INX(&mut self, _addressing_mode: AddressingMode)
        ensures
            final(self)@ == old(self)@.inx(),
    {
        proof {
            lemma_wrapping8(self.x, 1);
        }
        self.x = self.x.wrapping_add(1);

        self.update_zero_and_negative_flags(self.x);
    }

    /// Increment Y register.
    #[allow(non_snake_case)]
    pub fn INY(&mut self, _addressing_mode: AddressingMode)
        ensures
            final(self)@ == old(self)@.iny(),
    {
        proof {
            lemma_wrapping8(self.y, 1);
        }
        self.y = self.y.wrapping_add(1);

        self.update_zero_and_negative_flags(self.y);
    }

    /// Subtract with carry.
    #[allow(non_snake_case)]
    pub fn SBC(&mut self, addressing_mode: AddressingMode)
        requires
            old(self)@.cycles + old(self)@.index_penalty(addressing_mode) <= u64::MAX,
        ensures
            final(self)@ == old(self)@.sbc(addressing_mode),
    {
        let (mut value, page_boundary_cross) = self.get_data(addressing_mode);
        proof {
            lemma_wrapping8(0, value);
        }

        value = 0u8.wrapping_sub(value);

        let addition = (self.a as u16).wrapping_add(value as u16).wrapping_sub(
            !self.status.carry as u16,
        );
        let result = addition as u8;
        proof {
            let borrow = !self.status.carry as u16;
            lemma_wrapping16(self.a as u16, value as u16);
            lemma_wrap16(self.a + value);
            lemma_wrapping16((self.a + value) as u16, borrow);
            lemma_split_bits(addition);
            lemma_overflow_bits(value, self.a, result);
        }

        self.status.carry = addition > 0xFF;
        self.status.overflow = (value ^ result) & (result ^ self.a) & 0x80 != 0;

        self.indexed_cycles(addressing_mode, page_boundary_cross);

        self.a = result;
        self.update_zero_and_negative_flags(self.a);
    }

    // BIT OPERATIONS
    /// Arithmetic shift left.
    #[allow(non_snake_case)]
    pub fn ASL(&mut self, addressing_mode: AddressingMode)
        ensures
            final(self)@ == old(self)@.asl(addressing_mode),
    {
        if addressing_mode == AddressingMode::Accumulator {
            proof {
                lemma_sign_bits(self.a);
                lemma_shift_bits(self.a, 0);
            }
            self.status.carry = (self.a & 0x80) != 0;
            self.a <<= 1;

            self.update_zero_and_negative_flags(self.a);
        } else {
            let address = self.get_address(addressing_mode).0;
            let value = self.read(address);
            proof {
                lemma_sign_bits(value);
                lemma_shift_bits(value, 0);
            }

            self.status.carry = (value & 0x80) != 0;
            self.write(address, value << 1);

            self.update_zero_and_negative_flags(value << 1);
        }
    }

    /// Logical shift right.
    #[allow(non_snake_case)]
    pub fn LSR(&mut self, addressing_mode: AddressingMode)
        ensures
            final(self)@ == old(self)@.lsr(addressing_mode),
    {
        if addressing_mode == AddressingMode::Accumulator {
            proof {
                lemma_shift_bits(self.a, 0);
            }
            self.status.carry = (self.a & 0x01) != 0;
            self.a >>= 1;

            self.update_zero_and_negative_flags(self.a);
        } else {
            let address = self.get_address(addressing_mode).0;
            let value = self.read(address);
            proof {
                lemma_shift_bits(value, 0);
            }

            self.status.carry = (value & 0x01) != 0;
            let result = value >> 1;
            self.write(address, result);

            self.update_zero_and_negative_flags(result);
        }
    }

    /// Rotate left through the carry.
    #[allow(non_snake_case)]
    pub fn ROL(&mut self, addressing_mode: AddressingMode)
        ensures
            final(self)@ == old(self)@.rol(addressing_mode),
    {
        if addressing_mode == AddressingMode::Accumulator {
            let carry = self.status.carry as u8;
            proof {
                lemma_sign_bits(self.a);
                lemma_shift_bits(self.a, carry);
            }
            self.status.carry = (self.a & 0x80) != 0;
            self.a = (self.a << 1) | carry;

            self.update_zero_and_negative_flags(self.a);
        } else {
            let address = self.get_address(addressing_mode).0;
            let value = self.read(address);

            let carry = self.status.carry as u8;
            proof {
                lemma_sign_bits(value);
                lemma_shift_bits(value, carry);
            }
            self.status.carry = (value & 0x80) != 0;
            let result = (value << 1) | carry;
            self.write(address, result);

            self.update_zero_and_negative_flags(result);
        }
    }

    /// Rotate right through the carry.
    #[allow(non_snake_case)]
    pub fn ROR(&mut self, addressing_mode: AddressingMode)
        ensures
            final(self)@ == old(self)@.ror(addressing_mode),
    {
        if addressing_mode == AddressingMode::Accumulator {
            let carry = self.status.carry as u8;
            proof {
                lemma_shift_bits(self.a, carry);
            }
            self.status.carry = (self.a & 0x01) != 0;
            self.a = (self.a >> 1) | (carry << 7);

            self.update_zero_and_negative_flags(self.a);
        } else {
            let address = self.get_address(addressing_mode).0;
            let value = self.read(address);

            let carry = self.status.carry as u8;
            proof {
                lemma_shift_bits(value, carry);
            }
            self.status.carry = (value & 0x01) != 0;
            let result = (value >> 1) | (carry << 7);
            self.write(address, result);

            self.update_zero_and_negative_flags(result);
        }
    }

    // SUBROUTINE OPERATIONS
    /// Jump.
    #[allow(non_snake_case)]
    pub fn JMP(&mut self, addressing_mode: AddressingMode)
        ensures
            final(self)@ == old(self)@.jmp(addressing_mode),
    {
        let address = self.get_address(addressing_mode).0;

        self.program_counter = address;
    }

    /// Jump to subroutine.
    #[allow(non_snake_case)]
    pub fn JSR(&mut self, addressing_mode: AddressingMode)
        ensures
            final(self)@ == old(self)@.jsr(addressing_mode),
    {
        let address = self.get_address(addressing_mode).0;

        proof {
            lemma_wrapping16(self.program_counter, 1);
        }
        self.program_counter = self.program_counter.wrapping_add(1);
        proof {
            lemma_split_bits(self.program_counter);
        }

        self.stack_push((self.program_counter >> 8) as u8);
        self.stack_push((self.program_counter & 0xFF) as u8);

        self.program_counter = address;
    }

    /// Return from interrupt.
    #[allow(non_snake_case)]
    pub fn RTI(&mut self, _addressing_mode: AddressingMode)
        ensures
            final(self)@ == old(self)@.rti(),
    {
        self.status = Status::from_byte(self.stack_pop());
        self.status.break_command = false;
        self.status.unused = true;

        let low = self.stack_pop();
        let high = self.stack_pop();
        self.program_counter = self.hilo_to_u16(high, low);
    }

    /// Return from subroutine.
    #[allow(non_snake_case)]
    pub fn RTS(&mut self, _addressing_mode: AddressingMode)
        ensures
            final(self)@ == old(self)@.rts(),
    {
        let low = self.stack_pop();
        let high = self.stack_pop();

        proof {
            lemma_wrapping16(crate::arith::word(high, low), 1);
        }
        self.program_counter = self.hilo_to_u16(high, low).wrapping_add(1);
    }

    // COMPARISON OPERATIONS
    /// Bit test.
    #[allow(non_snake_case)]
    pub fn BIT(&mut self, addressing_mode: AddressingMode)
        ensures
            final(self)@ == old(self)@.bit(addressing_mode),
    {
        let address = self.get_address(addressing_mode).0;
        let value = self.read(address);
        let result = self.a & value;
        proof {
            lemma_sign_bits(value);
            lemma_masked_bits(value);
        }

        self.status.zero = result == 0;
        self.status.overflow = (value & 0x40) != 0;
        self.status.negative = (value & 0x80) != 0;
    }

    /// Compare with the accumulator.
    #[allow(non_snake_case)]
    pub fn CMP(&mut self, addressing_mode: AddressingMode)
        requires
            old(self)@.cycles + old(self)@.index_penalty(addressing_mode) <= u64::MAX,
        ensures
            final(self)@ == old(self)@.cmp(addressing_mode),
    {
        let (value, page_boundary_cross) = self.get_data(addressing_mode);

        proof {
            lemma_wrapping8(self.a, value);
        }
        self.status.carry = self.a >= value;

        self.indexed_cycles(addressing_mode, page_boundary_cross);

        self.update_zero_and_negative_flags(self.a.wrapping_sub(value));
    }

    /// Compare with the X register.
    #[allow(non_snake_case)]
    pub fn CPX(&mut self, addressing_mode: AddressingMode)
        ensures
            final(self)@ == old(self)@.cpx(addressing_mode),
    {
        let value = self.get_data(addressing_mode).0;

        proof {
            lemma_wrapping8(self.x, value);
        }
        self.status.carry = self.x >= value;

        self.update_zero_and_negative_flags(self.x.wrapping_sub(value));
    }

    /// Compare with the Y register.
    #[allow(non_snake_case)]
    pub fn CPY(&mut self, addressing_mode: AddressingMode)
        ensures
            final(self)@ == old(self)@.cpy(addressing_mode),
    {
        let value = self.get_data(addressing_mode).0;

        proof {
            lemma_wrapping8(self.y, value);
        }
        self.status.carry = self.y >= value;

        self.update_zero_and_negative_flags(self.y.wrapping_sub(value));
    }

    // BRANCHING OPERATIONS
    /// Branch if carry clear.
    #[allow(non_snake_case)]
    pub fn BCC(&mut self, addressing_mode: AddressingMode)
        requires
            old(self)@.cycles + old(self)@.branch_penalty(!old(self)@.status.carry) <= u64::MAX,
        ensures
            final(self)@ == old(self)@.bcc(),
    {
        self.branch(addressing_mode, !self.status.carry);
    }

    /// Branch if carry set.
    #[allow(non_snake_case)]
    pub fn BCS(&mut self, addressing_mode: AddressingMode)
        requires
            old(self)@.cycles + old(self)@.branch_penalty(old(self)@.status.carry) <= u64::MAX,
        ensures
            final(self)@ == old(self)@.bcs(),
    {
        self.branch(addressing_mode, self.status.carry);
    }

    /// Branch if equal, that is, if the zero flag is set.
    #[allow(non_snake_case)]
    pub fn BEQ(&mut self, addressing_mode: AddressingMode)
        requires
            old(self)@.cycles + old(self)@.branch_penalty(old(self)@.status.zero) <= u64::MAX,
        ensures
            final(self)@ == old(self)@.beq(),
    {
        self.branch(addressing_mode, self.status.zero);
    }

    /// Branch if minus.
    #[allow(non_snake_case)]
    pub fn BMI(&mut self, addressing_mode: AddressingMode)
        requires
            old(self)@.cycles + old(self)@.branch_penalty(old(self)@.status.negative) <= u64::MAX,
        ensures
            final(self)@ == old(self)@.bmi(),
    {
        self.branch(addressing_mode, self.status.negative);
    }

    /// Branch if not equal, that is, if the zero flag is clear.
    #[allow(non_snake_case)]
    pub fn BNE(&mut self, addressing_mode: AddressingMode)
        requires
            old(self)@.cycles + old(self)@.branch_penalty(!old(self)@.status.zero) <= u64::MAX,
        ensures
            final(self)@ == old(self)@.bne(),
    {
        self.branch(addressing_mode, !self.status.zero);
    }

    /// Branch if positive.
    #[allow(non_snake_case)]
    pub fn BPL(&mut self, addressing_mode: AddressingMode)
        requires
            old(self)@.cycles + old(self)@.branch_penalty(!old(self)@.status.negative) <= u64::MAX,
        ensures
            final(self)@ == old(self)@.bpl(),
    {
        self.branch(addressing_mode, !self.status.negative);
    }

    /// Branch if overflow clear.
    #[allow(non_snake_case)]
    pub fn BVC(&mut self, addressing_mode: AddressingMode)
        requires
            old(self)@.cycles + old(self)@.branch_penalty(!old(self)@.status.overflow) <= u64::MAX,
        ensures
            final(self)@ == old(self)@.bvc(),
    {
        self.branch(addressing_mode, !self.status.overflow);
    }

    /// Branch if overflow set.
    #[allow(non_snake_case)]
    pub fn BVS(&mut self, addressing_mode: AddressingMode)
        requires
            old(self)@.cycles + old(self)@.branch_penalty(old(self)@.status.overflow) <= u64::MAX,
        ensures
            final(self)@ == old(self)@.bvs(),
    {
        self.branch(addressing_mode, self.status.overflow);
    }

    // STATUS & SYSTEM OPERATIONS
    /// Force interrupt: the processor continues at the interrupt vector and
    /// latches `complete`.
    #[allow(non_snake_case)]
    pub fn BRK(&mut self, _addressing_mode: AddressingMode)
        ensures
            final(self)@ == old(self)@.brk(),
    {
        proof {
            lemma_wrapping16(self.program_counter, 1);
        }
        self.program_counter = self.program_counter.wrapping_add(1);
        proof {
            lemma_split_bits(self.program_counter);
        }

        self.stack_push((self.program_counter >> 8) as u8);
        self.stack_push(self.program_counter as u8);

        self.status.break_command = true;
        self.stack_push(self.status.to_byte());
        self.status.break_command = false;

        proof {
            lemma_wrap16(IRQ_VECTOR + 1);
        }
        let low = self.read(IRQ_VECTOR);
        let high = self.read(IRQ_VECTOR + 1);
        self.program_counter = self.hilo_to_u16(high, low);

        self.complete = true;
    }

    /// Clear carry flag.
    #[allow(non_snake_case)]
    pub fn CLC(&mut self, _addressing_mode: AddressingMode)
        ensures
            final(self)@ == old(self)@.clc(),
    {
        self.status.carry = false;
    }

    /// Clear decimal mode.
    #[allow(non_snake_case)]
    pub fn CLD(&mut self, _addressing_mode: AddressingMode)
        ensures
            final(self)@ == old(self)@.cld(),
    {
        self.status.decimal = false;
    }

    /// Clear interrupt disable.
    #[allow(non_snake_case)]
    pub fn CLI(&mut self, _addressing_mode: AddressingMode)
        ensures
            final(self)@ == old(self)@.cli(),
    {
        self.status.interrupt = false;
    }

    /// Clear overflow flag.
    #[allow(non_snake_case)]
    pub fn CLV(&mut self, _addressing_mode: AddressingMode)
        ensures
            final(self)@ == old(self)@.clv(),
    {
        self.status.overflow = false;
    }

    /// No operation.
    #[allow(non_snake_case)]
    pub fn NOP(&mut self, _addressing_mode: AddressingMode)
        ensures
            *final(self) == *old(self),
    {
    }

    /// Set carry flag.
    #[allow(non_snake_case)]
    pub fn SEC(&mut self, _addressing_mode: AddressingMode)
        ensures
            final(self)@ == old(self)@.sec(),
    {
        self.status.carry = true;
    }

    /// Set decimal mode.
    #[allow(non_snake_case)]
    pub fn SED(&mut self, _addressing_mode: AddressingMode)
        ensures
            final(self)@ == old(self)@.sed(),
    {
        self.status.decimal = true;
    }

    /// Set interrupt disable.
    #[allow(non_snake_case)]
    pub fn SEI(&mut self, _addressing_mode: AddressingMode)
        ensures
            final(self)@ == old(self)@.sei(),
    {
        self.status.interrupt = true;
    }
}

} // verus!
