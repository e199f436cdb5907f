//! Laws that hold of the processor model in every state.

use crate::arith::{
    high_byte, lemma_sign_bits, lemma_split_bits, lemma_wrap16, lemma_wrap8, low_byte, signed,
    wrap16, wrap8,
};
use crate::constants::{decode, AddressingMode, Operation};
use crate::state::{lemma_execute_cost, State};
use vstd::prelude::*;

verus! {

impl State {
    /// The state after pushing `bytes` one by one, the first of them first.
    pub open spec fn push_all(self, bytes: Seq<u8>) -> State
        decreases bytes.len(),
    {
        if bytes.len() == 0 {
            self
        } else {
            self.push_all(bytes.drop_last()).push(bytes.last())
        }
    }

    /// The state after `count` pops.
    pub open spec fn popped_times(self, count: nat) -> State
        decreases count,
    {
        if count == 0 {
            self
        } else {
            self.popped().popped_times((count - 1) as nat)
        }
    }

    /// The bytes that `count` pops return, the first popped first.
    pub open spec fn pop_values(self, count: nat) -> Seq<u8>
        decreases count,
    {
        if count == 0 {
            Seq::empty()
        } else {
            seq![self.pop_value()] + self.popped().pop_values((count - 1) as nat)
        }
    }

    /// The address in the stack page that lies `distance` above the stack pointer,
    /// wrapping within the page.
    pub open spec fn stack_slot(self, distance: int) -> int {
        0x0100 + (self.stack_pointer + distance) % 256
    }

    /// Whether `operation` sets the zero and negative flags from a result.
    pub open spec fn sets_zero_and_negative(operation: Operation) -> bool {
        match operation {
            Operation::LDA
            | Operation::LDX
            | Operation::LDY
            | Operation::TAX
            | Operation::TAY
            | Operation::TSX
            | Operation::TXA
            | Operation::TYA
            | Operation::PLA
            | Operation::AND
            | Operation::EOR
            | Operation::ORA
            | Operation::ADC
            | Operation::SBC
            | Operation::DEC
            | Operation::DEX
            | Operation::DEY
            | Operation::INC
            | Operation::INX
            | Operation::INY
            | Operation::ASL
            | Operation::LSR
            | Operation::ROL
            | Operation::ROR
            | Operation::CMP
            | Operation::CPX
            | Operation::CPY => true,
            _ => false,
        }
    }

    /// The result that `operation` leaves behind: the register or the byte of
    /// memory that it wrote, read back from the state after it; for the
    /// comparisons, which write nothing, the difference modulo 256.
    pub open spec fn result(self, operation: Operation, mode: AddressingMode) -> u8 {
        let after = self.execute(operation, mode);
        match operation {
            Operation::LDX
            | Operation::TAX
            | Operation::TSX
            | Operation::DEX
            | Operation::INX => after.x,
            Operation::LDY | Operation::TAY | Operation::DEY | Operation::INY => after.y,
            Operation::DEC | Operation::INC => after.read(self.operand_address(mode)),
            Operation::ASL | Operation::LSR | Operation::ROL | Operation::ROR => if mode
                == AddressingMode::Accumulator {
                after.a
            } else {
                after.read(self.operand_address(mode))
            },
            Operation::CMP => wrap8(self.a - self.operand(mode)),
            Operation::CPX => wrap8(self.x - self.operand(mode)),
            Operation::CPY => wrap8(self.y - self.operand(mode)),
            _ => after.a,
        }
    }
}

/// Reset idempotence: a second reset changes nothing.
pub proof fn lemma_reset_idempotent(state: State)
    ensures
        state.reset().reset() == state.reset(),
{
}

/// Flag discipline: after any operation that sets zero and negative from its
/// result, zero is set iff the result is 0, and negative is bit 7 of the result.
pub proof fn lemma_flag_discipline(state: State, operation: Operation, mode: AddressingMode)
    requires
        state.wf(),
        State::sets_zero_and_negative(operation),
    ensures
        ({
            let after = state.execute(operation, mode);
            let result = state.result(operation, mode);
            &&& after.status.zero == (result == 0)
            &&& after.status.negative == ((result >> 7) & 1 == 1)
        }),
{
    lemma_sign_bits(state.result(operation, mode));
}

/// Register wraparound: the arithmetic on the index registers, on memory and
/// on the accumulator is modulo 256. Subtraction gives the difference less the
/// borrow, whatever way the sum is formed.
pub proof fn lemma_register_wraparound(state: State, mode: AddressingMode)
    requires
        state.wf(),
    ensures
        state.inx().x == (state.x + 1) % 256,
        state.iny().y == (state.y + 1) % 256,
        state.dex().x == (state.x - 1) % 256,
        state.dey().y == (state.y - 1) % 256,
        state.inc(mode).read(state.operand_address(mode)) == (state.read(
            state.operand_address(mode),
        ) + 1) % 256,
        state.dec(mode).read(state.operand_address(mode)) == (state.read(
            state.operand_address(mode),
        ) - 1) % 256,
        state.adc(mode).a == (state.a + state.operand(mode) + state.carry_in()) % 256,
        state.sbc(mode).a == (state.a - state.operand(mode) - (1 - state.carry_in())) % 256,
        state.asl(AddressingMode::Accumulator).a == (state.a * 2) % 256,
        state.rol(AddressingMode::Accumulator).a == (state.a * 2 + state.carry_in()) % 256,
{
    let addr = state.operand_address(mode);
    let operand = state.operand(mode);
    lemma_wrap8(state.a * 2);
    lemma_wrap8(state.a * 2 + state.carry_in());
    lemma_wrap8(state.x + 1);
    lemma_wrap8(state.y + 1);
    lemma_wrap8(state.x - 1);
    lemma_wrap8(state.y - 1);
    lemma_wrap8(state.read(addr) + 1);
    lemma_wrap8(state.read(addr) - 1);
    lemma_wrap8(state.a + operand + state.carry_in());
    lemma_difference_wraps(state.a, operand, 1 - state.carry_in());
}

/// The low byte of the sum that subtraction forms is the difference modulo 256.
proof fn lemma_difference_wraps(accumulator: u8, operand: u8, borrow: int)
    requires
        0 <= borrow <= 1,
    ensures
        wrap8(wrap16(accumulator + wrap8(-(operand as int)) - borrow) as int) == (accumulator
            - operand - borrow) % 256,
{
    let negated = wrap8(-(operand as int));
    lemma_wrap8(-(operand as int));
    let sum = accumulator + negated - borrow;
    lemma_wrap16(sum);
    lemma_wrap8(wrap16(sum) as int);
    if operand == 0 {
        assert(negated == 0);
        if sum < 0 {
            assert(wrap16(sum) == 65535);
        }
    } else {
        assert(negated == 256 - operand);
        assert(sum == accumulator - operand - borrow + 256);
    }
}

/// Stack pointer wraparound: a push steps the stack pointer down and a pop
/// steps it up, modulo 256, so that the stack stays in page 1.
pub proof fn lemma_stack_pointer_wraparound(state: State, data: u8)
    ensures
        state.push(data).stack_pointer == (state.stack_pointer - 1) % 256,
        state.popped().stack_pointer == (state.stack_pointer + 1) % 256,
        0x0100 <= state.stack_address() <= 0x01FF,
{
    lemma_wrap8(state.stack_pointer - 1);
    lemma_wrap8(state.stack_pointer + 1);
}

/// Program counter wraparound: fetching, branching and returning move the
/// program counter modulo 65536.
pub proof fn lemma_program_counter_wraparound(state: State)
    ensures
        state.fetched().program_counter == (state.program_counter + 1) % 65536,
        state.branch(true).program_counter == (state.program_counter + 1 + signed(
            state.read(state.program_counter),
        )) % 65536,
        state.rts().program_counter == (state.pop_word_value() + 1) % 65536,
{
    lemma_wrap16(state.program_counter + 1);
    lemma_wrap16(state.program_counter + 1 + signed(state.read(state.program_counter)));
    lemma_wrap16(state.pop_word_value() + 1);
}

/// Address wraparound: indexing a zero-page address stays in page zero, and
/// indexing an absolute or indirect address wraps around the end of memory.
pub proof fn lemma_address_wraparound(state: State)
    ensures
        state.operand_address(AddressingMode::ZeroPageX) == (state.read(state.program_counter)
            + state.x) % 256,
        state.operand_address(AddressingMode::ZeroPageY) == (state.read(state.program_counter)
            + state.y) % 256,
        state.operand_address(AddressingMode::AbsoluteX) == (state.read_word(
            state.program_counter,
        ) + state.x) % 65536,
        state.operand_address(AddressingMode::AbsoluteY) == (state.read_word(
            state.program_counter,
        ) + state.y) % 65536,
        state.operand_address(AddressingMode::IndirectY) == (state.base_address(
            AddressingMode::IndirectY,
        ) + state.y) % 65536,
{
    lemma_wrap8(state.read(state.program_counter) + state.x);
    lemma_wrap8(state.read(state.program_counter) + state.y);
    lemma_wrap16(state.read_word(state.program_counter) + state.x);
    lemma_wrap16(state.read_word(state.program_counter) + state.y);
    lemma_wrap16(state.base_address(AddressingMode::IndirectY) + state.y);
}

/// Call and return: returning from a subroutine right after the jump to it
/// continues behind the two operand bytes of the jump, with the stack pointer
/// where it was before the jump.
pub proof fn lemma_subroutine_return(state: State, mode: AddressingMode)
    requires
        state.wf(),
    ensures
        state.jsr(mode).rts().program_counter == (state.program_counter + 2) % 65536,
        state.jsr(mode).rts().stack_pointer == state.stack_pointer,
{
    let return_address = wrap16(state.program_counter + 1);
    let first = state.push(high_byte(return_address));
    let second = first.push(low_byte(return_address));
    let called = state.jsr(mode);
    lemma_wrap16(state.program_counter + 1);
    lemma_wrap16(return_address + 1);
    lemma_wrap16(state.program_counter + 2);
    lemma_split_bits(return_address);
    lemma_wrap8(state.stack_pointer - 1);
    lemma_wrap8(first.stack_pointer - 1);
    lemma_wrap8(second.stack_pointer + 1);
    lemma_wrap8(first.stack_pointer + 1);
    assert(called.popped().stack_pointer == first.stack_pointer);
    assert(called.pop_value() == low_byte(return_address));
    assert(called.popped().pop_value() == high_byte(return_address));
    assert(called.pop_word_value() == return_address);
}

/// Signed overflow: addition sets the overflow flag iff the sum of the
/// accumulator, the operand and the carry, all read as signed numbers, does
/// not fit into a signed byte.
pub proof fn lemma_adc_overflow(state: State, mode: AddressingMode)
    ensures
        ({
            let sum = signed(state.a) + signed(state.operand(mode)) + state.carry_in();
            state.adc(mode).status.overflow == !(-128 <= sum <= 127)
        }),
{
    lemma_wrap8(state.a + state.operand(mode) + state.carry_in());
}

/// Comparison: carry is set iff the register is not less than the value,
/// and zero iff the two are equal.
pub proof fn lemma_compared(state: State, register: u8, value: u8)
    ensures
        state.compared(register, value).status.carry == (register >= value),
        state.compared(register, value).status.zero == (register == value),
{
    lemma_wrap8(register - value);
}

/// Pushing keeps the memory whole.
proof fn lemma_push_all_wf(state: State, bytes: Seq<u8>)
    requires
        state.wf(),
    ensures
        state.push_all(bytes).wf(),
    decreases bytes.len(),
{
    if bytes.len() > 0 {
        lemma_push_all_wf(state, bytes.drop_last());
    }
}

/// Pops read only the stack slots above the stack pointer: two states with the
/// same stack pointer that agree on the `count` slots above it pop the same bytes.
proof fn lemma_pops_read_above(first: State, second: State, count: nat)
    requires
        first.stack_pointer == second.stack_pointer,
        forall|distance: int|
            1 <= distance <= count ==> first.mem[first.stack_slot(distance)]
                == second.mem[second.stack_slot(distance)],
    ensures
        first.pop_values(count) == second.pop_values(count),
        first.popped_times(count).stack_pointer == second.popped_times(count).stack_pointer,
        first.popped_times(count).stack_pointer == (first.stack_pointer + count) % 256,
    decreases count,
{
    reveal(wrap8);
    if count > 0 {
        let next_first = first.popped();
        let next_second = second.popped();
        assert(first.pop_value() == first.mem[first.stack_slot(1)]);
        assert(second.pop_value() == second.mem[second.stack_slot(1)]);
        assert forall|distance: int| 1 <= distance <= count - 1 implies next_first.mem[
            next_first.stack_slot(distance)
        ] == next_second.mem[next_second.stack_slot(distance)] by {
            assert(next_first.stack_slot(distance) == first.stack_slot(distance + 1));
            assert(next_second.stack_slot(distance) == second.stack_slot(distance + 1));
        }
        lemma_pops_read_above(next_first, next_second, (count - 1) as nat);
    }
}

/// Stack discipline: pushing up to 256 bytes and popping as many returns them
/// in reverse order, the last pushed first, and leaves the stack pointer where
/// it was.
pub proof fn lemma_stack_lifo(state: State, bytes: Seq<u8>)
    requires
        state.wf(),
        bytes.len() <= 256,
    ensures
        state.push_all(bytes).pop_values(bytes.len()) == bytes.reverse(),
        state.push_all(bytes).popped_times(bytes.len()).stack_pointer == state.stack_pointer,
    decreases bytes.len(),
{
    reveal(wrap8);
    if bytes.len() > 0 {
        let count = bytes.len();
        let below = state.push_all(bytes.drop_last());
        let full = below.push(bytes.last());
        lemma_push_all_wf(state, bytes.drop_last());
        lemma_stack_lifo(state, bytes.drop_last());
        assert(full.popped().stack_pointer == below.stack_pointer);
        assert(full.pop_value() == bytes.last());
        let above = full.popped();
        assert forall|distance: int| 1 <= distance <= count - 1 implies above.mem[
            above.stack_slot(distance)
        ] == below.mem[below.stack_slot(distance)] by {
            assert(below.stack_slot(distance) != 0x0100 + below.stack_pointer);
        }
        lemma_pops_read_above(full.popped(), below, (count - 1) as nat);
        assert(full.pop_values(count) =~= bytes.reverse());
    }
}

/// While cycles are owed, each tick pays one of them and changes nothing else.
pub proof fn lemma_run_pays(state: State, ticks: nat)
    requires
        ticks <= state.cycles,
    ensures
        state.run(ticks) == (State { cycles: (state.cycles - ticks) as u64, ..state }),
    decreases ticks,
{
    if ticks > 0 {
        lemma_run_pays(state.clock(), (ticks - 1) as nat);
    }
}

/// Cycle budget: an instruction is billed its base cycles plus the penalty of
/// its operation, and so many ticks pay for it. The first of them runs the
/// whole instruction, each pays one cycle, and none but the first fetches:
/// until the last of them nothing changes but the cycles owed, which then are zero.
pub proof fn lemma_cycle_budget(state: State)
    requires
        state.wf(),
        state.cycles == 0,
        state.can_fetch(),
    ensures
        ({
            let (operation, mode, base) = decode(state.read(state.program_counter)).unwrap();
            let total = base + state.fetched().penalty(operation, mode);
            &&& state.step().cycles == total
            &&& 2 <= total <= 10
            &&& forall|ticks: nat|
                1 <= ticks <= total ==> #[trigger] state.run(ticks) == (State {
                    cycles: (total - ticks) as u64,
                    ..state.step()
                })
        }),
{
    let (operation, mode, base) = decode(state.read(state.program_counter)).unwrap();
    let total = base + state.fetched().penalty(operation, mode);
    crate::constants::lemma_decoded_cycles(state.read(state.program_counter));
    lemma_execute_cost(state.fetched(), operation, mode);
    assert forall|ticks: nat| 1 <= ticks <= total implies #[trigger] state.run(ticks) == (State {
        cycles: (total - ticks) as u64,
        ..state.step()
    }) by {
        lemma_run_pays(state.clock(), (ticks - 1) as nat);
    }
}

} // verus!
