//! Disassembly: splitting a program into its instructions.

use crate::constants::{decode, AddressingMode, Operation};
use crate::cpu::CPU;
use crate::state::{PROGRAM_LIMIT, PROGRAM_START};
use vstd::prelude::*;

verus! {

/// One instruction of a program: where it lies, what it decodes to, and its
/// operand bytes. An operand byte that the instruction does not have is zero.
#[derive(Clone, Copy, Debug, PartialEq, Eq, Structural)]
pub struct Instruction {
    pub address: u16,
    pub opcode: u8,
    pub operation: Operation,
    pub addressing_mode: AddressingMode,
    pub bytes: u8,
    pub low: u8,
    pub high: u8,
}

/// Whether a whole instruction lies at `offset`: the byte there is an official
/// opcode, and the program holds all the bytes of the instruction.
pub open spec fn instruction_fits(program: Seq<u8>, offset: int) -> bool {
    &&& 0 <= offset < program.len()
    &&& decode(program[offset]) matches Some((_, mode, _))
    &&& offset + mode.instruction_length() <= program.len()
}

/// The offset behind the instruction at `offset`.
pub open spec fn next_offset(program: Seq<u8>, offset: int) -> int {
    offset + decode(program[offset]).unwrap().1.instruction_length()
}

/// The instruction at `offset`.
pub open spec fn instruction_at(program: Seq<u8>, offset: int) -> Instruction {
    let (operation, mode, _) = decode(program[offset]).unwrap();
    let bytes = mode.instruction_length();
    Instruction {
        address: (PROGRAM_START + offset) as u16,
        opcode: program[offset],
        operation,
        addressing_mode: mode,
        bytes,
        low: if bytes >= 2 {
            program[offset + 1]
        } else {
            0
        },
        high: if bytes >= 3 {
            program[offset + 2]
        } else {
            0
        },
    }
}

/// Whether the program from `offset` on is one whole instruction after
/// another, ending exactly with the program.
pub open spec fn well_formed_from(program: Seq<u8>, offset: int) -> bool
    decreases program.len() - offset,
{
    &&& instruction_fits(program, offset)
    &&& (next_offset(program, offset) == program.len() || well_formed_from(
        program,
        next_offset(program, offset),
    ))
}

/// The instructions of the program from `offset` on, as far as whole
/// instructions follow one another.
pub open spec fn listing_from(program: Seq<u8>, offset: int) -> Seq<Instruction>
    decreases program.len() - offset,
{
    if instruction_fits(program, offset) {
        seq![instruction_at(program, offset)] + listing_from(program, next_offset(program, offset))
    } else {
        Seq::empty()
    }
}

/// The lengths of the listed instructions, added up.
pub open spec fn total_bytes(listing: Seq<Instruction>) -> int
    decreases listing.len(),
{
    if listing.len() == 0 {
        0
    } else {
        listing[0].bytes + total_bytes(listing.drop_first())
    }
}

/// The instructions of a well-formed program lie one behind the other and
/// cover it: their lengths add up to its length.
pub proof fn lemma_listing_covers(program: Seq<u8>, offset: int)
    requires
        well_formed_from(program, offset),
    ensures
        total_bytes(listing_from(program, offset)) == program.len() - offset,
        listing_from(program, offset).len() >= 1,
    decreases program.len() - offset,
{
    let next = next_offset(program, offset);
    let rest = listing_from(program, next);
    let all = listing_from(program, offset);
    assert(all[0] == instruction_at(program, offset));
    assert(all.drop_first() =~= rest);
    assert(total_bytes(all) == all[0].bytes + total_bytes(rest));
    if next != program.len() {
        lemma_listing_covers(program, next);
    } else {
        assert(rest.len() == 0);
    }
}

impl CPU {
    /// Splits a program into its instructions, listed as loaded at
    /// `PROGRAM_START`. There is a listing where the program fits behind
    /// `PROGRAM_START` and is one whole official instruction after another.
    pub fn listing(program: &Vec<u8>) -> (listing: Option<Vec<Instruction>>)
        ensures
            listing is Some <==> program@.len() <= PROGRAM_LIMIT && well_formed_from(program@, 0),
            listing matches Some(lines) ==> {
                &&& lines@ == listing_from(program@, 0)
                &&& forall|k: int| 0 <= k < lines@.len() ==> 1 <= #[trigger] lines@[k].bytes <= 3
            },
    {
        if program.len() > PROGRAM_LIMIT || program.len() == 0 {
            return None;
        }
        let mut lines: Vec<Instruction> = Vec::new();
        let mut i: usize = 0;
        loop
            invariant
                0 <= i < program@.len() <= PROGRAM_LIMIT,
                well_formed_from(program@, 0) == well_formed_from(program@, i as int),
                listing_from(program@, 0) == lines@ + listing_from(program@, i as int),
                forall|k: int| 0 <= k < lines@.len() ==> 1 <= #[trigger] lines@[k].bytes <= 3,
            decreases program@.len() - i,
        {
            let opcode = program[i];
            match Operation::decode(opcode) {
                None => {
                    return None;
                },
                Some((operation, mode, _)) => {
                    let bytes = mode.length();
                    if program.len() - i < bytes as usize {
                        return None;
                    }
                    let low = if bytes >= 2 {
                        program[i + 1]
                    } else {
                        0
                    };
                    let high = if bytes >= 3 {
                        program[i + 2]
                    } else {
                        0
                    };
                    let ghost before = lines@;
                    lines.push(
                        Instruction {
                            address: PROGRAM_START + i as u16,
                            opcode,
                            operation,
                            addressing_mode: mode,
                            bytes,
                            low,
                            high,
                        },
                    );
                    proof {
                        let next = next_offset(program@, i as int);
                        assert(lines@ == before + seq![instruction_at(program@, i as int)]);
                        assert(listing_from(program@, 0) =~= lines@ + listing_from(program@, next));
                    }
                    i += bytes as usize;
                    if i == program.len() {
                        proof {
                            assert(listing_from(program@, i as int) =~= Seq::empty());
                        }
                        return Some(lines);
                    }
                },
            }
        }
    }
}

} // verus!
