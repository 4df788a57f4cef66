//! Free-function entry point of the instruction decoder.

use vstd::prelude::*;
use crate::instruction::{spec_decode, Instruction};

verus! {

/// Decode three fetched bytes into an instruction and its size in bytes,
/// or `None` on an unused opcode.
pub fn decode(first_byte: u8, second_byte: u8, third_byte: u8) -> (r: Option<(Instruction, u16)>)
    ensures
        r == spec_decode(first_byte, second_byte, third_byte),
        r matches Some((instruction, size)) ==> instruction.wf() && 1 <= size <= 3 && size
            == instruction.spec_size(),
{
    Instruction::decode(first_byte, second_byte, third_byte)
}

} // verus!
