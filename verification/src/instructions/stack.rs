//! Decoder for PUSH and POP of the four register pairs.

use vstd::prelude::*;

use crate::instructions::{ArgKind, InstructionKind};

verus! {

/// The stack-family decode table.
pub open spec fn spec_decode_stack(opcode: u8) -> Option<InstructionKind> {
    match opcode {
        0xC5 => Some(InstructionKind::PUSH(ArgKind::BC)),
        0xD5 => Some(InstructionKind::PUSH(ArgKind::DE)),
        0xE5 => Some(InstructionKind::PUSH(ArgKind::HL)),
        0xF5 => Some(InstructionKind::PUSH(ArgKind::AF)),
        0xC1 => Some(InstructionKind::POP(ArgKind::BC)),
        0xD1 => Some(InstructionKind::POP(ArgKind::DE)),
        0xE1 => Some(InstructionKind::POP(ArgKind::HL)),
        0xF1 => Some(InstructionKind::POP(ArgKind::AF)),
        _ => None,
    }
}

/// Decodes the stack family; `None` for opcodes outside it.
pub fn decode_stack_instruction(opcode: u8) -> (r: Option<InstructionKind>)
    ensures
        r == spec_decode_stack(opcode),
{
    match opcode {
        0xC5 => Some(InstructionKind::PUSH(ArgKind::BC)),
        0xD5 => Some(InstructionKind::PUSH(ArgKind::DE)),
        0xE5 => Some(InstructionKind::PUSH(ArgKind::HL)),
        0xF5 => Some(InstructionKind::PUSH(ArgKind::AF)),
        0xC1 => Some(InstructionKind::POP(ArgKind::BC)),
        0xD1 => Some(InstructionKind::POP(ArgKind::DE)),
        0xE1 => Some(InstructionKind::POP(ArgKind::HL)),
        0xF1 => Some(InstructionKind::POP(ArgKind::AF)),
        _ => None,
    }
}

/// Every PUSH and POP encoding is a single byte.
pub fn get_stack_instruction_size(opcode: u8) -> (r: Option<u16>)
    ensures
        r is Some <==> spec_decode_stack(opcode) is Some,
        r is Some ==> r == crate::instructions::spec_instruction_size(opcode),
{
    match opcode {
        0xC5 | 0xD5 | 0xE5 | 0xF5 | 0xC1 | 0xD1 | 0xE1 | 0xF1 => Some(1),
        _ => None,
    }
}

} // verus!
