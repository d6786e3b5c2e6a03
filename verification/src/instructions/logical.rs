//! Decoder for the logic family on A: AND, XOR, OR and CP, over a register,
//! (HL) or an 8-bit immediate.

use vstd::prelude::*;

use crate::instructions::bit_operations::spec_cb_arg;
use crate::instructions::{or_zero8, ArgKind, InstructionKind};

verus! {

/// The logic-family decode table.  In the block 0xA0-0xBF the operation
/// sits in bits 3-4 (AND, XOR, OR, CP) and the operand in bits 0-2, in the
/// order B,C,D,E,H,L,(HL),A; the CP (HL) form carries its own tag because
/// the executor reads memory for it.
pub open spec fn spec_decode_logical(opcode: u8, immediate: Option<u8>) -> Option<
    InstructionKind,
> {
    let imm8 = or_zero8(immediate);
    if 0xA0 <= opcode <= 0xA7 {
        Some(InstructionKind::AND(ArgKind::A, spec_cb_arg(opcode % 8)))
    } else if 0xA8 <= opcode <= 0xAF {
        Some(InstructionKind::XOR(ArgKind::A, spec_cb_arg(opcode % 8)))
    } else if 0xB0 <= opcode <= 0xB7 {
        Some(InstructionKind::OR(ArgKind::A, spec_cb_arg(opcode % 8)))
    } else if opcode == 0xBE {
        Some(InstructionKind::CP_MEM(ArgKind::A, ArgKind::HL))
    } else if 0xB8 <= opcode <= 0xBF {
        Some(InstructionKind::CP(ArgKind::A, spec_cb_arg(opcode % 8)))
    } else if opcode == 0xE6 {
        Some(InstructionKind::AND(ArgKind::A, ArgKind::Immediate(imm8)))
    } else if opcode == 0xEE {
        Some(InstructionKind::XOR(ArgKind::A, ArgKind::Immediate(imm8)))
    } else if opcode == 0xF6 {
        Some(InstructionKind::OR(ArgKind::A, ArgKind::Immediate(imm8)))
    } else if opcode == 0xFE {
        Some(InstructionKind::CP(ArgKind::A, ArgKind::Immediate(imm8)))
    } else {
        None
    }
}

/// Decodes the logic family; `None` for opcodes outside it.
pub fn decode_logical_instruction(opcode: u8, immediate: Option<u8>) -> (r: Option<
    InstructionKind,
>)
    ensures
        r == spec_decode_logical(opcode, immediate),
{
    let imm8: u8 = match immediate {
        Some(x) => x,
        None => 0,
    };
    if 0xA0 <= opcode && opcode <= 0xA7 {
        Some(InstructionKind::AND(ArgKind::A, crate::instructions::load::cb_arg_exec(opcode % 8)))
    } else if 0xA8 <= opcode && opcode <= 0xAF {
        Some(InstructionKind::XOR(ArgKind::A, crate::instructions::load::cb_arg_exec(opcode % 8)))
    } else if 0xB0 <= opcode && opcode <= 0xB7 {
        Some(InstructionKind::OR(ArgKind::A, crate::instructions::load::cb_arg_exec(opcode % 8)))
    } else if opcode == 0xBE {
        Some(InstructionKind::CP_MEM(ArgKind::A, ArgKind::HL))
    } else if 0xB8 <= opcode && opcode <= 0xBF {
        Some(InstructionKind::CP(ArgKind::A, crate::instructions::load::cb_arg_exec(opcode % 8)))
    } else if opcode == 0xE6 {
        Some(InstructionKind::AND(ArgKind::A, ArgKind::Immediate(imm8)))
    } else if opcode == 0xEE {
        Some(InstructionKind::XOR(ArgKind::A, ArgKind::Immediate(imm8)))
    } else if opcode == 0xF6 {
        Some(InstructionKind::OR(ArgKind::A, ArgKind::Immediate(imm8)))
    } else if opcode == 0xFE {
        Some(InstructionKind::CP(ArgKind::A, ArgKind::Immediate(imm8)))
    } else {
        None
    }
}

/// Encoded sizes of the logic family: 2 bytes with an immediate,
/// 1 otherwise; `None` outside the family.
pub fn get_logical_instruction_size(opcode: u8) -> (r: Option<u16>)
    ensures
        r is Some <==> spec_decode_logical(opcode, Some(0u8)) is Some,
        r is Some ==> r == crate::instructions::spec_instruction_size(opcode),
{
    if 0xA0 <= opcode && opcode <= 0xBF {
        Some(1)
    } else if opcode == 0xE6 || opcode == 0xEE || opcode == 0xF6 || opcode == 0xFE {
        Some(2)
    } else {
        None
    }
}

} // verus!
