//! Decoder for the arithmetic family: 8-bit ADD/ADC/SUB/SBC on A, the four
//! 16-bit ADD-to-HL forms, and ADD SP with a signed offset.

use vstd::prelude::*;

use crate::instructions::bit_operations::spec_cb_arg;
use crate::instructions::{or_zero8, ArgKind, InstructionKind};

verus! {

/// The arithmetic-family decode table.  In the block 0x80-0x9F the
/// operation sits in bits 3-4 (ADD, ADC, SUB, SBC) and the operand in
/// bits 0-2, in the order B,C,D,E,H,L,(HL),A.
pub open spec fn spec_decode_arithmetic(opcode: u8, immediate: Option<u8>) -> Option<
    InstructionKind,
> {
    let imm8 = or_zero8(immediate);
    if opcode == 0x09 {
        Some(InstructionKind::ADD(ArgKind::HL, ArgKind::BC))
    } else if opcode == 0x19 {
        Some(InstructionKind::ADD(ArgKind::HL, ArgKind::DE))
    } else if opcode == 0x29 {
        Some(InstructionKind::ADD(ArgKind::HL, ArgKind::HL))
    } else if opcode == 0x39 {
        Some(InstructionKind::ADD(ArgKind::HL, ArgKind::SP))
    } else if 0x80 <= opcode <= 0x87 {
        Some(InstructionKind::ADD(ArgKind::A, spec_cb_arg(opcode % 8)))
    } else if 0x88 <= opcode <= 0x8F {
        Some(InstructionKind::ADC(ArgKind::A, spec_cb_arg(opcode % 8)))
    } else if 0x90 <= opcode <= 0x97 {
        Some(InstructionKind::SUB(ArgKind::A, spec_cb_arg(opcode % 8)))
    } else if 0x98 <= opcode <= 0x9F {
        Some(InstructionKind::SBC(ArgKind::A, spec_cb_arg(opcode % 8)))
    } else if opcode == 0xC6 {
        Some(InstructionKind::ADD(ArgKind::A, ArgKind::Immediate(imm8)))
    } else if opcode == 0xCE {
        Some(InstructionKind::ADC(ArgKind::A, ArgKind::Immediate(imm8)))
    } else if opcode == 0xD6 {
        Some(InstructionKind::SUB(ArgKind::A, ArgKind::Immediate(imm8)))
    } else if opcode == 0xDE {
        Some(InstructionKind::SBC(ArgKind::A, ArgKind::Immediate(imm8)))
    } else if opcode == 0xE8 {
        Some(InstructionKind::ADD_SP_R8(imm8 as i8))
    } else {
        None
    }
}

/// Decodes the arithmetic family; `None` for opcodes outside it.
pub fn decode_arithmetic_instruction(opcode: u8, immediate: Option<u8>) -> (r: Option<
    InstructionKind,
>)
    ensures
        r == spec_decode_arithmetic(opcode, immediate),
{
    let imm8: u8 = match immediate {
        Some(x) => x,
        None => 0,
    };
    if opcode == 0x09 {
        Some(InstructionKind::ADD(ArgKind::HL, ArgKind::BC))
    } else if opcode == 0x19 {
        Some(InstructionKind::ADD(ArgKind::HL, ArgKind::DE))
    } else if opcode == 0x29 {
        Some(InstructionKind::ADD(ArgKind::HL, ArgKind::HL))
    } else if opcode == 0x39 {
        Some(InstructionKind::ADD(ArgKind::HL, ArgKind::SP))
    } else if 0x80 <= opcode && opcode <= 0x87 {
        Some(InstructionKind::ADD(ArgKind::A, crate::instructions::load::cb_arg_exec(opcode % 8)))
    } else if 0x88 <= opcode && opcode <= 0x8F {
        Some(InstructionKind::ADC(ArgKind::A, crate::instructions::load::cb_arg_exec(opcode % 8)))
    } else if 0x90 <= opcode && opcode <= 0x97 {
        Some(InstructionKind::SUB(ArgKind::A, crate::instructions::load::cb_arg_exec(opcode % 8)))
    } else if 0x98 <= opcode && opcode <= 0x9F {
        Some(InstructionKind::SBC(ArgKind::A, crate::instructions::load::cb_arg_exec(opcode % 8)))
    } else if opcode == 0xC6 {
        Some(InstructionKind::ADD(ArgKind::A, ArgKind::Immediate(imm8)))
    } else if opcode == 0xCE {
        Some(InstructionKind::ADC(ArgKind::A, ArgKind::Immediate(imm8)))
    } else if opcode == 0xD6 {
        Some(InstructionKind::SUB(ArgKind::A, ArgKind::Immediate(imm8)))
    } else if opcode == 0xDE {
        Some(InstructionKind::SBC(ArgKind::A, ArgKind::Immediate(imm8)))
    } else if opcode == 0xE8 {
        Some(InstructionKind::ADD_SP_R8(imm8 as i8))
    } else {
        None
    }
}

/// Encoded sizes of the arithmetic family: 2 bytes with an immediate,
/// 1 otherwise; `None` outside the family.
pub fn get_arithmetic_instruction_size(opcode: u8) -> (r: Option<u16>)
    ensures
        r is Some <==> spec_decode_arithmetic(opcode, Some(0u8)) is Some,
        r is Some ==> r == crate::instructions::spec_instruction_size(opcode),
{
    if opcode == 0x09 || opcode == 0x19 || opcode == 0x29 || opcode == 0x39 || (0x80 <= opcode
        && opcode <= 0x9F) {
        Some(1)
    } else if opcode == 0xC6 || opcode == 0xCE || opcode == 0xD6 || opcode == 0xDE || opcode
        == 0xE8 {
        Some(2)
    } else {
        None
    }
}

} // verus!
