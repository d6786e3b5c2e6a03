//! Decoder for the memory-addressed loads: stores and loads through
//! (BC)/(DE)/(HL), the HL post-increment and post-decrement forms, and the
//! high-memory 0xFF00+C / 0xFF00+n forms.

use vstd::prelude::*;

use crate::instructions::bit_operations::spec_cb_arg;
use crate::instructions::{or_zero8, ArgKind, InstructionKind};

verus! {

/// The memory-family decode table.  0x70-0x77 stores a register into (HL);
/// column 6 of the register block 0x40-0x7F loads a register from (HL).
pub open spec fn spec_decode_memory(opcode: u8, immediate: Option<u8>) -> Option<
    InstructionKind,
> {
    let imm8 = or_zero8(immediate);
    if opcode == 0x02 {
        Some(InstructionKind::LD_MEM(ArgKind::BC, ArgKind::A))
    } else if opcode == 0x12 {
        Some(InstructionKind::LD_MEM(ArgKind::DE, ArgKind::A))
    } else if opcode == 0x22 {
        Some(InstructionKind::LD_MEM_INC(ArgKind::HL, ArgKind::A))
    } else if opcode == 0x32 {
        Some(InstructionKind::LD_MEM_DEC(ArgKind::HL, ArgKind::A))
    } else if opcode == 0x36 {
        Some(InstructionKind::LD_MEM(ArgKind::HL, ArgKind::Immediate(imm8)))
    } else if 0x70 <= opcode <= 0x75 || opcode == 0x77 {
        Some(InstructionKind::LD_MEM(ArgKind::HL, spec_cb_arg(opcode % 8)))
    } else if opcode == 0x2A {
        Some(InstructionKind::LD_FROM_MEM_INC(ArgKind::A, ArgKind::HL))
    } else if opcode == 0x3A {
        Some(InstructionKind::LD_FROM_MEM_DEC(ArgKind::A, ArgKind::HL))
    } else if 0x40 <= opcode <= 0x7F && opcode % 8 == 6 && opcode != 0x76 && !(0x70 <= opcode
        <= 0x77) {
        Some(InstructionKind::LD_FROM_MEM(spec_cb_arg(((opcode - 0x40) / 8) as u8), ArgKind::HL))
    } else if opcode == 0xE2 {
        Some(InstructionKind::LDH_TO_C(ArgKind::A))
    } else if opcode == 0xF2 {
        Some(InstructionKind::LDH_FROM_C(ArgKind::A))
    } else if opcode == 0xE0 {
        Some(InstructionKind::LDH_TO_N(ArgKind::A, imm8))
    } else if opcode == 0xF0 {
        Some(InstructionKind::LDH_FROM_N(ArgKind::A, imm8))
    } else {
        None
    }
}

/// Decodes the memory family; `None` for opcodes outside it.
pub fn decode_memory_instruction(opcode: u8, immediate: Option<u8>) -> (r: Option<
    InstructionKind,
>)
    ensures
        r == spec_decode_memory(opcode, immediate),
{
    let imm8: u8 = match immediate {
        Some(x) => x,
        None => 0,
    };
    if opcode == 0x02 {
        Some(InstructionKind::LD_MEM(ArgKind::BC, ArgKind::A))
    } else if opcode == 0x12 {
        Some(InstructionKind::LD_MEM(ArgKind::DE, ArgKind::A))
    } else if opcode == 0x22 {
        Some(InstructionKind::LD_MEM_INC(ArgKind::HL, ArgKind::A))
    } else if opcode == 0x32 {
        Some(InstructionKind::LD_MEM_DEC(ArgKind::HL, ArgKind::A))
    } else if opcode == 0x36 {
        Some(InstructionKind::LD_MEM(ArgKind::HL, ArgKind::Immediate(imm8)))
    } else if (0x70 <= opcode && opcode <= 0x75) || opcode == 0x77 {
        Some(InstructionKind::LD_MEM(ArgKind::HL, crate::instructions::load::cb_arg_exec(opcode % 8)))
    } else if opcode == 0x2A {
        Some(InstructionKind::LD_FROM_MEM_INC(ArgKind::A, ArgKind::HL))
    } else if opcode == 0x3A {
        Some(InstructionKind::LD_FROM_MEM_DEC(ArgKind::A, ArgKind::HL))
    } else if 0x40 <= opcode && opcode <= 0x7F && opcode % 8 == 6 && opcode != 0x76 && !(0x70
        <= opcode && opcode <= 0x77) {
        Some(
            InstructionKind::LD_FROM_MEM(
                crate::instructions::load::cb_arg_exec((opcode - 0x40) / 8),
                ArgKind::HL,
            ),
        )
    } else if opcode == 0xE2 {
        Some(InstructionKind::LDH_TO_C(ArgKind::A))
    } else if opcode == 0xF2 {
        Some(InstructionKind::LDH_FROM_C(ArgKind::A))
    } else if opcode == 0xE0 {
        Some(InstructionKind::LDH_TO_N(ArgKind::A, imm8))
    } else if opcode == 0xF0 {
        Some(InstructionKind::LDH_FROM_N(ArgKind::A, imm8))
    } else {
        None
    }
}

/// Encoded sizes of the memory family: 2 bytes with an immediate,
/// 1 otherwise; `None` outside the family.
pub fn get_memory_instruction_size(opcode: u8) -> (r: Option<u16>)
    ensures
        r is Some <==> spec_decode_memory(opcode, Some(0u8)) is Some,
        r is Some ==> r == crate::instructions::spec_instruction_size(opcode),
{
    if opcode == 0x36 || opcode == 0xE0 || opcode == 0xF0 {
        Some(2)
    } else if opcode == 0x02 || opcode == 0x12 || opcode == 0x22 || opcode == 0x32 || (0x70
        <= opcode && opcode <= 0x75) || opcode == 0x77 || opcode == 0x2A || opcode == 0x3A || (0x40
        <= opcode && opcode <= 0x7F && opcode % 8 == 6 && opcode != 0x76 && !(0x70 <= opcode
        && opcode <= 0x77)) || opcode == 0xE2 || opcode == 0xF2 {
        Some(1)
    } else {
        None
    }
}

} // verus!
