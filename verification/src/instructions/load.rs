//! Decoder for the plain load family: 16-bit immediate loads, 8-bit
//! immediate loads, the register-to-register block 0x40-0x7F, loads of A
//! through (BC)/(DE) or an absolute address, and the SP/HL special forms.

use vstd::prelude::*;

use crate::instructions::bit_operations::spec_cb_arg;
use crate::instructions::{or_zero16, or_zero8, ArgKind, InstructionKind};

verus! {

/// The load-family decode table.  In the register block 0x40-0x7F the
/// destination sits in bits 3-5 and the source in bits 0-2, in the order
/// B,C,D,E,H,L,(HL),A; the rows and columns that touch (HL) belong to the
/// memory family and HALT, not here.
pub open spec fn spec_decode_load(
    opcode: u8,
    immediate: Option<u8>,
    immediate16: Option<u16>,
) -> Option<InstructionKind> {
    let imm8 = or_zero8(immediate);
    let imm16 = or_zero16(immediate16);
    if opcode == 0x01 {
        Some(InstructionKind::LD(ArgKind::BC, ArgKind::Immediate16(imm16)))
    } else if opcode == 0x11 {
        Some(InstructionKind::LD(ArgKind::DE, ArgKind::Immediate16(imm16)))
    } else if opcode == 0x21 {
        Some(InstructionKind::LD(ArgKind::HL, ArgKind::Immediate16(imm16)))
    } else if opcode == 0x31 {
        Some(InstructionKind::LD(ArgKind::SP, ArgKind::Immediate16(imm16)))
    } else if opcode == 0x06 {
        Some(InstructionKind::LD(ArgKind::B, ArgKind::Immediate(imm8)))
    } else if opcode == 0x0E {
        Some(InstructionKind::LD(ArgKind::C, ArgKind::Immediate(imm8)))
    } else if opcode == 0x16 {
        Some(InstructionKind::LD(ArgKind::D, ArgKind::Immediate(imm8)))
    } else if opcode == 0x1E {
        Some(InstructionKind::LD(ArgKind::E, ArgKind::Immediate(imm8)))
    } else if opcode == 0x26 {
        Some(InstructionKind::LD(ArgKind::H, ArgKind::Immediate(imm8)))
    } else if opcode == 0x2E {
        Some(InstructionKind::LD(ArgKind::L, ArgKind::Immediate(imm8)))
    } else if opcode == 0x3E {
        Some(InstructionKind::LD(ArgKind::A, ArgKind::Immediate(imm8)))
    } else if 0x40 <= opcode <= 0x7F && (opcode - 0x40) / 8 != 6 && opcode % 8 != 6 {
        Some(
            InstructionKind::LD(spec_cb_arg(((opcode - 0x40) / 8) as u8), spec_cb_arg(opcode % 8)),
        )
    } else if opcode == 0x0A {
        Some(InstructionKind::LD_FROM_MEM(ArgKind::A, ArgKind::BC))
    } else if opcode == 0x1A {
        Some(InstructionKind::LD_FROM_MEM(ArgKind::A, ArgKind::DE))
    } else if opcode == 0xEA {
        Some(InstructionKind::LD_MEM_16(ArgKind::Immediate16(imm16), ArgKind::A))
    } else if opcode == 0xFA {
        Some(InstructionKind::LD_FROM_MEM_16(ArgKind::A, ArgKind::Immediate16(imm16)))
    } else if opcode == 0xF8 {
        Some(InstructionKind::LDHL_SP_R8(imm8 as i8))
    } else if opcode == 0xF9 {
        Some(InstructionKind::LD(ArgKind::SP, ArgKind::HL))
    } else {
        None
    }
}

/// Decodes the load family; `None` for opcodes outside it.
pub fn decode_load_instruction(
    opcode: u8,
    immediate: Option<u8>,
    immediate16: Option<u16>,
) -> (r: Option<InstructionKind>)
    ensures
        r == spec_decode_load(opcode, immediate, immediate16),
{
    let imm8: u8 = match immediate {
        Some(x) => x,
        None => 0,
    };
    let imm16: u16 = match immediate16 {
        Some(x) => x,
        None => 0,
    };
    if opcode == 0x01 {
        Some(InstructionKind::LD(ArgKind::BC, ArgKind::Immediate16(imm16)))
    } else if opcode == 0x11 {
        Some(InstructionKind::LD(ArgKind::DE, ArgKind::Immediate16(imm16)))
    } else if opcode == 0x21 {
        Some(InstructionKind::LD(ArgKind::HL, ArgKind::Immediate16(imm16)))
    } else if opcode == 0x31 {
        Some(InstructionKind::LD(ArgKind::SP, ArgKind::Immediate16(imm16)))
    } else if opcode == 0x06 {
        Some(InstructionKind::LD(ArgKind::B, ArgKind::Immediate(imm8)))
    } else if opcode == 0x0E {
        Some(InstructionKind::LD(ArgKind::C, ArgKind::Immediate(imm8)))
    } else if opcode == 0x16 {
        Some(InstructionKind::LD(ArgKind::D, ArgKind::Immediate(imm8)))
    } else if opcode == 0x1E {
        Some(InstructionKind::LD(ArgKind::E, ArgKind::Immediate(imm8)))
    } else if opcode == 0x26 {
        Some(InstructionKind::LD(ArgKind::H, ArgKind::Immediate(imm8)))
    } else if opcode == 0x2E {
        Some(InstructionKind::LD(ArgKind::L, ArgKind::Immediate(imm8)))
    } else if opcode == 0x3E {
        Some(InstructionKind::LD(ArgKind::A, ArgKind::Immediate(imm8)))
    } else if 0x40 <= opcode && opcode <= 0x7F && (opcode - 0x40) / 8 != 6 && opcode % 8 != 6 {
        Some(InstructionKind::LD(cb_arg_exec((opcode - 0x40) / 8), cb_arg_exec(opcode % 8)))
    } else if opcode == 0x0A {
        Some(InstructionKind::LD_FROM_MEM(ArgKind::A, ArgKind::BC))
    } else if opcode == 0x1A {
        Some(InstructionKind::LD_FROM_MEM(ArgKind::A, ArgKind::DE))
    } else if opcode == 0xEA {
        Some(InstructionKind::LD_MEM_16(ArgKind::Immediate16(imm16), ArgKind::A))
    } else if opcode == 0xFA {
        Some(InstructionKind::LD_FROM_MEM_16(ArgKind::A, ArgKind::Immediate16(imm16)))
    } else if opcode == 0xF8 {
        Some(InstructionKind::LDHL_SP_R8(imm8 as i8))
    } else if opcode == 0xF9 {
        Some(InstructionKind::LD(ArgKind::SP, ArgKind::HL))
    } else {
        None
    }
}

/// The operand named by a three-bit register code, in the standard order.
pub(crate) fn cb_arg_exec(bits: u8) -> (r: ArgKind)
    ensures
        r == spec_cb_arg(bits),
{
    match bits {
        0 => ArgKind::B,
        1 => ArgKind::C,
        2 => ArgKind::D,
        3 => ArgKind::E,
        4 => ArgKind::H,
        5 => ArgKind::L,
        6 => ArgKind::HL,
        _ => ArgKind::A,
    }
}

/// Encoded sizes of the load family: 3 bytes with a 16-bit immediate,
/// 2 with an 8-bit immediate, 1 otherwise; `None` outside the family.
pub fn get_load_instruction_size(opcode: u8) -> (r: Option<u16>)
    ensures
        r is Some <==> spec_decode_load(opcode, Some(0u8), Some(0u16)) is Some,
        r is Some ==> r == crate::instructions::spec_instruction_size(opcode),
{
    if opcode == 0x01 || opcode == 0x11 || opcode == 0x21 || opcode == 0x31 || opcode == 0xEA
        || opcode == 0xFA {
        Some(3)
    } else if opcode == 0x06 || opcode == 0x0E || opcode == 0x16 || opcode == 0x1E || opcode
        == 0x26 || opcode == 0x2E || opcode == 0x3E || opcode == 0xF8 {
        Some(2)
    } else if (0x40 <= opcode && opcode <= 0x7F && (opcode - 0x40) / 8 != 6 && opcode % 8 != 6)
        || opcode == 0x0A || opcode == 0x1A || opcode == 0xF9 {
        Some(1)
    } else {
        None
    }
}

} // verus!
