//! Decoder for the 256 CB-prefixed opcodes.  The table is perfectly regular:
//! the low three bits select the operand (B,C,D,E,H,L,(HL),A) and the upper
//! five select the operation, with BIT/RES/SET carrying the bit number.

use vstd::prelude::*;

use crate::instructions::{ArgKind, InstructionKind};

verus! {

/// The operand encoded in the low three bits of a CB opcode.
pub open spec fn spec_cb_arg(bits: u8) -> ArgKind {
    if bits == 0 {
        ArgKind::B
    } else if bits == 1 {
        ArgKind::C
    } else if bits == 2 {
        ArgKind::D
    } else if bits == 3 {
        ArgKind::E
    } else if bits == 4 {
        ArgKind::H
    } else if bits == 5 {
        ArgKind::L
    } else if bits == 6 {
        ArgKind::HL
    } else {
        ArgKind::A
    }
}

/// The instruction a CB operation byte denotes: rows 0x00-0x3F are the
/// rotate/shift/swap family, 0x40-0x7F is BIT, 0x80-0xBF is RES and
/// 0xC0-0xFF is SET, each over the operand in the low three bits.
pub open spec fn spec_decode_cb(cb: u8) -> InstructionKind {
    let arg = spec_cb_arg(cb % 8);
    let row = cb / 8;
    if row == 0 {
        InstructionKind::RLC(arg)
    } else if row == 1 {
        InstructionKind::RRC(arg)
    } else if row == 2 {
        InstructionKind::RL(arg)
    } else if row == 3 {
        InstructionKind::RR(arg)
    } else if row == 4 {
        InstructionKind::SLA(arg)
    } else if row == 5 {
        InstructionKind::SRA(arg)
    } else if row == 6 {
        InstructionKind::SWAP(arg)
    } else if row == 7 {
        InstructionKind::SRL(arg)
    } else if row < 16 {
        InstructionKind::BIT((row - 8) as u8, arg)
    } else if row < 24 {
        InstructionKind::RES((row - 16) as u8, arg)
    } else {
        InstructionKind::SET((row - 24) as u8, arg)
    }
}

/// Decodes a 16-bit opcode of the form 0xCBxx; values outside that range
/// are not CB opcodes and give `None`.
pub fn decode_bit_instruction(opcode: u16) -> (r: Option<InstructionKind>)
    ensures
        0xCB00 <= opcode <= 0xCBFF ==> r == Some(spec_decode_cb((opcode % 256) as u8)),
        !(0xCB00 <= opcode <= 0xCBFF) ==> r is None,
{
    if opcode < 0xCB00 || opcode > 0xCBFF {
        return None;
    }
    let cb = (opcode % 256) as u8;
    let arg = match cb % 8 {
        0 => ArgKind::B,
        1 => ArgKind::C,
        2 => ArgKind::D,
        3 => ArgKind::E,
        4 => ArgKind::H,
        5 => ArgKind::L,
        6 => ArgKind::HL,
        _ => ArgKind::A,
    };
    let row = cb / 8;
    if row == 0 {
        Some(InstructionKind::RLC(arg))
    } else if row == 1 {
        Some(InstructionKind::RRC(arg))
    } else if row == 2 {
        Some(InstructionKind::RL(arg))
    } else if row == 3 {
        Some(InstructionKind::RR(arg))
    } else if row == 4 {
        Some(InstructionKind::SLA(arg))
    } else if row == 5 {
        Some(InstructionKind::SRA(arg))
    } else if row == 6 {
        Some(InstructionKind::SWAP(arg))
    } else if row == 7 {
        Some(InstructionKind::SRL(arg))
    } else if row < 16 {
        Some(InstructionKind::BIT(row - 8, arg))
    } else if row < 24 {
        Some(InstructionKind::RES(row - 16, arg))
    } else {
        Some(InstructionKind::SET(row - 24, arg))
    }
}

} // verus!
