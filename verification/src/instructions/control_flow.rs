//! Decoder for the control-flow family: absolute and relative jumps, calls,
//! returns and restarts, conditional and unconditional.

use vstd::prelude::*;

use crate::instructions::{or_zero16, or_zero8, ArgKind, InstructionKind, JumpCondition};

verus! {

/// The control-flow decode table.
pub open spec fn spec_decode_control_flow(
    opcode: u8,
    immediate: Option<u8>,
    immediate16: Option<u16>,
) -> Option<InstructionKind> {
    let imm8 = or_zero8(immediate);
    let imm16 = or_zero16(immediate16);
    match opcode {
        0xC3 => Some(InstructionKind::JP(JumpCondition::Always, imm16)),
        0xC2 => Some(InstructionKind::JP(JumpCondition::NotZero, imm16)),
        0xCA => Some(InstructionKind::JP(JumpCondition::Zero, imm16)),
        0xD2 => Some(InstructionKind::JP(JumpCondition::NotCarry, imm16)),
        0xDA => Some(InstructionKind::JP(JumpCondition::Carry, imm16)),
        0xE9 => Some(InstructionKind::JP_HL),
        0x18 => Some(InstructionKind::JR(JumpCondition::Always, imm8 as i8)),
        0x20 => Some(InstructionKind::JR(JumpCondition::NotZero, imm8 as i8)),
        0x28 => Some(InstructionKind::JR(JumpCondition::Zero, imm8 as i8)),
        0x30 => Some(InstructionKind::JR(JumpCondition::NotCarry, imm8 as i8)),
        0x38 => Some(InstructionKind::JR(JumpCondition::Carry, imm8 as i8)),
        0xCD => Some(InstructionKind::CALL(imm16)),
        0xC4 => Some(InstructionKind::CALL_COND(JumpCondition::NotZero, imm16)),
        0xCC => Some(InstructionKind::CALL_COND(JumpCondition::Zero, imm16)),
        0xD4 => Some(InstructionKind::CALL_COND(JumpCondition::NotCarry, imm16)),
        0xDC => Some(InstructionKind::CALL_COND(JumpCondition::Carry, imm16)),
        0xC9 => Some(InstructionKind::RET),
        0xC0 => Some(InstructionKind::RET_COND(JumpCondition::NotZero)),
        0xC8 => Some(InstructionKind::RET_COND(JumpCondition::Zero)),
        0xD0 => Some(InstructionKind::RET_COND(JumpCondition::NotCarry)),
        0xD8 => Some(InstructionKind::RET_COND(JumpCondition::Carry)),
        0xC7 => Some(InstructionKind::RST(0x00)),
        0xCF => Some(InstructionKind::RST(0x08)),
        0xD7 => Some(InstructionKind::RST(0x10)),
        0xDF => Some(InstructionKind::RST(0x18)),
        0xE7 => Some(InstructionKind::RST(0x20)),
        0xEF => Some(InstructionKind::RST(0x28)),
        0xF7 => Some(InstructionKind::RST(0x30)),
        0xFF => Some(InstructionKind::RST(0x38)),
        _ => None,
    }
}

/// Decodes the control-flow family; `None` for opcodes outside it.
pub fn decode_control_flow_instruction(
    opcode: u8,
    immediate: Option<u8>,
    immediate16: Option<u16>,
) -> (r: Option<InstructionKind>)
    ensures
        r == spec_decode_control_flow(opcode, immediate, immediate16),
{
    let imm8: u8 = match immediate {
        Some(x) => x,
        None => 0,
    };
    let imm16: u16 = match immediate16 {
        Some(x) => x,
        None => 0,
    };
    match opcode {
        0xC3 => Some(InstructionKind::JP(JumpCondition::Always, imm16)),
        0xC2 => Some(InstructionKind::JP(JumpCondition::NotZero, imm16)),
        0xCA => Some(InstructionKind::JP(JumpCondition::Zero, imm16)),
        0xD2 => Some(InstructionKind::JP(JumpCondition::NotCarry, imm16)),
        0xDA => Some(InstructionKind::JP(JumpCondition::Carry, imm16)),
        0xE9 => Some(InstructionKind::JP_HL),
        0x18 => Some(InstructionKind::JR(JumpCondition::Always, imm8 as i8)),
        0x20 => Some(InstructionKind::JR(JumpCondition::NotZero, imm8 as i8)),
        0x28 => Some(InstructionKind::JR(JumpCondition::Zero, imm8 as i8)),
        0x30 => Some(InstructionKind::JR(JumpCondition::NotCarry, imm8 as i8)),
        0x38 => Some(InstructionKind::JR(JumpCondition::Carry, imm8 as i8)),
        0xCD => Some(InstructionKind::CALL(imm16)),
        0xC4 => Some(InstructionKind::CALL_COND(JumpCondition::NotZero, imm16)),
        0xCC => Some(InstructionKind::CALL_COND(JumpCondition::Zero, imm16)),
        0xD4 => Some(InstructionKind::CALL_COND(JumpCondition::NotCarry, imm16)),
        0xDC => Some(InstructionKind::CALL_COND(JumpCondition::Carry, imm16)),
        0xC9 => Some(InstructionKind::RET),
        0xC0 => Some(InstructionKind::RET_COND(JumpCondition::NotZero)),
        0xC8 => Some(InstructionKind::RET_COND(JumpCondition::Zero)),
        0xD0 => Some(InstructionKind::RET_COND(JumpCondition::NotCarry)),
        0xD8 => Some(InstructionKind::RET_COND(JumpCondition::Carry)),
        0xC7 => Some(InstructionKind::RST(0x00)),
        0xCF => Some(InstructionKind::RST(0x08)),
        0xD7 => Some(InstructionKind::RST(0x10)),
        0xDF => Some(InstructionKind::RST(0x18)),
        0xE7 => Some(InstructionKind::RST(0x20)),
        0xEF => Some(InstructionKind::RST(0x28)),
        0xF7 => Some(InstructionKind::RST(0x30)),
        0xFF => Some(InstructionKind::RST(0x38)),
        _ => None,
    }
}

/// Encoded sizes of the control-flow family: 3 bytes for absolute jumps
/// and calls, 2 for relative jumps, 1 otherwise; `None` outside the family.
pub fn get_control_flow_instruction_size(opcode: u8) -> (r: Option<u16>)
    ensures
        r is Some <==> spec_decode_control_flow(opcode, Some(0u8), Some(0u16)) is Some,
        r is Some ==> r == crate::instructions::spec_instruction_size(opcode),
{
    match opcode {
        0xC3 | 0xC2 | 0xCA | 0xD2 | 0xDA | 0xCD | 0xC4 | 0xCC | 0xD4 | 0xDC => Some(3),
        0x18 | 0x20 | 0x28 | 0x30 | 0x38 => Some(2),
        0xE9 | 0xC9 | 0xC0 | 0xC8 | 0xD0 | 0xD8 | 0xC7 | 0xCF | 0xD7 | 0xDF | 0xE7 | 0xEF | 0xF7
            | 0xFF => Some(1),
        _ => None,
    }
}

} // verus!
