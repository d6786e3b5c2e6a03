//! Decoder for the system-control opcodes: HALT, STOP, DI, EI, NOP, the
//! accumulator rotates, and the flag instructions CPL, SCF and CCF.

use vstd::prelude::*;

use crate::instructions::InstructionKind;

verus! {

/// The system-control decode table.
pub open spec fn spec_decode_cpu_control(opcode: u8) -> Option<InstructionKind> {
    match opcode {
        0x76 => Some(InstructionKind::HALT),
        0xF3 => Some(InstructionKind::DI),
        0xFB => Some(InstructionKind::EI),
        0x00 => Some(InstructionKind::NOP),
        0x17 => Some(InstructionKind::RLA),
        0x1F => Some(InstructionKind::RRA),
        0x10 => Some(InstructionKind::STOP),
        0x2F => Some(InstructionKind::CPL),
        0x37 => Some(InstructionKind::SCF),
        0x3F => Some(InstructionKind::CCF),
        _ => None,
    }
}

/// Decodes the system-control family; `None` for opcodes outside it.
pub fn decode_cpu_control_instruction(opcode: u8) -> (r: Option<InstructionKind>)
    ensures
        r == spec_decode_cpu_control(opcode),
{
    match opcode {
        0x76 => Some(InstructionKind::HALT),
        0xF3 => Some(InstructionKind::DI),
        0xFB => Some(InstructionKind::EI),
        0x00 => Some(InstructionKind::NOP),
        0x17 => Some(InstructionKind::RLA),
        0x1F => Some(InstructionKind::RRA),
        0x10 => Some(InstructionKind::STOP),
        0x2F => Some(InstructionKind::CPL),
        0x37 => Some(InstructionKind::SCF),
        0x3F => Some(InstructionKind::CCF),
        _ => None,
    }
}

/// Encoded sizes of the system-control family: STOP carries a padding
/// byte, the rest are a single byte; `None` outside the family.
pub fn get_cpu_control_instruction_size(opcode: u8) -> (r: Option<u16>)
    ensures
        r is Some <==> spec_decode_cpu_control(opcode) is Some,
        r is Some ==> r == crate::instructions::spec_instruction_size(opcode),
{
    match opcode {
        0x76 | 0xF3 | 0xFB | 0x00 | 0x17 | 0x1F | 0x2F | 0x37 | 0x3F => Some(1),
        0x10 => Some(2),
        _ => None,
    }
}

} // verus!
