//! The T-cycle cost of each instruction, with the branch-taken variants of
//! the conditional jumps, calls and returns.

use vstd::prelude::*;

use crate::instructions::{ArgKind, InstructionKind, JumpCondition};

verus! {

/// The authoritative T-cycle table.  For a conditional instruction the
/// cost depends on whether the branch was taken.
pub open spec fn spec_instruction_cycles(instruction: InstructionKind, condition_taken: bool) -> u8 {
    match instruction {
        InstructionKind::JP(condition, _) => if condition == JumpCondition::Always {
            16u8
        } else if condition_taken {
            16u8
        } else {
            12u8
        },
        InstructionKind::JP_HL => 4u8,
        InstructionKind::JR(condition, _) => if condition == JumpCondition::Always {
            12u8
        } else if condition_taken {
            12u8
        } else {
            8u8
        },
        InstructionKind::CALL(_) => 24u8,
        InstructionKind::CALL_COND(_, _) => if condition_taken {
            24u8
        } else {
            12u8
        },
        InstructionKind::RET => 16u8,
        InstructionKind::RET_COND(_) => if condition_taken {
            20u8
        } else {
            8u8
        },
        InstructionKind::RETI => 16u8,
        InstructionKind::RST(_) => 16u8,
        InstructionKind::LD(dest, src) => match (dest, src) {
            (ArgKind::BC, ArgKind::Immediate16(_)) => 12u8,
            (ArgKind::DE, ArgKind::Immediate16(_)) => 12u8,
            (ArgKind::HL, ArgKind::Immediate16(_)) => 12u8,
            (ArgKind::SP, ArgKind::Immediate16(_)) => 12u8,
            (_, ArgKind::Immediate(_)) => 8u8,
            (ArgKind::SP, ArgKind::HL) => 8u8,
            _ => 4u8,
        },
        InstructionKind::LD_MEM(_, src) => match src {
            ArgKind::Immediate(_) => 12u8,
            _ => 8u8,
        },
        InstructionKind::LD_MEM_INC(_, _) => 8u8,
        InstructionKind::LD_MEM_DEC(_, _) => 8u8,
        InstructionKind::LD_FROM_MEM(_, _) => 8u8,
        InstructionKind::LD_FROM_MEM_INC(_, _) => 8u8,
        InstructionKind::LD_FROM_MEM_DEC(_, _) => 8u8,
        InstructionKind::LD_MEM_16(_, _) => 16u8,
        InstructionKind::LD_FROM_MEM_16(_, _) => 16u8,
        InstructionKind::LDHL_SP_R8(_) => 12u8,
        InstructionKind::LD_SP_TO_MEM(_) => 20u8,
        InstructionKind::ADD(dest, src) => match (dest, src) {
            (ArgKind::HL, _) => 8u8,
            (_, ArgKind::HL) => 8u8,
            (_, ArgKind::Immediate(_)) => 8u8,
            _ => 4u8,
        },
        InstructionKind::ADC(_, src) => match src {
            ArgKind::HL => 8u8,
            ArgKind::Immediate(_) => 8u8,
            _ => 4u8,
        },
        InstructionKind::SUB(_, src) => match src {
            ArgKind::HL => 8u8,
            ArgKind::Immediate(_) => 8u8,
            _ => 4u8,
        },
        InstructionKind::SBC(_, src) => match src {
            ArgKind::HL => 8u8,
            ArgKind::Immediate(_) => 8u8,
            _ => 4u8,
        },
        InstructionKind::ADD_SP_R8(_) => 16u8,
        InstructionKind::INC(_) => 4u8,
        InstructionKind::DEC(_) => 4u8,
        InstructionKind::INC_MEM(_) => 12u8,
        InstructionKind::DEC_MEM(_) => 12u8,
        InstructionKind::INC16(_) => 8u8,
        InstructionKind::DEC16(_) => 8u8,
        InstructionKind::BIT(_, arg) => if arg == ArgKind::HL {
            12u8
        } else {
            8u8
        },
        InstructionKind::RES(_, arg) => if arg == ArgKind::HL {
            16u8
        } else {
            8u8
        },
        InstructionKind::SET(_, arg) => if arg == ArgKind::HL {
            16u8
        } else {
            8u8
        },
        InstructionKind::RL(arg) => if arg == ArgKind::HL {
            16u8
        } else {
            8u8
        },
        InstructionKind::RR(arg) => if arg == ArgKind::HL {
            16u8
        } else {
            8u8
        },
        InstructionKind::RLC(arg) => if arg == ArgKind::HL {
            16u8
        } else {
            8u8
        },
        InstructionKind::RRC(arg) => if arg == ArgKind::HL {
            16u8
        } else {
            8u8
        },
        InstructionKind::SLA(arg) => if arg == ArgKind::HL {
            16u8
        } else {
            8u8
        },
        InstructionKind::SRA(arg) => if arg == ArgKind::HL {
            16u8
        } else {
            8u8
        },
        InstructionKind::SRL(arg) => if arg == ArgKind::HL {
            16u8
        } else {
            8u8
        },
        InstructionKind::SWAP(arg) => if arg == ArgKind::HL {
            16u8
        } else {
            8u8
        },
        InstructionKind::XOR(_, src) => match src {
            ArgKind::Immediate(_) => 8u8,
            ArgKind::HL => 8u8,
            _ => 4u8,
        },
        InstructionKind::AND(_, src) => match src {
            ArgKind::Immediate(_) => 8u8,
            ArgKind::HL => 8u8,
            _ => 4u8,
        },
        InstructionKind::OR(_, src) => match src {
            ArgKind::Immediate(_) => 8u8,
            ArgKind::HL => 8u8,
            _ => 4u8,
        },
        InstructionKind::CP(_, src) => match src {
            ArgKind::Immediate(_) => 8u8,
            ArgKind::HL => 8u8,
            _ => 4u8,
        },
        InstructionKind::CP_MEM(_, _) => 8u8,
        InstructionKind::LDH_TO_C(_) => 8u8,
        InstructionKind::LDH_FROM_C(_) => 8u8,
        InstructionKind::LDH_TO_N(_, _) => 12u8,
        InstructionKind::LDH_FROM_N(_, _) => 12u8,
        InstructionKind::PUSH(_) => 16u8,
        InstructionKind::POP(_) => 12u8,
        InstructionKind::RLA => 4u8,
        InstructionKind::RRA => 4u8,
        InstructionKind::RLCA => 4u8,
        InstructionKind::RRCA => 4u8,
        InstructionKind::NOP => 4u8,
        InstructionKind::HALT => 4u8,
        InstructionKind::STOP => 4u8,
        InstructionKind::EI => 4u8,
        InstructionKind::DI => 4u8,
        InstructionKind::DAA => 4u8,
        InstructionKind::CPL => 4u8,
        InstructionKind::SCF => 4u8,
        InstructionKind::CCF => 4u8,
    }
}

/// Looks up the T-cycle cost of an instruction; for a conditional one,
/// `condition_taken` selects between the taken and not-taken costs.
pub fn get_instruction_cycles(instruction: &InstructionKind, condition_taken: bool) -> (r: u8)
    ensures
        r == spec_instruction_cycles(*instruction, condition_taken),
{
    match instruction {
        InstructionKind::JP(condition, _) => {
            if *condition == JumpCondition::Always {
                16
            } else if condition_taken {
                16
            } else {
                12
            }
        },
        InstructionKind::JP_HL => 4,
        InstructionKind::JR(condition, _) => {
            if *condition == JumpCondition::Always {
                12
            } else if condition_taken {
                12
            } else {
                8
            }
        },
        InstructionKind::CALL(_) => 24,
        InstructionKind::CALL_COND(_, _) => if condition_taken {
            24
        } else {
            12
        },
        InstructionKind::RET => 16,
        InstructionKind::RET_COND(_) => if condition_taken {
            20
        } else {
            8
        },
        InstructionKind::RETI => 16,
        InstructionKind::RST(_) => 16,
        InstructionKind::LD(dest, src) => match (dest, src) {
            (ArgKind::BC, ArgKind::Immediate16(_)) => 12,
            (ArgKind::DE, ArgKind::Immediate16(_)) => 12,
            (ArgKind::HL, ArgKind::Immediate16(_)) => 12,
            (ArgKind::SP, ArgKind::Immediate16(_)) => 12,
            (_, ArgKind::Immediate(_)) => 8,
            (ArgKind::SP, ArgKind::HL) => 8,
            _ => 4,
        },
        InstructionKind::LD_MEM(_, src) => match src {
            ArgKind::Immediate(_) => 12,
            _ => 8,
        },
        InstructionKind::LD_MEM_INC(_, _) => 8,
        InstructionKind::LD_MEM_DEC(_, _) => 8,
        InstructionKind::LD_FROM_MEM(_, _) => 8,
        InstructionKind::LD_FROM_MEM_INC(_, _) => 8,
        InstructionKind::LD_FROM_MEM_DEC(_, _) => 8,
        InstructionKind::LD_MEM_16(_, _) => 16,
        InstructionKind::LD_FROM_MEM_16(_, _) => 16,
        InstructionKind::LDHL_SP_R8(_) => 12,
        InstructionKind::LD_SP_TO_MEM(_) => 20,
        InstructionKind::ADD(dest, src) => match (dest, src) {
            (ArgKind::HL, _) => 8,
            (_, ArgKind::HL) => 8,
            (_, ArgKind::Immediate(_)) => 8,
            _ => 4,
        },
        InstructionKind::ADC(_, src) => match src {
            ArgKind::HL => 8,
            ArgKind::Immediate(_) => 8,
            _ => 4,
        },
        InstructionKind::SUB(_, src) => match src {
            ArgKind::HL => 8,
            ArgKind::Immediate(_) => 8,
            _ => 4,
        },
        InstructionKind::SBC(_, src) => match src {
            ArgKind::HL => 8,
            ArgKind::Immediate(_) => 8,
            _ => 4,
        },
        InstructionKind::ADD_SP_R8(_) => 16,
        InstructionKind::INC(_) => 4,
        InstructionKind::DEC(_) => 4,
        InstructionKind::INC_MEM(_) => 12,
        InstructionKind::DEC_MEM(_) => 12,
        InstructionKind::INC16(_) => 8,
        InstructionKind::DEC16(_) => 8,
        InstructionKind::BIT(_, arg) => if *arg == ArgKind::HL {
            12
        } else {
            8
        },
        InstructionKind::RES(_, arg) => if *arg == ArgKind::HL {
            16
        } else {
            8
        },
        InstructionKind::SET(_, arg) => if *arg == ArgKind::HL {
            16
        } else {
            8
        },
        InstructionKind::RL(arg) => if *arg == ArgKind::HL {
            16
        } else {
            8
        },
        InstructionKind::RR(arg) => if *arg == ArgKind::HL {
            16
        } else {
            8
        },
        InstructionKind::RLC(arg) => if *arg == ArgKind::HL {
            16
        } else {
            8
        },
        InstructionKind::RRC(arg) => if *arg == ArgKind::HL {
            16
        } else {
            8
        },
        InstructionKind::SLA(arg) => if *arg == ArgKind::HL {
            16
        } else {
            8
        },
        InstructionKind::SRA(arg) => if *arg == ArgKind::HL {
            16
        } else {
            8
        },
        InstructionKind::SRL(arg) => if *arg == ArgKind::HL {
            16
        } else {
            8
        },
        InstructionKind::SWAP(arg) => if *arg == ArgKind::HL {
            16
        } else {
            8
        },
        InstructionKind::XOR(_, src) => match src {
            ArgKind::Immediate(_) => 8,
            ArgKind::HL => 8,
            _ => 4,
        },
        InstructionKind::AND(_, src) => match src {
            ArgKind::Immediate(_) => 8,
            ArgKind::HL => 8,
            _ => 4,
        },
        InstructionKind::OR(_, src) => match src {
            ArgKind::Immediate(_) => 8,
            ArgKind::HL => 8,
            _ => 4,
        },
        InstructionKind::CP(_, src) => match src {
            ArgKind::Immediate(_) => 8,
            ArgKind::HL => 8,
            _ => 4,
        },
        InstructionKind::CP_MEM(_, _) => 8,
        InstructionKind::LDH_TO_C(_) => 8,
        InstructionKind::LDH_FROM_C(_) => 8,
        InstructionKind::LDH_TO_N(_, _) => 12,
        InstructionKind::LDH_FROM_N(_, _) => 12,
        InstructionKind::PUSH(_) => 16,
        InstructionKind::POP(_) => 12,
        InstructionKind::RLA => 4,
        InstructionKind::RRA => 4,
        InstructionKind::RLCA => 4,
        InstructionKind::RRCA => 4,
        InstructionKind::NOP => 4,
        InstructionKind::HALT => 4,
        InstructionKind::STOP => 4,
        InstructionKind::EI => 4,
        InstructionKind::DI => 4,
        InstructionKind::DAA => 4,
        InstructionKind::CPL => 4,
        InstructionKind::SCF => 4,
        InstructionKind::CCF => 4,
    }
}

} // verus!
