//! The instruction executor: exhaustive dispatch on the decoded tag into
//! the per-family execution modules.

pub mod arithmetic;
pub mod bit_operations;
pub mod control_flow;
pub mod data_transfer;
pub mod logic;
pub mod stack_operations;
pub mod system_control;

use vstd::prelude::*;

use crate::cpu::Cpu;
use crate::instructions::{ArgKind, Instruction, InstructionKind};
use crate::registers::{spec_flags_to_byte, spec_pair, Registers};

verus! {

/// The value of a 16-bit register-pair operand; AF reads F's byte
/// encoding, SP reads the stack pointer.
pub open spec fn spec_get_pair(c: Cpu, a: ArgKind) -> u16 {
    match a {
        ArgKind::BC => spec_pair(c.registers.b, c.registers.c),
        ArgKind::DE => spec_pair(c.registers.d, c.registers.e),
        ArgKind::HL => spec_pair(c.registers.h, c.registers.l),
        ArgKind::AF => spec_pair(c.registers.a, spec_flags_to_byte(c.registers.f)),
        ArgKind::SP => c.sp,
        _ => 0u16,
    }
}

/// The CPU with one 16-bit register-pair operand replaced; a write to AF
/// drops the low nibble of F, as the flags register always does.
pub open spec fn spec_set_pair(c: Cpu, a: ArgKind, v: u16) -> Cpu {
    match a {
        ArgKind::BC => Cpu {
            registers: Registers {
                b: crate::registers::spec_hi(v),
                c: crate::registers::spec_lo(v),
                ..c.registers
            },
            ..c
        },
        ArgKind::DE => Cpu {
            registers: Registers {
                d: crate::registers::spec_hi(v),
                e: crate::registers::spec_lo(v),
                ..c.registers
            },
            ..c
        },
        ArgKind::HL => Cpu {
            registers: Registers {
                h: crate::registers::spec_hi(v),
                l: crate::registers::spec_lo(v),
                ..c.registers
            },
            ..c
        },
        ArgKind::AF => Cpu {
            registers: Registers {
                a: crate::registers::spec_hi(v),
                f: crate::registers::spec_flags_from_byte(crate::registers::spec_lo(v)),
                ..c.registers
            },
            ..c
        },
        ArgKind::SP => Cpu { sp: v, ..c },
        _ => c,
    }
}

/// An operand tag naming one of the pairs INC16/DEC16 and LD rr,d16 take.
pub open spec fn spec_is_pair(a: ArgKind) -> bool {
    a == ArgKind::BC || a == ArgKind::DE || a == ArgKind::HL || a == ArgKind::SP
}

/// A 16-bit value offset by a signed byte, wrapping around the address
/// space.
pub open spec fn spec_u16_plus_i8(v: u16, off: i8) -> u16 {
    ((v + off + 0x10000) % 0x10000) as u16
}

/// The flags LD HL,SP+r8 and ADD SP,r8 leave: Z and N clear, H and C
/// computed on the low byte, treating the offset as unsigned.
pub open spec fn spec_sp_offset_flags(sp: u16, off: i8) -> crate::registers::FlagsRegister {
    crate::registers::FlagsRegister {
        zero: false,
        subtract: false,
        half_carry: (sp % 256) % 16 + (off as u8) % 16 > 0xF,
        carry: sp % 256 + (off as u8) > 0xFF,
    }
}

/// How executing one instruction relates the CPU before and after: the
/// family the tag belongs to pins the transition by its own relation.
#[verifier::opaque]
pub open spec fn spec_exec_rel(pre: Cpu, post: Cpu, k: InstructionKind) -> bool {
    &&& (data_transfer::spec_is_data_transfer(k) ==> data_transfer::spec_data_transfer_rel(
        pre,
        post,
        k,
    ))
    &&& (arithmetic::spec_is_arithmetic(k) ==> arithmetic::spec_arithmetic_rel(pre, post, k))
    &&& (logic::spec_is_logic(k) ==> logic::spec_logic_rel(pre, post, k))
    &&& (bit_operations::spec_is_bit_op(k) ==> bit_operations::spec_bit_op_rel(pre, post, k))
    &&& (control_flow::spec_is_control_flow(k) ==> control_flow::spec_control_flow_rel(
        pre,
        post,
        k,
    ))
    &&& (stack_operations::spec_is_stack_op(k) ==> stack_operations::spec_stack_op_rel(
        pre,
        post,
        k,
    ))
    &&& (system_control::spec_is_system_control(k) ==> system_control::spec_system_control_rel(
        pre,
        post,
        k,
    ))
}

impl Cpu {
    /// Reads a 16-bit register-pair operand.
    pub(crate) fn get_pair(&self, a: ArgKind) -> (r: u16)
        ensures
            r == spec_get_pair(*self, a),
    {
        match a {
            ArgKind::BC => self.registers.get_bc(),
            ArgKind::DE => self.registers.get_de(),
            ArgKind::HL => self.registers.get_hl(),
            ArgKind::AF => self.registers.get_af(),
            ArgKind::SP => self.sp,
            _ => 0,
        }
    }

    /// Writes a 16-bit register-pair operand.
    pub(crate) fn set_pair(&mut self, a: ArgKind, v: u16)
        ensures
            *final(self) == spec_set_pair(*old(self), a, v),
    {
        match a {
            ArgKind::BC => self.registers.set_bc(v),
            ArgKind::DE => self.registers.set_de(v),
            ArgKind::HL => self.registers.set_hl(v),
            ArgKind::AF => self.registers.set_af(v),
            ArgKind::SP => self.sp = v,
            _ => {},
        }
    }

    /// A signed-offset address computation, wrapping.
    pub(crate) fn u16_plus_i8(&self, v: u16, off: i8) -> (r: u16)
        ensures
            r == spec_u16_plus_i8(v, off),
    {
        if off >= 0 {
            v.wrapping_add(off as u16)
        } else {
            let mag: u16 = (-(off as i16)) as u16;
            v.wrapping_sub(mag)
        }
    }

    /// Executes one decoded instruction: exhaustive dispatch on the tag
    /// into the family modules, each of which carries the exact semantics
    /// in its own contract.  The returned legacy per-family cost is
    /// superseded by the cycle table and is discarded by callers.
    #[verifier::rlimit(100)]
    #[verifier::spinoff_prover]
    pub fn execute_instruction(&mut self, instruction: Instruction) -> (r: u8)
        requires
            old(self).wf(),
        ensures
            final(self).wf(),
            spec_exec_rel(*old(self), *final(self), instruction.kind),
    {
        proof {
            reveal(spec_exec_rel);
        }
        match instruction.kind {
            InstructionKind::LD(..) | InstructionKind::LDHL_SP_R8(..)
                | InstructionKind::LD_SP_TO_MEM(..) | InstructionKind::LD_MEM(..)
                | InstructionKind::LD_MEM_DEC(..) | InstructionKind::LD_MEM_INC(..)
                | InstructionKind::LD_FROM_MEM(..) | InstructionKind::LD_FROM_MEM_DEC(..)
                | InstructionKind::LD_FROM_MEM_INC(..) | InstructionKind::LD_MEM_16(..)
                | InstructionKind::LD_FROM_MEM_16(..) | InstructionKind::LDH_TO_C(..)
                | InstructionKind::LDH_FROM_C(..) | InstructionKind::LDH_TO_N(..)
                | InstructionKind::LDH_FROM_N(..) => data_transfer::execute(
                self,
                &instruction.kind,
            ),
            InstructionKind::ADD(..) | InstructionKind::SUB(..) | InstructionKind::ADC(..)
                | InstructionKind::SBC(..) | InstructionKind::INC(..)
                | InstructionKind::INC_MEM(..) | InstructionKind::DEC(..)
                | InstructionKind::DEC_MEM(..) | InstructionKind::INC16(..)
                | InstructionKind::DEC16(..) | InstructionKind::DAA
                | InstructionKind::ADD_SP_R8(..) => arithmetic::execute(self, &instruction.kind),
            InstructionKind::AND(..) | InstructionKind::OR(..) | InstructionKind::XOR(..)
                | InstructionKind::CP(..) | InstructionKind::CP_MEM(..) | InstructionKind::CPL
                | InstructionKind::SCF | InstructionKind::CCF => logic::execute(
                self,
                &instruction.kind,
            ),
            InstructionKind::BIT(..) | InstructionKind::SET(..) | InstructionKind::RES(..)
                | InstructionKind::RL(..) | InstructionKind::RR(..) | InstructionKind::RLC(..)
                | InstructionKind::RRC(..) | InstructionKind::SLA(..) | InstructionKind::SRA(..)
                | InstructionKind::SRL(..) | InstructionKind::SWAP(..) | InstructionKind::RLCA
                | InstructionKind::RRCA | InstructionKind::RLA | InstructionKind::RRA
                => bit_operations::execute(self, &instruction.kind),
            InstructionKind::JP(..) | InstructionKind::JP_HL | InstructionKind::JR(..)
                | InstructionKind::CALL(..) | InstructionKind::CALL_COND(..)
                | InstructionKind::RET | InstructionKind::RET_COND(..) | InstructionKind::RETI
                | InstructionKind::RST(..) => control_flow::execute(self, &instruction.kind),
            InstructionKind::PUSH(..) | InstructionKind::POP(..) => stack_operations::execute(
                self,
                &instruction.kind,
            ),
            InstructionKind::NOP | InstructionKind::HALT | InstructionKind::STOP
                | InstructionKind::EI | InstructionKind::DI => system_control::execute(
                self,
                &instruction.kind,
            ),
        }
    }
}

} // verus!
