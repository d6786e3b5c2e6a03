//! Execution of the logic family: AND, OR, XOR and CP on A, plus the
//! flag instructions CPL, SCF and CCF.

use vstd::prelude::*;

use crate::cpu::{spec_sub8, spec_sub8_flags, Cpu};
use crate::execution::arithmetic::spec_alu_operand;
use crate::instructions::{ArgKind, InstructionKind};
use crate::registers::{spec_pair, FlagsRegister, Registers};

verus! {

/// The tags this module executes.
pub open spec fn spec_is_logic(k: InstructionKind) -> bool {
    k matches InstructionKind::AND(..) || k matches InstructionKind::OR(..)
        || k matches InstructionKind::XOR(..) || k matches InstructionKind::CP(..)
        || k matches InstructionKind::CP_MEM(..) || (k matches InstructionKind::CPL) || (
    k matches InstructionKind::SCF) || (k matches InstructionKind::CCF)
}

/// What each logic instruction does to the machine.  AND leaves H set;
/// OR and XOR clear N, H and C; CP sets the subtraction flags without
/// storing; CPL flips A and sets N and H; SCF and CCF drive only C.
pub open spec fn spec_logic_rel(pre: Cpu, post: Cpu, k: InstructionKind) -> bool {
    match k {
        InstructionKind::AND(dest, src) => {
            let v = spec_alu_operand(pre, src);
            let r = (pre.registers.a & v) as u8;
            dest == ArgKind::A ==> post == (Cpu {
                registers: Registers {
                    a: r,
                    f: FlagsRegister {
                        zero: r == 0,
                        subtract: false,
                        half_carry: true,
                        carry: false,
                    },
                    ..pre.registers
                },
                ..pre
            })
        },
        InstructionKind::OR(dest, src) => {
            let v = spec_alu_operand(pre, src);
            let r = (pre.registers.a | v) as u8;
            dest == ArgKind::A ==> post == (Cpu {
                registers: Registers {
                    a: r,
                    f: FlagsRegister {
                        zero: r == 0,
                        subtract: false,
                        half_carry: false,
                        carry: false,
                    },
                    ..pre.registers
                },
                ..pre
            })
        },
        InstructionKind::XOR(dest, src) => {
            let v = spec_alu_operand(pre, src);
            let r = (pre.registers.a ^ v) as u8;
            dest == ArgKind::A ==> post == (Cpu {
                registers: Registers {
                    a: r,
                    f: FlagsRegister {
                        zero: r == 0,
                        subtract: false,
                        half_carry: false,
                        carry: false,
                    },
                    ..pre.registers
                },
                ..pre
            })
        },
        InstructionKind::CP(dest, src) => {
            let v = spec_alu_operand(pre, src);
            dest == ArgKind::A ==> post == (Cpu {
                registers: Registers {
                    f: spec_sub8_flags(pre.registers.a, v, 0),
                    ..pre.registers
                },
                ..pre
            })
        },
        InstructionKind::CP_MEM(dest, _) => {
            let v = pre.mmap.spec_read(spec_pair(pre.registers.h, pre.registers.l));
            dest == ArgKind::A ==> post == (Cpu {
                registers: Registers {
                    f: spec_sub8_flags(pre.registers.a, v, 0),
                    ..pre.registers
                },
                ..pre
            })
        },
        InstructionKind::CPL => post == (Cpu {
            registers: Registers {
                a: (!pre.registers.a) as u8,
                f: FlagsRegister { subtract: true, half_carry: true, ..pre.registers.f },
                ..pre.registers
            },
            ..pre
        }),
        InstructionKind::SCF => post == (Cpu {
            registers: Registers {
                f: FlagsRegister {
                    subtract: false,
                    half_carry: false,
                    carry: true,
                    ..pre.registers.f
                },
                ..pre.registers
            },
            ..pre
        }),
        InstructionKind::CCF => post == (Cpu {
            registers: Registers {
                f: FlagsRegister {
                    subtract: false,
                    half_carry: false,
                    carry: !pre.registers.f.carry,
                    ..pre.registers.f
                },
                ..pre.registers
            },
            ..pre
        }),
        _ => post == pre,
    }
}

/// Executes one logic-family instruction.
#[verifier::rlimit(100)]
#[verifier::spinoff_prover]
pub fn execute(cpu: &mut Cpu, instruction: &InstructionKind) -> (r: u8)
    requires
        old(cpu).wf(),
        spec_is_logic(*instruction),
    ensures
        final(cpu).wf(),
        spec_logic_rel(*old(cpu), *final(cpu), *instruction),
{
    match instruction {
        InstructionKind::AND(dest, src) => {
            if matches!(dest, ArgKind::A) {
                let v = crate::execution::arithmetic::fetch_alu_operand(cpu, *src);
                cpu.registers.a = cpu.registers.a & v;
                cpu.registers.f.zero = cpu.registers.a == 0;
                cpu.registers.f.subtract = false;
                cpu.registers.f.half_carry = true;
                cpu.registers.f.carry = false;
            }
            4
        },
        InstructionKind::OR(dest, src) => {
            if matches!(dest, ArgKind::A) {
                let v = crate::execution::arithmetic::fetch_alu_operand(cpu, *src);
                cpu.registers.a = cpu.registers.a | v;
                cpu.registers.f.zero = cpu.registers.a == 0;
                cpu.registers.f.subtract = false;
                cpu.registers.f.half_carry = false;
                cpu.registers.f.carry = false;
            }
            4
        },
        InstructionKind::XOR(dest, src) => {
            if matches!(dest, ArgKind::A) {
                let v = crate::execution::arithmetic::fetch_alu_operand(cpu, *src);
                cpu.registers.a = cpu.registers.a ^ v;
                cpu.registers.f.zero = cpu.registers.a == 0;
                cpu.registers.f.subtract = false;
                cpu.registers.f.half_carry = false;
                cpu.registers.f.carry = false;
            }
            4
        },
        InstructionKind::CP(dest, src) => {
            if matches!(dest, ArgKind::A) {
                let v = crate::execution::arithmetic::fetch_alu_operand(cpu, *src);
                let a = cpu.registers.a;
                let result = a.wrapping_sub(v);
                cpu.registers.f.zero = result == 0;
                cpu.registers.f.subtract = true;
                cpu.registers.f.half_carry = a % 16 < v % 16;
                cpu.registers.f.carry = a < v;
            }
            4
        },
        InstructionKind::CP_MEM(dest, _) => execute_cp_mem(cpu, instruction),
        InstructionKind::CPL => {
            cpu.registers.a = !cpu.registers.a;
            cpu.registers.f.subtract = true;
            cpu.registers.f.half_carry = true;
            4
        },
        InstructionKind::SCF => {
            cpu.registers.f.subtract = false;
            cpu.registers.f.half_carry = false;
            cpu.registers.f.carry = true;
            4
        },
        InstructionKind::CCF => {
            cpu.registers.f.subtract = false;
            cpu.registers.f.half_carry = false;
            cpu.registers.f.carry = !cpu.registers.f.carry;
            4
        },
        _ => 4,
    }
}

/// Executes CP (HL): compares A with the byte behind HL.
#[verifier::rlimit(60)]
fn execute_cp_mem(cpu: &mut Cpu, instruction: &InstructionKind) -> (r: u8)
    requires
        old(cpu).wf(),
        *instruction matches InstructionKind::CP_MEM(..),
    ensures
        final(cpu).wf(),
        spec_logic_rel(*old(cpu), *final(cpu), *instruction),
{
    match instruction {
        InstructionKind::CP_MEM(dest, _) => {
            if matches!(dest, ArgKind::A) {
                let addr = cpu.registers.get_hl();
                let v = cpu.mmap.read(addr);
                let a = cpu.registers.a;
                let result = a.wrapping_sub(v);
                cpu.registers.f.zero = result == 0;
                cpu.registers.f.subtract = true;
                cpu.registers.f.half_carry = a % 16 < v % 16;
                cpu.registers.f.carry = a < v;
            }
            8
        },
        _ => 8,
    }
}

} // verus!
