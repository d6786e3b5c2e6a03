//! Execution of the bit family: BIT/SET/RES, the rotates and shifts on
//! registers and (HL), SWAP, and the accumulator rotate shorthands.

use vstd::prelude::*;

use crate::cpu::{spec_get_r8, spec_is_r8, spec_set_r8, Cpu};
use crate::instructions::{ArgKind, InstructionKind};
use crate::memory::spec_write_rel;
use crate::registers::{spec_pair, FlagsRegister, Registers};

verus! {

/// The tags this module executes.
pub open spec fn spec_is_bit_op(k: InstructionKind) -> bool {
    k matches InstructionKind::BIT(..) || k matches InstructionKind::SET(..)
        || k matches InstructionKind::RES(..) || k matches InstructionKind::RL(..)
        || k matches InstructionKind::RR(..) || k matches InstructionKind::RLC(..)
        || k matches InstructionKind::RRC(..) || k matches InstructionKind::SLA(..)
        || k matches InstructionKind::SRA(..) || k matches InstructionKind::SRL(..)
        || k matches InstructionKind::SWAP(..) || (k matches InstructionKind::RLCA) || (
    k matches InstructionKind::RRCA) || (k matches InstructionKind::RLA) || (
    k matches InstructionKind::RRA)
}

/// The rotate/shift family, numerically: each returns the new byte and
/// the bit shifted into the carry.
pub open spec fn spec_rot(k: InstructionKind, v: u8, carry_in: bool) -> (u8, bool) {
    let cin: u8 = if carry_in {
        1u8
    } else {
        0u8
    };
    match k {
        InstructionKind::RLC(_) => ((((v * 2) % 256) + v / 128) as u8, v >= 128),
        InstructionKind::RRC(_) => ((v / 2 + (v % 2) * 128) as u8, v % 2 == 1),
        InstructionKind::RL(_) => ((((v * 2) % 256) + cin) as u8, v >= 128),
        InstructionKind::RR(_) => ((v / 2 + cin * 128) as u8, v % 2 == 1),
        InstructionKind::SLA(_) => (((v * 2) % 256) as u8, v >= 128),
        InstructionKind::SRA(_) => ((v / 2 + (v / 128) * 128) as u8, v % 2 == 1),
        InstructionKind::SRL(_) => ((v / 2) as u8, v % 2 == 1),
        InstructionKind::SWAP(_) => (((v % 16) * 16 + v / 16) as u8, false),
        _ => (v, false),
    }
}

/// What each bit instruction does.  CB rotates set Z from the result;
/// the accumulator shorthands RLCA/RRCA/RLA/RRA always clear Z.
pub open spec fn spec_bit_op_rel(pre: Cpu, post: Cpu, k: InstructionKind) -> bool {
    match k {
        InstructionKind::BIT(bit, reg) => {
            let v = if reg == ArgKind::HL {
                pre.mmap.spec_read(spec_pair(pre.registers.h, pre.registers.l))
            } else {
                spec_get_r8(pre.registers, reg)
            };
            (spec_is_r8(reg) || reg == ArgKind::HL) && bit < 8 ==> post == (Cpu {
                registers: Registers {
                    f: FlagsRegister {
                        zero: v & (1u8 << bit) == 0,
                        subtract: false,
                        half_carry: true,
                        carry: pre.registers.f.carry,
                    },
                    ..pre.registers
                },
                ..pre
            })
        },
        InstructionKind::SET(bit, reg) => {
            &&& (spec_is_r8(reg) && bit < 8 ==> post == (Cpu {
                registers: spec_set_r8(
                    pre.registers,
                    reg,
                    (spec_get_r8(pre.registers, reg) | (1u8 << bit)) as u8,
                ),
                ..pre
            }))
            &&& (reg == ArgKind::HL && bit < 8 ==> {
                let addr = spec_pair(pre.registers.h, pre.registers.l);
                &&& post.registers == pre.registers
                &&& post.pc == pre.pc && post.sp == pre.sp && post.halted == pre.halted
                    && post.ime == pre.ime && post.ei_delay == pre.ei_delay && post.halt_bug
                    == pre.halt_bug
                &&& spec_write_rel(
                    pre.mmap,
                    post.mmap,
                    addr,
                    (pre.mmap.spec_read(addr) | (1u8 << bit)) as u8,
                )
            })
        },
        InstructionKind::RES(bit, reg) => {
            &&& (spec_is_r8(reg) && bit < 8 ==> post == (Cpu {
                registers: spec_set_r8(
                    pre.registers,
                    reg,
                    (spec_get_r8(pre.registers, reg) & !(1u8 << bit)) as u8,
                ),
                ..pre
            }))
            &&& (reg == ArgKind::HL && bit < 8 ==> {
                let addr = spec_pair(pre.registers.h, pre.registers.l);
                &&& post.registers == pre.registers
                &&& post.pc == pre.pc && post.sp == pre.sp && post.halted == pre.halted
                    && post.ime == pre.ime && post.ei_delay == pre.ei_delay && post.halt_bug
                    == pre.halt_bug
                &&& spec_write_rel(
                    pre.mmap,
                    post.mmap,
                    addr,
                    (pre.mmap.spec_read(addr) & !(1u8 << bit)) as u8,
                )
            })
        },
        InstructionKind::RLCA => {
            let rot = spec_rot(
                InstructionKind::RLC(ArgKind::A),
                pre.registers.a,
                pre.registers.f.carry,
            );
            post == (Cpu {
                registers: Registers {
                    a: rot.0,
                    f: FlagsRegister {
                        zero: false,
                        subtract: false,
                        half_carry: false,
                        carry: rot.1,
                    },
                    ..pre.registers
                },
                ..pre
            })
        },
        InstructionKind::RRCA => {
            let rot = spec_rot(
                InstructionKind::RRC(ArgKind::A),
                pre.registers.a,
                pre.registers.f.carry,
            );
            post == (Cpu {
                registers: Registers {
                    a: rot.0,
                    f: FlagsRegister {
                        zero: false,
                        subtract: false,
                        half_carry: false,
                        carry: rot.1,
                    },
                    ..pre.registers
                },
                ..pre
            })
        },
        InstructionKind::RLA => {
            let rot = spec_rot(
                InstructionKind::RL(ArgKind::A),
                pre.registers.a,
                pre.registers.f.carry,
            );
            post == (Cpu {
                registers: Registers {
                    a: rot.0,
                    f: FlagsRegister {
                        zero: false,
                        subtract: false,
                        half_carry: false,
                        carry: rot.1,
                    },
                    ..pre.registers
                },
                ..pre
            })
        },
        InstructionKind::RRA => {
            let rot = spec_rot(
                InstructionKind::RR(ArgKind::A),
                pre.registers.a,
                pre.registers.f.carry,
            );
            post == (Cpu {
                registers: Registers {
                    a: rot.0,
                    f: FlagsRegister {
                        zero: false,
                        subtract: false,
                        half_carry: false,
                        carry: rot.1,
                    },
                    ..pre.registers
                },
                ..pre
            })
        },
        InstructionKind::RL(reg) | InstructionKind::RR(reg) | InstructionKind::RLC(reg)
            | InstructionKind::RRC(reg) | InstructionKind::SLA(reg) | InstructionKind::SRA(reg)
            | InstructionKind::SRL(reg) | InstructionKind::SWAP(reg) => {
            if spec_is_r8(reg) {
                let rot = spec_rot(k, spec_get_r8(pre.registers, reg), pre.registers.f.carry);
                post == (Cpu {
                    registers: Registers {
                        f: FlagsRegister {
                            zero: rot.0 == 0,
                            subtract: false,
                            half_carry: false,
                            carry: rot.1,
                        },
                        ..spec_set_r8(pre.registers, reg, rot.0)
                    },
                    ..pre
                })
            } else if reg == ArgKind::HL {
                let addr = spec_pair(pre.registers.h, pre.registers.l);
                let rot = spec_rot(k, pre.mmap.spec_read(addr), pre.registers.f.carry);
                &&& post.registers == (Registers {
                    f: FlagsRegister {
                        zero: rot.0 == 0,
                        subtract: false,
                        half_carry: false,
                        carry: rot.1,
                    },
                    ..pre.registers
                })
                &&& post.pc == pre.pc && post.sp == pre.sp && post.halted == pre.halted
                    && post.ime == pre.ime && post.ei_delay == pre.ei_delay && post.halt_bug
                    == pre.halt_bug
                &&& spec_write_rel(pre.mmap, post.mmap, addr, rot.0)
            } else {
                post == pre
            }
        },
        _ => true,
    }
}

/// Executes one bit-family instruction.  The (HL) forms of BIT, SET,
/// RES and the rotates read (and for all but BIT, write back) the byte
/// behind HL through the memory decoder.
#[verifier::rlimit(100)]
#[verifier::spinoff_prover]
pub fn execute(cpu: &mut Cpu, instruction: &InstructionKind) -> (r: u8)
    requires
        old(cpu).wf(),
        spec_is_bit_op(*instruction),
    ensures
        final(cpu).wf(),
        spec_bit_op_rel(*old(cpu), *final(cpu), *instruction),
{
    match instruction {
        InstructionKind::BIT(bit, reg) => {
            if *bit < 8 && matches!(reg, ArgKind::A | ArgKind::B | ArgKind::C | ArgKind::D
                | ArgKind::E | ArgKind::H | ArgKind::L) {
                let v = cpu.get_reg8(*reg);
                cpu.test_bit(*bit, v);
            } else if *bit < 8 && matches!(reg, ArgKind::HL) {
                let addr = cpu.registers.get_hl();
                let v = cpu.mmap.read(addr);
                cpu.test_bit(*bit, v);
            }
            8
        },
        InstructionKind::SET(bit, reg) => {
            if *bit < 8 && matches!(reg, ArgKind::A | ArgKind::B | ArgKind::C | ArgKind::D
                | ArgKind::E | ArgKind::H | ArgKind::L) {
                let v = cpu.get_reg8(*reg);
                cpu.set_reg8(*reg, v | (1u8 << *bit));
            } else if *bit < 8 && matches!(reg, ArgKind::HL) {
                let addr = cpu.registers.get_hl();
                let v = cpu.mmap.read(addr);
                cpu.mmap.write(addr, v | (1u8 << *bit));
            }
            8
        },
        InstructionKind::RES(bit, reg) => {
            if *bit < 8 && matches!(reg, ArgKind::A | ArgKind::B | ArgKind::C | ArgKind::D
                | ArgKind::E | ArgKind::H | ArgKind::L) {
                let v = cpu.get_reg8(*reg);
                cpu.set_reg8(*reg, v & !(1u8 << *bit));
            } else if *bit < 8 && matches!(reg, ArgKind::HL) {
                let addr = cpu.registers.get_hl();
                let v = cpu.mmap.read(addr);
                cpu.mmap.write(addr, v & !(1u8 << *bit));
            }
            8
        },
        InstructionKind::RLCA => {
            let rot = rotate(cpu, &InstructionKind::RLC(ArgKind::A), cpu.registers.a);
            cpu.registers.a = rot.0;
            set_rotate_flags(cpu, false, rot.0, rot.1);
            4
        },
        InstructionKind::RRCA => {
            let rot = rotate(cpu, &InstructionKind::RRC(ArgKind::A), cpu.registers.a);
            cpu.registers.a = rot.0;
            set_rotate_flags(cpu, false, rot.0, rot.1);
            4
        },
        InstructionKind::RLA => {
            let rot = rotate(cpu, &InstructionKind::RL(ArgKind::A), cpu.registers.a);
            cpu.registers.a = rot.0;
            set_rotate_flags(cpu, false, rot.0, rot.1);
            4
        },
        InstructionKind::RRA => {
            let rot = rotate(cpu, &InstructionKind::RR(ArgKind::A), cpu.registers.a);
            cpu.registers.a = rot.0;
            set_rotate_flags(cpu, false, rot.0, rot.1);
            4
        },
        InstructionKind::RL(reg) | InstructionKind::RR(reg) | InstructionKind::RLC(reg)
            | InstructionKind::RRC(reg) | InstructionKind::SLA(reg) | InstructionKind::SRA(reg)
            | InstructionKind::SRL(reg) | InstructionKind::SWAP(reg) => {
            if matches!(reg, ArgKind::A | ArgKind::B | ArgKind::C | ArgKind::D | ArgKind::E
                | ArgKind::H | ArgKind::L) {
                let v = cpu.get_reg8(*reg);
                let rot = rotate(cpu, instruction, v);
                cpu.set_reg8(*reg, rot.0);
                set_rotate_flags(cpu, true, rot.0, rot.1);
            } else if matches!(reg, ArgKind::HL) {
                let addr = cpu.registers.get_hl();
                let v = cpu.mmap.read(addr);
                let rot = rotate(cpu, instruction, v);
                cpu.mmap.write(addr, rot.0);
                set_rotate_flags(cpu, true, rot.0, rot.1);
            }
            8
        },
        _ => 8,
    }
}

/// Applies one rotate or shift, returning the new byte and the carry out.
fn rotate(cpu: &Cpu, k: &InstructionKind, v: u8) -> (r: (u8, bool))
    ensures
        r == spec_rot(*k, v, cpu.registers.f.carry),
{
    let cin: u8 = if cpu.registers.f.carry {
        1
    } else {
        0
    };
    match k {
        InstructionKind::RLC(_) => (((v as u16 * 2) % 256) as u8 + v / 128, v >= 128),
        InstructionKind::RRC(_) => (v / 2 + (v % 2) * 128, v % 2 == 1),
        InstructionKind::RL(_) => (((v as u16 * 2) % 256) as u8 + cin, v >= 128),
        InstructionKind::RR(_) => (v / 2 + cin * 128, v % 2 == 1),
        InstructionKind::SLA(_) => (((v as u16 * 2) % 256) as u8, v >= 128),
        InstructionKind::SRA(_) => (v / 2 + (v / 128) * 128, v % 2 == 1),
        InstructionKind::SRL(_) => (v / 2, v % 2 == 1),
        InstructionKind::SWAP(_) => ((v % 16) * 16 + v / 16, false),
        _ => (v, false),
    }
}

/// The flag pattern shared by the rotate family: Z from the result for
/// the CB forms, Z clear for the accumulator shorthands; N and H clear;
/// C from the bit shifted out.
fn set_rotate_flags(cpu: &mut Cpu, zero_from_result: bool, result: u8, carry_out: bool)
    ensures
        *final(cpu) == (Cpu {
            registers: Registers {
                f: FlagsRegister {
                    zero: zero_from_result && result == 0,
                    subtract: false,
                    half_carry: false,
                    carry: carry_out,
                },
                ..old(cpu).registers
            },
            ..*old(cpu)
        }),
{
    cpu.registers.f.zero = zero_from_result && result == 0;
    cpu.registers.f.subtract = false;
    cpu.registers.f.half_carry = false;
    cpu.registers.f.carry = carry_out;
}

} // verus!
