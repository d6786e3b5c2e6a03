//! Execution of the arithmetic family: 8-bit ADD/ADC/SUB/SBC on A,
//! INC/DEC in registers, memory and pairs, ADD HL,rr, ADD SP,r8 and DAA.

use vstd::prelude::*;

use crate::cpu::{
    spec_add8, spec_add8_flags, spec_get_r8, spec_set_r8, spec_sub8, spec_sub8_flags, Cpu,
};
use crate::execution::{spec_get_pair, spec_is_pair, spec_set_pair, spec_sp_offset_flags,
    spec_u16_plus_i8};
use crate::instructions::{ArgKind, InstructionKind};
use crate::memory::spec_write_rel;
use crate::registers::{spec_hi, spec_lo, spec_pair, FlagsRegister, Registers};

verus! {

/// The tags this module executes.
pub open spec fn spec_is_arithmetic(k: InstructionKind) -> bool {
    k matches InstructionKind::ADD(..) || k matches InstructionKind::SUB(..)
        || k matches InstructionKind::ADC(..) || k matches InstructionKind::SBC(..)
        || k matches InstructionKind::INC(..) || k matches InstructionKind::INC_MEM(..)
        || k matches InstructionKind::DEC(..) || k matches InstructionKind::DEC_MEM(..)
        || k matches InstructionKind::INC16(..) || k matches InstructionKind::DEC16(..) || (
    k matches InstructionKind::DAA) || k matches InstructionKind::ADD_SP_R8(..)
}

/// The 8-bit operand of an A-destination operation: a register, (HL) or
/// an immediate.
pub open spec fn spec_alu_operand(c: Cpu, src: ArgKind) -> u8 {
    match src {
        ArgKind::HL => c.mmap.spec_read(spec_pair(c.registers.h, c.registers.l)),
        ArgKind::Immediate(v) => v,
        _ => spec_get_r8(c.registers, src),
    }
}

/// DAA's result and flags: a BCD adjustment of A driven by N, H and C.
pub open spec fn spec_daa(a: u8, f: FlagsRegister) -> (u8, FlagsRegister) {
    let correction: u8 = (((if f.half_carry || (!f.subtract && a % 16 > 0x09) {
        0x06u8
    } else {
        0u8
    }) + (if f.carry || (!f.subtract && a > 0x99) {
        0x60u8
    } else {
        0u8
    })) as u8);
    let carry = f.carry || (!f.subtract && a > 0x99);
    let result = if f.subtract {
        spec_sub8(a, correction, 0)
    } else {
        spec_add8(a, correction, 0)
    };
    (
        result,
        FlagsRegister {
            zero: result == 0,
            subtract: f.subtract,
            half_carry: false,
            carry: carry,
        },
    )
}

/// What each arithmetic instruction does to the machine.
pub open spec fn spec_arithmetic_rel(pre: Cpu, post: Cpu, k: InstructionKind) -> bool {
    match k {
        InstructionKind::ADD(dest, src) => if dest == ArgKind::A {
            let v = spec_alu_operand(pre, src);
            post == (Cpu {
                registers: Registers {
                    a: spec_add8(pre.registers.a, v, 0),
                    f: spec_add8_flags(pre.registers.a, v, 0),
                    ..pre.registers
                },
                ..pre
            })
        } else if dest == ArgKind::HL && spec_is_pair(src) {
            let hl = spec_pair(pre.registers.h, pre.registers.l);
            let v = spec_get_pair(pre, src);
            post == (Cpu {
                registers: Registers {
                    h: spec_hi(crate::cpu::spec_add16(hl, v)),
                    l: spec_lo(crate::cpu::spec_add16(hl, v)),
                    f: FlagsRegister {
                        zero: pre.registers.f.zero,
                        subtract: false,
                        half_carry: hl % 0x1000 + v % 0x1000 > 0xFFF,
                        carry: hl + v > 0xFFFF,
                    },
                    ..pre.registers
                },
                ..pre
            })
        } else {
            post == pre
        },
        InstructionKind::ADC(dest, src) => {
            let v = spec_alu_operand(pre, src);
            let cin: u8 = if pre.registers.f.carry {
                1u8
            } else {
                0u8
            };
            dest == ArgKind::A ==> post == (Cpu {
                registers: Registers {
                    a: spec_add8(pre.registers.a, v, cin),
                    f: spec_add8_flags(pre.registers.a, v, cin),
                    ..pre.registers
                },
                ..pre
            })
        },
        InstructionKind::SUB(dest, src) => {
            let v = spec_alu_operand(pre, src);
            dest == ArgKind::A ==> post == (Cpu {
                registers: Registers {
                    a: spec_sub8(pre.registers.a, v, 0),
                    f: spec_sub8_flags(pre.registers.a, v, 0),
                    ..pre.registers
                },
                ..pre
            })
        },
        InstructionKind::SBC(dest, src) => {
            let v = spec_alu_operand(pre, src);
            let cin: u8 = if pre.registers.f.carry {
                1u8
            } else {
                0u8
            };
            dest == ArgKind::A ==> post == (Cpu {
                registers: Registers {
                    a: spec_sub8(pre.registers.a, v, cin),
                    f: spec_sub8_flags(pre.registers.a, v, cin),
                    ..pre.registers
                },
                ..pre
            })
        },
        InstructionKind::INC(reg) => {
            let v = spec_get_r8(pre.registers, reg);
            crate::cpu::spec_is_r8(reg) ==> post == (Cpu {
                registers: Registers {
                    f: FlagsRegister {
                        zero: spec_add8(v, 1, 0) == 0,
                        subtract: false,
                        half_carry: v % 16 == 0xF,
                        carry: pre.registers.f.carry,
                    },
                    ..spec_set_r8(pre.registers, reg, spec_add8(v, 1, 0))
                },
                ..pre
            })
        },
        InstructionKind::DEC(reg) => {
            let v = spec_get_r8(pre.registers, reg);
            crate::cpu::spec_is_r8(reg) ==> post == (Cpu {
                registers: Registers {
                    f: FlagsRegister {
                        zero: spec_sub8(v, 1, 0) == 0,
                        subtract: true,
                        half_carry: v % 16 == 0,
                        carry: pre.registers.f.carry,
                    },
                    ..spec_set_r8(pre.registers, reg, spec_sub8(v, 1, 0))
                },
                ..pre
            })
        },
        InstructionKind::INC_MEM(_) => {
            let addr = spec_pair(pre.registers.h, pre.registers.l);
            let v = pre.mmap.spec_read(addr);
            &&& post.registers == (Registers {
                f: FlagsRegister {
                    zero: spec_add8(v, 1, 0) == 0,
                    subtract: false,
                    half_carry: v % 16 == 0xF,
                    carry: pre.registers.f.carry,
                },
                ..pre.registers
            })
            &&& post.pc == pre.pc && post.sp == pre.sp && post.halted == pre.halted && post.ime
                == pre.ime && post.ei_delay == pre.ei_delay && post.halt_bug == pre.halt_bug
            &&& spec_write_rel(pre.mmap, post.mmap, addr, spec_add8(v, 1, 0))
        },
        InstructionKind::DEC_MEM(_) => {
            let addr = spec_pair(pre.registers.h, pre.registers.l);
            let v = pre.mmap.spec_read(addr);
            &&& post.registers == (Registers {
                f: FlagsRegister {
                    zero: spec_sub8(v, 1, 0) == 0,
                    subtract: true,
                    half_carry: v % 16 == 0,
                    carry: pre.registers.f.carry,
                },
                ..pre.registers
            })
            &&& post.pc == pre.pc && post.sp == pre.sp && post.halted == pre.halted && post.ime
                == pre.ime && post.ei_delay == pre.ei_delay && post.halt_bug == pre.halt_bug
            &&& spec_write_rel(pre.mmap, post.mmap, addr, spec_sub8(v, 1, 0))
        },
        InstructionKind::INC16(reg) => spec_is_pair(reg) ==> post == spec_set_pair(
            pre,
            reg,
            spec_u16_plus_i8(spec_get_pair(pre, reg), 1i8),
        ),
        InstructionKind::DEC16(reg) => spec_is_pair(reg) ==> post == spec_set_pair(
            pre,
            reg,
            spec_u16_plus_i8(spec_get_pair(pre, reg), -1i8),
        ),
        InstructionKind::DAA => post == (Cpu {
            registers: Registers {
                a: spec_daa(pre.registers.a, pre.registers.f).0,
                f: spec_daa(pre.registers.a, pre.registers.f).1,
                ..pre.registers
            },
            ..pre
        }),
        InstructionKind::ADD_SP_R8(off) => post == (Cpu {
            sp: spec_u16_plus_i8(pre.sp, off),
            registers: Registers { f: spec_sp_offset_flags(pre.sp, off), ..pre.registers },
            ..pre
        }),
        _ => post == pre,
    }
}

/// Executes one arithmetic-family instruction.
#[verifier::rlimit(100)]
#[verifier::spinoff_prover]
pub fn execute(cpu: &mut Cpu, instruction: &InstructionKind) -> (r: u8)
    requires
        old(cpu).wf(),
        spec_is_arithmetic(*instruction),
    ensures
        final(cpu).wf(),
        spec_arithmetic_rel(*old(cpu), *final(cpu), *instruction),
{
    match instruction {
        InstructionKind::ADD(dest, src) => {
            if matches!(dest, ArgKind::A) {
                let value = fetch_alu_operand(cpu, *src);
                let r = cpu.add(value);
                cpu.registers.a = r;
            } else if matches!(dest, ArgKind::HL) && matches!(src, ArgKind::BC | ArgKind::DE
                | ArgKind::HL | ArgKind::SP) {
                let hl_value = cpu.registers.get_hl();
                let src_value = cpu.get_pair(*src);
                let result = cpu.add16(hl_value, src_value);
                cpu.registers.set_hl(result);
            }
            4
        },
        InstructionKind::ADC(dest, src) => {
            if matches!(dest, ArgKind::A) {
                let value = fetch_alu_operand(cpu, *src);
                let carry: u8 = if cpu.registers.f.carry {
                    1
                } else {
                    0
                };
                let a = cpu.registers.a;
                let sum: u16 = a as u16 + value as u16 + carry as u16;
                let result: u8 = (sum % 256) as u8;
                cpu.registers.a = result;
                cpu.registers.f.zero = result == 0;
                cpu.registers.f.subtract = false;
                cpu.registers.f.half_carry = a % 16 + value % 16 + carry > 0xF;
                cpu.registers.f.carry = sum > 0xFF;
            }
            4
        },
        InstructionKind::SUB(dest, src) => {
            if matches!(dest, ArgKind::A) {
                let value = fetch_alu_operand(cpu, *src);
                let r = cpu.subtract(value);
                cpu.registers.a = r;
            }
            4
        },
        InstructionKind::SBC(dest, src) => {
            if matches!(dest, ArgKind::A) {
                let value = fetch_alu_operand(cpu, *src);
                let r = cpu.subtract_with_carry(value);
                cpu.registers.a = r;
            }
            4
        },
        InstructionKind::INC(reg) => {
            if matches!(reg, ArgKind::A | ArgKind::B | ArgKind::C | ArgKind::D | ArgKind::E
                | ArgKind::H | ArgKind::L) {
                let v = cpu.get_reg8(*reg);
                let r = cpu.increment(v);
                cpu.set_reg8(*reg, r);
            }
            4
        },
        InstructionKind::DEC(reg) => {
            if matches!(reg, ArgKind::A | ArgKind::B | ArgKind::C | ArgKind::D | ArgKind::E
                | ArgKind::H | ArgKind::L) {
                let v = cpu.get_reg8(*reg);
                let r = cpu.decrement(v);
                cpu.set_reg8(*reg, r);
            }
            4
        },
        InstructionKind::INC_MEM(_) => execute_inc_mem(cpu, instruction),
        InstructionKind::DEC_MEM(_) => execute_dec_mem(cpu, instruction),
        InstructionKind::INC16(reg) => {
            if matches!(reg, ArgKind::BC | ArgKind::DE | ArgKind::HL | ArgKind::SP) {
                let v = cpu.get_pair(*reg);
                let next = cpu.u16_plus_i8(v, 1);
                cpu.set_pair(*reg, next);
            }
            8
        },
        InstructionKind::DEC16(reg) => {
            if matches!(reg, ArgKind::BC | ArgKind::DE | ArgKind::HL | ArgKind::SP) {
                let v = cpu.get_pair(*reg);
                let next = cpu.u16_plus_i8(v, -1);
                cpu.set_pair(*reg, next);
            }
            8
        },
        InstructionKind::DAA => execute_daa(cpu),
        InstructionKind::ADD_SP_R8(offset) => execute_add_sp_r8(cpu, *offset),
        _ => 4,
    }
}

/// Executes INC (HL): the byte behind HL goes up by one through the
/// normal read and write decoders.
#[verifier::rlimit(60)]
fn execute_inc_mem(cpu: &mut Cpu, instruction: &InstructionKind) -> (r: u8)
    requires
        old(cpu).wf(),
        *instruction matches InstructionKind::INC_MEM(_),
    ensures
        final(cpu).wf(),
        spec_arithmetic_rel(*old(cpu), *final(cpu), *instruction),
{
    let address = cpu.registers.get_hl();
    let value = cpu.mmap.read(address);
    let new_value = cpu.increment(value);
    cpu.mmap.write(address, new_value);
    12
}

/// Executes DEC (HL): the byte behind HL goes down by one.
#[verifier::rlimit(60)]
fn execute_dec_mem(cpu: &mut Cpu, instruction: &InstructionKind) -> (r: u8)
    requires
        old(cpu).wf(),
        *instruction matches InstructionKind::DEC_MEM(_),
    ensures
        final(cpu).wf(),
        spec_arithmetic_rel(*old(cpu), *final(cpu), *instruction),
{
    let address = cpu.registers.get_hl();
    let value = cpu.mmap.read(address);
    let new_value = cpu.decrement(value);
    cpu.mmap.write(address, new_value);
    12
}

/// Executes DAA: the BCD adjustment of A.
#[verifier::rlimit(100)]
#[verifier::spinoff_prover]
fn execute_daa(cpu: &mut Cpu) -> (r: u8)
    requires
        old(cpu).wf(),
    ensures
        final(cpu).wf(),
        spec_arithmetic_rel(*old(cpu), *final(cpu), InstructionKind::DAA),
{
    let a = cpu.registers.a;
    let f = cpu.registers.f;
    let mut correction: u8 = 0;
    let mut carry = false;
    if f.half_carry || (!f.subtract && a % 16 > 0x09) {
        correction = correction + 0x06;
    }
    if f.carry || (!f.subtract && a > 0x99) {
        correction = correction + 0x60;
        carry = true;
    }
    proof {
        assert(correction == (((if f.half_carry || (!f.subtract && a % 16 > 0x09) {
            0x06u8
        } else {
            0u8
        }) + (if f.carry || (!f.subtract && a > 0x99) {
            0x60u8
        } else {
            0u8
        })) as u8));
        assert(carry == (f.carry || (!f.subtract && a > 0x99)));
    }
    let result: u8 = if f.subtract {
        if a >= correction {
            a - correction
        } else {
            ((a as u16 + 256 - correction as u16) % 256) as u8
        }
    } else {
        ((a as u16 + correction as u16) % 256) as u8
    };
    proof {
        if f.subtract {
            assert(result == spec_sub8(a, correction, 0));
        } else {
            assert(result == spec_add8(a, correction, 0));
        }
        assert(result == spec_daa(a, f).0);
    }
    cpu.registers.a = result;
    cpu.registers.f.zero = result == 0;
    cpu.registers.f.half_carry = false;
    cpu.registers.f.carry = carry;
    4
}

/// Executes ADD SP,r8: the signed offset lands in SP with the low-byte
/// flag rule.
#[verifier::rlimit(60)]
fn execute_add_sp_r8(cpu: &mut Cpu, offset: i8) -> (r: u8)
    requires
        old(cpu).wf(),
    ensures
        final(cpu).wf(),
        spec_arithmetic_rel(*old(cpu), *final(cpu), InstructionKind::ADD_SP_R8(offset)),
{
    let result = cpu.u16_plus_i8(cpu.sp, offset);
    let sp_low: u8 = (cpu.sp % 256) as u8;
    let offset_u8: u8 = offset as u8;
    cpu.registers.f.zero = false;
    cpu.registers.f.subtract = false;
    cpu.registers.f.half_carry = sp_low % 16 + offset_u8 % 16 > 0xF;
    cpu.registers.f.carry = sp_low as u16 + offset_u8 as u16 > 0xFF;
    cpu.sp = result;
    16
}

/// Fetches the 8-bit operand of an A-destination operation.
pub(crate) fn fetch_alu_operand(cpu: &Cpu, src: ArgKind) -> (r: u8)
    requires
        cpu.wf(),
    ensures
        r == spec_alu_operand(*cpu, src),
{
    match src {
        ArgKind::HL => {
            let addr = cpu.registers.get_hl();
            cpu.mmap.read(addr)
        },
        ArgKind::Immediate(v) => v,
        _ => cpu.get_reg8(src),
    }
}

} // verus!
