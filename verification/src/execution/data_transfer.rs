//! Execution of the load family: register and immediate loads, loads and
//! stores through the pairs and absolute addresses, the HL post-increment
//! and post-decrement forms, the high-memory forms, and the SP specials.

use vstd::prelude::*;

use crate::cpu::{spec_get_r8, spec_is_r8, spec_set_r8, Cpu};
use crate::execution::{spec_get_pair, spec_sp_offset_flags, spec_u16_plus_i8};
use crate::instructions::{ArgKind, InstructionKind};
use crate::memory::spec_write_rel;
use crate::registers::{spec_hi, spec_lo, spec_pair, Registers};

verus! {

/// The byte an Immediate operand carries.
pub open spec fn spec_imm8(a: ArgKind) -> u8 {
    match a {
        ArgKind::Immediate(v) => v,
        _ => 0u8,
    }
}

/// The word an Immediate16 operand carries.
pub open spec fn spec_imm16(a: ArgKind) -> u16 {
    match a {
        ArgKind::Immediate16(v) => v,
        _ => 0u16,
    }
}

/// The tags this module executes.
pub open spec fn spec_is_data_transfer(k: InstructionKind) -> bool {
    k matches InstructionKind::LD(..) || k matches InstructionKind::LDHL_SP_R8(..)
        || k matches InstructionKind::LD_SP_TO_MEM(..) || k matches InstructionKind::LD_MEM(..)
        || k matches InstructionKind::LD_MEM_DEC(..) || k matches InstructionKind::LD_MEM_INC(..)
        || k matches InstructionKind::LD_FROM_MEM(..) || k matches InstructionKind::LD_FROM_MEM_DEC(
        ..,
    ) || k matches InstructionKind::LD_FROM_MEM_INC(..) || k matches InstructionKind::LD_MEM_16(..)
        || k matches InstructionKind::LD_FROM_MEM_16(..) || k matches InstructionKind::LDH_TO_C(..)
        || k matches InstructionKind::LDH_FROM_C(..) || k matches InstructionKind::LDH_TO_N(..)
        || k matches InstructionKind::LDH_FROM_N(..)
}

/// What each load does to the machine; a tag shape the decoder never
/// produces leaves the machine unchanged.
pub open spec fn spec_data_transfer_rel(pre: Cpu, post: Cpu, k: InstructionKind) -> bool {
    match k {
        InstructionKind::LD(dest, src) => if spec_is_r8(dest) && spec_is_r8(src) {
            post == (Cpu {
                registers: spec_set_r8(pre.registers, dest, spec_get_r8(pre.registers, src)),
                ..pre
            })
        } else if spec_is_r8(dest) && (src matches ArgKind::Immediate(_)) {
            post == (Cpu { registers: spec_set_r8(pre.registers, dest, spec_imm8(src)), ..pre })
        } else if crate::execution::spec_is_pair(dest) && (src matches ArgKind::Immediate16(_)) {
            post == crate::execution::spec_set_pair(pre, dest, spec_imm16(src))
        } else if dest == ArgKind::SP && src == ArgKind::HL {
            post == (Cpu { sp: spec_pair(pre.registers.h, pre.registers.l), ..pre })
        } else {
            post == pre
        },
        InstructionKind::LDHL_SP_R8(off) => post == (Cpu {
            registers: Registers {
                h: spec_hi(spec_u16_plus_i8(pre.sp, off)),
                l: spec_lo(spec_u16_plus_i8(pre.sp, off)),
                f: spec_sp_offset_flags(pre.sp, off),
                ..pre.registers
            },
            ..pre
        }),
        InstructionKind::LD_SP_TO_MEM(addr) => {
            &&& post.registers == pre.registers
            &&& post.pc == pre.pc
            &&& post.sp == pre.sp
            &&& post.halted == pre.halted && post.ime == pre.ime && post.ei_delay == pre.ei_delay
                && post.halt_bug == pre.halt_bug
            &&& exists|mid: MemWitness|
                #[trigger] spec_write_rel(pre.mmap, mid.m, addr, spec_lo(pre.sp))
                    && spec_write_rel(
                    mid.m,
                    post.mmap,
                    crate::execution::spec_u16_plus_i8(addr, 1i8) as u16,
                    spec_hi(pre.sp),
                )
        },
        InstructionKind::LD_MEM(addr_reg, src) => {
            let addr = spec_get_pair(pre, addr_reg);
            let value = match src {
                ArgKind::Immediate(v) => v,
                _ => spec_get_r8(pre.registers, src),
            };
            &&& post.registers == pre.registers
            &&& post.pc == pre.pc && post.sp == pre.sp && post.halted == pre.halted && post.ime
                == pre.ime && post.ei_delay == pre.ei_delay && post.halt_bug == pre.halt_bug
            &&& spec_write_rel(pre.mmap, post.mmap, addr, value)
        },
        InstructionKind::LD_MEM_DEC(_, _) => {
            let addr = spec_pair(pre.registers.h, pre.registers.l);
            &&& post.registers == (Registers {
                h: spec_hi(crate::execution::spec_u16_plus_i8(addr, -1i8)),
                l: spec_lo(crate::execution::spec_u16_plus_i8(addr, -1i8)),
                ..pre.registers
            })
            &&& post.pc == pre.pc && post.sp == pre.sp && post.halted == pre.halted && post.ime
                == pre.ime && post.ei_delay == pre.ei_delay && post.halt_bug == pre.halt_bug
            &&& spec_write_rel(pre.mmap, post.mmap, addr, pre.registers.a)
        },
        InstructionKind::LD_MEM_INC(_, _) => {
            let addr = spec_pair(pre.registers.h, pre.registers.l);
            &&& post.registers == (Registers {
                h: spec_hi(crate::execution::spec_u16_plus_i8(addr, 1i8)),
                l: spec_lo(crate::execution::spec_u16_plus_i8(addr, 1i8)),
                ..pre.registers
            })
            &&& post.pc == pre.pc && post.sp == pre.sp && post.halted == pre.halted && post.ime
                == pre.ime && post.ei_delay == pre.ei_delay && post.halt_bug == pre.halt_bug
            &&& spec_write_rel(pre.mmap, post.mmap, addr, pre.registers.a)
        },
        InstructionKind::LD_FROM_MEM(dest, addr_reg) => post == (Cpu {
            registers: spec_set_r8(
                pre.registers,
                dest,
                pre.mmap.spec_read(spec_get_pair(pre, addr_reg)),
            ),
            ..pre
        }),
        InstructionKind::LD_FROM_MEM_DEC(dest, _) => {
            let addr = spec_pair(pre.registers.h, pre.registers.l);
            post == (Cpu {
                registers: Registers {
                    h: spec_hi(crate::execution::spec_u16_plus_i8(addr, -1i8)),
                    l: spec_lo(crate::execution::spec_u16_plus_i8(addr, -1i8)),
                    ..spec_set_r8(pre.registers, dest, pre.mmap.spec_read(addr))
                },
                ..pre
            })
        },
        InstructionKind::LD_FROM_MEM_INC(dest, _) => {
            let addr = spec_pair(pre.registers.h, pre.registers.l);
            post == (Cpu {
                registers: Registers {
                    h: spec_hi(crate::execution::spec_u16_plus_i8(addr, 1i8)),
                    l: spec_lo(crate::execution::spec_u16_plus_i8(addr, 1i8)),
                    ..spec_set_r8(pre.registers, dest, pre.mmap.spec_read(addr))
                },
                ..pre
            })
        },
        InstructionKind::LD_MEM_16(addr_arg, src) => {
            let addr = match addr_arg {
                ArgKind::Immediate16(a) => a,
                _ => 0u16,
            };
            &&& post.registers == pre.registers
            &&& post.pc == pre.pc && post.sp == pre.sp && post.halted == pre.halted && post.ime
                == pre.ime && post.ei_delay == pre.ei_delay && post.halt_bug == pre.halt_bug
            &&& spec_write_rel(pre.mmap, post.mmap, addr, spec_get_r8(pre.registers, src))
        },
        InstructionKind::LD_FROM_MEM_16(dest, addr_arg) => {
            let addr = match addr_arg {
                ArgKind::Immediate16(a) => a,
                _ => 0u16,
            };
            post == (Cpu {
                registers: spec_set_r8(pre.registers, dest, pre.mmap.spec_read(addr)),
                ..pre
            })
        },
        InstructionKind::LDH_TO_C(_) => {
            &&& post.registers == pre.registers
            &&& post.pc == pre.pc && post.sp == pre.sp && post.halted == pre.halted && post.ime
                == pre.ime && post.ei_delay == pre.ei_delay && post.halt_bug == pre.halt_bug
            &&& spec_write_rel(
                pre.mmap,
                post.mmap,
                (0xFF00 + pre.registers.c) as u16,
                pre.registers.a,
            )
        },
        InstructionKind::LDH_FROM_C(_) => post == (Cpu {
            registers: Registers {
                a: pre.mmap.spec_read((0xFF00 + pre.registers.c) as u16),
                ..pre.registers
            },
            ..pre
        }),
        InstructionKind::LDH_TO_N(_, offset) => {
            &&& post.registers == pre.registers
            &&& post.pc == pre.pc && post.sp == pre.sp && post.halted == pre.halted && post.ime
                == pre.ime && post.ei_delay == pre.ei_delay && post.halt_bug == pre.halt_bug
            &&& spec_write_rel(pre.mmap, post.mmap, (0xFF00 + offset) as u16, pre.registers.a)
        },
        InstructionKind::LDH_FROM_N(_, offset) => post == (Cpu {
            registers: Registers {
                a: pre.mmap.spec_read((0xFF00 + offset) as u16),
                ..pre.registers
            },
            ..pre
        }),
        _ => post == pre,
    }
}

/// A wrapper making a memory-map value quantifiable in the two-write
/// composition of LD (nn),SP.
pub struct MemWitness {
    pub m: crate::memory::MemoryMap,
}

/// Executes one load-family instruction.
#[verifier::rlimit(100)]
#[verifier::spinoff_prover]
pub fn execute(cpu: &mut Cpu, instruction: &InstructionKind) -> (r: u8)
    requires
        old(cpu).wf(),
        spec_is_data_transfer(*instruction),
    ensures
        final(cpu).wf(),
        spec_data_transfer_rel(*old(cpu), *final(cpu), *instruction),
{
    match instruction {
        InstructionKind::LD(dest, src) => {
            execute_ld(cpu, dest, src);
            4
        },
        InstructionKind::LDHL_SP_R8(offset) => {
            let result = cpu.u16_plus_i8(cpu.sp, *offset);
            let sp_low: u8 = (cpu.sp % 256) as u8;
            let offset_u8: u8 = *offset as u8;
            cpu.registers.f.zero = false;
            cpu.registers.f.subtract = false;
            cpu.registers.f.half_carry = sp_low % 16 + offset_u8 % 16 > 0xF;
            cpu.registers.f.carry = sp_low as u16 + offset_u8 as u16 > 0xFF;
            cpu.registers.set_hl(result);
            12
        },
        InstructionKind::LD_SP_TO_MEM(address) => {
            let sp_low: u8 = (cpu.sp % 256) as u8;
            let sp_high: u8 = (cpu.sp / 256) as u8;
            let ghost pre = *cpu;
            cpu.mmap.write(*address, sp_low);
            let ghost mid = cpu.mmap;
            let hi_addr = cpu.u16_plus_i8(*address, 1);
            cpu.mmap.write(hi_addr, sp_high);
            proof {
                assert(spec_write_rel(pre.mmap, mid, *address, spec_lo(pre.sp)) && spec_write_rel(
                    mid,
                    cpu.mmap,
                    spec_u16_plus_i8(*address, 1) as u16,
                    spec_hi(pre.sp),
                ));
                assert(exists|w: MemWitness|
                    #[trigger] spec_write_rel(pre.mmap, w.m, *address, spec_lo(pre.sp))
                        && spec_write_rel(
                        w.m,
                        cpu.mmap,
                        spec_u16_plus_i8(*address, 1) as u16,
                        spec_hi(pre.sp),
                    )) by {
                    let w = MemWitness { m: mid };
                    assert(spec_write_rel(pre.mmap, w.m, *address, spec_lo(pre.sp))
                        && spec_write_rel(
                        w.m,
                        cpu.mmap,
                        spec_u16_plus_i8(*address, 1) as u16,
                        spec_hi(pre.sp),
                    ));
                }
            }
            20
        },
        InstructionKind::LD_MEM(addr_reg, src) => {
            let address = cpu.get_pair(*addr_reg);
            let value = match src {
                ArgKind::Immediate(v) => *v,
                _ => cpu.get_reg8(*src),
            };
            cpu.mmap.write(address, value);
            8
        },
        InstructionKind::LD_MEM_DEC(_, _) => {
            let address = cpu.registers.get_hl();
            let value = cpu.registers.a;
            cpu.mmap.write(address, value);
            let new_hl = cpu.u16_plus_i8(address, -1);
            cpu.registers.set_hl(new_hl);
            8
        },
        InstructionKind::LD_MEM_INC(_, _) => {
            let address = cpu.registers.get_hl();
            let value = cpu.registers.a;
            cpu.mmap.write(address, value);
            let new_hl = cpu.u16_plus_i8(address, 1);
            cpu.registers.set_hl(new_hl);
            8
        },
        InstructionKind::LD_FROM_MEM(dest, addr_reg) => {
            let address = cpu.get_pair(*addr_reg);
            let value = cpu.mmap.read(address);
            cpu.set_reg8(*dest, value);
            8
        },
        InstructionKind::LD_FROM_MEM_DEC(dest, _) => {
            let address = cpu.registers.get_hl();
            let value = cpu.mmap.read(address);
            cpu.set_reg8(*dest, value);
            let new_hl = cpu.u16_plus_i8(address, -1);
            cpu.registers.set_hl(new_hl);
            8
        },
        InstructionKind::LD_FROM_MEM_INC(dest, _) => {
            let address = cpu.registers.get_hl();
            let value = cpu.mmap.read(address);
            cpu.set_reg8(*dest, value);
            let new_hl = cpu.u16_plus_i8(address, 1);
            cpu.registers.set_hl(new_hl);
            8
        },
        InstructionKind::LD_MEM_16(addr_arg, src) => {
            let address = match addr_arg {
                ArgKind::Immediate16(a) => *a,
                _ => 0,
            };
            let value = cpu.get_reg8(*src);
            cpu.mmap.write(address, value);
            16
        },
        InstructionKind::LD_FROM_MEM_16(dest, addr_arg) => {
            let address = match addr_arg {
                ArgKind::Immediate16(a) => *a,
                _ => 0,
            };
            let value = cpu.mmap.read(address);
            cpu.set_reg8(*dest, value);
            16
        },
        InstructionKind::LDH_TO_C(_) => {
            let address: u16 = 0xFF00 + (cpu.registers.c as u16);
            let value = cpu.registers.a;
            cpu.mmap.write(address, value);
            8
        },
        InstructionKind::LDH_FROM_C(_) => {
            let address: u16 = 0xFF00 + (cpu.registers.c as u16);
            cpu.registers.a = cpu.mmap.read(address);
            8
        },
        InstructionKind::LDH_TO_N(_, offset) => {
            let address: u16 = 0xFF00 + (*offset as u16);
            let value = cpu.registers.a;
            cpu.mmap.write(address, value);
            12
        },
        InstructionKind::LDH_FROM_N(_, offset) => {
            let address: u16 = 0xFF00 + (*offset as u16);
            cpu.registers.a = cpu.mmap.read(address);
            12
        },
        _ => 4,
    }
}

/// Executes the plain LD forms: register to register, immediates into
/// registers and pairs, and LD SP,HL.
fn execute_ld(cpu: &mut Cpu, dest: &ArgKind, src: &ArgKind)
    ensures
        spec_data_transfer_rel(*old(cpu), *final(cpu), InstructionKind::LD(*dest, *src)),
        final(cpu).mmap == old(cpu).mmap,
{
    match (dest, src) {
        (ArgKind::BC, ArgKind::Immediate16(value)) => cpu.registers.set_bc(*value),
        (ArgKind::DE, ArgKind::Immediate16(value)) => cpu.registers.set_de(*value),
        (ArgKind::HL, ArgKind::Immediate16(value)) => cpu.registers.set_hl(*value),
        (ArgKind::SP, ArgKind::Immediate16(value)) => cpu.sp = *value,
        (ArgKind::SP, ArgKind::HL) => cpu.sp = cpu.registers.get_hl(),
        (_, ArgKind::Immediate(value)) => {
            let v = *value;
            let d = *dest;
            if matches!(d, ArgKind::A | ArgKind::B | ArgKind::C | ArgKind::D | ArgKind::E
                | ArgKind::H | ArgKind::L) {
                cpu.set_reg8(d, v);
            }
        },
        _ => {
            let d = *dest;
            let s = *src;
            if matches!(d, ArgKind::A | ArgKind::B | ArgKind::C | ArgKind::D | ArgKind::E
                | ArgKind::H | ArgKind::L) && matches!(s, ArgKind::A | ArgKind::B | ArgKind::C
                | ArgKind::D | ArgKind::E | ArgKind::H | ArgKind::L) {
                let v = cpu.get_reg8(s);
                cpu.set_reg8(d, v);
            }
        },
    }
}

} // verus!
