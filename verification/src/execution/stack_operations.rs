//! Execution of PUSH and POP over the four register pairs; POP AF masks
//! F's low nibble to zero as the flags register always does.

use vstd::prelude::*;

use crate::cpu::{spec_plain_ram, Cpu};
use crate::execution::{spec_get_pair, spec_set_pair};
use crate::instructions::{ArgKind, InstructionKind};
use crate::registers::{spec_hi, spec_lo, spec_pair};

verus! {

/// The tags this module executes.
pub open spec fn spec_is_stack_op(k: InstructionKind) -> bool {
    k matches InstructionKind::PUSH(..) || k matches InstructionKind::POP(..)
}

/// An operand tag PUSH and POP accept.
pub open spec fn spec_is_push_pair(a: ArgKind) -> bool {
    a == ArgKind::BC || a == ArgKind::DE || a == ArgKind::HL || a == ArgKind::AF
}

/// What PUSH and POP do to the machine.
pub open spec fn spec_stack_op_rel(pre: Cpu, post: Cpu, k: InstructionKind) -> bool {
    match k {
        InstructionKind::PUSH(reg_pair) => {
            let value = spec_get_pair(pre, reg_pair);
            let hi_addr = vstd::wrapping::u16_specs::wrapping_sub(pre.sp, 1);
            let lo_addr = vstd::wrapping::u16_specs::wrapping_sub(pre.sp, 2);
            spec_is_push_pair(reg_pair) ==> {
                &&& post.sp == vstd::wrapping::u16_specs::wrapping_sub(pre.sp, 2)
                &&& post.pc == pre.pc
                &&& post.registers == pre.registers
                &&& post.halted == pre.halted && post.ime == pre.ime && post.ei_delay
                    == pre.ei_delay && post.halt_bug == pre.halt_bug
                &&& (spec_plain_ram(hi_addr) && spec_plain_ram(lo_addr) ==> post.mmap == (
                crate::memory::MemoryMap { contents: post.mmap.contents, ..pre.mmap })
                    && post.mmap.contents@ == pre.mmap.contents@.update(
                    hi_addr as int,
                    spec_hi(value),
                ).update(lo_addr as int, spec_lo(value)))
            }
        },
        InstructionKind::POP(reg_pair) => {
            let value = spec_pair(
                pre.mmap.spec_read(vstd::wrapping::u16_specs::wrapping_add(pre.sp, 1)),
                pre.mmap.spec_read(pre.sp),
            );
            spec_is_push_pair(reg_pair) ==> post == spec_set_pair(
                Cpu { sp: vstd::wrapping::u16_specs::wrapping_add(pre.sp, 2), ..pre },
                reg_pair,
                value,
            )
        },
        _ => post == pre,
    }
}

/// Executes one PUSH or POP.
#[verifier::rlimit(100)]
#[verifier::spinoff_prover]
pub fn execute(cpu: &mut Cpu, instruction: &InstructionKind) -> (r: u8)
    requires
        old(cpu).wf(),
        spec_is_stack_op(*instruction),
    ensures
        final(cpu).wf(),
        spec_stack_op_rel(*old(cpu), *final(cpu), *instruction),
{
    match instruction {
        InstructionKind::PUSH(reg_pair) => {
            if matches!(reg_pair, ArgKind::BC | ArgKind::DE | ArgKind::HL | ArgKind::AF) {
                let value = cpu.get_pair(*reg_pair);
                cpu.push_stack(value);
            }
            16
        },
        InstructionKind::POP(reg_pair) => {
            if matches!(reg_pair, ArgKind::BC | ArgKind::DE | ArgKind::HL | ArgKind::AF) {
                let value = cpu.pop_stack();
                cpu.set_pair(*reg_pair, value);
            }
            12
        },
        _ => 4,
    }
}

/// PUSH then POP of the same register pair restores it exactly, SP
/// included, whenever the two stack cells sit in plain RAM.  This holds
/// for AF as well: the flags register never carries a low nibble, so the
/// mask POP AF applies to F's low bits loses nothing.
pub proof fn lemma_push_pop_restores_pair(pre: Cpu, mid: Cpu, post: Cpu, rp: ArgKind)
    requires
        spec_is_push_pair(rp),
        crate::cpu::spec_plain_ram(vstd::wrapping::u16_specs::wrapping_sub(pre.sp, 1)),
        crate::cpu::spec_plain_ram(vstd::wrapping::u16_specs::wrapping_sub(pre.sp, 2)),
        pre.mmap.contents@.len() == 0x10000,
        spec_stack_op_rel(pre, mid, InstructionKind::PUSH(rp)),
        spec_stack_op_rel(mid, post, InstructionKind::POP(rp)),
    ensures
        spec_get_pair(post, rp) == spec_get_pair(pre, rp),
        post.sp == pre.sp,
{
    let value = spec_get_pair(pre, rp);
    let hi_addr = vstd::wrapping::u16_specs::wrapping_sub(pre.sp, 1);
    let lo_addr = vstd::wrapping::u16_specs::wrapping_sub(pre.sp, 2);
    assert(mid.sp == lo_addr);
    assert(vstd::wrapping::u16_specs::wrapping_add(mid.sp, 1) == hi_addr);
    assert(vstd::wrapping::u16_specs::wrapping_add(mid.sp, 2) == pre.sp);
    assert(mid.mmap.spec_read(hi_addr) == spec_hi(value));
    assert(mid.mmap.spec_read(lo_addr) == spec_lo(value));
    let popped = spec_pair(
        mid.mmap.spec_read(vstd::wrapping::u16_specs::wrapping_add(mid.sp, 1)),
        mid.mmap.spec_read(mid.sp),
    );
    crate::registers::lemma_pair_split(value);
    assert(popped == value);
    crate::registers::lemma_split_pair(spec_hi(value), spec_lo(value));
    if rp == ArgKind::AF {
        crate::registers::lemma_split_pair(
            pre.registers.a,
            crate::registers::spec_flags_to_byte(pre.registers.f),
        );
        crate::registers::lemma_flags_to_byte_roundtrip(pre.registers.f);
    }
}

} // verus!
