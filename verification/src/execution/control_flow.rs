//! Execution of the control-flow family: jumps, relative jumps, calls,
//! returns and restarts, with the conditional forms gated on the flags.

use vstd::prelude::*;

use crate::cpu::{spec_condition, spec_plain_ram, Cpu};
use crate::execution::spec_u16_plus_i8;
use crate::instructions::{InstructionKind, JumpCondition};
use crate::registers::{spec_hi, spec_lo, spec_pair};

verus! {

/// The tags this module executes.
pub open spec fn spec_is_control_flow(k: InstructionKind) -> bool {
    k matches InstructionKind::JP(..) || (k matches InstructionKind::JP_HL)
        || k matches InstructionKind::JR(..) || k matches InstructionKind::CALL(..)
        || k matches InstructionKind::CALL_COND(..) || (k matches InstructionKind::RET)
        || k matches InstructionKind::RET_COND(..) || (k matches InstructionKind::RETI)
        || k matches InstructionKind::RST(..)
}

/// PC is pushed to a stack whose two cells sit in plain RAM; the pushed
/// bytes are then stated exactly.
pub open spec fn spec_pushed_pc(pre: Cpu, post: Cpu, target: u16) -> bool {
    let hi_addr = vstd::wrapping::u16_specs::wrapping_sub(pre.sp, 1);
    let lo_addr = vstd::wrapping::u16_specs::wrapping_sub(pre.sp, 2);
    &&& post.sp == vstd::wrapping::u16_specs::wrapping_sub(pre.sp, 2)
    &&& post.pc == target
    &&& post.registers == pre.registers
    &&& post.halted == pre.halted && post.ime == pre.ime && post.ei_delay == pre.ei_delay
        && post.halt_bug == pre.halt_bug
    &&& (spec_plain_ram(hi_addr) && spec_plain_ram(lo_addr) ==> post.mmap == (
    crate::memory::MemoryMap { contents: post.mmap.contents, ..pre.mmap })
        && post.mmap.contents@ == pre.mmap.contents@.update(hi_addr as int, spec_hi(pre.pc)).update(
        lo_addr as int,
        spec_lo(pre.pc),
    ))
}

/// PC is popped from the stack and SP rises by two; nothing else moves.
pub open spec fn spec_popped_pc(pre: Cpu, post: Cpu) -> bool {
    post == (Cpu {
        pc: spec_pair(
            pre.mmap.spec_read(vstd::wrapping::u16_specs::wrapping_add(pre.sp, 1)),
            pre.mmap.spec_read(pre.sp),
        ),
        sp: vstd::wrapping::u16_specs::wrapping_add(pre.sp, 2),
        ..pre
    })
}

/// What each control-flow instruction does to the machine.
pub open spec fn spec_control_flow_rel(pre: Cpu, post: Cpu, k: InstructionKind) -> bool {
    match k {
        InstructionKind::JP(condition, address) => if spec_condition(pre.registers.f, condition) {
            post == (Cpu { pc: address, ..pre })
        } else {
            post == pre
        },
        InstructionKind::JP_HL => post == (Cpu {
            pc: spec_pair(pre.registers.h, pre.registers.l),
            ..pre
        }),
        InstructionKind::JR(condition, offset) => if spec_condition(pre.registers.f, condition) {
            post == (Cpu { pc: spec_u16_plus_i8(pre.pc, offset), ..pre })
        } else {
            post == pre
        },
        InstructionKind::CALL(address) => spec_pushed_pc(pre, post, address),
        InstructionKind::CALL_COND(condition, address) => if spec_condition(
            pre.registers.f,
            condition,
        ) {
            spec_pushed_pc(pre, post, address)
        } else {
            post == pre
        },
        InstructionKind::RET => spec_popped_pc(pre, post),
        InstructionKind::RET_COND(condition) => if spec_condition(pre.registers.f, condition) {
            spec_popped_pc(pre, post)
        } else {
            post == pre
        },
        InstructionKind::RETI => post == (Cpu {
            pc: spec_pair(
                pre.mmap.spec_read(vstd::wrapping::u16_specs::wrapping_add(pre.sp, 1)),
                pre.mmap.spec_read(pre.sp),
            ),
            sp: vstd::wrapping::u16_specs::wrapping_add(pre.sp, 2),
            ime: true,
            ..pre
        }),
        InstructionKind::RST(addr) => spec_pushed_pc(pre, post, addr as u16),
        _ => post == pre,
    }
}

/// Executes one control-flow instruction.
#[verifier::rlimit(100)]
#[verifier::spinoff_prover]
pub fn execute(cpu: &mut Cpu, instruction: &InstructionKind) -> (r: u8)
    requires
        old(cpu).wf(),
        spec_is_control_flow(*instruction),
    ensures
        final(cpu).wf(),
        spec_control_flow_rel(*old(cpu), *final(cpu), *instruction),
{
    match instruction {
        InstructionKind::JP(condition, address) => {
            if cpu.check_jump_condition(*condition) {
                cpu.pc = *address;
                16
            } else {
                12
            }
        },
        InstructionKind::JP_HL => {
            cpu.pc = cpu.registers.get_hl();
            4
        },
        InstructionKind::JR(condition, offset) => {
            if cpu.check_jump_condition(*condition) {
                cpu.pc = cpu.u16_plus_i8(cpu.pc, *offset);
                12
            } else {
                8
            }
        },
        InstructionKind::CALL(address) => {
            let pc = cpu.pc;
            cpu.push_stack(pc);
            cpu.pc = *address;
            24
        },
        InstructionKind::CALL_COND(condition, address) => {
            if cpu.check_jump_condition(*condition) {
                let pc = cpu.pc;
                cpu.push_stack(pc);
                cpu.pc = *address;
                24
            } else {
                12
            }
        },
        InstructionKind::RET => {
            let return_addr = cpu.pop_stack();
            cpu.pc = return_addr;
            16
        },
        InstructionKind::RET_COND(condition) => {
            if cpu.check_jump_condition(*condition) {
                let return_addr = cpu.pop_stack();
                cpu.pc = return_addr;
                20
            } else {
                8
            }
        },
        InstructionKind::RETI => {
            let return_addr = cpu.pop_stack();
            cpu.pc = return_addr;
            cpu.ime = true;
            16
        },
        InstructionKind::RST(addr) => {
            let pc = cpu.pc;
            cpu.push_stack(pc);
            cpu.pc = *addr as u16;
            16
        },
        _ => 4,
    }
}

} // verus!
