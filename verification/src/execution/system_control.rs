//! Execution of the system-control family: NOP, HALT with its erratum,
//! STOP, and the interrupt gates DI and EI.

use vstd::prelude::*;

use crate::cpu::{spec_pending, Cpu};
use crate::instructions::InstructionKind;
use crate::memory::MemoryMap;
use crate::timer::Timer;

verus! {

/// The tags this module executes.
pub open spec fn spec_is_system_control(k: InstructionKind) -> bool {
    (k matches InstructionKind::NOP) || (k matches InstructionKind::HALT) || (
    k matches InstructionKind::STOP) || (k matches InstructionKind::EI) || (
    k matches InstructionKind::DI)
}

/// What each system-control instruction does.  HALT with IME off while
/// an interrupt is already pending does not halt; it arms the HALT bug
/// instead, so the next fetch repeats its first byte.  STOP halts and
/// zeroes the divider.  EI only arms the one-instruction delay latch;
/// DI clears IME and cancels a pending EI.
pub open spec fn spec_system_control_rel(pre: Cpu, post: Cpu, k: InstructionKind) -> bool {
    match k {
        InstructionKind::NOP => post == pre,
        InstructionKind::HALT => if !pre.ime && spec_pending(pre.mmap) != 0 {
            post == (Cpu { halt_bug: true, ..pre })
        } else {
            post == (Cpu { halted: true, ..pre })
        },
        InstructionKind::STOP => post == (Cpu {
            halted: true,
            mmap: MemoryMap {
                timer: Timer { div_counter: 0u16, ..pre.mmap.timer },
                ..pre.mmap
            },
            ..pre
        }),
        InstructionKind::EI => post == (Cpu { ei_delay: true, ..pre }),
        InstructionKind::DI => post == (Cpu { ime: false, ei_delay: false, ..pre }),
        _ => post == pre,
    }
}

/// Executes one system-control instruction.
pub fn execute(cpu: &mut Cpu, instruction: &InstructionKind) -> (r: u8)
    requires
        old(cpu).wf(),
        spec_is_system_control(*instruction),
    ensures
        final(cpu).wf(),
        spec_system_control_rel(*old(cpu), *final(cpu), *instruction),
{
    match instruction {
        InstructionKind::NOP => 4,
        InstructionKind::HALT => {
            let pending = cpu.check_pending_interrupts();
            if !cpu.ime && pending {
                cpu.halt_bug = true;
            } else {
                cpu.halted = true;
            }
            4
        },
        InstructionKind::STOP => {
            cpu.halted = true;
            cpu.mmap.timer.div_counter = 0;
            4
        },
        InstructionKind::EI => {
            cpu.ei_delay = true;
            4
        },
        InstructionKind::DI => {
            cpu.ime = false;
            cpu.ei_delay = false;
            4
        },
        _ => 4,
    }
}

} // verus!
