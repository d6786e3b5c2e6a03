//! The CPU: the fetch/decode engine, the arithmetic and flag helpers the
//! executor builds on, the stack, and the interrupt controller with its
//! IME latch, EI delay slot and HALT-bug handling.

use vstd::prelude::*;

use crate::instructions::{
    decode_cb_instruction, decode_instruction, get_instruction_size, ArgKind, Instruction,
    InstructionKind, JumpCondition,
};
use crate::memory::MemoryMap;
use crate::registers::{spec_hi, spec_lo, spec_pair, FlagsRegister, Registers};

verus! {

/// The CPU state: the register file, the program counter and stack
/// pointer, the memory map it owns, and the interrupt-control latches.
pub struct Cpu {
    pub registers: Registers,
    pub pc: u16,
    pub sp: u16,
    pub mmap: MemoryMap,
    pub halted: bool,
    pub ime: bool,
    pub ei_delay: bool,
    pub halt_bug: bool,
}

/// An operand tag that names one of the eight-bit registers.
pub open spec fn spec_is_r8(a: ArgKind) -> bool {
    a == ArgKind::A || a == ArgKind::B || a == ArgKind::C || a == ArgKind::D || a == ArgKind::E
        || a == ArgKind::H || a == ArgKind::L
}

/// The value of an eight-bit register operand.
pub open spec fn spec_get_r8(r: Registers, a: ArgKind) -> u8 {
    match a {
        ArgKind::A => r.a,
        ArgKind::B => r.b,
        ArgKind::C => r.c,
        ArgKind::D => r.d,
        ArgKind::E => r.e,
        ArgKind::H => r.h,
        ArgKind::L => r.l,
        _ => 0u8,
    }
}

/// The register file with one eight-bit register replaced.
pub open spec fn spec_set_r8(r: Registers, a: ArgKind, v: u8) -> Registers {
    match a {
        ArgKind::A => Registers { a: v, ..r },
        ArgKind::B => Registers { b: v, ..r },
        ArgKind::C => Registers { c: v, ..r },
        ArgKind::D => Registers { d: v, ..r },
        ArgKind::E => Registers { e: v, ..r },
        ArgKind::H => Registers { h: v, ..r },
        ArgKind::L => Registers { l: v, ..r },
        _ => r,
    }
}

/// 8-bit addition, wrapping.
pub open spec fn spec_add8(a: u8, v: u8, carry: u8) -> u8 {
    ((a + v + carry) % 256) as u8
}

/// The flags ADD and ADC leave: Z from the result, N clear, H from a
/// nibble carry, C from a byte carry.
pub open spec fn spec_add8_flags(a: u8, v: u8, carry: u8) -> FlagsRegister {
    FlagsRegister {
        zero: spec_add8(a, v, carry) == 0,
        subtract: false,
        half_carry: a % 16 + v % 16 + carry > 15,
        carry: a + v + carry > 255,
    }
}

/// 8-bit subtraction, wrapping; `carry` is the borrow SBC adds to the
/// subtrahend.
pub open spec fn spec_sub8(a: u8, v: u8, carry: u8) -> u8 {
    if a >= v + carry {
        (a - (v + carry)) as u8
    } else {
        (a + 256 - (v + carry)) as u8
    }
}

/// The flags SUB, SBC and CP leave: Z from the result, N set, H from a
/// nibble borrow, C from a byte borrow.
pub open spec fn spec_sub8_flags(a: u8, v: u8, carry: u8) -> FlagsRegister {
    FlagsRegister {
        zero: spec_sub8(a, v, carry) == 0,
        subtract: true,
        half_carry: (a % 16) < (v % 16) + carry,
        carry: (a as int) < v + carry,
    }
}

/// 16-bit addition, wrapping.
pub open spec fn spec_add16(d: u16, s: u16) -> u16 {
    ((d + s) % 0x10000) as u16
}

/// Whether a conditional jump, call or return fires under these flags.
pub open spec fn spec_condition(f: FlagsRegister, c: JumpCondition) -> bool {
    match c {
        JumpCondition::Always => true,
        JumpCondition::Zero => f.zero,
        JumpCondition::NotZero => !f.zero,
        JumpCondition::Carry => f.carry,
        JumpCondition::NotCarry => !f.carry,
    }
}

/// The IF byte as the CPU reads it: the stored low bits with the top
/// three hardwired to one.
pub open spec fn spec_if_byte(m: MemoryMap) -> u8 {
    (m.contents@[0xFF0F] | 0xE0) as u8
}

/// The interrupt bits both enabled and requested: IE & IF & 0x1F.
pub open spec fn spec_pending(m: MemoryMap) -> u8 {
    ((m.spec_read(0xFFFF) & m.spec_read(0xFF0F)) & 0x1F) as u8
}

/// The lowest set bit among the pending interrupts: the priority order is
/// VBlank, LCD STAT, Timer, Serial, Joypad.
pub open spec fn spec_priority_bit(pending: u8) -> u8 {
    if pending & 0x01 != 0 {
        0u8
    } else if pending & 0x02 != 0 {
        1u8
    } else if pending & 0x04 != 0 {
        2u8
    } else if pending & 0x08 != 0 {
        3u8
    } else {
        4u8
    }
}

/// The dispatch vector of each interrupt bit.
pub open spec fn spec_vector(bit: u8) -> u16 {
    if bit == 0 {
        0x0040u16
    } else if bit == 1 {
        0x0048u16
    } else if bit == 2 {
        0x0050u16
    } else if bit == 3 {
        0x0058u16
    } else {
        0x0060u16
    }
}

/// An address backed directly by the core's own RAM (work RAM or high
/// RAM), where a write stores the byte and a read returns it.
pub open spec fn spec_plain_ram(addr: u16) -> bool {
    (0xC000 <= addr < 0xE000) || (0xFF80 <= addr < 0xFFFF)
}

/// The CPU-side scalars (everything but the memory map) agree between
/// two states.
pub open spec fn spec_same_but_mmap(a: Cpu, b: Cpu) -> bool {
    &&& a.registers == b.registers
    &&& a.pc == b.pc
    &&& a.sp == b.sp
    &&& a.halted == b.halted
    &&& a.ime == b.ime
    &&& a.ei_delay == b.ei_delay
    &&& a.halt_bug == b.halt_bug
}

/// Everything in the memory map but the core's own byte array agrees
/// between two states.
pub open spec fn spec_mmap_same_but_contents(a: MemoryMap, b: MemoryMap) -> bool {
    &&& a.ppu == b.ppu
    &&& a.timer == b.timer
    &&& a.joypad == b.joypad
    &&& a.cart == b.cart
    &&& a.bootstrap_enabled == b.bootstrap_enabled
}

/// Everything outside the register file agrees between two CPU states.
pub open spec fn spec_same_but_regs(a: Cpu, b: Cpu) -> bool {
    &&& a.pc == b.pc
    &&& a.sp == b.sp
    &&& a.mmap == b.mmap
    &&& a.halted == b.halted
    &&& a.ime == b.ime
    &&& a.ei_delay == b.ei_delay
    &&& a.halt_bug == b.halt_bug
}

/// How one fetch/decode relates the machine before and after: the
/// decoded record, the PC advance by the encoded size (suppressed once
/// while the HALT bug is armed), and everything else untouched; on an
/// undefined opcode nothing moves at all.
#[verifier::opaque]
pub open spec fn spec_decode_rel(pre: Cpu, post: Cpu, r: Option<Instruction>) -> bool {

                let m = pre.mmap;
                let pc = pre.pc;
                let opcode = m.spec_read(pc);
                let imm8 = m.spec_read(vstd::wrapping::u16_specs::wrapping_add(pc, 1));
                let imm16hi = m.spec_read(vstd::wrapping::u16_specs::wrapping_add(pc, 2));
                let size = crate::instructions::spec_instruction_size(opcode);
                &&& (r is None <==> size is None)
                &&& (r is None ==> post == pre)
                &&& (r is Some ==> {
                    let instr = r->Some_0;
                    &&& instr.instr == opcode
                    &&& instr.kind == (if opcode == 0xCB {
                        crate::instructions::bit_operations::spec_decode_cb(imm8)
                    } else {
                        crate::instructions::spec_decode(
                            opcode,
                            if size->Some_0 >= 2 {
                                Some(imm8)
                            } else {
                                None
                            },
                            if size->Some_0 >= 3 {
                                Some(spec_pair(imm16hi, imm8))
                            } else {
                                None
                            },
                        )->Some_0
                    })
                    &&& post.pc == (if pre.halt_bug {
                        pc
                    } else {
                        vstd::wrapping::u16_specs::wrapping_add(pc, size->Some_0)
                    })
                    &&& post.halt_bug == false
                    &&& post.registers == pre.registers
                    &&& post.sp == pre.sp
                    &&& post.mmap == pre.mmap
                    &&& post.halted == pre.halted
                    &&& post.ime == pre.ime
                    &&& post.ei_delay == pre.ei_delay
                })
}

/// Whether a conditional instruction's branch fires under these flags;
/// false for every unconditional tag, whose cost does not depend on it.
pub open spec fn spec_branch_taken(f: FlagsRegister, k: InstructionKind) -> bool {
    match k {
        InstructionKind::JP(c, _) => c == JumpCondition::Always || spec_condition(f, c),
        InstructionKind::JR(c, _) => c == JumpCondition::Always || spec_condition(f, c),
        InstructionKind::CALL_COND(c, _) => spec_condition(f, c),
        InstructionKind::RET_COND(c) => spec_condition(f, c),
        _ => false,
    }
}

/// A machine state made quantifiable, to name the intermediate points of
/// a composed step.
pub struct CpuWitness {
    pub c: Cpu,
}

/// The three interrupt requests one hardware advance may raise: timer
/// overflow, the VBlank latch and the STAT edge.
pub struct HwWitness {
    pub timer_fired: bool,
    pub vblank: bool,
    pub stat: bool,
}

/// Setting one low interrupt bit in an IF byte whose top three bits are
/// already set leaves every other bit alone.
proof fn lemma_if_request_bits(r: u8, b: u8)
    by (bit_vector)
    requires
        b == 1 || b == 2 || b == 4,
        r & 0xE0 == 0xE0,
    ensures
        ((r | b) | 0xE0) & b == b,
        ((r | b) | 0xE0) & 0xE0 == 0xE0,
        b != 1 ==> ((r | b) | 0xE0) & 0x01 == r & 0x01,
        b != 2 ==> ((r | b) | 0xE0) & 0x02 == r & 0x02,
        b != 4 ==> ((r | b) | 0xE0) & 0x04 == r & 0x04,
        ((r | b) | 0xE0) & 0xF8 == r & 0xF8,
{
}

/// How advancing the timer and the picture processor by an instruction's
/// T-cycles relates the machine before and after, for some triple of
/// raised interrupt requests: the two units move by their own step
/// relations, the raised requests land as bits 2, 0 and 1 of IF, and
/// nothing else moves.
pub open spec fn spec_hw_rel_with(pre: Cpu, post: Cpu, cycles: u16, w: HwWitness) -> bool {
    &&& post.registers == pre.registers
    &&& post.pc == pre.pc
    &&& post.sp == pre.sp
    &&& post.halted == pre.halted
    &&& post.ime == pre.ime
    &&& post.ei_delay == pre.ei_delay
    &&& post.halt_bug == pre.halt_bug
    &&& crate::timer::spec_step_timer_rel(pre.mmap.timer, post.mmap.timer, w.timer_fired, cycles)
    &&& crate::memory::spec_step_ppu_rel(pre.mmap.ppu, post.mmap.ppu, w.vblank, w.stat, cycles)
    &&& post.mmap.joypad == pre.mmap.joypad
    &&& post.mmap.cart == pre.mmap.cart
    &&& post.mmap.bootstrap_enabled == pre.mmap.bootstrap_enabled
    &&& post.mmap.contents@.len() == pre.mmap.contents@.len()
    &&& (forall|i: int|
        0 <= i < post.mmap.contents@.len() && i != 0xFF0F ==> post.mmap.contents@[i]
            == pre.mmap.contents@[i])
    &&& spec_if_byte(post.mmap) & 0x01 == (if w.vblank {
        0x01u8
    } else {
        (spec_if_byte(pre.mmap) & 0x01) as u8
    })
    &&& spec_if_byte(post.mmap) & 0x02 == (if w.stat {
        0x02u8
    } else {
        (spec_if_byte(pre.mmap) & 0x02) as u8
    })
    &&& spec_if_byte(post.mmap) & 0x04 == (if w.timer_fired {
        0x04u8
    } else {
        (spec_if_byte(pre.mmap) & 0x04) as u8
    })
    &&& spec_if_byte(post.mmap) & 0xF8 == spec_if_byte(pre.mmap) & 0xF8
}

/// The hardware advance for some triple of raised interrupt requests.
pub open spec fn spec_hw_rel(pre: Cpu, post: Cpu, cycles: u16) -> bool {
    exists|w: HwWitness| #[trigger] spec_hw_rel_with(pre, post, cycles, w)
}

/// Any byte ORed with the top-three-bits mask keeps that mask set, and
/// ORing it in twice is the same as once.
proof fn lemma_or_e0(x: u8)
    by (bit_vector)
    ensures
        (x | 0xE0) & 0xE0 == 0xE0,
        (x | 0xE0) | 0xE0 == x | 0xE0,
{
}

/// One executed instruction followed by the hardware advance for its
/// T-cycle cost, through the named intermediate state.
pub open spec fn spec_execute_split(
    pre: Cpu,
    mid: Cpu,
    post: Cpu,
    k: InstructionKind,
    cycles: u8,
) -> bool {
    &&& crate::execution::spec_exec_rel(pre, mid, k)
    &&& spec_hw_rel(mid, post, cycles as u16)
}

/// How an interrupt dispatch relates the machine before and after.
/// With IME clear or nothing pending, nothing happens.  Otherwise the
/// lowest pending bit wins: IME clears, HALT ends, PC lands on the
/// bit's vector, the old PC is pushed, and 20 T-cycles are accounted;
/// with the stack in plain RAM the serviced IF bit is cleared (the
/// others kept) and the two pushed bytes are stated exactly.
#[verifier::opaque]
pub open spec fn spec_dispatch_rel(pre: Cpu, post: Cpu, r: u8) -> bool {
    &&& (!pre.ime || spec_pending(pre.mmap) == 0 ==> post == pre && r == 0)
    &&& (pre.ime && spec_pending(pre.mmap) != 0 ==> {
        let bit = spec_priority_bit(spec_pending(pre.mmap));
        let hi_addr = vstd::wrapping::u16_specs::wrapping_sub(pre.sp, 1);
        let lo_addr = vstd::wrapping::u16_specs::wrapping_sub(pre.sp, 2);
        &&& r == 20
        &&& post.pc == spec_vector(bit)
        &&& post.sp == vstd::wrapping::u16_specs::wrapping_sub(pre.sp, 2)
        &&& !post.ime
        &&& !post.halted
        &&& post.registers == pre.registers
        &&& post.ei_delay == pre.ei_delay
        &&& post.halt_bug == pre.halt_bug
        &&& (spec_plain_ram(hi_addr) && spec_plain_ram(lo_addr) ==> post.mmap == (MemoryMap {
            contents: post.mmap.contents,
            ..pre.mmap
        }) && post.mmap.contents@ == pre.mmap.contents@.update(
            0xFF0F,
            ((pre.mmap.spec_read(0xFF0F) & !(1u8 << bit)) | 0xE0) as u8,
        ).update(hi_addr as int, spec_hi(pre.pc)).update(lo_addr as int, spec_lo(pre.pc)))
    })
}

impl Cpu {
    /// Structural soundness: a sound memory map.
    pub open spec fn wf(&self) -> bool {
        self.mmap.wf()
    }

    /// A cold-boot CPU: everything cleared, interrupts disabled, the
    /// bootstrap overlay mapped but not yet filled.
    pub fn new() -> (r: Cpu)
        ensures
            r.wf(),
            r.registers.a == 0 && r.registers.b == 0 && r.registers.c == 0 && r.registers.d == 0
                && r.registers.e == 0 && r.registers.h == 0 && r.registers.l == 0,
            r.registers.f == (FlagsRegister {
                zero: false,
                subtract: false,
                half_carry: false,
                carry: false,
            }),
            r.pc == 0 && r.sp == 0,
            !r.halted && !r.ime && !r.ei_delay && !r.halt_bug,
            r.mmap.bootstrap_enabled,
            r.mmap.cart is None,
    {
        Cpu {
            registers: Registers::new(),
            pc: 0,
            sp: 0,
            mmap: MemoryMap::new(),
            halted: false,
            ime: false,
            ei_delay: false,
            halt_bug: false,
        }
    }

    /// A CPU in the state the bootstrap ROM hands over: registers at their
    /// documented values, PC at the cartridge entry point, SP at the top
    /// of high RAM, interrupts disabled.
    pub fn new_post_boot() -> (r: Cpu)
        ensures
            r.wf(),
            r.registers == (Registers {
                a: 0x01u8,
                b: 0x00u8,
                c: 0x13u8,
                d: 0x00u8,
                e: 0xD8u8,
                f: FlagsRegister { zero: true, subtract: false, half_carry: true, carry: true },
                h: 0x01u8,
                l: 0x4Du8,
            }),
            r.pc == 0x0100 && r.sp == 0xFFFE,
            !r.halted && !r.ime && !r.ei_delay && !r.halt_bug,
            !r.mmap.bootstrap_enabled,
            r.mmap.spec_read(0xFF0F) == 0xE0,
            r.mmap.spec_read(0xFFFF) == 0x00,
    {
        Cpu {
            registers: Registers::new_post_boot(),
            pc: 0x0100,
            sp: 0xFFFE,
            mmap: MemoryMap::new_post_boot(),
            halted: false,
            ime: false,
            ei_delay: false,
            halt_bug: false,
        }
    }

    /// Reads an eight-bit register operand.
    pub(crate) fn get_reg8(&self, a: ArgKind) -> (r: u8)
        ensures
            r == spec_get_r8(self.registers, a),
    {
        match a {
            ArgKind::A => self.registers.a,
            ArgKind::B => self.registers.b,
            ArgKind::C => self.registers.c,
            ArgKind::D => self.registers.d,
            ArgKind::E => self.registers.e,
            ArgKind::H => self.registers.h,
            ArgKind::L => self.registers.l,
            _ => 0,
        }
    }

    /// Writes an eight-bit register operand.
    pub(crate) fn set_reg8(&mut self, a: ArgKind, v: u8)
        ensures
            final(self).registers == spec_set_r8(old(self).registers, a, v),
            spec_same_but_regs(*old(self), *final(self)),
    {
        match a {
            ArgKind::A => self.registers.a = v,
            ArgKind::B => self.registers.b = v,
            ArgKind::C => self.registers.c = v,
            ArgKind::D => self.registers.d = v,
            ArgKind::E => self.registers.e = v,
            ArgKind::H => self.registers.h = v,
            ArgKind::L => self.registers.l = v,
            _ => {},
        }
    }

    /// Fetches, sizes and decodes the instruction at PC, reading the
    /// immediates that follow the opcode, and advances PC past the
    /// encoding -- except that an armed HALT bug consumes the fetch
    /// without advancing PC, exactly once.  `None` means the byte at PC
    /// is not a defined opcode; the machine is left unchanged so the
    /// host can stop loudly.
    pub fn decode(&mut self) -> (r: Option<Instruction>)
        requires
            old(self).wf(),
        ensures
            final(self).wf(),
            spec_decode_rel(*old(self), *final(self), r),
    {
        proof {
            reveal(spec_decode_rel);
        }
        let opcode = self.mmap.read(self.pc);
        let size = match get_instruction_size(opcode) {
            Some(s) => s,
            None => {
                return None;
            },
        };
        let mut instruction = Instruction::default();
        instruction.instr = opcode;

        if opcode == 0xCB {
            let cb_opcode = self.mmap.read(self.pc.wrapping_add(1));
            instruction.kind = decode_cb_instruction(cb_opcode);
            if self.halt_bug {
                self.halt_bug = false;
            } else {
                self.pc = self.pc.wrapping_add(2);
            }
            return Some(instruction);
        }
        let immediate8 = if size >= 2 {
            Some(self.mmap.read(self.pc.wrapping_add(1)))
        } else {
            None
        };
        let immediate16 = if size >= 3 {
            let low_byte = self.mmap.read(self.pc.wrapping_add(1));
            let high_byte = self.mmap.read(self.pc.wrapping_add(2));
            Some((high_byte as u16) * 256 + low_byte as u16)
        } else {
            None
        };
        match decode_instruction(opcode, immediate8, immediate16) {
            Some(kind) => {
                instruction.kind = kind;
            },
            None => {
                return None;
            },
        }
        if self.halt_bug {
            self.halt_bug = false;
        } else {
            self.pc = self.pc.wrapping_add(size);
        }
        Some(instruction)
    }

    /// ADD/ADC core: adds the operand (plus the carry flag for ADC) into
    /// A's value and sets all four flags; the caller stores the result.
    pub fn add(&mut self, value: u8) -> (r: u8)
        ensures
            r == spec_add8(old(self).registers.a, value, 0),
            final(self).registers == (Registers {
                f: spec_add8_flags(old(self).registers.a, value, 0),
                ..old(self).registers
            }),
            spec_same_but_regs(*old(self), *final(self)),
    {
        let a = self.registers.a;
        let sum: u16 = a as u16 + value as u16;
        let new_value: u8 = (sum % 256) as u8;
        self.registers.f.zero = new_value == 0;
        self.registers.f.subtract = false;
        self.registers.f.carry = sum > 0xFF;
        self.registers.f.half_carry = a % 16 + value % 16 > 0xF;
        new_value
    }

    /// 16-bit ADD core for ADD HL,rr: N clears, H carries out of bit 11,
    /// C out of bit 15, Z is untouched.
    pub fn add16(&mut self, dest_value: u16, src_value: u16) -> (r: u16)
        ensures
            r == spec_add16(dest_value, src_value),
            final(self).registers == (Registers {
                f: FlagsRegister {
                    zero: old(self).registers.f.zero,
                    subtract: false,
                    half_carry: dest_value % 0x1000 + src_value % 0x1000 > 0xFFF,
                    carry: dest_value + src_value > 0xFFFF,
                },
                ..old(self).registers
            }),
            spec_same_but_regs(*old(self), *final(self)),
    {
        let sum: u32 = dest_value as u32 + src_value as u32;
        let new_value: u16 = (sum % 0x10000) as u16;
        self.registers.f.subtract = false;
        self.registers.f.carry = sum > 0xFFFF;
        self.registers.f.half_carry = dest_value % 0x1000 + src_value % 0x1000 > 0xFFF;
        new_value
    }

    /// INC core: adds one wrapping, sets Z, clears N, sets H on a nibble
    /// carry; C is untouched.
    pub fn increment(&mut self, value: u8) -> (r: u8)
        ensures
            r == spec_add8(value, 1, 0),
            final(self).registers == (Registers {
                f: FlagsRegister {
                    zero: spec_add8(value, 1, 0) == 0,
                    subtract: false,
                    half_carry: value % 16 == 0xF,
                    carry: old(self).registers.f.carry,
                },
                ..old(self).registers
            }),
            spec_same_but_regs(*old(self), *final(self)),
    {
        let new_value = value.wrapping_add(1);
        self.registers.f.zero = new_value == 0;
        self.registers.f.subtract = false;
        self.registers.f.half_carry = value % 16 == 0xF;
        new_value
    }

    /// DEC core: subtracts one wrapping, sets Z and N, sets H on a nibble
    /// borrow; C is untouched.
    pub fn decrement(&mut self, value: u8) -> (r: u8)
        ensures
            r == spec_sub8(value, 1, 0),
            final(self).registers == (Registers {
                f: FlagsRegister {
                    zero: spec_sub8(value, 1, 0) == 0,
                    subtract: true,
                    half_carry: value % 16 == 0,
                    carry: old(self).registers.f.carry,
                },
                ..old(self).registers
            }),
            spec_same_but_regs(*old(self), *final(self)),
    {
        let new_value = value.wrapping_sub(1);
        self.registers.f.zero = new_value == 0;
        self.registers.f.subtract = true;
        self.registers.f.half_carry = value % 16 == 0x00;
        new_value
    }

    /// SUB/CP core: subtracts the operand from A's value and sets all
    /// four flags; SUB's caller stores the result, CP's discards it.
    pub fn subtract(&mut self, value: u8) -> (r: u8)
        ensures
            r == spec_sub8(old(self).registers.a, value, 0),
            final(self).registers == (Registers {
                f: spec_sub8_flags(old(self).registers.a, value, 0),
                ..old(self).registers
            }),
            spec_same_but_regs(*old(self), *final(self)),
    {
        let a = self.registers.a;
        let result = a.wrapping_sub(value);
        self.registers.f.zero = result == 0;
        self.registers.f.subtract = true;
        self.registers.f.half_carry = a % 16 < value % 16;
        self.registers.f.carry = a < value;
        result
    }

    /// SBC core: subtracts the operand and the carry flag from A's value
    /// and sets all four flags; the caller stores the result.
    pub fn subtract_with_carry(&mut self, value: u8) -> (r: u8)
        ensures
            r == spec_sub8(
                old(self).registers.a,
                value,
                if old(self).registers.f.carry {
                    1u8
                } else {
                    0u8
                },
            ),
            final(self).registers == (Registers {
                f: spec_sub8_flags(
                    old(self).registers.a,
                    value,
                    if old(self).registers.f.carry {
                        1u8
                    } else {
                        0u8
                    },
                ),
                ..old(self).registers
            }),
            spec_same_but_regs(*old(self), *final(self)),
    {
        let a = self.registers.a;
        let carry: u8 = if self.registers.f.carry {
            1
        } else {
            0
        };
        let total: u16 = value as u16 + carry as u16;
        let result: u8 = if (a as u16) >= total {
            (a as u16 - total) as u8
        } else {
            (a as u16 + 256 - total) as u8
        };
        self.registers.f.zero = result == 0;
        self.registers.f.subtract = true;
        let nib: u16 = (value % 16) as u16 + carry as u16;
        self.registers.f.half_carry = ((a % 16) as u16) < nib;
        self.registers.f.carry = (a as u16) < total;
        result
    }

    /// BIT core: Z reflects the complement of the tested bit, N clears,
    /// H sets; C is untouched.
    pub fn test_bit(&mut self, bit: u8, value: u8)
        requires
            bit < 8,
        ensures
            final(self).registers == (Registers {
                f: FlagsRegister {
                    zero: value & (1u8 << bit) == 0,
                    subtract: false,
                    half_carry: true,
                    carry: old(self).registers.f.carry,
                },
                ..old(self).registers
            }),
            spec_same_but_regs(*old(self), *final(self)),
    {
        let bit_set = (value & (1u8 << bit)) != 0;
        self.registers.f.zero = !bit_set;
        self.registers.f.subtract = false;
        self.registers.f.half_carry = true;
    }

    /// Whether a conditional instruction fires under the current flags.
    pub fn check_jump_condition(&self, condition: JumpCondition) -> (r: bool)
        ensures
            r == spec_condition(self.registers.f, condition),
    {
        match condition {
            JumpCondition::Always => true,
            JumpCondition::Zero => self.registers.f.zero,
            JumpCondition::NotZero => !self.registers.f.zero,
            JumpCondition::Carry => self.registers.f.carry,
            JumpCondition::NotCarry => !self.registers.f.carry,
        }
    }

    /// Pushes a 16-bit value: SP drops by two and the high byte lands at
    /// SP+1, the low byte at SP, through the normal write decoder.  With
    /// the stack in plain RAM the two stored bytes are stated exactly.
    pub fn push_stack(&mut self, value: u16)
        requires
            old(self).wf(),
        ensures
            final(self).wf(),
            final(self).sp == vstd::wrapping::u16_specs::wrapping_sub(old(self).sp, 2),
            final(self).registers == old(self).registers,
            final(self).pc == old(self).pc,
            final(self).halted == old(self).halted,
            final(self).ime == old(self).ime,
            final(self).ei_delay == old(self).ei_delay,
            final(self).halt_bug == old(self).halt_bug,
            ({
                let hi_addr = vstd::wrapping::u16_specs::wrapping_sub(old(self).sp, 1);
                let lo_addr = vstd::wrapping::u16_specs::wrapping_sub(old(self).sp, 2);
                spec_plain_ram(hi_addr) && spec_plain_ram(lo_addr) ==> final(self).mmap == (
                MemoryMap { contents: final(self).mmap.contents, ..old(self).mmap })
                    && final(self).mmap.contents@ == old(self).mmap.contents@.update(
                    hi_addr as int,
                    spec_hi(value),
                ).update(lo_addr as int, spec_lo(value))
            }),
    {
        proof {
            reveal(crate::memory::spec_write_rel);
        }
        self.sp = self.sp.wrapping_sub(1);
        self.mmap.write(self.sp, (value / 256) as u8);
        self.sp = self.sp.wrapping_sub(1);
        self.mmap.write(self.sp, (value % 256) as u8);
    }

    /// Pops a 16-bit value: the low byte from SP, the high byte from
    /// SP+1, and SP rises by two.  Reading never changes the machine.
    pub fn pop_stack(&mut self) -> (r: u16)
        requires
            old(self).wf(),
        ensures
            final(self).wf(),
            r == spec_pair(
                old(self).mmap.spec_read(vstd::wrapping::u16_specs::wrapping_add(old(self).sp, 1)),
                old(self).mmap.spec_read(old(self).sp),
            ),
            *final(self) == (Cpu {
                sp: vstd::wrapping::u16_specs::wrapping_add(old(self).sp, 2),
                ..*old(self)
            }),
    {
        let low = self.mmap.read(self.sp) as u16;
        self.sp = self.sp.wrapping_add(1);
        let high = self.mmap.read(self.sp) as u16;
        self.sp = self.sp.wrapping_add(1);
        high * 256 + low
    }

    /// Whether an interrupt is due for dispatch: IME and some bit both
    /// enabled and requested.
    pub fn check_interrupts(&mut self) -> (r: bool)
        requires
            old(self).wf(),
        ensures
            *final(self) == *old(self),
            r == (old(self).ime && spec_pending(old(self).mmap) != 0),
    {
        if !self.ime {
            return false;
        }
        let ie = self.mmap.read(0xFFFF);
        let if_reg = self.mmap.read(0xFF0F);
        let pending = ie & if_reg & 0x1F;
        pending != 0
    }

    /// Whether any interrupt is pending at all, regardless of IME; the
    /// HALT bug and HALT wake-up are gated on this.
    pub fn check_pending_interrupts(&mut self) -> (r: bool)
        requires
            old(self).wf(),
        ensures
            *final(self) == *old(self),
            r == (spec_pending(old(self).mmap) != 0),
    {
        let ie = self.mmap.read(0xFFFF);
        let if_reg = self.mmap.read(0xFF0F);
        let pending = ie & if_reg & 0x1F;
        pending != 0
    }

    /// Dispatches the highest-priority pending interrupt when IME is set:
    /// IME clears, the serviced IF bit clears, PC is pushed, PC jumps to
    /// the vector, HALT ends, and 20 T-cycles are accounted.  With IME
    /// clear or nothing pending, nothing happens and 0 is returned.
    #[verifier::rlimit(100)]
    pub fn handle_interrupt(&mut self) -> (r: u8)
        requires
            old(self).wf(),
        ensures
            final(self).wf(),
            spec_dispatch_rel(*old(self), *final(self), r),
    {
        proof {
            reveal(spec_dispatch_rel);
        }
        if !self.ime {
            return 0;
        }
        let ie = self.mmap.read(0xFFFF);
        let if_reg = self.mmap.read(0xFF0F);
        let pending = ie & if_reg & 0x1F;
        if pending == 0 {
            return 0;
        }
        let interrupt_bit: u8 = if pending & 0x01 != 0 {
            0
        } else if pending & 0x02 != 0 {
            1
        } else if pending & 0x04 != 0 {
            2
        } else if pending & 0x08 != 0 {
            3
        } else {
            4
        };
        proof {
            assert(pending & 0x01 == 0 && pending & 0x02 == 0 && pending & 0x04 == 0 && pending
                & 0x08 == 0 && pending & 0x1F == pending && pending != 0 ==> pending & 0x10 != 0)
                by (bit_vector);
            assert((ie & if_reg & 0x1F) & 0x1F == ie & if_reg & 0x1F) by (bit_vector);
        }
        proof {
            reveal(crate::memory::spec_write_rel);
        }
        let new_if = if_reg & !(1u8 << interrupt_bit);
        self.mmap.write(0xFF0F, new_if);
        self.ime = false;
        self.halted = false;
        let pc = self.pc;
        self.push_stack(pc);
        let vector: u16 = match interrupt_bit {
            0 => 0x0040,
            1 => 0x0048,
            2 => 0x0050,
            3 => 0x0058,
            _ => 0x0060,
        };
        self.pc = vector;
        20
    }

    /// Sets one bit in the interrupt-flag register through the decoder.
    pub fn request_interrupt(&mut self, interrupt_bit: u8)
        requires
            old(self).wf(),
            interrupt_bit < 8,
        ensures
            final(self).wf(),
            spec_same_but_mmap(*old(self), *final(self)),
            spec_mmap_same_but_contents(old(self).mmap, final(self).mmap),
            final(self).mmap.contents@ == old(self).mmap.contents@.update(
                0xFF0F,
                ((spec_if_byte(old(self).mmap) | (1u8 << interrupt_bit)) | 0xE0) as u8,
            ),
    {
        proof {
            reveal(crate::memory::spec_write_rel);
        }
        let if_reg = self.mmap.read(0xFF0F);
        self.mmap.write(0xFF0F, if_reg | (1u8 << interrupt_bit));
    }

    /// Requests the VBlank interrupt, bit 0.
    pub fn request_vblank_interrupt(&mut self)
        requires
            old(self).wf(),
        ensures
            final(self).wf(),
            spec_same_but_mmap(*old(self), *final(self)),
            spec_mmap_same_but_contents(old(self).mmap, final(self).mmap),
            final(self).mmap.contents@ == old(self).mmap.contents@.update(
                0xFF0F,
                ((spec_if_byte(old(self).mmap) | 0x01) | 0xE0) as u8,
            ),
    {
        self.request_interrupt(0);
        proof {
            assert(1u8 << 0 == 0x01) by (bit_vector);
        }
    }

    /// Requests the LCD STAT interrupt, bit 1.
    pub fn request_lcd_stat_interrupt(&mut self)
        requires
            old(self).wf(),
        ensures
            final(self).wf(),
            spec_same_but_mmap(*old(self), *final(self)),
            spec_mmap_same_but_contents(old(self).mmap, final(self).mmap),
            final(self).mmap.contents@ == old(self).mmap.contents@.update(
                0xFF0F,
                ((spec_if_byte(old(self).mmap) | 0x02) | 0xE0) as u8,
            ),
    {
        self.request_interrupt(1);
        proof {
            assert(1u8 << 1 == 0x02) by (bit_vector);
        }
    }

    /// Requests the timer interrupt, bit 2.
    pub fn request_timer_interrupt(&mut self)
        requires
            old(self).wf(),
        ensures
            final(self).wf(),
            spec_same_but_mmap(*old(self), *final(self)),
            spec_mmap_same_but_contents(old(self).mmap, final(self).mmap),
            final(self).mmap.contents@ == old(self).mmap.contents@.update(
                0xFF0F,
                ((spec_if_byte(old(self).mmap) | 0x04) | 0xE0) as u8,
            ),
    {
        self.request_interrupt(2);
        proof {
            assert(1u8 << 2 == 0x04) by (bit_vector);
        }
    }

    /// Requests the serial interrupt, bit 3.
    pub fn request_serial_interrupt(&mut self)
        requires
            old(self).wf(),
        ensures
            final(self).wf(),
            spec_same_but_mmap(*old(self), *final(self)),
            spec_mmap_same_but_contents(old(self).mmap, final(self).mmap),
            final(self).mmap.contents@ == old(self).mmap.contents@.update(
                0xFF0F,
                ((spec_if_byte(old(self).mmap) | 0x08) | 0xE0) as u8,
            ),
    {
        self.request_interrupt(3);
        proof {
            assert(1u8 << 3 == 0x08) by (bit_vector);
        }
    }

    /// Requests the joypad interrupt, bit 4.
    pub fn request_joypad_interrupt(&mut self)
        requires
            old(self).wf(),
        ensures
            final(self).wf(),
            spec_same_but_mmap(*old(self), *final(self)),
            spec_mmap_same_but_contents(old(self).mmap, final(self).mmap),
            final(self).mmap.contents@ == old(self).mmap.contents@.update(
                0xFF0F,
                ((spec_if_byte(old(self).mmap) | 0x10) | 0xE0) as u8,
            ),
    {
        self.request_interrupt(4);
        proof {
            assert(1u8 << 4 == 0x10) by (bit_vector);
        }
    }

    /// Resolves the EI delay slot: an armed EI takes effect now, one
    /// instruction after it executed.
    pub fn handle_ei_delay(&mut self)
        ensures
            *final(self) == (Cpu {
                ime: old(self).ime || old(self).ei_delay,
                ei_delay: false,
                ..*old(self)
            }),
    {
        if self.ei_delay {
            self.ime = true;
            self.ei_delay = false;
        }
    }
}

impl Cpu {
    /// Executes one decoded instruction and advances the timer and the
    /// picture processor by its true T-cycle cost, latching any interrupt
    /// requests they raise into IF.  Returns that cost, which for a
    /// conditional instruction depends on whether the branch fired.
    /// Advances the timer and the picture processor by one instruction's
    /// T-cycles and latches the interrupt requests they raise into IF:
    /// bit 2 for a TIMA overflow, bit 0 for the VBlank latch, bit 1 for
    /// a STAT edge.
    #[verifier::rlimit(100)]
    #[verifier::spinoff_prover]
    fn advance_hardware(&mut self, cycles: u16)
        requires
            old(self).wf(),
        ensures
            final(self).wf(),
            spec_same_but_mmap(*old(self), *final(self)),
            spec_hw_rel(*old(self), *final(self), cycles),
    {
        let ghost pre = *old(self);
        let ghost r0 = spec_if_byte(pre.mmap);
        proof {
            lemma_or_e0(pre.mmap.contents@[0xFF0F]);
        }
        let timer_fired = self.mmap.step_timer(cycles);
        if timer_fired {
            proof {
                lemma_if_request_bits(r0, 4);
                lemma_or_e0((r0 | 4) as u8);
            }
            self.request_timer_interrupt();
        }
        let ghost r1 = spec_if_byte(self.mmap);
        proof {
            assert(r1 & 0xE0 == 0xE0);
            assert(r1 & 0x04 == (if timer_fired {
                0x04u8
            } else {
                (r0 & 0x04) as u8
            }));
            assert(r1 & 0x01 == r0 & 0x01);
            assert(r1 & 0x02 == r0 & 0x02);
            assert(r1 & 0xF8 == r0 & 0xF8);
        }
        let interrupts = self.mmap.step_ppu(cycles);
        if interrupts.0 {
            proof {
                lemma_if_request_bits(r1, 1);
                lemma_or_e0((r1 | 1) as u8);
            }
            self.request_vblank_interrupt();
        }
        let ghost r2 = spec_if_byte(self.mmap);
        proof {
            assert(r2 & 0xE0 == 0xE0);
            assert(r2 & 0x01 == (if interrupts.0 {
                0x01u8
            } else {
                (r1 & 0x01) as u8
            }));
            assert(r2 & 0x02 == r1 & 0x02);
            assert(r2 & 0x04 == r1 & 0x04);
            assert(r2 & 0xF8 == r1 & 0xF8);
        }
        if interrupts.1 {
            proof {
                lemma_if_request_bits(r2, 2);
                lemma_or_e0((r2 | 2) as u8);
            }
            self.request_lcd_stat_interrupt();
        }
        let ghost r3 = spec_if_byte(self.mmap);
        proof {
            assert(r3 & 0x02 == (if interrupts.1 {
                0x02u8
            } else {
                (r2 & 0x02) as u8
            }));
            assert(r3 & 0x01 == r2 & 0x01);
            assert(r3 & 0x04 == r2 & 0x04);
            assert(r3 & 0xF8 == r2 & 0xF8);
            let w = HwWitness {
                timer_fired: timer_fired,
                vblank: interrupts.0,
                stat: interrupts.1,
            };
            assert(self.registers == pre.registers && self.pc == pre.pc && self.sp == pre.sp);
            assert(self.halted == pre.halted && self.ime == pre.ime && self.ei_delay
                == pre.ei_delay && self.halt_bug == pre.halt_bug);
            assert(crate::timer::spec_step_timer_rel(
                pre.mmap.timer,
                self.mmap.timer,
                w.timer_fired,
                cycles,
            ));
            assert(crate::memory::spec_step_ppu_rel(
                pre.mmap.ppu,
                self.mmap.ppu,
                w.vblank,
                w.stat,
                cycles,
            ));
            assert(self.mmap.joypad == pre.mmap.joypad && self.mmap.cart == pre.mmap.cart
                && self.mmap.bootstrap_enabled == pre.mmap.bootstrap_enabled);
            assert(self.mmap.contents@.len() == pre.mmap.contents@.len());
            assert(forall|i: int|
                0 <= i < self.mmap.contents@.len() && i != 0xFF0F ==> self.mmap.contents@[i]
                    == pre.mmap.contents@[i]);
            assert(spec_if_byte(self.mmap) & 0xF8 == spec_if_byte(pre.mmap) & 0xF8);
            assert(spec_hw_rel_with(pre, *self, cycles, w));
        }
    }

    pub fn execute(&mut self, instruction: Instruction) -> (r: u8)
        requires
            old(self).wf(),
        ensures
            final(self).wf(),
            r == crate::instruction_timing::spec_instruction_cycles(
                instruction.kind,
                spec_branch_taken(old(self).registers.f, instruction.kind),
            ),
            exists|m: CpuWitness|
                #[trigger] spec_execute_split(*old(self), m.c, *final(self), instruction.kind, r),
    {
        let condition_taken = match &instruction.kind {
            InstructionKind::JP(condition, _) => {
                *condition == JumpCondition::Always || self.check_jump_condition(*condition)
            },
            InstructionKind::JR(condition, _) => {
                *condition == JumpCondition::Always || self.check_jump_condition(*condition)
            },
            InstructionKind::CALL_COND(condition, _) => self.check_jump_condition(*condition),
            InstructionKind::RET_COND(condition) => self.check_jump_condition(*condition),
            _ => false,
        };
        let actual_cycles = crate::instruction_timing::get_instruction_cycles(
            &instruction.kind,
            condition_taken,
        );
        let _cycles = self.execute_instruction(instruction);
        let ghost mid = *self;
        self.advance_hardware(actual_cycles as u16);
        proof {
            let m = CpuWitness { c: mid };
            assert(spec_execute_split(*old(self), m.c, *final(self), instruction.kind, actual_cycles));
        }
        actual_cycles
    }

    /// One iteration of the core's step loop.  While halted, the hardware
    /// idles four T-cycles per step and wakes on any pending interrupt.
    /// Otherwise: fetch and decode, execute with the hardware advanced in
    /// step, resolve the EI delay slot (deferring it when the instruction
    /// just executed was the EI itself), and finally dispatch an enabled
    /// pending interrupt, whose twenty T-cycles also advance the
    /// hardware.  `None` means the byte at PC is not a defined opcode;
    /// the machine stops before executing anything.
    pub fn step_instruction(&mut self) -> (r: Option<u32>)
        requires
            old(self).wf(),
        ensures
            final(self).wf(),
            spec_step_rel(*old(self), *final(self), r),
            old(self).halted ==> r == Some(4u32) || r == Some(24u32),
            r is None ==> *final(self) == *old(self),
    {
        proof {
            reveal(spec_step_rel);
            reveal(spec_decode_rel);
        }
        let ghost pre = *old(self);
        if self.halted {
            self.advance_hardware(4);
            let ghost hw = *self;
            if self.check_pending_interrupts() {
                self.halted = false;
            }
            let ghost woken = *self;
            proof {
                assert(exists|w: CpuWitness|
                    #[trigger] spec_hw_rel(pre, w.c, 4) && woken == (Cpu {
                        halted: spec_pending(w.c.mmap) == 0,
                        ..w.c
                    })) by {
                    let w = CpuWitness { c: hw };
                    assert(spec_hw_rel(pre, w.c, 4) && woken == (Cpu {
                        halted: spec_pending(w.c.mmap) == 0,
                        ..w.c
                    }));
                }
            }
            let mut halt_result: u32 = 4;
            if self.check_interrupts() {
                let dispatch_cycles = self.handle_interrupt();
                let ghost dispatched = *self;
                proof {
                    reveal(spec_dispatch_rel);
                    assert(dispatch_cycles == 20);
                }
                self.advance_hardware(dispatch_cycles as u16);
                proof {
                    assert(spec_dispatch_rel(woken, dispatched, 20));
                    assert(exists|q: CpuWitness|
                        #[trigger] spec_dispatch_rel(woken, q.c, 20) && spec_hw_rel(
                            q.c,
                            *self,
                            20,
                        )) by {
                        let q = CpuWitness { c: dispatched };
                        assert(spec_dispatch_rel(woken, q.c, 20) && spec_hw_rel(q.c, *self, 20));
                    }
                }
                halt_result = 24;
            }
            proof {
                lemma_step_rel_halted(pre, woken, *self, halt_result);
            }
            return Some(halt_result);
        }
        let was_ei = {
            let opcode = self.mmap.read(self.pc);
            opcode == 0xFB
        };
        let instruction = match self.decode() {
            Some(i) => i,
            None => {
                return None;
            },
        };
        let ghost decoded = *self;
        let cycles = self.execute(instruction);
        let ghost executed = *self;
        if !was_ei {
            self.handle_ei_delay();
        }
        let ghost resolved = *self;
        let dispatching = self.check_interrupts();
        let mut result: u32 = cycles as u32;
        if dispatching {
            let dispatch_cycles = self.handle_interrupt();
            let ghost dispatched = *self;
            proof {
                reveal(spec_dispatch_rel);
                assert(dispatch_cycles == 20);
            }
            self.advance_hardware(dispatch_cycles as u16);
            proof {
                assert(spec_dispatch_rel(resolved, dispatched, 20));
                assert(exists|q: CpuWitness|
                    #[trigger] spec_dispatch_rel(resolved, q.c, 20) && spec_hw_rel(
                        q.c,
                        *self,
                        20,
                    )) by {
                    let q = CpuWitness { c: dispatched };
                    assert(spec_dispatch_rel(resolved, q.c, 20) && spec_hw_rel(q.c, *self, 20));
                }
            }
            result = cycles as u32 + 20;
        }
        proof {
            lemma_step_rel_fetched(
                pre,
                decoded,
                executed,
                resolved,
                *self,
                instruction,
                cycles,
                result,
            );
        }
        Some(result)
    }
}

/// The machine after the EI delay slot resolves: an armed EI raises IME
/// now, one instruction after it executed -- unless the instruction just
/// executed was the EI itself, which defers by one more instruction.
pub open spec fn spec_resolve_ei(opcode: u8, g: Cpu) -> Cpu {
    if opcode == 0xFB {
        g
    } else {
        Cpu { ime: g.ime || g.ei_delay, ei_delay: false, ..g }
    }
}

/// The tail of a fetched step, from the EI-resolved machine on: an
/// enabled pending interrupt dispatches with twenty more T-cycles of
/// hardware advance; otherwise nothing further happens.
pub open spec fn spec_step_tail(resolved: Cpu, post: Cpu, cycles: u8, r: Option<u32>) -> bool {
    if resolved.ime && spec_pending(resolved.mmap) != 0 {
        &&& r == Some((cycles + 20) as u32)
        &&& exists|q: CpuWitness|
            #[trigger] spec_dispatch_rel(resolved, q.c, 20) && spec_hw_rel(q.c, post, 20)
    } else {
        &&& post == resolved
        &&& r == Some(cycles as u32)
    }
}

/// How one whole iteration of the step loop relates the machine before
/// and after.  A halted machine idles the hardware four T-cycles, wakes
/// on any pending interrupt, and dispatches when IME is set.  Otherwise
/// the byte at PC decides: an undefined opcode changes nothing and
/// returns nothing; a defined one is decoded (advancing PC), executed
/// with the hardware advanced by its true cost, the EI delay slot is
/// resolved (deferred when the instruction just executed was the EI
/// itself), and an enabled pending interrupt is dispatched with twenty
/// more T-cycles of hardware advance.
#[verifier::opaque]
pub open spec fn spec_step_rel(pre: Cpu, post: Cpu, r: Option<u32>) -> bool {
    if pre.halted {
        exists|w: CpuWitness|
            #[trigger] spec_hw_rel(pre, w.c, 4) && {
                let woken = Cpu { halted: spec_pending(w.c.mmap) == 0, ..w.c };
                if woken.ime && spec_pending(woken.mmap) != 0 {
                    &&& r == Some(24u32)
                    &&& exists|q: CpuWitness|
                        #[trigger] spec_dispatch_rel(woken, q.c, 20) && spec_hw_rel(q.c, post, 20)
                } else {
                    &&& r == Some(4u32)
                    &&& post == woken
                }
            }
    } else {
        let opcode = pre.mmap.spec_read(pre.pc);
        if crate::instructions::spec_instruction_size(opcode) is None {
            &&& r is None
            &&& post == pre
        } else {
            &&& r is Some
            &&& spec_step_fetched(pre, post, r)
        }
    }
}

/// The fetched path of one step, through its intermediate states: the
/// decoded instruction, the state after decode, after execute, and after
/// the hardware advance, followed by the step's tail.
pub open spec fn spec_step_fetched(pre: Cpu, post: Cpu, r: Option<u32>) -> bool {
    exists|i: Instruction, d: CpuWitness, e: CpuWitness, g: CpuWitness, cyc: u8|
        #![trigger spec_decode_rel(pre, d.c, Some(i)), spec_execute_split(
            d.c,
            e.c,
            g.c,
            i.kind,
            cyc,
        )]
        {
            &&& cyc == crate::instruction_timing::spec_instruction_cycles(
                i.kind,
                spec_branch_taken(pre.registers.f, i.kind),
            )
            &&& spec_decode_rel(pre, d.c, Some(i))
            &&& spec_execute_split(d.c, e.c, g.c, i.kind, cyc)
            &&& spec_step_tail(spec_resolve_ei(pre.mmap.spec_read(pre.pc), g.c), post, cyc, r)
        }
}

/// Packages the halted path of the step loop into the step relation: the
/// four-cycle hardware idle, the wake on any pending interrupt, and the
/// dispatch when IME allows it.
#[verifier::rlimit(100)]
#[verifier::spinoff_prover]
proof fn lemma_step_rel_halted(pre: Cpu, woken: Cpu, post: Cpu, result: u32)
    requires
        pre.halted,
        exists|w: CpuWitness|
            #[trigger] spec_hw_rel(pre, w.c, 4) && woken == (Cpu {
                halted: spec_pending(w.c.mmap) == 0,
                ..w.c
            }),
        woken.ime && spec_pending(woken.mmap) != 0 ==> result == 24 && exists|q: CpuWitness|
            #[trigger] spec_dispatch_rel(woken, q.c, 20) && spec_hw_rel(q.c, post, 20),
        !(woken.ime && spec_pending(woken.mmap) != 0) ==> post == woken && result == 4,
    ensures
        spec_step_rel(pre, post, Some(result)),
{
    reveal(spec_step_rel);
}

/// Packages the fetch path of the step loop into the step relation:
/// decode, execute with its hardware advance, the EI delay-slot
/// resolution, and the dispatch when IME allows it.
#[verifier::rlimit(100)]
#[verifier::spinoff_prover]
/// The step's tail relation holds of the states the step loop actually
/// built: the resolved EI slot and the optional dispatch.
#[verifier::rlimit(100)]
#[verifier::spinoff_prover]
proof fn lemma_step_tail(resolved: Cpu, post: Cpu, cycles: u8, result: u32)
    requires
        resolved.ime && spec_pending(resolved.mmap) != 0 ==> result == cycles as u32 + 20
            && exists|q: CpuWitness|
            #[trigger] spec_dispatch_rel(resolved, q.c, 20) && spec_hw_rel(q.c, post, 20),
        !(resolved.ime && spec_pending(resolved.mmap) != 0) ==> post == resolved && result
            == cycles as u32,
    ensures
        spec_step_tail(resolved, post, cycles, Some(result)),
{
}

proof fn lemma_step_rel_fetched(
    pre: Cpu,
    decoded: Cpu,
    executed: Cpu,
    resolved: Cpu,
    post: Cpu,
    i: Instruction,
    cycles: u8,
    result: u32,
)
    requires
        !pre.halted,
        crate::instructions::spec_instruction_size(pre.mmap.spec_read(pre.pc)) is Some,
        spec_decode_rel(pre, decoded, Some(i)),
        cycles == crate::instruction_timing::spec_instruction_cycles(
            i.kind,
            spec_branch_taken(pre.registers.f, i.kind),
        ),
        exists|m: CpuWitness|
            #[trigger] spec_execute_split(decoded, m.c, executed, i.kind, cycles),
        resolved == spec_resolve_ei(pre.mmap.spec_read(pre.pc), executed),
        resolved.ime && spec_pending(resolved.mmap) != 0 ==> result == cycles as u32 + 20
            && exists|q: CpuWitness|
            #[trigger] spec_dispatch_rel(resolved, q.c, 20) && spec_hw_rel(q.c, post, 20),
        !(resolved.ime && spec_pending(resolved.mmap) != 0) ==> post == resolved && result
            == cycles as u32,
    ensures
        spec_step_rel(pre, post, Some(result)),
{
    reveal(spec_step_rel);
    let opcode = pre.mmap.spec_read(pre.pc);
    let m = choose|m: CpuWitness|
        #[trigger] spec_execute_split(decoded, m.c, executed, i.kind, cycles);
    let d = CpuWitness { c: decoded };
    let e = CpuWitness { c: m.c };
    let g = CpuWitness { c: executed };
    assert(spec_execute_split(d.c, e.c, g.c, i.kind, cycles));
    assert(spec_decode_rel(pre, d.c, Some(i)));
    lemma_step_tail(resolved, post, cycles, result);
    assert(spec_step_tail(spec_resolve_ei(opcode, g.c), post, cycles, Some(result)));
    assert(spec_step_fetched(pre, post, Some(result)));
}

/// The HALT bug is one-shot: a fetch made while it is armed does not
/// advance PC (the same byte will be fetched again) and disarms it, for
/// whatever the next opcode is.
pub proof fn lemma_halt_bug_one_shot(pre: Cpu, post: Cpu, i: Instruction)
    requires
        pre.halt_bug,
        spec_decode_rel(pre, post, Some(i)),
    ensures
        post.pc == pre.pc,
        !post.halt_bug,
{
    reveal(spec_decode_rel);
}

/// After PUSH writes a value to a stack held in plain RAM, the two bytes
/// a POP from the new stack pointer reads pair back into that value: the
/// push/pop round trip is exact.  (Pushing AF keeps this exact as well,
/// because F's byte never carries a low nibble to lose.)
pub proof fn lemma_push_pop_roundtrip(pre: Cpu, mid: Cpu, value: u16)
    requires
        pre.wf(),
        spec_plain_ram(vstd::wrapping::u16_specs::wrapping_sub(pre.sp, 1)),
        spec_plain_ram(vstd::wrapping::u16_specs::wrapping_sub(pre.sp, 2)),
        mid.sp == vstd::wrapping::u16_specs::wrapping_sub(pre.sp, 2),
        mid.mmap == (crate::memory::MemoryMap { contents: mid.mmap.contents, ..pre.mmap }),
        mid.mmap.contents@ == pre.mmap.contents@.update(
            vstd::wrapping::u16_specs::wrapping_sub(pre.sp, 1) as int,
            spec_hi(value),
        ).update(vstd::wrapping::u16_specs::wrapping_sub(pre.sp, 2) as int, spec_lo(value)),
    ensures
        spec_pair(
            mid.mmap.spec_read(vstd::wrapping::u16_specs::wrapping_add(mid.sp, 1)),
            mid.mmap.spec_read(mid.sp),
        ) == value,
        vstd::wrapping::u16_specs::wrapping_add(mid.sp, 2) == pre.sp,
{
    let hi_addr = vstd::wrapping::u16_specs::wrapping_sub(pre.sp, 1);
    let lo_addr = vstd::wrapping::u16_specs::wrapping_sub(pre.sp, 2);
    assert(vstd::wrapping::u16_specs::wrapping_add(mid.sp, 1) == hi_addr);
    assert(mid.mmap.spec_read(hi_addr) == spec_hi(value));
    assert(mid.mmap.spec_read(lo_addr) == spec_lo(value));
    crate::registers::lemma_pair_split(value);
}

} // verus!

