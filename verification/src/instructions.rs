//! Instruction records and the decoder: a pure function from an opcode byte
//! and its immediates to a tagged instruction, with a second table for the
//! CB-prefixed opcodes and a size table giving each encoding's length.

pub mod load;
pub mod arithmetic;
pub mod increment;
pub mod bit_operations;
pub mod control_flow;
pub mod cpu_control;
pub mod logical;
pub mod memory;
pub mod stack;

pub use load::{decode_load_instruction, get_load_instruction_size};
pub use arithmetic::{decode_arithmetic_instruction, get_arithmetic_instruction_size};
pub use increment::{decode_increment_instruction, get_increment_instruction_size};
pub use bit_operations::decode_bit_instruction;
pub use control_flow::{decode_control_flow_instruction, get_control_flow_instruction_size};
pub use cpu_control::{decode_cpu_control_instruction, get_cpu_control_instruction_size};
pub use logical::{decode_logical_instruction, get_logical_instruction_size};
pub use memory::{decode_memory_instruction, get_memory_instruction_size};
pub use stack::{decode_stack_instruction, get_stack_instruction_size};

use vstd::prelude::*;

verus! {

/// An operand of a decoded instruction: an 8- or 16-bit immediate, a
/// register pair, or an 8-bit register.
#[derive(Clone, Copy, PartialEq, Eq, Structural, Debug)]
pub enum ArgKind {
    Immediate(u8),
    Immediate16(u16),
    SP,
    BC,
    DE,
    HL,
    AF,
    A,
    B,
    C,
    D,
    E,
    H,
    L,
}

/// The closed set of instruction tags the executor understands.
#[derive(Clone, Copy, PartialEq, Eq, Structural, Debug)]
#[allow(non_camel_case_types)]
pub enum InstructionKind {
    LD(ArgKind, ArgKind),
    NOP,
    ADD(ArgKind, ArgKind),
    ADC(ArgKind, ArgKind),
    SUB(ArgKind, ArgKind),
    SBC(ArgKind, ArgKind),
    INC(ArgKind),
    DEC(ArgKind),
    INC_MEM(ArgKind),
    DEC_MEM(ArgKind),
    INC16(ArgKind),
    DEC16(ArgKind),
    BIT(u8, ArgKind),
    RES(u8, ArgKind),
    SET(u8, ArgKind),
    JP(JumpCondition, u16),
    JP_HL,
    JR(JumpCondition, i8),
    CALL(u16),
    CALL_COND(JumpCondition, u16),
    RET,
    RET_COND(JumpCondition),
    RETI,
    RST(u8),
    HALT,
    STOP,
    XOR(ArgKind, ArgKind),
    AND(ArgKind, ArgKind),
    OR(ArgKind, ArgKind),
    CP(ArgKind, ArgKind),
    CP_MEM(ArgKind, ArgKind),
    LD_MEM(ArgKind, ArgKind),
    LD_MEM_INC(ArgKind, ArgKind),
    LD_MEM_DEC(ArgKind, ArgKind),
    LD_FROM_MEM(ArgKind, ArgKind),
    LD_FROM_MEM_INC(ArgKind, ArgKind),
    LD_FROM_MEM_DEC(ArgKind, ArgKind),
    LD_MEM_16(ArgKind, ArgKind),
    LD_FROM_MEM_16(ArgKind, ArgKind),
    LDH_TO_C(ArgKind),
    LDH_FROM_C(ArgKind),
    LDH_TO_N(ArgKind, u8),
    LDH_FROM_N(ArgKind, u8),
    LDHL_SP_R8(i8),
    LD_SP_TO_MEM(u16),
    ADD_SP_R8(i8),
    CPL,
    SCF,
    CCF,
    EI,
    DI,
    DAA,
    PUSH(ArgKind),
    POP(ArgKind),
    RL(ArgKind),
    RR(ArgKind),
    RLA,
    RRA,
    RLCA,
    RRCA,
    RLC(ArgKind),
    RRC(ArgKind),
    SLA(ArgKind),
    SRA(ArgKind),
    SRL(ArgKind),
    SWAP(ArgKind),
}

/// The condition of a conditional jump, call or return.
#[derive(Clone, Copy, PartialEq, Eq, Structural, Debug)]
pub enum JumpCondition {
    Always,
    Zero,
    NotZero,
    Carry,
    NotCarry,
}

/// A decoded instruction together with the opcode byte it came from.
#[derive(Clone, Copy, PartialEq, Eq, Structural, Debug)]
pub struct Instruction {
    pub kind: InstructionKind,
    pub instr: u8,
    pub arg1: Option<ArgKind>,
    pub arg2: Option<ArgKind>,
}

impl core::default::Default for Instruction {
    /// A placeholder record: a NOP decoded from opcode byte zero.
    fn default() -> (r: Instruction)
        ensures
            r == (Instruction {
                kind: InstructionKind::NOP,
                instr: 0u8,
                arg1: None::<ArgKind>,
                arg2: None::<ArgKind>,
            }),
    {
        Instruction { kind: InstructionKind::NOP, instr: 0, arg1: None, arg2: None }
    }
}

/// The 8-bit immediate an encoding carries, or zero where it carries none.
pub open spec fn or_zero8(v: Option<u8>) -> u8 {
    match v {
        Some(x) => x,
        None => 0,
    }
}

/// The 16-bit immediate an encoding carries, or zero where it carries none.
pub open spec fn or_zero16(v: Option<u16>) -> u16 {
    match v {
        Some(x) => x,
        None => 0,
    }
}

/// The decode table for the eleven single-byte opcodes that belong to no
/// instruction family, keyed after all family tables have been tried.
pub open spec fn spec_decode_misc(opcode: u8, immediate16: Option<u16>) -> Option<
    InstructionKind,
> {
    let imm16 = or_zero16(immediate16);
    match opcode {
        0x00 => Some(InstructionKind::NOP),
        0x07 => Some(InstructionKind::RLCA),
        0x08 => Some(InstructionKind::LD_SP_TO_MEM(imm16)),
        0x0F => Some(InstructionKind::RRCA),
        0x17 => Some(InstructionKind::RLA),
        0x1F => Some(InstructionKind::RRA),
        0x27 => Some(InstructionKind::DAA),
        0xD9 => Some(InstructionKind::RETI),
        _ => None,
    }
}

/// The full decode table for unprefixed opcodes: each family's table tried
/// in order, then the leftover single-byte opcodes.  `None` means the byte
/// is not a defined opcode.
pub open spec fn spec_decode(opcode: u8, immediate: Option<u8>, immediate16: Option<u16>) -> Option<
    InstructionKind,
> {
    if load::spec_decode_load(opcode, immediate, immediate16) is Some {
        load::spec_decode_load(opcode, immediate, immediate16)
    } else if arithmetic::spec_decode_arithmetic(opcode, immediate) is Some {
        arithmetic::spec_decode_arithmetic(opcode, immediate)
    } else if increment::spec_decode_increment(opcode) is Some {
        increment::spec_decode_increment(opcode)
    } else if logical::spec_decode_logical(opcode, immediate) is Some {
        logical::spec_decode_logical(opcode, immediate)
    } else if memory::spec_decode_memory(opcode, immediate) is Some {
        memory::spec_decode_memory(opcode, immediate)
    } else if control_flow::spec_decode_control_flow(opcode, immediate, immediate16) is Some {
        control_flow::spec_decode_control_flow(opcode, immediate, immediate16)
    } else if stack::spec_decode_stack(opcode) is Some {
        stack::spec_decode_stack(opcode)
    } else if cpu_control::spec_decode_cpu_control(opcode) is Some {
        cpu_control::spec_decode_cpu_control(opcode)
    } else {
        spec_decode_misc(opcode, immediate16)
    }
}

/// Encoded length in bytes of each unprefixed opcode; `None` for a byte
/// that is not a defined opcode.  CB-prefixed encodings are always 2 bytes
/// and have their own table.
pub open spec fn spec_instruction_size(opcode: u8) -> Option<u16> {
    match opcode {
        0x01 | 0x11 | 0x21 | 0x31 => Some(3u16),
        0x08 => Some(3u16),
        0xC3 | 0xC2 | 0xCA | 0xD2 | 0xDA => Some(3u16),
        0xCD | 0xC4 | 0xCC | 0xD4 | 0xDC => Some(3u16),
        0xEA | 0xFA => Some(3u16),
        0x06 | 0x0E | 0x16 | 0x1E | 0x26 | 0x2E | 0x3E => Some(2u16),
        0x36 => Some(2u16),
        0xC6 | 0xCE | 0xD6 | 0xDE => Some(2u16),
        0xE6 | 0xEE | 0xF6 | 0xFE => Some(2u16),
        0x18 | 0x20 | 0x28 | 0x30 | 0x38 => Some(2u16),
        0xE0 | 0xF0 => Some(2u16),
        0xF8 | 0xE8 => Some(2u16),
        0x10 => Some(2u16),
        0xCB => Some(2u16),
        0xD3 | 0xDB | 0xDD | 0xE3 | 0xE4 | 0xEB | 0xEC | 0xED | 0xF4 | 0xFC | 0xFD => None,
        _ => Some(1u16),
    }
}

/// A byte is a defined unprefixed opcode exactly when the decode table
/// (or the CB prefix) accepts it.
pub open spec fn spec_opcode_defined(opcode: u8) -> bool {
    spec_instruction_size(opcode) is Some
}

/// Decodes an unprefixed opcode with its immediates; returns `None` for
/// a byte that is not a defined opcode.
pub fn decode_instruction(opcode: u8, immediate: Option<u8>, immediate16: Option<u16>) -> (r:
    Option<InstructionKind>)
    ensures
        r == spec_decode(opcode, immediate, immediate16),
{
    if let Some(load_instr) = decode_load_instruction(opcode, immediate, immediate16) {
        return Some(load_instr);
    }
    if let Some(arith_instr) = decode_arithmetic_instruction(opcode, immediate) {
        return Some(arith_instr);
    }
    if let Some(inc_instr) = decode_increment_instruction(opcode) {
        return Some(inc_instr);
    }
    if let Some(logical_instr) = decode_logical_instruction(opcode, immediate) {
        return Some(logical_instr);
    }
    if let Some(memory_instr) = decode_memory_instruction(opcode, immediate) {
        return Some(memory_instr);
    }
    if let Some(cf_instr) = decode_control_flow_instruction(opcode, immediate, immediate16) {
        return Some(cf_instr);
    }
    if let Some(stack_instr) = decode_stack_instruction(opcode) {
        return Some(stack_instr);
    }
    if let Some(cpu_instr) = decode_cpu_control_instruction(opcode) {
        return Some(cpu_instr);
    }
    let imm16 = match immediate16 {
        Some(x) => x,
        None => 0,
    };
    match opcode {
        0x00 => Some(InstructionKind::NOP),
        0x07 => Some(InstructionKind::RLCA),
        0x08 => Some(InstructionKind::LD_SP_TO_MEM(imm16)),
        0x0F => Some(InstructionKind::RRCA),
        0x17 => Some(InstructionKind::RLA),
        0x1F => Some(InstructionKind::RRA),
        0x27 => Some(InstructionKind::DAA),
        0xD9 => Some(InstructionKind::RETI),
        _ => None,
    }
}

/// Encoded length of an unprefixed opcode; `None` for an undefined byte.
pub fn get_instruction_size(opcode: u8) -> (r: Option<u16>)
    ensures
        r == spec_instruction_size(opcode),
{
    match opcode {
        0x01 | 0x11 | 0x21 | 0x31 => Some(3u16),
        0x08 => Some(3u16),
        0xC3 | 0xC2 | 0xCA | 0xD2 | 0xDA => Some(3u16),
        0xCD | 0xC4 | 0xCC | 0xD4 | 0xDC => Some(3u16),
        0xEA | 0xFA => Some(3u16),
        0x06 | 0x0E | 0x16 | 0x1E | 0x26 | 0x2E | 0x3E => Some(2u16),
        0x36 => Some(2u16),
        0xC6 | 0xCE | 0xD6 | 0xDE => Some(2u16),
        0xE6 | 0xEE | 0xF6 | 0xFE => Some(2u16),
        0x18 | 0x20 | 0x28 | 0x30 | 0x38 => Some(2u16),
        0xE0 | 0xF0 => Some(2u16),
        0xF8 | 0xE8 => Some(2u16),
        0x10 => Some(2u16),
        0xCB => Some(2u16),
        0xD3 | 0xDB | 0xDD | 0xE3 | 0xE4 | 0xEB | 0xEC | 0xED | 0xF4 | 0xFC | 0xFD => None,
        _ => Some(1u16),
    }
}

/// Decodes the byte after a CB prefix.  Every one of the 256 values is a
/// defined CB opcode.
pub fn decode_cb_instruction(cb_opcode: u8) -> (r: InstructionKind)
    ensures
        r == bit_operations::spec_decode_cb(cb_opcode),
{
    let decoded = decode_bit_instruction(0xCB00u16 + cb_opcode as u16);
    match decoded {
        Some(kind) => kind,
        None => InstructionKind::NOP,
    }
}

/// Every CB-prefixed encoding is 2 bytes: the prefix and the operation byte.
pub fn get_cb_instruction_size() -> (r: u16)
    ensures
        r == 2,
{
    2
}

} // verus!
