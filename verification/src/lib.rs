//! Instruction-stepped simulator for the original 8-bit handheld console:
//! CPU decode/execute engine, memory map, picture processor, timer, joypad,
//! and cartridge bank controllers, advanced in lockstep by a step loop.

pub mod instruction_timing;
pub mod cart;
pub mod cpu;
pub mod debugger;
pub mod execution;
pub mod instructions;
pub mod joypad;
pub mod memory;
pub mod ppu;
pub mod registers;
pub mod timer;
