//! An interpreter for the classic 16-bit-opcode virtual machine with a
//! 4 KiB memory, a 64x32 monochrome display, sixteen 8-bit registers,
//! a 16-entry call stack and two 60 Hz countdown timers.

pub mod memory;
pub mod screen;
pub mod keypad;
pub mod opcode;
pub mod cpu_model;
pub mod cpu;
pub mod laws;
