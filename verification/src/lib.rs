//! A CHIP-8 style virtual machine: instruction decoder, CPU executor, and the
//! machine-state containers (memory, registers, call stack, frame buffer) the
//! executor mutates. Every state transition is specified and verified.

pub mod opcode;
pub mod vm;
