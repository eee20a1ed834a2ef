//! A verified instruction-stepping core for an 8-bit 6502-class
//! microprocessor: opcode dispatch, addressing-mode resolution, the status
//! flag register, the stack discipline and cycle accounting.
//!
//! The core owns a flat 64 KiB address space.  A loader populates memory and
//! establishes the reset state; a driver then calls `emulate_cycle`
//! repeatedly, inspecting registers, flags and memory between steps.

pub mod cpu;
pub mod utils;
