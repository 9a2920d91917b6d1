#![verifier::loop_isolation(false)]
//! An instruction-level virtual machine for an 8-bit microcomputer
//! instruction set and its extended superset.
//!
//! The machine state (memory, registers, stack, timers, framebuffer) lives in
//! [`cpu::CPU`]; opcodes are decoded into [`decode::Instr`] values and executed
//! one per call of [`cpu::CPU::emulate_cycle`], whose contract pins the whole
//! post-state. A driver owns pacing, rendering, input sampling and audio; it
//! feeds key snapshots and random bytes in and reads the framebuffer out.

pub mod cpu;
pub mod decode;
pub mod exec;
pub mod video;
pub mod step;
pub mod rng;
pub mod laws;
