//! Core of a cycle-accurate hardware emulation framework.
//!
//! The crate provides the verified heart of the emulator: exact fixed-point
//! virtual time, an event queue with a preemption signal, the cooperative
//! scheduler that hands quanta of virtual time to components, a paged
//! memory-mapping table with a per-caller locality cache, the MOS 6502 /
//! 65C02 micro-operation cycle engine with its interrupt lines, and the
//! CHIP-8 audio timer that paces samples into a ring buffer.

#![verifier::loop_isolation(false)]

pub mod chip8_audio;
pub mod cpu;
pub mod cycle;
pub mod decoder;
pub mod event;
pub mod instruction;
pub mod interrupt;
pub mod machine;
pub mod memory;
pub mod scheduler;
pub mod time;
