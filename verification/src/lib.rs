//! Emulator for a minimal 8-bit TTL computer: 256 bytes of RAM, an
//! accumulator, carry and zero flags, a memory-resident descending stack,
//! and a 37-instruction opcode set (0x00-0x24).
//!
//! The machine model lives in `model` as spec-level state and a `step`
//! function; `cpu` holds the executable engine, proved to refine that model
//! instruction by instruction; `dump` renders and re-parses the hexadecimal
//! memory dump; `laws` states the engine's algebraic properties.

pub mod cpu;
pub mod debug_rom;
pub mod dump;
pub mod laws;
pub mod model;

pub use cpu::CPU;
pub use model::{Fault, State};
