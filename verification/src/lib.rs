//! Cycle-accurate instruction-addressing and bus-dispatch core of a
//! 6502-family game-console emulator.
//!
//! The crate models the seam between a W65C02S-style processor and the
//! console's memory map: addressing-mode operand fetches with exact hardware
//! cycle counts (including page-boundary penalty cycles), the system bus with
//! its banked RAM, audio-RAM, VRAM/framebuffer/blitter windows, and the
//! pluggable cartridge backing store.

pub mod cartridges;
pub mod gametank_bus;
pub mod inputs;
pub mod w65c02s;
