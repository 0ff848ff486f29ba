//! The system bus: the concrete memory map shared by the processor, the
//! blitter and the audio processor, together with its register files.

pub mod acp_bus;
pub mod cpu_bus;
pub mod reg_blitter;
pub mod reg_etc;
pub mod reg_system_control;

pub use acp_bus::AcpBus;
pub use cpu_bus::{ByteDecorator, CpuBus};
pub use reg_blitter::{BlitStart, BlitterRegisters};
pub use reg_etc::{new_framebuffer, BankingRegister, BlitterFlags, FrameBuffer, GraphicsMemoryMap};
pub use reg_system_control::SystemControl;
