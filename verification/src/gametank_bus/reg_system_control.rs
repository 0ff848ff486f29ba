//! The system-control register file at 0x2000 to 0x2009 and the 16-byte
//! I/O-adapter register window at 0x2800 to 0x280F.

use vstd::prelude::*;

use crate::gametank_bus::reg_etc::{BankingRegister, BlitterFlags, GraphicsMemoryMap};
use crate::inputs::GamePad;

verus! {

/// Offset of the I/O-adapter output register within its 16-byte window.
/// Writes to this register clock the cartridge bank-select shift register.
pub const VIA_IORA: u16 = 1;

/// Serial clock line (bit 0 of the output register): a rising edge shifts
/// one bit into the cartridge bank shifter.
pub const VIA_SPI_BIT_CLK: u8 = 0x01;

/// Serial data line (bit 1): the level shifted in on a clock edge.
pub const VIA_SPI_BIT_MOSI: u8 = 0x02;

/// Chip-select line (bit 2): a rising edge latches the shifter into the
/// cartridge bank mask.
pub const VIA_SPI_BIT_CS: u8 = 0x04;

/// The system-control register file: audio-processor reset/NMI lines, the
/// banking register, the DMA/video flags, the I/O-adapter registers, and the
/// two controller latches.
pub struct SystemControl {
    pub reset_acp: u8,
    pub nmi_acp: u8,
    pub banking_register: BankingRegister,
    pub via_regs: Vec<u8>,
    pub audio_enable_sample_rate: u8,
    pub dma_flags: BlitterFlags,
    pub gamepads: [GamePad; 2],
}

/// The byte a controller status read reports: the select latch picks which
/// half of the button set appears.  Buttons read as set bits.
pub open spec fn spec_gamepad_byte(p: GamePad) -> u8 {
    if p.port_select {
        ((if p.up {
            1int
        } else {
            0
        }) + (if p.down {
            2int
        } else {
            0
        }) + (if p.left {
            4int
        } else {
            0
        }) + (if p.right {
            8int
        } else {
            0
        }) + (if p.a {
            16int
        } else {
            0
        }) + (if p.start {
            32int
        } else {
            0
        })) as u8
    } else {
        ((if p.up {
            1int
        } else {
            0
        }) + (if p.down {
            2int
        } else {
            0
        }) + (if p.left {
            4int
        } else {
            0
        }) + (if p.right {
            8int
        } else {
            0
        }) + (if p.b {
            16int
        } else {
            0
        }) + (if p.c {
            32int
        } else {
            0
        })) as u8
    }
}

/// Encode one gamepad as its status-register byte.
pub fn gamepad_byte(p: &GamePad) -> (r: u8)
    ensures
        r == spec_gamepad_byte(*p),
{
    let mut r: u8 = 0;
    if p.up {
        r += 1;
    }
    if p.down {
        r += 2;
    }
    if p.left {
        r += 4;
    }
    if p.right {
        r += 8;
    }
    if p.port_select {
        if p.a {
            r += 16;
        }
        if p.start {
            r += 32;
        }
    } else {
        if p.b {
            r += 16;
        }
        if p.c {
            r += 32;
        }
    }
    r
}

/// The graphics-window mapping selected by the DMA/video flags: DMA enabled
/// exposes the blitter register file; otherwise the CPU-to-VRAM bit chooses
/// between VRAM and a framebuffer.
pub open spec fn spec_graphics_memory_map(flags: BlitterFlags) -> GraphicsMemoryMap {
    if flags.spec_dma_enable() {
        GraphicsMemoryMap::BlitterRegisters
    } else if flags.spec_dma_cpu_to_vram() {
        GraphicsMemoryMap::VRAM
    } else {
        GraphicsMemoryMap::FrameBuffer
    }
}

impl SystemControl {
    /// Lengths of the register storage.
    pub open spec fn wf(&self) -> bool {
        self.via_regs@.len() == 16
    }

    /// The mapped system-RAM bank.
    pub fn get_ram_bank(&self) -> (r: u8)
        ensures
            r == self.banking_register.spec_ram_bank(),
            r < 4,
    {
        self.banking_register.ram_bank()
    }

    /// Which framebuffer the video output currently scans out.
    pub fn get_framebuffer_out(&self) -> (r: u8)
        ensures
            r == self.dma_flags.spec_dma_page_out(),
            r < 2,
    {
        self.dma_flags.dma_page_out()
    }

    /// The mapping the graphics window currently exposes.
    pub fn get_graphics_memory_map(&self) -> (r: GraphicsMemoryMap)
        ensures
            r == spec_graphics_memory_map(self.dma_flags),
    {
        if self.dma_flags.dma_enable() {
            GraphicsMemoryMap::BlitterRegisters
        } else if self.dma_flags.dma_cpu_to_vram() {
            GraphicsMemoryMap::VRAM
        } else {
            GraphicsMemoryMap::FrameBuffer
        }
    }
}

} // verus!
