//! The blitter's register file, exposed through the graphics window while
//! DMA is enabled.

use vstd::prelude::*;

verus! {

/// The blit-start register: the last value written and whether it has been
/// addressed since power-on.
#[derive(Debug, Clone, Copy, PartialEq, Eq, Structural)]
pub struct BlitStart {
    pub write: u8,
    pub addressed: bool,
}

/// The blitter's register file.  The blitter tracks which quadrant of the
/// current 256 by 256 VRAM page the graphics window addresses, through the
/// high bits of its `gx`/`gy` source coordinates.
#[derive(Debug, Clone, Copy, PartialEq, Eq, Structural)]
pub struct BlitterRegisters {
    pub vx: u8,
    pub vy: u8,
    pub gx: u8,
    pub gy: u8,
    pub width: u8,
    pub height: u8,
    pub start: BlitStart,
    pub color: u8,
}

/// The VRAM quadrant the blitter currently tracks: one of the four
/// 128 by 128 sub-regions of a 256 by 256 VRAM page.
pub open spec fn spec_vram_quadrant(b: BlitterRegisters) -> int {
    (if b.gx >= 128 {
        1int
    } else {
        0
    }) + (if b.gy >= 128 {
        2int
    } else {
        0
    })
}

/// The byte the blitter register file returns at `addr`; registers read back
/// their stored value, unassigned offsets read zero.
pub open spec fn spec_blit_read(b: BlitterRegisters, addr: u16) -> u8 {
    if addr == 0x4000 {
        b.vx
    } else if addr == 0x4001 {
        b.vy
    } else if addr == 0x4002 {
        b.gx
    } else if addr == 0x4003 {
        b.gy
    } else if addr == 0x4004 {
        b.width
    } else if addr == 0x4005 {
        b.height
    } else if addr == 0x4006 {
        b.start.write
    } else if addr == 0x4007 {
        b.color
    } else {
        0
    }
}

/// The register file after `data` is written to `addr`; writes outside the
/// eight registers are ignored.
pub open spec fn spec_blit_write(b: BlitterRegisters, addr: u16, data: u8) -> BlitterRegisters {
    if addr == 0x4000 {
        BlitterRegisters { vx: data, ..b }
    } else if addr == 0x4001 {
        BlitterRegisters { vy: data, ..b }
    } else if addr == 0x4002 {
        BlitterRegisters { gx: data, ..b }
    } else if addr == 0x4003 {
        BlitterRegisters { gy: data, ..b }
    } else if addr == 0x4004 {
        BlitterRegisters { width: data, ..b }
    } else if addr == 0x4005 {
        BlitterRegisters { height: data, ..b }
    } else if addr == 0x4006 {
        BlitterRegisters { start: BlitStart { write: data, addressed: true }, ..b }
    } else if addr == 0x4007 {
        BlitterRegisters { color: data, ..b }
    } else {
        b
    }
}

impl BlitterRegisters {
    /// The VRAM quadrant this register file currently tracks.
    pub fn vram_quadrant(&self) -> (r: usize)
        ensures
            r == spec_vram_quadrant(*self),
            r < 4,
    {
        let mut quad: usize = 0;
        if self.gx >= 128 {
            quad += 1;
        }
        if self.gy >= 128 {
            quad += 2;
        }
        quad
    }

    /// Read a blitter register.
    pub fn read_byte(&self, addr: u16) -> (r: u8)
        ensures
            r == spec_blit_read(*self, addr),
    {
        match addr {
            0x4000 => self.vx,
            0x4001 => self.vy,
            0x4002 => self.gx,
            0x4003 => self.gy,
            0x4004 => self.width,
            0x4005 => self.height,
            0x4006 => self.start.write,
            0x4007 => self.color,
            _ => 0,
        }
    }

    /// Write a blitter register.
    pub fn write_byte(&mut self, addr: u16, data: u8)
        ensures
            *final(self) == spec_blit_write(*old(self), addr, data),
    {
        match addr {
            0x4000 => self.vx = data,
            0x4001 => self.vy = data,
            0x4002 => self.gx = data,
            0x4003 => self.gy = data,
            0x4004 => self.width = data,
            0x4005 => self.height = data,
            0x4006 => self.start = BlitStart { write: data, addressed: true },
            0x4007 => self.color = data,
            _ => (),
        }
    }
}

} // verus!
