//! The banking register, the DMA/video flag register, and the framebuffer
//! storage they select between.

use vstd::prelude::*;

verus! {

/// The banking register: selects the mapped RAM bank, the CPU-visible
/// framebuffer, and the VRAM page.  Every bank-select field is masked to its
/// valid bit width, so no out-of-range bank is representable.
pub struct BankingRegister(pub u8);

impl BankingRegister {
    /// The 3-bit VRAM page field (bits 2 to 0).
    pub open spec fn spec_vram_page(self) -> u8 {
        self.0 % 8
    }

    /// The 1-bit CPU-visible framebuffer select (bit 3).
    pub open spec fn spec_framebuffer(self) -> u8 {
        (self.0 / 8) % 2
    }

    /// The 2-bit RAM bank field (bits 7 and 6).
    pub open spec fn spec_ram_bank(self) -> u8 {
        self.0 / 64
    }

    /// Which of the eight 64 KB VRAM pages the graphics window exposes.
    pub fn vram_page(&self) -> (r: u8)
        ensures
            r == self.spec_vram_page(),
            r < 8,
    {
        self.0 % 8
    }

    /// Which of the two framebuffers the CPU sees through the graphics
    /// window.
    pub fn framebuffer(&self) -> (r: u8)
        ensures
            r == self.spec_framebuffer(),
            r < 2,
    {
        (self.0 / 8) % 2
    }

    /// Which of the four 8 KB system-RAM banks is mapped.
    pub fn ram_bank(&self) -> (r: u8)
        ensures
            r == self.spec_ram_bank(),
            r < 4,
    {
        self.0 / 64
    }
}

/// The DMA/video flag register.
pub struct BlitterFlags(pub u8);

impl BlitterFlags {
    /// DMA enable (bit 0): while set, the graphics window exposes the
    /// blitter's own register file.
    pub open spec fn spec_dma_enable(self) -> bool {
        self.0 % 2 == 1
    }

    /// Scan-out page select (bit 1): which framebuffer the video output
    /// reads.
    pub open spec fn spec_dma_page_out(self) -> u8 {
        (self.0 / 2) % 2
    }

    /// Vertical-blank NMI enable (bit 2).
    pub open spec fn spec_dma_nmi(self) -> bool {
        (self.0 / 4) % 2 == 1
    }

    /// CPU-to-VRAM mode (bit 5): with DMA disabled, the graphics window
    /// exposes VRAM instead of a framebuffer.
    pub open spec fn spec_dma_cpu_to_vram(self) -> bool {
        (self.0 / 32) % 2 == 1
    }

    /// DMA enable bit.
    pub fn dma_enable(&self) -> (r: bool)
        ensures
            r == self.spec_dma_enable(),
    {
        self.0 % 2 == 1
    }

    /// Scan-out page select bit.
    pub fn dma_page_out(&self) -> (r: u8)
        ensures
            r == self.spec_dma_page_out(),
            r < 2,
    {
        (self.0 / 2) % 2
    }

    /// Vertical-blank NMI enable bit.
    pub fn dma_nmi(&self) -> (r: bool)
        ensures
            r == self.spec_dma_nmi(),
    {
        (self.0 / 4) % 2 == 1
    }

    /// CPU-to-VRAM mode bit.
    pub fn dma_cpu_to_vram(&self) -> (r: bool)
        ensures
            r == self.spec_dma_cpu_to_vram(),
    {
        (self.0 / 32) % 2 == 1
    }
}

/// The three mappings the 16 KB graphics window can expose.
#[derive(Debug, Clone, Copy, PartialEq, Eq, Structural)]
pub enum GraphicsMemoryMap {
    FrameBuffer,
    VRAM,
    BlitterRegisters,
}

/// One 128 by 128 framebuffer, stored as index-addressed bytes.
pub type FrameBuffer = Vec<u8>;

/// A vector of length `n` holding `value` everywhere.
pub fn filled<T: Copy>(value: T, n: usize) -> (v: Vec<T>)
    ensures
        v@.len() == n,
        forall|i: int| 0 <= i < n ==> v@[i] == value,
{
    let mut v: Vec<T> = Vec::new();
    let mut i: usize = 0;
    while i < n
        invariant
            i <= n,
            v@.len() == i,
            forall|j: int| 0 <= j < i ==> v@[j] == value,
        decreases n - i,
    {
        v.push(value);
        i += 1;
    }
    v
}

/// A fresh framebuffer holding `fill` in every cell.
pub fn new_framebuffer(fill: u8) -> (fb: FrameBuffer)
    ensures
        fb@.len() == 0x4000,
        forall|i: int| 0 <= i < 0x4000 ==> fb@[i] == fill,
{
    filled(fill, 0x4000)
}

} // verus!
