//! The CPU-side system bus: the concrete memory map.
//!
//! Address decode is a pure function of the address, the banking register
//! and the blitter's tracked quadrant:
//!
//! * 0x0000 to 0x1FFF: system RAM, one of four 8 KB banks
//! * 0x2000 to 0x2009: system-control registers
//! * 0x2800 to 0x280F: the 16-byte I/O-adapter window; writes to the output
//!   register also clock the cartridge bank-select shift register
//! * 0x3000 to 0x3FFF: the audio-RAM window shared with the audio processor
//! * 0x4000 to 0x7FFF: one 16 KB graphics window exposing a framebuffer,
//!   VRAM, or the blitter register file
//! * 0x8000 and up: cartridge ROM, pre-offset by 0x8000
//! * anything else ignores writes and reads zero
//!
//! Reads are pure; the one write with a side effect beyond storage is the
//! I/O-adapter output register, which drives the bank-select shift register
//! from the bits that rose since the previous write.

use vstd::prelude::*;

use crate::cartridges::{spec_cart_read, Cart2MState, CartModel, CartridgeType};
use crate::gametank_bus::reg_blitter::{spec_blit_read, spec_blit_write, spec_vram_quadrant,
    BlitStart, BlitterRegisters};
use crate::gametank_bus::reg_etc::{filled, new_framebuffer, BankingRegister, BlitterFlags,
    FrameBuffer, GraphicsMemoryMap};
use crate::gametank_bus::reg_system_control::{gamepad_byte, spec_gamepad_byte,
    spec_graphics_memory_map, SystemControl, VIA_IORA};
use crate::inputs::GamePad;
use crate::w65c02s::System;

verus! {

/// A byte tagged with the memory region it was read from, for tracing.
#[derive(Copy, Clone, Debug)]
pub enum ByteDecorator {
    ZeroPage(u8),
    CpuStack(u8),
    SystemRam(u8),
    AudioRam(u8),
    Vram(u8),
    Framebuffer(u8),
    Aram(u8),
    Unreadable(u8),
}

/// Mathematical model of the whole bus: registers as plain bytes, each
/// storage bank as a flat sequence.
#[verifier::ext_equal]
pub ghost struct BusState {
    pub reset_acp: u8,
    pub nmi_acp: u8,
    pub banking: u8,
    pub audio_rate: u8,
    pub dma_flags: u8,
    pub via: Seq<u8>,
    pub pad0: GamePad,
    pub pad1: GamePad,
    pub blitter: BlitterRegisters,
    pub ram: Seq<u8>,
    pub fb0: Seq<u8>,
    pub fb1: Seq<u8>,
    pub vram: Seq<u8>,
    pub quad_written: Seq<bool>,
    pub aram: Seq<u8>,
    pub cart: CartModel,
}

/// Storage lengths of a well-formed bus model.
pub open spec fn spec_bus_wf(m: BusState) -> bool {
    &&& m.via.len() == 16
    &&& m.ram.len() == 0x8000
    &&& m.fb0.len() == 0x4000
    &&& m.fb1.len() == 0x4000
    &&& m.vram.len() == 0x80000
    &&& m.quad_written.len() == 32
    &&& m.aram.len() == 0x1000
    &&& spec_cart_model_wf(m.cart)
}

/// Storage length of a well-formed cartridge model.
pub open spec fn spec_cart_model_wf(c: CartModel) -> bool {
    match c {
        CartModel::C8(data) => data.len() == 0x2000,
        CartModel::C32(data) => data.len() == 0x8000,
        CartModel::C2m(s) => s.data.len() == 0x200000,
    }
}

/// Index into the flat RAM sequence of the byte the banking register maps at
/// a low address.
pub open spec fn spec_ram_index(banking: u8, addr: u16) -> int {
    BankingRegister(banking).spec_ram_bank() * 0x2000 + addr as int
}

/// Index into the flat VRAM sequence of the byte the graphics window maps:
/// the banking register picks the 64 KB page, the blitter's quadrant picks
/// the 128 by 128 sub-region.
pub open spec fn spec_vram_index(m: BusState, addr: u16) -> int {
    BankingRegister(m.banking).spec_vram_page() * 0x10000 + spec_vram_quadrant(m.blitter) * 0x4000
        + (addr - 0x4000)
}

/// Index of the per-(page, quadrant) dirty flag a graphics-window write
/// marks.
pub open spec fn spec_quad_flag_index(m: BusState) -> int {
    spec_vram_quadrant(m.blitter) + BankingRegister(m.banking).spec_vram_page() * 4
}

/// The byte a system-control register read returns.
pub open spec fn spec_sc_read(m: BusState, addr: u16) -> u8 {
    if addr == 0x2000 {
        m.reset_acp
    } else if addr == 0x2001 {
        m.nmi_acp
    } else if addr == 0x2005 {
        m.banking
    } else if addr == 0x2006 {
        m.audio_rate
    } else if addr == 0x2007 {
        m.dma_flags
    } else if addr == 0x2008 {
        spec_gamepad_byte(m.pad0)
    } else if addr == 0x2009 {
        spec_gamepad_byte(m.pad1)
    } else {
        0
    }
}

/// The bus after a system-control register write: plain stores, except the
/// controller latches, whose writes toggle the gamepads' select latch.
pub open spec fn spec_sc_write(m: BusState, addr: u16, data: u8) -> BusState {
    if addr == 0x2000 {
        BusState { reset_acp: data, ..m }
    } else if addr == 0x2001 {
        BusState { nmi_acp: data, ..m }
    } else if addr == 0x2005 {
        BusState { banking: data, ..m }
    } else if addr == 0x2006 {
        BusState { audio_rate: data, ..m }
    } else if addr == 0x2007 {
        BusState { dma_flags: data, ..m }
    } else if addr == 0x2008 {
        BusState { pad0: (GamePad { port_select: !m.pad0.port_select, ..m.pad0 }), ..m }
    } else if addr == 0x2009 {
        BusState { pad1: (GamePad { port_select: !m.pad1.port_select, ..m.pad1 }), ..m }
    } else {
        m
    }
}

/// The bus after the I/O-adapter output register is written: the clocked
/// shift register driving cartridge bank selection.  It is computed from
/// which lines *rose* since the previous write, not their level: a clock
/// edge shifts the previously stored data-line level into the shifter; a
/// chip-select edge latches the shifter into the bank mask.
pub open spec fn spec_flash_shift(m: BusState, next_val: u8) -> BusState {
    match m.cart {
        CartModel::C2m(s) => {
            let old_val = m.via[VIA_IORA as int];
            let clk_rose = next_val % 2 == 1 && old_val % 2 == 0;
            let cs_rose = (next_val / 4) % 2 == 1 && (old_val / 4) % 2 == 0;
            if clk_rose {
                let shifted = ((s.shifter * 2) % 256 + (old_val / 2) % 2) as u8;
                BusState {
                    cart: CartModel::C2m(
                        (Cart2MState { shifter: shifted, ..s }),
                    ),
                    ..m
                }
            } else if cs_rose {
                BusState {
                    cart: CartModel::C2m((Cart2MState { mask: s.shifter as u16, ..s })),
                    ..m
                }
            } else {
                m
            }
        },
        _ => m,
    }
}

/// The byte the bus returns at `addr`: the address decode, total over the
/// 16-bit space.
pub open spec fn spec_read_byte(m: BusState, addr: u16) -> u8 {
    if addr >= 0x8000 {
        spec_cart_read(m.cart, (addr - 0x8000) as u16)
    } else if addr < 0x2000 {
        m.ram[spec_ram_index(m.banking, addr)]
    } else if addr <= 0x2009 {
        spec_sc_read(m, addr)
    } else if 0x2800 <= addr && addr <= 0x280F {
        m.via[addr as int % 16]
    } else if 0x3000 <= addr && addr <= 0x3FFF {
        m.aram[addr as int - 0x3000]
    } else if 0x4000 <= addr && addr <= 0x7FFF {
        match spec_graphics_memory_map(BlitterFlags(m.dma_flags)) {
            GraphicsMemoryMap::FrameBuffer => if BankingRegister(m.banking).spec_framebuffer()
                == 0 {
                m.fb0[addr as int - 0x4000]
            } else {
                m.fb1[addr as int - 0x4000]
            },
            GraphicsMemoryMap::VRAM => m.vram[spec_vram_index(m, addr)],
            GraphicsMemoryMap::BlitterRegisters => spec_blit_read(m.blitter, addr),
        }
    } else {
        0
    }
}

/// The bus after `data` is written at `addr`: the address decode's write
/// half.  Writes to cartridge ROM and to unmapped addresses are ignored.
pub open spec fn spec_write_byte(m: BusState, addr: u16, data: u8) -> BusState {
    if addr < 0x2000 {
        BusState { ram: m.ram.update(spec_ram_index(m.banking, addr), data), ..m }
    } else if addr <= 0x2009 {
        spec_sc_write(m, addr, data)
    } else if 0x2800 <= addr && addr <= 0x280F {
        let m1 = if addr % 16 == VIA_IORA {
            spec_flash_shift(m, data)
        } else {
            m
        };
        BusState { via: m1.via.update(addr as int % 16, data), ..m1 }
    } else if 0x3000 <= addr && addr <= 0x3FFF {
        BusState { aram: m.aram.update(addr as int - 0x3000, data), ..m }
    } else if 0x4000 <= addr && addr <= 0x7FFF {
        match spec_graphics_memory_map(BlitterFlags(m.dma_flags)) {
            GraphicsMemoryMap::FrameBuffer => if BankingRegister(m.banking).spec_framebuffer()
                == 0 {
                BusState { fb0: m.fb0.update(addr as int - 0x4000, data), ..m }
            } else {
                BusState { fb1: m.fb1.update(addr as int - 0x4000, data), ..m }
            },
            GraphicsMemoryMap::VRAM => BusState {
                vram: m.vram.update(spec_vram_index(m, addr), data),
                quad_written: m.quad_written.update(spec_quad_flag_index(m), true),
                ..m
            },
            GraphicsMemoryMap::BlitterRegisters => BusState {
                blitter: spec_blit_write(m.blitter, addr, data),
                ..m
            },
        }
    } else {
        m
    }
}

/// The power-on state of the bus around a loaded cartridge: registers
/// cleared, DMA flags at their reset value, RAM and the scanned-out
/// framebuffer cleared, the CPU-visible framebuffer lit.
pub open spec fn spec_initial_bus(cart: CartModel) -> BusState {
    BusState {
        reset_acp: 0,
        nmi_acp: 0,
        banking: 0,
        audio_rate: 0,
        dma_flags: 0x7F,
        via: Seq::new(16, |i: int| 0u8),
        pad0: GamePad::spec_default(),
        pad1: GamePad::spec_default(),
        blitter: BlitterRegisters {
            vx: 0,
            vy: 0,
            gx: 0,
            gy: 0,
            width: 127,
            height: 127,
            start: BlitStart { write: 0, addressed: false },
            color: 0xA0,
        },
        ram: Seq::new(0x8000, |i: int| 0u8),
        fb0: Seq::new(0x4000, |i: int| 0u8),
        fb1: Seq::new(0x4000, |i: int| 0xFFu8),
        vram: Seq::new(0x80000, |i: int| 0u8),
        quad_written: Seq::new(32, |i: int| false),
        aram: Seq::new(0x1000, |i: int| 0u8),
        cart,
    }
}

/// The system bus: sole owner of the RAM banks, the two framebuffers, the
/// VRAM pages, the audio-RAM window, the register files and the cartridge.
/// Storage is index-addressed and owned by this one instance.
pub struct CpuBus {
    pub system_control: SystemControl,
    pub blitter: BlitterRegisters,
    /// Four 8 KB RAM banks, flat.
    pub ram_banks: Vec<u8>,
    /// The two double-buffered 128 by 128 framebuffers.
    pub framebuffers: Vec<FrameBuffer>,
    /// Eight 64 KB VRAM pages, flat.
    pub vram_banks: Vec<u8>,
    /// Per-(page, quadrant) dirty flags set by graphics-window writes.
    pub vram_quad_written: Vec<bool>,
    /// The 4 KB audio RAM shared with the audio processor, owned here.
    pub aram: Vec<u8>,
    pub cartridge: CartridgeType,
}

impl View for CpuBus {
    type V = BusState;

    open spec fn view(&self) -> BusState {
        BusState {
            reset_acp: self.system_control.reset_acp,
            nmi_acp: self.system_control.nmi_acp,
            banking: self.system_control.banking_register.0,
            audio_rate: self.system_control.audio_enable_sample_rate,
            dma_flags: self.system_control.dma_flags.0,
            via: self.system_control.via_regs@,
            pad0: self.system_control.gamepads[0],
            pad1: self.system_control.gamepads[1],
            blitter: self.blitter,
            ram: self.ram_banks@,
            fb0: self.framebuffers@[0]@,
            fb1: self.framebuffers@[1]@,
            vram: self.vram_banks@,
            quad_written: self.vram_quad_written@,
            aram: self.aram@,
            cart: self.cartridge@,
        }
    }
}

impl CpuBus {
    /// Well-formedness: every storage bank has its hardware size.
    pub open spec fn wf(&self) -> bool {
        &&& spec_bus_wf(self@)
        &&& self.framebuffers@.len() == 2
        &&& self.cartridge.wf()
    }

    /// A power-on bus around the given cartridge.
    pub fn new(cartridge: CartridgeType) -> (r: CpuBus)
        requires
            cartridge.wf(),
        ensures
            r.wf(),
            r@ == spec_initial_bus(cartridge@),
    {
        let mut framebuffers: Vec<FrameBuffer> = Vec::new();
        framebuffers.push(new_framebuffer(0x00));
        framebuffers.push(new_framebuffer(0xFF));
        let bus = CpuBus {
            system_control: SystemControl {
                reset_acp: 0,
                nmi_acp: 0,
                banking_register: BankingRegister(0),
                via_regs: filled(0, 16),
                audio_enable_sample_rate: 0,
                dma_flags: BlitterFlags(0b0111_1111),
                gamepads: [GamePad::default(), GamePad::default()],
            },
            blitter: BlitterRegisters {
                vx: 0,
                vy: 0,
                gx: 0,
                gy: 0,
                width: 127,
                height: 127,
                start: BlitStart { write: 0, addressed: false },
                color: 0xA0,
            },
            ram_banks: filled(0, 0x8000),
            framebuffers,
            vram_banks: filled(0, 0x80000),
            vram_quad_written: filled(false, 32),
            aram: filled(0, 0x1000),
            cartridge,
        };
        proof {
            assert(bus@.via =~= Seq::new(16, |i: int| 0u8));
            assert(bus@.ram =~= Seq::new(0x8000, |i: int| 0u8));
            assert(bus@.fb0 =~= Seq::new(0x4000, |i: int| 0u8));
            assert(bus@.fb1 =~= Seq::new(0x4000, |i: int| 0xFFu8));
            assert(bus@.vram =~= Seq::new(0x80000, |i: int| 0u8));
            assert(bus@.quad_written =~= Seq::new(32, |i: int| false));
            assert(bus@.aram =~= Seq::new(0x1000, |i: int| 0u8));
            assert(bus@ =~= spec_initial_bus(bus.cartridge@));
        }
        bus
    }

    /// Read the byte mapped at `address`.  Reads are pure: the bus does not
    /// change, so reading any mapped address twice with no intervening write
    /// returns the same byte both times.
    pub fn read_byte(&self, address: u16) -> (r: u8)
        requires
            self.wf(),
        ensures
            r == spec_read_byte(self@, address),
    {
        if address >= 0x8000 {
            return self.cartridge.read_byte(address - 0x8000);
        }
        if address < 0x2000 {
            let bank = self.system_control.get_ram_bank() as usize;
            return self.ram_banks[bank * 0x2000 + address as usize];
        }
        if address <= 0x2009 {
            return if address == 0x2000 {
                self.system_control.reset_acp
            } else if address == 0x2001 {
                self.system_control.nmi_acp
            } else if address == 0x2005 {
                self.system_control.banking_register.0
            } else if address == 0x2006 {
                self.system_control.audio_enable_sample_rate
            } else if address == 0x2007 {
                self.system_control.dma_flags.0
            } else if address == 0x2008 {
                gamepad_byte(&self.system_control.gamepads[0])
            } else if address == 0x2009 {
                gamepad_byte(&self.system_control.gamepads[1])
            } else {
                0
            };
        }
        if 0x2800 <= address && address <= 0x280F {
            return self.system_control.via_regs[(address % 16) as usize];
        }
        if 0x3000 <= address && address <= 0x3FFF {
            return self.aram[(address - 0x3000) as usize];
        }
        if 0x4000 <= address && address <= 0x7FFF {
            return match self.system_control.get_graphics_memory_map() {
                GraphicsMemoryMap::FrameBuffer => {
                    let fb = self.system_control.banking_register.framebuffer() as usize;
                    self.framebuffers[fb][(address - 0x4000) as usize]
                },
                GraphicsMemoryMap::VRAM => {
                    let page = self.system_control.banking_register.vram_page() as usize;
                    let quad = self.blitter.vram_quadrant();
                    self.vram_banks[page * 0x10000 + quad * 0x4000 + (address - 0x4000) as usize]
                },
                GraphicsMemoryMap::BlitterRegisters => self.blitter.read_byte(address),
            };
        }
        0
    }

    /// Clock the cartridge bank-select shift register from a new value of
    /// the I/O-adapter output register, before the value is stored.  Only
    /// the bank-switched cartridge reacts; the edge is computed against the
    /// previously stored register value.
    pub fn update_flash_shift_register(&mut self, next_val: u8)
        requires
            old(self).wf(),
        ensures
            final(self).wf(),
            final(self)@ == spec_flash_shift(old(self)@, next_val),
    {
        let old_val = self.system_control.via_regs[VIA_IORA as usize];
        match &mut self.cartridge {
            CartridgeType::Cart2m(c) => {
                let clk_rose = next_val % 2 == 1 && old_val % 2 == 0;
                let cs_rose = (next_val / 4) % 2 == 1 && (old_val / 4) % 2 == 0;
                if clk_rose {
                    let doubled = ((c.bank_shifter as u16 * 2) % 256) as u8;
                    c.bank_shifter = doubled + (old_val / 2) % 2;
                } else if cs_rose {
                    c.bank_mask = c.bank_shifter as u16;
                }
            },
            _ => (),
        }
        proof {
            assert(self@ =~= spec_flash_shift(old(self)@, next_val));
        }
    }

    /// Write `data` at `address` through the memory map.  Writes to
    /// cartridge ROM and to unmapped addresses are reported on real hardware
    /// and ignored; every other region stores the byte, and the I/O-adapter
    /// output register additionally drives the bank-select shift register.
    pub fn write_byte(&mut self, address: u16, data: u8)
        requires
            old(self).wf(),
        ensures
            final(self).wf(),
            final(self)@ == spec_write_byte(old(self)@, address, data),
    {
        if address < 0x2000 {
            let bank = self.system_control.get_ram_bank() as usize;
            self.ram_banks[bank * 0x2000 + address as usize] = data;
            proof {
                assert(self@ =~= spec_write_byte(old(self)@, address, data));
            }
            return;
        }
        if address <= 0x2009 {
            if address == 0x2000 {
                self.system_control.reset_acp = data;
            } else if address == 0x2001 {
                self.system_control.nmi_acp = data;
            } else if address == 0x2005 {
                self.system_control.banking_register = BankingRegister(data);
            } else if address == 0x2006 {
                self.system_control.audio_enable_sample_rate = data;
            } else if address == 0x2007 {
                self.system_control.dma_flags = BlitterFlags(data);
            } else if address == 0x2008 {
                let p = self.system_control.gamepads[0];
                let q = self.system_control.gamepads[1];
                self.system_control.gamepads = [
                    GamePad { port_select: !p.port_select, ..p },
                    q,
                ];
            } else if address == 0x2009 {
                let p = self.system_control.gamepads[0];
                let q = self.system_control.gamepads[1];
                self.system_control.gamepads = [
                    p,
                    GamePad { port_select: !q.port_select, ..q },
                ];
            }
            proof {
                assert(self@ =~= spec_write_byte(old(self)@, address, data));
            }
            return;
        }
        if 0x2800 <= address && address <= 0x280F {
            let register = (address % 16) as usize;
            if register == VIA_IORA as usize {
                self.update_flash_shift_register(data);
            }
            self.system_control.via_regs[register] = data;
            proof {
                assert(self@ =~= spec_write_byte(old(self)@, address, data));
            }
            return;
        }
        if 0x3000 <= address && address <= 0x3FFF {
            self.aram[(address - 0x3000) as usize] = data;
            proof {
                assert(self@ =~= spec_write_byte(old(self)@, address, data));
            }
            return;
        }
        if 0x4000 <= address && address <= 0x7FFF {
            match self.system_control.get_graphics_memory_map() {
                GraphicsMemoryMap::FrameBuffer => {
                    let fb = self.system_control.banking_register.framebuffer() as usize;
                    self.framebuffers[fb][(address - 0x4000) as usize] = data;
                },
                GraphicsMemoryMap::VRAM => {
                    let page = self.system_control.banking_register.vram_page() as usize;
                    let quad = self.blitter.vram_quadrant();
                    self.vram_banks[page * 0x10000 + quad * 0x4000 + (address - 0x4000)
                        as usize] = data;
                    self.vram_quad_written[quad + page * 4] = true;
                },
                GraphicsMemoryMap::BlitterRegisters => {
                    self.blitter.write_byte(address, data);
                },
            }
            proof {
                assert(self@ =~= spec_write_byte(old(self)@, address, data));
            }
            return;
        }
        proof {
            assert(self@ =~= spec_write_byte(old(self)@, address, data));
        }
    }

    /// Whether the vertical-blank NMI is enabled in the DMA/video flags.
    pub fn vblank_nmi_enabled(&self) -> (r: bool)
        ensures
            r == BlitterFlags(self@.dma_flags).spec_dma_nmi(),
    {
        self.system_control.dma_flags.dma_nmi()
    }

    /// Borrow the framebuffer the video output currently scans out.
    pub fn read_full_framebuffer(&self) -> (fb: &FrameBuffer)
        requires
            self.wf(),
        ensures
            fb@ == if BlitterFlags(self@.dma_flags).spec_dma_page_out() == 0 {
                self@.fb0
            } else {
                self@.fb1
            },
    {
        let fb = self.system_control.get_framebuffer_out();
        &self.framebuffers[fb as usize]
    }
}

impl Default for CpuBus {
    /// A power-on bus around a blank 8 KB cartridge.
    fn default() -> (r: CpuBus)
        ensures
            r.wf(),
            r@ == spec_initial_bus(CartModel::C8(Seq::new(0x2000, |i: int| 0u8))),
    {
        let payload = filled(0u8, 0x2000);
        let cart = CartridgeType::from_slice(payload.as_slice());
        proof {
            assert(payload@ =~= Seq::new(0x2000, |i: int| 0u8));
        }
        CpuBus::new(cart)
    }
}

impl System for CpuBus {
    open spec fn inv(&self) -> bool {
        self.wf()
    }

    open spec fn mem_at(&self, addr: u16) -> u8 {
        spec_read_byte(self@, addr)
    }

    open spec fn mem_after_write(&self, addr: u16, data: u8, at: u16) -> u8 {
        spec_read_byte(spec_write_byte(self@, addr, data), at)
    }

    fn read(&self, addr: u16) -> (r: u8) {
        self.read_byte(addr)
    }

    fn write(&mut self, addr: u16, data: u8)
        ensures
            final(self)@ == spec_write_byte(old(self)@, addr, data),
    {
        self.write_byte(addr, data)
    }

    fn read_locked(&self, addr: u16) -> (r: u8) {
        self.read_byte(addr)
    }

    fn write_locked(&mut self, addr: u16, data: u8)
        ensures
            final(self)@ == spec_write_byte(old(self)@, addr, data),
    {
        self.write_byte(addr, data)
    }

    fn read_operand(&self, addr: u16) -> (r: u8) {
        self.read_byte(addr)
    }

    fn read_pointer(&self, addr: u16) -> (r: u8) {
        self.read_byte(addr)
    }
}

/// The regions whose stores hold a written byte: RAM, the I/O-adapter
/// registers, audio RAM, and the graphics window — all of it in framebuffer
/// or VRAM mapping, the eight registers in blitter mapping.
pub open spec fn spec_writable(m: BusState, addr: u16) -> bool {
    ||| addr < 0x2000
    ||| 0x2800 <= addr && addr <= 0x280F
    ||| 0x3000 <= addr && addr <= 0x3FFF
    ||| (0x4000 <= addr && addr <= 0x7FFF && !(spec_graphics_memory_map(
        BlitterFlags(m.dma_flags),
    ) is BlitterRegisters))
    ||| (0x4000 <= addr && addr <= 0x4007 && spec_graphics_memory_map(
        BlitterFlags(m.dma_flags),
    ) is BlitterRegisters)
}

/// Law: writing a byte and immediately reading the same address returns
/// that byte, for every writable region.  Cartridge ROM fails this by
/// design: it is read-only.
pub proof fn lemma_write_then_read(m: BusState, addr: u16, data: u8)
    requires
        spec_bus_wf(m),
        spec_writable(m, addr),
    ensures
        spec_read_byte(spec_write_byte(m, addr, data), addr) == data,
{
}

/// Law: writes at or above the cartridge window leave the bus unchanged —
/// the ROM is read-only.
pub proof fn lemma_rom_write_ignored(m: BusState, addr: u16, data: u8)
    requires
        addr >= 0x8000,
    ensures
        spec_write_byte(m, addr, data) == m,
{
}

/// Law: only a write to the I/O-adapter output register can move the
/// cartridge's bank-selection state; every other write leaves the cartridge
/// model unchanged.
pub proof fn lemma_bank_state_only_output_register(m: BusState, addr: u16, data: u8)
    requires
        !(0x2800 <= addr && addr <= 0x280F && addr % 16 == VIA_IORA),
    ensures
        spec_write_byte(m, addr, data).cart == m.cart,
{
}

/// Law: the same-value rewrite that a read-modify-write bus sequence issues
/// is invisible — rewriting the byte a location already holds changes no
/// readable byte and leaves the cartridge bank state alone.  In particular
/// the output register sees no rising bit, so the shift register does not
/// move.  (The system-control registers are excluded: they are no
/// read-modify-write target, their reads and writes address distinct
/// latches.)
pub proof fn lemma_same_value_rewrite(m: BusState, addr: u16)
    requires
        spec_bus_wf(m),
        !(0x2000 <= addr && addr <= 0x2009),
    ensures
        forall|at: u16|
            spec_read_byte(spec_write_byte(m, addr, spec_read_byte(m, addr)), at)
                == spec_read_byte(m, at),
        spec_write_byte(m, addr, spec_read_byte(m, addr)).cart == m.cart,
{
}

} // verus!
