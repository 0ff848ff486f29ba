//! The audio processor's bus: a flat 4 KB window onto the audio RAM it
//! shares with the main CPU, plus the sample output register.

use vstd::prelude::*;

use crate::gametank_bus::reg_etc::filled;
use crate::w65c02s::System;

verus! {

/// The audio processor's view of memory: every address mirrors the 4 KB
/// audio RAM; writes in the upper half of the address space also latch the
/// sample output register.
pub struct AcpBus {
    pub irq_counter: i32,
    pub sample: u8,
    pub aram: Vec<u8>,
}

impl AcpBus {
    /// Storage length of the audio RAM.
    pub open spec fn wf(&self) -> bool {
        self.aram@.len() == 0x1000
    }

    /// Read a byte of audio RAM; every address mirrors the 4 KB window.
    pub fn read_byte(&self, address: u16) -> (r: u8)
        requires
            self.wf(),
        ensures
            r == self.aram@[address as int % 0x1000],
    {
        self.aram[(address % 0x1000) as usize]
    }

    /// Write a byte of audio RAM; a write at or above 0x8000 also latches
    /// the sample output register.
    pub fn write_byte(&mut self, address: u16, data: u8)
        requires
            old(self).wf(),
        ensures
            final(self).wf(),
            final(self).aram@ == old(self).aram@.update(address as int % 0x1000, data),
            final(self).sample == if address >= 0x8000 {
                data
            } else {
                old(self).sample
            },
            final(self).irq_counter == old(self).irq_counter,
    {
        if address >= 0x8000 {
            self.sample = data;
        }
        self.aram[(address % 0x1000) as usize] = data;
    }
}

impl Default for AcpBus {
    /// Audio RAM cleared, no sample latched, no interrupts counted.
    fn default() -> (r: AcpBus)
        ensures
            r.wf(),
            r.irq_counter == 0,
            r.sample == 0,
            forall|i: int| 0 <= i < 0x1000 ==> r.aram@[i] == 0,
    {
        AcpBus { irq_counter: 0, sample: 0, aram: filled(0, 0x1000) }
    }
}

impl System for AcpBus {
    open spec fn inv(&self) -> bool {
        self.wf()
    }

    open spec fn mem_at(&self, addr: u16) -> u8 {
        self.aram@[addr as int % 0x1000]
    }

    open spec fn mem_after_write(&self, addr: u16, data: u8, at: u16) -> u8 {
        if at as int % 0x1000 == addr as int % 0x1000 {
            data
        } else {
            self.mem_at(at)
        }
    }

    fn read(&self, addr: u16) -> (r: u8) {
        self.read_byte(addr)
    }

    fn write(&mut self, addr: u16, data: u8)
        ensures
            final(self).sample == if addr >= 0x8000 {
                data
            } else {
                old(self).sample
            },
            final(self).irq_counter == old(self).irq_counter,
    {
        self.write_byte(addr, data)
    }

    fn read_locked(&self, addr: u16) -> (r: u8) {
        self.read_byte(addr)
    }

    fn write_locked(&mut self, addr: u16, data: u8)
        ensures
            final(self).sample == if addr >= 0x8000 {
                data
            } else {
                old(self).sample
            },
            final(self).irq_counter == old(self).irq_counter,
    {
        self.write_byte(addr, data)
    }

    fn read_operand(&self, addr: u16) -> (r: u8) {
        self.read_byte(addr)
    }

    fn read_pointer(&self, addr: u16) -> (r: u8) {
        self.read_byte(addr)
    }
}

} // verus!
