//! W65C02S-style processor state and the bus capability seam.
//!
//! The processor state carries the registers, the monotonic cycle counter
//! accumulated by each instruction dispatch, and the edge-latched
//! interrupt-pending flag.  The [`System`] trait is the sole interface through
//! which the addressing-mode engine and the processor reach any memory-mapped
//! device.

pub mod addressing_modes;

use vstd::prelude::*;

verus! {

/// Register and cycle state of the emulated W65C02S processor.
///
/// The cycle counter is advanced by the addressing-mode engine by the exact
/// hardware cycle count of each operand fetch; the caller consumes and resets
/// it between instruction dispatches.
pub struct W65C02S {
    /// Program counter.
    pub pc: u16,
    /// Accumulator.
    pub a: u8,
    /// X index register.
    pub x: u8,
    /// Y index register.
    pub y: u8,
    /// Cycles accumulated since the caller last reset the counter.
    pub cycles: u64,
    /// Level of the interrupt request line, driven by the surrounding system.
    pub irq: bool,
    /// Edge-latched interrupt-pending flag, sampled from the line.
    pub irq_pending: bool,
}

impl W65C02S {
    /// Power-on state: all registers clear, no interrupt pending.
    pub fn new() -> (cpu: W65C02S)
        ensures
            cpu.pc == 0,
            cpu.a == 0,
            cpu.x == 0,
            cpu.y == 0,
            cpu.cycles == 0,
            !cpu.irq,
            !cpu.irq_pending,
    {
        W65C02S { pc: 0, a: 0, x: 0, y: 0, cycles: 0, irq: false, irq_pending: false }
    }

    /// Current program counter.
    pub fn get_pc(&self) -> (pc: u16)
        ensures
            pc == self.pc,
    {
        self.pc
    }

    /// Set the program counter.
    pub fn set_pc(&mut self, pc: u16)
        ensures
            *final(self) == (W65C02S { pc, ..*old(self) }),
    {
        self.pc = pc;
    }

    /// Return the current program counter and advance it by one, wrapping
    /// modulo 65536.  Every operand fetch consumes instruction bytes through
    /// this call.
    pub fn read_pc_postincrement(&mut self) -> (pc: u16)
        ensures
            pc == old(self).pc,
            *final(self) == (W65C02S { pc: old(self).pc.wrapping_add(1), ..*old(self) }),
    {
        let pc = self.pc;
        self.pc = self.pc.wrapping_add(1);
        pc
    }

    /// Accumulator value.
    pub fn get_a(&self) -> (a: u8)
        ensures
            a == self.a,
    {
        self.a
    }

    /// Set the accumulator.
    pub fn set_a(&mut self, a: u8)
        ensures
            *final(self) == (W65C02S { a, ..*old(self) }),
    {
        self.a = a;
    }

    /// X index register value.
    pub fn get_x(&self) -> (x: u8)
        ensures
            x == self.x,
    {
        self.x
    }

    /// Set the X index register.
    pub fn set_x(&mut self, x: u8)
        ensures
            *final(self) == (W65C02S { x, ..*old(self) }),
    {
        self.x = x;
    }

    /// Y index register value.
    pub fn get_y(&self) -> (y: u8)
        ensures
            y == self.y,
    {
        self.y
    }

    /// Set the Y index register.
    pub fn set_y(&mut self, y: u8)
        ensures
            *final(self) == (W65C02S { y, ..*old(self) }),
    {
        self.y = y;
    }

    /// Drive the interrupt request line from the surrounding system.
    pub fn set_irq(&mut self, irq: bool)
        ensures
            *final(self) == (W65C02S { irq, ..*old(self) }),
    {
        self.irq = irq;
    }

    /// Sample the interrupt line into the pending latch.
    pub fn check_irq_edge(&mut self)
        ensures
            *final(self) == (W65C02S { irq_pending: old(self).irq, ..*old(self) }),
    {
        self.irq_pending = self.irq;
    }
}

/// The bus capability interface: the seam every memory-mapped device
/// implements.
///
/// Reads are pure: a device returns the byte that its abstract memory map
/// [`System::mem_at`] holds and changes nothing, so reading any mapped address
/// twice with no intervening write returns the same byte both times.  The four
/// read flavours (data, locked, operand-fetch, pointer-table) are kept
/// distinct because they are distinct bus traffic classes on real hardware,
/// but all return the mapped byte.
///
/// A write replaces the abstract memory map by the device-specific result
/// described by [`System::mem_after_write`].
pub trait System: Sized {
    /// Well-formedness of the device state.
    spec fn inv(&self) -> bool;

    /// The byte currently mapped at `addr`; total over the 16-bit space.
    spec fn mem_at(&self, addr: u16) -> u8;

    /// The byte mapped at `at` after `data` is written to `addr`.
    spec fn mem_after_write(&self, addr: u16, data: u8, at: u16) -> u8;

    /// Ordinary data read.
    fn read(&self, addr: u16) -> (r: u8)
        requires
            self.inv(),
        ensures
            r == self.mem_at(addr),
    ;

    /// Ordinary data write.
    fn write(&mut self, addr: u16, data: u8)
        requires
            old(self).inv(),
        ensures
            final(self).inv(),
            forall|at: u16|
                final(self).mem_at(at) == old(self).mem_after_write(addr, data, at),
    ;

    /// First, locked read of a read-modify-write bus sequence.
    fn read_locked(&self, addr: u16) -> (r: u8)
        requires
            self.inv(),
        ensures
            r == self.mem_at(addr),
    ;

    /// Locked write of a read-modify-write bus sequence.
    fn write_locked(&mut self, addr: u16, data: u8)
        requires
            old(self).inv(),
        ensures
            final(self).inv(),
            forall|at: u16|
                final(self).mem_at(at) == old(self).mem_after_write(addr, data, at),
    ;

    /// Operand-fetch read: instruction-stream traffic.
    fn read_operand(&self, addr: u16) -> (r: u8)
        requires
            self.inv(),
        ensures
            r == self.mem_at(addr),
    ;

    /// Pointer-table read: indirect-address fetches.
    fn read_pointer(&self, addr: u16) -> (r: u8)
        requires
            self.inv(),
        ensures
            r == self.mem_at(addr),
    ;
}

} // verus!
