//! Addressing modes.
//!
//! One operation per mode: `get_operand` fetches and processes the operand
//! bytes through the [`System`] seam, advances the cycle counter by the mode's
//! exact hardware count (including the conditional page-boundary-crossing
//! penalty for indexed modes), and yields an accessor for the addressed
//! operand.  Accessors are polymorphic over a small capability set:
//! [`Readable`], [`Writable`], [`RMWable`], [`HasEA`] and [`Branchable`]; not
//! every mode supports every capability.

use vstd::prelude::*;

use super::{System, W65C02S};

verus! {

/// The 16-bit word formed from a low and a high byte.
pub open spec fn word(lo: u8, hi: u8) -> u16 {
    (hi * 256 + lo) as u16
}

/// Whether two addresses lie on the same 256-byte page: crossing a page
/// boundary means the high address byte changes.
pub open spec fn same_page(a: u16, b: u16) -> bool {
    a / 256 == b / 256
}

/// A branch offset byte sign-extended to 16 bits.
pub open spec fn sign_extend(off: u8) -> u16 {
    if off >= 128 {
        (off + 0xFF00) as u16
    } else {
        off as u16
    }
}

/// Combine a low and a high byte into a 16-bit word.
fn make_word(lo: u8, hi: u8) -> (r: u16)
    ensures
        r == word(lo, hi),
{
    (hi as u16) * 256 + (lo as u16)
}

/// Fetch and process the operand of one instruction.  (Modes without an
/// operand burn their fixed cycle count instead.)
///
/// Every mode leaves the registers and the interrupt state alone; it consumes
/// 0 to 2 instruction bytes, may issue further pointer reads, and advances the
/// cycle counter by its hardware-defined amount, at most 7.
pub trait AddressingMode<S: System> {
    type T;

    /// Fetch and process the operand, if any.
    fn get_operand(system: &S, cpu: &mut W65C02S) -> (r: Self::T)
        requires
            system.inv(),
            old(cpu).cycles + 7 <= u64::MAX,
        ensures
            final(cpu).a == old(cpu).a,
            final(cpu).x == old(cpu).x,
            final(cpu).y == old(cpu).y,
            final(cpu).irq == old(cpu).irq,
            final(cpu).irq_pending == old(cpu).irq_pending,
            old(cpu).cycles <= final(cpu).cycles <= old(cpu).cycles + 7,
    ;
}

/// Accessors whose addressed operand can be read.
pub trait Readable<S: System>: Sized {
    /// Whether this accessor may legally be read; false only for the
    /// defensive null accessor.
    open spec fn can_read(&self) -> bool {
        true
    }

    /// Read the addressed data.  A read is pure: neither the accessor, the
    /// processor, nor the device changes.
    fn read(&mut self, system: &S, cpu: &mut W65C02S) -> (r: u8)
        requires
            old(self).can_read(),
            system.inv(),
        ensures
            *final(self) == *old(self),
            *final(cpu) == *old(cpu),
    ;
}

/// Accessors whose addressed operand can be written.
pub trait Writable<S: System>: Sized {
    /// Write the addressed data.
    fn write(&mut self, system: &mut S, cpu: &mut W65C02S, data: u8)
        requires
            old(system).inv(),
        ensures
            *final(self) == *old(self),
            final(system).inv(),
    ;
}

/// Accessors usable by read-modify-write instructions.
///
/// Real read-modify-write bus cycles perform a read, then rewrite the
/// unmodified value to the same address, then perform the final write.
/// Callers executing such instructions must issue exactly that three-phase
/// sequence through `read_locked` and `write_locked`, not the ordinary
/// read/write pair, because external devices observe the intermediate
/// rewrite.
pub trait RMWable<S: System>: Readable<S> + Writable<S> {
    /// Perform the first, locked read of a read-modify-write instruction.
    fn read_locked(&mut self, system: &S, cpu: &mut W65C02S) -> (r: u8)
        requires
            system.inv(),
        ensures
            *final(self) == *old(self),
            *final(cpu) == *old(cpu),
    ;

    /// Perform a locked write of a read-modify-write instruction: first the
    /// rewrite of the unmodified value, then the final write.
    fn write_locked(&mut self, system: &mut S, cpu: &mut W65C02S, data: u8)
        requires
            old(system).inv(),
        ensures
            *final(self) == *old(self),
            final(system).inv(),
    ;
}

/// Accessors that address memory through an explicit effective address.
pub trait HasEA {
    /// Return the effective address of this addressing mode.
    fn get_effective_address(&self) -> u16;
}

/// Accessors produced by the branch addressing modes.
pub trait Branchable<S: System>: Sized {
    /// Resolve the branch: always burn one cycle for the taken-branch
    /// decision, plus a second cycle if the target's high byte differs from
    /// the current program counter's high byte.  During that second-cycle
    /// path, interrupt-edge detection runs early and its result is OR-merged
    /// into the pending-interrupt latch.
    fn get_branch_target(&mut self, system: &S, cpu: &mut W65C02S) -> (r: u16)
        requires
            old(cpu).cycles + 2 <= u64::MAX,
        ensures
            *final(self) == *old(self),
            final(cpu).pc == old(cpu).pc,
            final(cpu).a == old(cpu).a,
            final(cpu).x == old(cpu).x,
            final(cpu).y == old(cpu).y,
            final(cpu).irq == old(cpu).irq,
    ;
}

/// An accessor holding a resolved 16-bit effective address; every capability
/// routes through the bus at that address.
pub struct SimpleEA {
    pub ea: u16,
}

impl<S: System> Readable<S> for SimpleEA {
    fn read(&mut self, system: &S, cpu: &mut W65C02S) -> (r: u8)
        ensures
            r == system.mem_at(old(self).ea),
    {
        system.read(self.ea)
    }
}

impl<S: System> Writable<S> for SimpleEA {
    fn write(&mut self, system: &mut S, cpu: &mut W65C02S, data: u8)
        ensures
            *final(cpu) == *old(cpu),
            forall|at: u16|
                final(system).mem_at(at) == old(system).mem_after_write(old(self).ea, data, at),
    {
        system.write(self.ea, data)
    }
}

impl<S: System> RMWable<S> for SimpleEA {
    fn read_locked(&mut self, system: &S, cpu: &mut W65C02S) -> (r: u8)
        ensures
            r == system.mem_at(old(self).ea),
    {
        system.read_locked(self.ea)
    }

    fn write_locked(&mut self, system: &mut S, cpu: &mut W65C02S, data: u8)
        ensures
            *final(cpu) == *old(cpu),
            forall|at: u16|
                final(system).mem_at(at) == old(system).mem_after_write(old(self).ea, data, at),
    {
        system.write_locked(self.ea, data)
    }
}

impl HasEA for SimpleEA {
    fn get_effective_address(&self) -> (r: u16)
        ensures
            r == self.ea,
    {
        self.ea
    }
}

/// Implied addressing: no operand; one cycle burned.
pub struct Implied {}

impl<S: System> AddressingMode<S> for Implied {
    type T = ();

    fn get_operand(system: &S, cpu: &mut W65C02S) -> (r: ())
        ensures
            final(cpu).pc == old(cpu).pc,
            final(cpu).cycles == old(cpu).cycles + 1,
    {
        cpu.cycles += 1;
    }
}

/// Implied addressing for single-cycle instructions: no operand, no cycle.
pub struct FastImplied {}

impl<S: System> AddressingMode<S> for FastImplied {
    type T = ();

    fn get_operand(system: &S, cpu: &mut W65C02S) -> (r: ())
        ensures
            *final(cpu) == *old(cpu),
    {
    }
}

/// The defensive null accessor: it traps instruction-dispatch programming
/// errors and may never legally be invoked.
impl<S: System> Readable<S> for () {
    open spec fn can_read(&self) -> bool {
        false
    }

    fn read(&mut self, system: &S, cpu: &mut W65C02S) -> (r: u8) {
        0
    }
}

/// Absolute addressing: a 16-bit address follows the opcode.
pub struct Absolute {}

impl<S: System> AddressingMode<S> for Absolute {
    type T = SimpleEA;

    fn get_operand(system: &S, cpu: &mut W65C02S) -> (r: SimpleEA)
        ensures
            final(cpu).pc == old(cpu).pc.wrapping_add(2),
            final(cpu).cycles == old(cpu).cycles + 4,
            r.ea == word(
                system.mem_at(old(cpu).pc),
                system.mem_at(old(cpu).pc.wrapping_add(1)),
            ),
    {
        let pc = cpu.read_pc_postincrement();
        let ea_low = system.read_operand(pc);
        let pc = cpu.read_pc_postincrement();
        let ea_high = system.read_operand(pc);
        cpu.cycles += 4;
        SimpleEA { ea: make_word(ea_low, ea_high) }
    }
}

/// Absolute-indirect addressing: the operand word addresses a pointer table
/// holding the effective address.
pub struct AbsoluteIndirect {}

impl<S: System> AddressingMode<S> for AbsoluteIndirect {
    type T = SimpleEA;

    fn get_operand(system: &S, cpu: &mut W65C02S) -> (r: SimpleEA)
        ensures
            final(cpu).pc == old(cpu).pc.wrapping_add(2),
            final(cpu).cycles == old(cpu).cycles + 7,
            ({
                let addr = word(
                    system.mem_at(old(cpu).pc),
                    system.mem_at(old(cpu).pc.wrapping_add(1)),
                );
                r.ea == word(system.mem_at(addr), system.mem_at(addr.wrapping_add(1)))
            }),
    {
        let pc = cpu.read_pc_postincrement();
        let addr_low = system.read_operand(pc);
        let pc = cpu.get_pc();
        let addr_high = system.read_operand(pc);
        let addr = make_word(addr_low, addr_high);
        let _pc = cpu.read_pc_postincrement();
        let ea_low = system.read_pointer(addr);
        let ea_high = system.read_pointer(addr.wrapping_add(1));
        cpu.cycles += 7;
        SimpleEA { ea: make_word(ea_low, ea_high) }
    }
}

/// Absolute indexed by X; one extra cycle when indexing carries into the high
/// address byte.
pub struct AbsoluteX {}

impl<S: System> AddressingMode<S> for AbsoluteX {
    type T = SimpleEA;

    fn get_operand(system: &S, cpu: &mut W65C02S) -> (r: SimpleEA)
        ensures
            final(cpu).pc == old(cpu).pc.wrapping_add(2),
            ({
                let base = word(
                    system.mem_at(old(cpu).pc),
                    system.mem_at(old(cpu).pc.wrapping_add(1)),
                );
                r.ea == base.wrapping_add(old(cpu).x as u16)
                    && final(cpu).cycles == old(cpu).cycles
                        + (if same_page(r.ea, base) { 4int } else { 5 })
            }),
    {
        let pc = cpu.read_pc_postincrement();
        let base_low = system.read_operand(pc);
        let pc = cpu.read_pc_postincrement();
        let base_high = system.read_operand(pc);
        cpu.cycles += 4;
        let base = make_word(base_low, base_high);
        let ea = base.wrapping_add(cpu.get_x() as u16);
        if ea / 256 != base / 256 {
            cpu.cycles += 1;
        }
        SimpleEA { ea }
    }
}

/// Absolute indexed by X for store and read-modify-write opcodes: the
/// indexing cycle is spent unconditionally.
pub struct AbsoluteXSlower {}

impl<S: System> AddressingMode<S> for AbsoluteXSlower {
    type T = SimpleEA;

    fn get_operand(system: &S, cpu: &mut W65C02S) -> (r: SimpleEA)
        ensures
            final(cpu).pc == old(cpu).pc.wrapping_add(2),
            final(cpu).cycles == old(cpu).cycles + 5,
            r.ea == word(
                system.mem_at(old(cpu).pc),
                system.mem_at(old(cpu).pc.wrapping_add(1)),
            ).wrapping_add(old(cpu).x as u16),
    {
        let pc = cpu.read_pc_postincrement();
        let base_low = system.read_operand(pc);
        let pc = cpu.read_pc_postincrement();
        let base_high = system.read_operand(pc);
        cpu.cycles += 5;
        let base = make_word(base_low, base_high);
        let ea = base.wrapping_add(cpu.get_x() as u16);
        SimpleEA { ea }
    }
}

/// Absolute indexed by X, indirect: the indexed operand word addresses the
/// pointer table holding the effective address.
pub struct AbsoluteXIndirect {}

impl<S: System> AddressingMode<S> for AbsoluteXIndirect {
    type T = SimpleEA;

    fn get_operand(system: &S, cpu: &mut W65C02S) -> (r: SimpleEA)
        ensures
            final(cpu).pc == old(cpu).pc.wrapping_add(2),
            final(cpu).cycles == old(cpu).cycles + 7,
            ({
                let addr = word(
                    system.mem_at(old(cpu).pc),
                    system.mem_at(old(cpu).pc.wrapping_add(1)),
                ).wrapping_add(old(cpu).x as u16);
                r.ea == word(system.mem_at(addr), system.mem_at(addr.wrapping_add(1)))
            }),
    {
        let pc = cpu.read_pc_postincrement();
        let base_low = system.read_operand(pc);
        let pc = cpu.get_pc();
        let base_high = system.read_operand(pc);
        let base = make_word(base_low, base_high);
        let addr = base.wrapping_add(cpu.get_x() as u16);
        let _pc = cpu.read_pc_postincrement();
        let ea_low = system.read_pointer(addr);
        let ea_high = system.read_pointer(addr.wrapping_add(1));
        cpu.cycles += 7;
        SimpleEA { ea: make_word(ea_low, ea_high) }
    }
}

/// Absolute indexed by Y; one extra cycle when indexing carries into the high
/// address byte.
pub struct AbsoluteY {}

impl<S: System> AddressingMode<S> for AbsoluteY {
    type T = SimpleEA;

    fn get_operand(system: &S, cpu: &mut W65C02S) -> (r: SimpleEA)
        ensures
            final(cpu).pc == old(cpu).pc.wrapping_add(2),
            ({
                let base = word(
                    system.mem_at(old(cpu).pc),
                    system.mem_at(old(cpu).pc.wrapping_add(1)),
                );
                r.ea == base.wrapping_add(old(cpu).y as u16)
                    && final(cpu).cycles == old(cpu).cycles
                        + (if same_page(r.ea, base) { 4int } else { 5 })
            }),
    {
        let pc = cpu.read_pc_postincrement();
        let base_low = system.read_operand(pc);
        let pc = cpu.read_pc_postincrement();
        let base_high = system.read_operand(pc);
        let base = make_word(base_low, base_high);
        let ea = base.wrapping_add(cpu.get_y() as u16);
        if ea / 256 != base / 256 {
            cpu.cycles += 1;
        }
        cpu.cycles += 4;
        SimpleEA { ea }
    }
}

/// Absolute indexed by Y for store opcodes: the indexing cycle is spent
/// unconditionally.
pub struct AbsoluteYSlower {}

impl<S: System> AddressingMode<S> for AbsoluteYSlower {
    type T = SimpleEA;

    fn get_operand(system: &S, cpu: &mut W65C02S) -> (r: SimpleEA)
        ensures
            final(cpu).pc == old(cpu).pc.wrapping_add(2),
            final(cpu).cycles == old(cpu).cycles + 5,
            r.ea == word(
                system.mem_at(old(cpu).pc),
                system.mem_at(old(cpu).pc.wrapping_add(1)),
            ).wrapping_add(old(cpu).y as u16),
    {
        let pc = cpu.read_pc_postincrement();
        let base_low = system.read_operand(pc);
        let pc = cpu.read_pc_postincrement();
        let base_high = system.read_operand(pc);
        let base = make_word(base_low, base_high);
        let ea = base.wrapping_add(cpu.get_y() as u16);
        cpu.cycles += 5;
        SimpleEA { ea }
    }
}

/// Implied addressing of the accumulator: the operand is the A register,
/// read and written without touching the bus.
pub struct ImpliedA {}

impl<S: System> AddressingMode<S> for ImpliedA {
    type T = ImpliedA;

    fn get_operand(system: &S, cpu: &mut W65C02S) -> (r: ImpliedA)
        ensures
            final(cpu).pc == old(cpu).pc,
            final(cpu).cycles == old(cpu).cycles + 1,
    {
        cpu.cycles += 1;
        ImpliedA {}
    }
}

impl<S: System> Readable<S> for ImpliedA {
    fn read(&mut self, system: &S, cpu: &mut W65C02S) -> (r: u8)
        ensures
            r == old(cpu).a,
    {
        cpu.get_a()
    }
}

impl<S: System> Writable<S> for ImpliedA {
    fn write(&mut self, system: &mut S, cpu: &mut W65C02S, data: u8)
        ensures
            *final(system) == *old(system),
            *final(cpu) == (W65C02S { a: data, ..*old(cpu) }),
    {
        cpu.set_a(data)
    }
}

impl<S: System> RMWable<S> for ImpliedA {
    fn read_locked(&mut self, system: &S, cpu: &mut W65C02S) -> (r: u8)
        ensures
            r == old(cpu).a,
    {
        cpu.get_a()
    }

    fn write_locked(&mut self, system: &mut S, cpu: &mut W65C02S, data: u8)
        ensures
            *final(system) == *old(system),
            *final(cpu) == (W65C02S { a: data, ..*old(cpu) }),
    {
        cpu.set_a(data)
    }
}

/// Implied addressing of the X index register.
pub struct ImpliedX {}

impl<S: System> AddressingMode<S> for ImpliedX {
    type T = ImpliedX;

    fn get_operand(system: &S, cpu: &mut W65C02S) -> (r: ImpliedX)
        ensures
            final(cpu).pc == old(cpu).pc,
            final(cpu).cycles == old(cpu).cycles + 1,
    {
        cpu.cycles += 1;
        ImpliedX {}
    }
}

impl<S: System> Readable<S> for ImpliedX {
    fn read(&mut self, system: &S, cpu: &mut W65C02S) -> (r: u8)
        ensures
            r == old(cpu).x,
    {
        cpu.get_x()
    }
}

impl<S: System> Writable<S> for ImpliedX {
    fn write(&mut self, system: &mut S, cpu: &mut W65C02S, data: u8)
        ensures
            *final(system) == *old(system),
            *final(cpu) == (W65C02S { x: data, ..*old(cpu) }),
    {
        cpu.set_x(data)
    }
}

impl<S: System> RMWable<S> for ImpliedX {
    fn read_locked(&mut self, system: &S, cpu: &mut W65C02S) -> (r: u8)
        ensures
            r == old(cpu).x,
    {
        cpu.get_x()
    }

    fn write_locked(&mut self, system: &mut S, cpu: &mut W65C02S, data: u8)
        ensures
            *final(system) == *old(system),
            *final(cpu) == (W65C02S { x: data, ..*old(cpu) }),
    {
        cpu.set_x(data)
    }
}

/// Implied addressing of the Y index register.
pub struct ImpliedY {}

impl<S: System> AddressingMode<S> for ImpliedY {
    type T = ImpliedY;

    fn get_operand(system: &S, cpu: &mut W65C02S) -> (r: ImpliedY)
        ensures
            final(cpu).pc == old(cpu).pc,
            final(cpu).cycles == old(cpu).cycles + 1,
    {
        cpu.cycles += 1;
        ImpliedY {}
    }
}

impl<S: System> Readable<S> for ImpliedY {
    fn read(&mut self, system: &S, cpu: &mut W65C02S) -> (r: u8)
        ensures
            r == old(cpu).y,
    {
        cpu.get_y()
    }
}

impl<S: System> Writable<S> for ImpliedY {
    fn write(&mut self, system: &mut S, cpu: &mut W65C02S, data: u8)
        ensures
            *final(system) == *old(system),
            *final(cpu) == (W65C02S { y: data, ..*old(cpu) }),
    {
        cpu.set_y(data)
    }
}

impl<S: System> RMWable<S> for ImpliedY {
    fn read_locked(&mut self, system: &S, cpu: &mut W65C02S) -> (r: u8)
        ensures
            r == old(cpu).y,
    {
        cpu.get_y()
    }

    fn write_locked(&mut self, system: &mut S, cpu: &mut W65C02S, data: u8)
        ensures
            *final(system) == *old(system),
            *final(cpu) == (W65C02S { y: data, ..*old(cpu) }),
    {
        cpu.set_y(data)
    }
}

/// Immediate addressing: the operand byte follows the opcode.
pub struct Immediate {
    pub value: u8,
}

impl<S: System> AddressingMode<S> for Immediate {
    type T = Immediate;

    fn get_operand(system: &S, cpu: &mut W65C02S) -> (r: Immediate)
        ensures
            final(cpu).pc == old(cpu).pc.wrapping_add(1),
            final(cpu).cycles == old(cpu).cycles + 2,
            r.value == system.mem_at(old(cpu).pc),
    {
        let pc = cpu.read_pc_postincrement();
        let value = system.read_operand(pc);
        cpu.cycles += 2;
        Immediate { value }
    }
}

impl<S: System> Readable<S> for Immediate {
    fn read(&mut self, system: &S, cpu: &mut W65C02S) -> (r: u8)
        ensures
            r == old(self).value,
    {
        self.value
    }
}

/// Relative addressing for plain branch instructions.
pub struct Relative {
    pub target: u16,
}

impl<S: System> AddressingMode<S> for Relative {
    type T = Relative;

    fn get_operand(system: &S, cpu: &mut W65C02S) -> (r: Relative)
        ensures
            final(cpu).pc == old(cpu).pc.wrapping_add(1),
            final(cpu).cycles == old(cpu).cycles + 2,
            r.target == old(cpu).pc.wrapping_add(1).wrapping_add(
                sign_extend(system.mem_at(old(cpu).pc)),
            ),
    {
        let pc = cpu.read_pc_postincrement();
        let value = system.read_operand(pc);
        let ext: u16 = if value >= 128 {
            (value as u16) + 0xFF00
        } else {
            value as u16
        };
        let target = cpu.get_pc().wrapping_add(ext);
        cpu.cycles += 2;
        Relative { target }
    }
}

impl<S: System> Branchable<S> for Relative {
    fn get_branch_target(&mut self, system: &S, cpu: &mut W65C02S) -> (r: u16)
        ensures
            r == old(self).target,
            same_page(old(cpu).pc, old(self).target) ==> final(cpu).cycles == old(
                cpu,
            ).cycles + 1 && final(cpu).irq_pending == old(cpu).irq_pending,
            !same_page(old(cpu).pc, old(self).target) ==> final(cpu).cycles == old(
                cpu,
            ).cycles + 2 && final(cpu).irq_pending == (old(cpu).irq_pending || old(cpu).irq),
    {
        cpu.cycles += 1;
        if cpu.get_pc() / 256 != self.target / 256 {
            let old_irq_pending = cpu.irq_pending;
            cpu.check_irq_edge();
            cpu.irq_pending = cpu.irq_pending || old_irq_pending;
            cpu.cycles += 1;
        }
        self.target
    }
}

/// Relative addressing with a zero-page bit test, for the bit-test-branch
/// instructions: the tested byte is read before the branch offset.
pub struct RelativeBitBranch {
    pub data: u8,
    pub target: u16,
}

impl<S: System> AddressingMode<S> for RelativeBitBranch {
    type T = RelativeBitBranch;

    fn get_operand(system: &S, cpu: &mut W65C02S) -> (r: RelativeBitBranch)
        ensures
            final(cpu).pc == old(cpu).pc.wrapping_add(2),
            final(cpu).cycles == old(cpu).cycles + 5,
            r.data == system.mem_at(system.mem_at(old(cpu).pc) as u16),
            r.target == old(cpu).pc.wrapping_add(2).wrapping_add(
                sign_extend(system.mem_at(old(cpu).pc.wrapping_add(1))),
            ),
    {
        let pc = cpu.read_pc_postincrement();
        let addr = system.read_operand(pc);
        let data = system.read(addr as u16);
        let pc = cpu.read_pc_postincrement();
        let value = system.read_operand(pc);
        let ext: u16 = if value >= 128 {
            (value as u16) + 0xFF00
        } else {
            value as u16
        };
        let target = cpu.get_pc().wrapping_add(ext);
        cpu.cycles += 5;
        RelativeBitBranch { data, target }
    }
}

impl<S: System> Readable<S> for RelativeBitBranch {
    fn read(&mut self, system: &S, cpu: &mut W65C02S) -> (r: u8)
        ensures
            r == old(self).data,
    {
        self.data
    }
}

impl<S: System> Branchable<S> for RelativeBitBranch {
    fn get_branch_target(&mut self, system: &S, cpu: &mut W65C02S) -> (r: u16)
        ensures
            r == old(self).target,
            same_page(old(cpu).pc, old(self).target) ==> final(cpu).cycles == old(
                cpu,
            ).cycles + 1 && final(cpu).irq_pending == old(cpu).irq_pending,
            !same_page(old(cpu).pc, old(self).target) ==> final(cpu).cycles == old(
                cpu,
            ).cycles + 2 && final(cpu).irq_pending == (old(cpu).irq_pending || old(cpu).irq),
    {
        cpu.cycles += 1;
        if cpu.get_pc() / 256 != self.target / 256 {
            let old_irq_pending = cpu.irq_pending;
            cpu.check_irq_edge();
            cpu.irq_pending = cpu.irq_pending || old_irq_pending;
            cpu.cycles += 1;
        }
        self.target
    }
}

/// Zero-page addressing: a one-byte address into the first page.
pub struct ZeroPage {}

impl<S: System> AddressingMode<S> for ZeroPage {
    type T = SimpleEA;

    fn get_operand(system: &S, cpu: &mut W65C02S) -> (r: SimpleEA)
        ensures
            final(cpu).pc == old(cpu).pc.wrapping_add(1),
            final(cpu).cycles == old(cpu).cycles + 2,
            r.ea == system.mem_at(old(cpu).pc) as u16,
    {
        let pc = cpu.read_pc_postincrement();
        let ea = system.read_operand(pc) as u16;
        cpu.cycles += 2;
        SimpleEA { ea }
    }
}

/// Zero-page indirect addressing: the zero-page byte addresses a pointer in
/// the first page; the pointer's second byte wraps within the page.
pub struct ZeroPageIndirect {}

impl<S: System> AddressingMode<S> for ZeroPageIndirect {
    type T = SimpleEA;

    fn get_operand(system: &S, cpu: &mut W65C02S) -> (r: SimpleEA)
        ensures
            final(cpu).pc == old(cpu).pc.wrapping_add(1),
            final(cpu).cycles == old(cpu).cycles + 4,
            ({
                let zp = system.mem_at(old(cpu).pc);
                r.ea == word(
                    system.mem_at(zp as u16),
                    system.mem_at(zp.wrapping_add(1) as u16),
                )
            }),
    {
        let pc = cpu.read_pc_postincrement();
        let addr = system.read_operand(pc);
        let ea_low = system.read_pointer(addr as u16);
        let ea_high = system.read_pointer(addr.wrapping_add(1) as u16);
        cpu.cycles += 4;
        SimpleEA { ea: make_word(ea_low, ea_high) }
    }
}

/// Zero-page indexed by X: base plus index wraps modulo 256 before widening
/// to 16 bits.
pub struct ZeroPageX {}

impl<S: System> AddressingMode<S> for ZeroPageX {
    type T = SimpleEA;

    fn get_operand(system: &S, cpu: &mut W65C02S) -> (r: SimpleEA)
        ensures
            final(cpu).pc == old(cpu).pc.wrapping_add(1),
            final(cpu).cycles == old(cpu).cycles + 3,
            r.ea == (system.mem_at(old(cpu).pc) + old(cpu).x) % 256,
    {
        let pc = cpu.read_pc_postincrement();
        let base = system.read_operand(pc);
        let ea = base.wrapping_add(cpu.get_x()) as u16;
        cpu.cycles += 3;
        SimpleEA { ea }
    }
}

/// Zero-page indexed by X, indirect: the indexed zero-page byte addresses a
/// pointer in the first page.
pub struct ZeroPageXIndirect {}

impl<S: System> AddressingMode<S> for ZeroPageXIndirect {
    type T = SimpleEA;

    fn get_operand(system: &S, cpu: &mut W65C02S) -> (r: SimpleEA)
        ensures
            final(cpu).pc == old(cpu).pc.wrapping_add(1),
            final(cpu).cycles == old(cpu).cycles + 5,
            ({
                let zp = system.mem_at(old(cpu).pc).wrapping_add(old(cpu).x);
                r.ea == word(
                    system.mem_at(zp as u16),
                    system.mem_at(zp.wrapping_add(1) as u16),
                )
            }),
    {
        let pc = cpu.read_pc_postincrement();
        let base = system.read_operand(pc);
        let addr = base.wrapping_add(cpu.get_x());
        let ea_low = system.read_pointer(addr as u16);
        let ea_high = system.read_pointer(addr.wrapping_add(1) as u16);
        cpu.cycles += 5;
        SimpleEA { ea: make_word(ea_low, ea_high) }
    }
}

/// Zero-page indexed by Y: base plus index wraps modulo 256 before widening
/// to 16 bits.
pub struct ZeroPageY {}

impl<S: System> AddressingMode<S> for ZeroPageY {
    type T = SimpleEA;

    fn get_operand(system: &S, cpu: &mut W65C02S) -> (r: SimpleEA)
        ensures
            final(cpu).pc == old(cpu).pc.wrapping_add(1),
            final(cpu).cycles == old(cpu).cycles + 3,
            r.ea == (system.mem_at(old(cpu).pc) + old(cpu).y) % 256,
    {
        let pc = cpu.read_pc_postincrement();
        let base = system.read_operand(pc);
        let ea = base.wrapping_add(cpu.get_y()) as u16;
        cpu.cycles += 3;
        SimpleEA { ea }
    }
}

/// Zero-page indirect indexed by Y; one extra cycle when indexing carries
/// into the high address byte.
pub struct ZeroPageIndirectY {}

impl<S: System> AddressingMode<S> for ZeroPageIndirectY {
    type T = SimpleEA;

    fn get_operand(system: &S, cpu: &mut W65C02S) -> (r: SimpleEA)
        ensures
            final(cpu).pc == old(cpu).pc.wrapping_add(1),
            ({
                let zp = system.mem_at(old(cpu).pc);
                let addr = word(
                    system.mem_at(zp as u16),
                    system.mem_at(zp.wrapping_add(1) as u16),
                );
                r.ea == addr.wrapping_add(old(cpu).y as u16)
                    && final(cpu).cycles == old(cpu).cycles
                        + (if same_page(r.ea, addr) { 4int } else { 5 })
            }),
    {
        let pc = cpu.read_pc_postincrement();
        let base = system.read_operand(pc);
        let addr_low = system.read_pointer(base as u16);
        let addr_high = system.read_pointer(base.wrapping_add(1) as u16);
        let addr = make_word(addr_low, addr_high);
        cpu.cycles += 4;
        let ea = addr.wrapping_add(cpu.get_y() as u16);
        if ea / 256 != addr / 256 {
            cpu.cycles += 1;
        }
        SimpleEA { ea }
    }
}

/// Zero-page indirect indexed by Y for store opcodes: the indexing cycle is
/// spent unconditionally.
pub struct ZeroPageIndirectYSlower {}

impl<S: System> AddressingMode<S> for ZeroPageIndirectYSlower {
    type T = SimpleEA;

    fn get_operand(system: &S, cpu: &mut W65C02S) -> (r: SimpleEA)
        ensures
            final(cpu).pc == old(cpu).pc.wrapping_add(1),
            final(cpu).cycles == old(cpu).cycles + 5,
            ({
                let zp = system.mem_at(old(cpu).pc);
                let addr = word(
                    system.mem_at(zp as u16),
                    system.mem_at(zp.wrapping_add(1) as u16),
                );
                r.ea == addr.wrapping_add(old(cpu).y as u16)
            }),
    {
        let pc = cpu.read_pc_postincrement();
        let base = system.read_operand(pc);
        let addr_low = system.read_pointer(base as u16);
        let addr_high = system.read_pointer(base.wrapping_add(1) as u16);
        let addr = make_word(addr_low, addr_high);
        let ea = addr.wrapping_add(cpu.get_y() as u16);
        cpu.cycles += 5;
        SimpleEA { ea }
    }
}

} // verus!
