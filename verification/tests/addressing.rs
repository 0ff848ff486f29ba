use gametank_core::gametank_bus::CpuBus;
use gametank_core::w65c02s::addressing_modes::{
    Absolute, AbsoluteIndirect, AbsoluteX, AbsoluteXIndirect, AbsoluteXSlower, AbsoluteY,
    AbsoluteYSlower, AddressingMode, Branchable, FastImplied, HasEA, Immediate, Implied, ImpliedA,
    ImpliedX, ImpliedY, RMWable, Readable, Relative, RelativeBitBranch, Writable, ZeroPage,
    ZeroPageIndirect, ZeroPageIndirectY, ZeroPageIndirectYSlower, ZeroPageX, ZeroPageXIndirect,
    ZeroPageY,
};
use gametank_core::w65c02s::W65C02S;

/// A bus with a program loaded at 0x0100 and the processor pointed at it.
fn setup(program: &[u8]) -> (CpuBus, W65C02S) {
    let mut bus = CpuBus::default();
    for (i, b) in program.iter().enumerate() {
        bus.write_byte(0x0100 + i as u16, *b);
    }
    let mut cpu = W65C02S::new();
    cpu.set_pc(0x0100);
    (bus, cpu)
}

#[test]
fn implied_cycles() {
    let (bus, mut cpu) = setup(&[]);
    let _: () = Implied::get_operand(&bus, &mut cpu);
    assert_eq!(cpu.cycles, 1);
    assert_eq!(cpu.pc, 0x0100);
}

#[test]
fn fast_implied_cycles() {
    let (bus, mut cpu) = setup(&[]);
    let _: () = FastImplied::get_operand(&bus, &mut cpu);
    assert_eq!(cpu.cycles, 0);
}

#[test]
fn absolute_cycles_and_ea() {
    let (bus, mut cpu) = setup(&[0x34, 0x12]);
    let acc = Absolute::get_operand(&bus, &mut cpu);
    assert_eq!(acc.get_effective_address(), 0x1234);
    assert_eq!(cpu.cycles, 4);
    assert_eq!(cpu.pc, 0x0102);
}

#[test]
fn absolute_indirect_cycles_and_ea() {
    let (mut bus, mut cpu) = setup(&[0x00, 0x02]);
    bus.write_byte(0x0200, 0x78);
    bus.write_byte(0x0201, 0x56);
    let acc = AbsoluteIndirect::get_operand(&bus, &mut cpu);
    assert_eq!(acc.get_effective_address(), 0x5678);
    assert_eq!(cpu.cycles, 7);
    assert_eq!(cpu.pc, 0x0102);
}

#[test]
fn absolute_x_no_cross() {
    // Base 0x1200, index 1: effective address 0x1201, no page crossing.
    let (bus, mut cpu) = setup(&[0x00, 0x12]);
    cpu.set_x(1);
    let acc = AbsoluteX::get_operand(&bus, &mut cpu);
    assert_eq!(acc.get_effective_address(), 0x1201);
    assert_eq!(cpu.cycles, 4);
}

#[test]
fn absolute_x_page_cross_costs_one_more() {
    // Base 0x12FF, index 1 crosses into 0x1300: one extra cycle.
    let (bus, mut cpu) = setup(&[0xFF, 0x12]);
    cpu.set_x(1);
    let acc = AbsoluteX::get_operand(&bus, &mut cpu);
    assert_eq!(acc.get_effective_address(), 0x1300);
    assert_eq!(cpu.cycles, 5);
}

#[test]
fn absolute_x_slower_unconditional() {
    let (bus, mut cpu) = setup(&[0x00, 0x12]);
    cpu.set_x(1);
    let acc = AbsoluteXSlower::get_operand(&bus, &mut cpu);
    assert_eq!(acc.get_effective_address(), 0x1201);
    assert_eq!(cpu.cycles, 5);
}

#[test]
fn absolute_x_indirect_cycles_and_ea() {
    let (mut bus, mut cpu) = setup(&[0xFE, 0x01]);
    cpu.set_x(2);
    bus.write_byte(0x0200, 0xCD);
    bus.write_byte(0x0201, 0xAB);
    let acc = AbsoluteXIndirect::get_operand(&bus, &mut cpu);
    assert_eq!(acc.get_effective_address(), 0xABCD);
    assert_eq!(cpu.cycles, 7);
    assert_eq!(cpu.pc, 0x0102);
}

#[test]
fn absolute_y_no_cross_and_cross() {
    let (bus, mut cpu) = setup(&[0x00, 0x12]);
    cpu.set_y(5);
    let acc = AbsoluteY::get_operand(&bus, &mut cpu);
    assert_eq!(acc.get_effective_address(), 0x1205);
    assert_eq!(cpu.cycles, 4);

    let (bus, mut cpu) = setup(&[0xFF, 0x12]);
    cpu.set_y(1);
    let acc = AbsoluteY::get_operand(&bus, &mut cpu);
    assert_eq!(acc.get_effective_address(), 0x1300);
    assert_eq!(cpu.cycles, 5);
}

#[test]
fn absolute_y_slower_unconditional() {
    let (bus, mut cpu) = setup(&[0x00, 0x12]);
    cpu.set_y(5);
    let acc = AbsoluteYSlower::get_operand(&bus, &mut cpu);
    assert_eq!(acc.get_effective_address(), 0x1205);
    assert_eq!(cpu.cycles, 5);
}

#[test]
fn implied_a_reads_and_writes_accumulator() {
    let (mut bus, mut cpu) = setup(&[]);
    cpu.set_a(0x42);
    let mut acc = ImpliedA::get_operand(&bus, &mut cpu);
    assert_eq!(cpu.cycles, 1);
    assert_eq!(acc.read(&bus, &mut cpu), 0x42);
    acc.write(&mut bus, &mut cpu, 0x43);
    assert_eq!(cpu.a, 0x43);
    assert_eq!(acc.read_locked(&bus, &mut cpu), 0x43);
    acc.write_locked(&mut bus, &mut cpu, 0x44);
    assert_eq!(cpu.a, 0x44);
}

#[test]
fn implied_x_reads_and_writes_index() {
    let (mut bus, mut cpu) = setup(&[]);
    cpu.set_x(7);
    let mut acc = ImpliedX::get_operand(&bus, &mut cpu);
    assert_eq!(cpu.cycles, 1);
    assert_eq!(acc.read(&bus, &mut cpu), 7);
    acc.write(&mut bus, &mut cpu, 8);
    assert_eq!(cpu.x, 8);
}

#[test]
fn implied_y_reads_and_writes_index() {
    let (mut bus, mut cpu) = setup(&[]);
    cpu.set_y(9);
    let mut acc = ImpliedY::get_operand(&bus, &mut cpu);
    assert_eq!(cpu.cycles, 1);
    assert_eq!(acc.read(&bus, &mut cpu), 9);
    acc.write(&mut bus, &mut cpu, 10);
    assert_eq!(cpu.y, 10);
}

#[test]
fn immediate_reads_operand_byte() {
    let (bus, mut cpu) = setup(&[0x5A]);
    let mut acc = Immediate::get_operand(&bus, &mut cpu);
    assert_eq!(cpu.cycles, 2);
    assert_eq!(cpu.pc, 0x0101);
    assert_eq!(acc.read(&bus, &mut cpu), 0x5A);
}

#[test]
fn zero_page_cycles_and_ea() {
    let (bus, mut cpu) = setup(&[0x42]);
    let acc = ZeroPage::get_operand(&bus, &mut cpu);
    assert_eq!(acc.get_effective_address(), 0x0042);
    assert_eq!(cpu.cycles, 2);
}

#[test]
fn zero_page_indirect_cycles_and_ea() {
    let (mut bus, mut cpu) = setup(&[0x40]);
    bus.write_byte(0x0040, 0x21);
    bus.write_byte(0x0041, 0x43);
    let acc = ZeroPageIndirect::get_operand(&bus, &mut cpu);
    assert_eq!(acc.get_effective_address(), 0x4321);
    assert_eq!(cpu.cycles, 4);
}

#[test]
fn zero_page_x_wraps_modulo_256_before_widening() {
    // Base 0xFF with index 2 yields 0x0001, not 0x0101.
    let (bus, mut cpu) = setup(&[0xFF]);
    cpu.set_x(2);
    let acc = ZeroPageX::get_operand(&bus, &mut cpu);
    assert_eq!(acc.get_effective_address(), 0x0001);
    assert_eq!(cpu.cycles, 3);
}

#[test]
fn zero_page_y_wraps_modulo_256_before_widening() {
    let (bus, mut cpu) = setup(&[0xFF]);
    cpu.set_y(2);
    let acc = ZeroPageY::get_operand(&bus, &mut cpu);
    assert_eq!(acc.get_effective_address(), 0x0001);
    assert_eq!(cpu.cycles, 3);
}

#[test]
fn zero_page_x_indirect_cycles_and_ea() {
    let (mut bus, mut cpu) = setup(&[0x3E]);
    cpu.set_x(2);
    bus.write_byte(0x0040, 0x21);
    bus.write_byte(0x0041, 0x43);
    let acc = ZeroPageXIndirect::get_operand(&bus, &mut cpu);
    assert_eq!(acc.get_effective_address(), 0x4321);
    assert_eq!(cpu.cycles, 5);
}

#[test]
fn zero_page_indirect_y_no_cross_and_cross() {
    let (mut bus, mut cpu) = setup(&[0x40]);
    cpu.set_y(1);
    bus.write_byte(0x0040, 0x00);
    bus.write_byte(0x0041, 0x12);
    let acc = ZeroPageIndirectY::get_operand(&bus, &mut cpu);
    assert_eq!(acc.get_effective_address(), 0x1201);
    assert_eq!(cpu.cycles, 4);

    let (mut bus, mut cpu) = setup(&[0x40]);
    cpu.set_y(1);
    bus.write_byte(0x0040, 0xFF);
    bus.write_byte(0x0041, 0x12);
    let acc = ZeroPageIndirectY::get_operand(&bus, &mut cpu);
    assert_eq!(acc.get_effective_address(), 0x1300);
    assert_eq!(cpu.cycles, 5);
}

#[test]
fn zero_page_indirect_y_slower_unconditional() {
    let (mut bus, mut cpu) = setup(&[0x40]);
    cpu.set_y(1);
    bus.write_byte(0x0040, 0x00);
    bus.write_byte(0x0041, 0x12);
    let acc = ZeroPageIndirectYSlower::get_operand(&bus, &mut cpu);
    assert_eq!(acc.get_effective_address(), 0x1201);
    assert_eq!(cpu.cycles, 5);
}

#[test]
fn relative_cycles_and_target() {
    let (bus, mut cpu) = setup(&[0x10]);
    let _acc = Relative::get_operand(&bus, &mut cpu);
    assert_eq!(cpu.cycles, 2);
    assert_eq!(cpu.pc, 0x0101);
}

#[test]
fn relative_negative_offset_target() {
    // Offset 0xFE is -2: target is the operand byte's own address.
    let (bus, mut cpu) = setup(&[0xFE]);
    let mut acc = Relative::get_operand(&bus, &mut cpu);
    let target = acc.get_branch_target(&bus, &mut cpu);
    assert_eq!(target, 0x00FF);
}

#[test]
fn taken_branch_same_page_costs_one_extra_cycle() {
    let (bus, mut cpu) = setup(&[0x10]);
    let mut acc = Relative::get_operand(&bus, &mut cpu);
    assert_eq!(cpu.cycles, 2);
    let target = acc.get_branch_target(&bus, &mut cpu);
    assert_eq!(target, 0x0111);
    assert_eq!(cpu.cycles, 3);
    assert!(!cpu.irq_pending);
}

#[test]
fn taken_branch_cross_page_costs_two_extra_cycles() {
    // From 0x01F0, offset 0x20 crosses into page 2.
    let mut bus = CpuBus::default();
    bus.write_byte(0x01F0, 0x20);
    let mut cpu = W65C02S::new();
    cpu.set_pc(0x01F0);
    let mut acc = Relative::get_operand(&bus, &mut cpu);
    assert_eq!(cpu.cycles, 2);
    let target = acc.get_branch_target(&bus, &mut cpu);
    assert_eq!(target, 0x0211);
    assert_eq!(cpu.cycles, 4);
}

#[test]
fn cross_page_branch_registers_pending_interrupt_early() {
    // With the interrupt line asserted, the crossing cycle samples the edge:
    // the pending latch is set by the branch itself.
    let mut bus = CpuBus::default();
    bus.write_byte(0x01F0, 0x20);
    let mut cpu = W65C02S::new();
    cpu.set_pc(0x01F0);
    cpu.set_irq(true);
    let mut acc = Relative::get_operand(&bus, &mut cpu);
    assert!(!cpu.irq_pending);
    let _ = acc.get_branch_target(&bus, &mut cpu);
    assert!(cpu.irq_pending);

    // A same-page branch does not sample the line.
    let mut bus = CpuBus::default();
    bus.write_byte(0x0100, 0x10);
    let mut cpu = W65C02S::new();
    cpu.set_pc(0x0100);
    cpu.set_irq(true);
    let mut acc = Relative::get_operand(&bus, &mut cpu);
    let _ = acc.get_branch_target(&bus, &mut cpu);
    assert!(!cpu.irq_pending);
}

#[test]
fn pending_interrupt_survives_branch_merge() {
    // The OR-merge is idempotent: an already-pending interrupt stays pending
    // through a crossing branch even with the line deasserted.
    let mut bus = CpuBus::default();
    bus.write_byte(0x01F0, 0x20);
    let mut cpu = W65C02S::new();
    cpu.set_pc(0x01F0);
    cpu.set_irq(false);
    cpu.check_irq_edge();
    cpu.irq_pending = true;
    let mut acc = Relative::get_operand(&bus, &mut cpu);
    let _ = acc.get_branch_target(&bus, &mut cpu);
    assert!(cpu.irq_pending);
}

#[test]
fn relative_bit_branch_reads_tested_byte() {
    let mut bus = CpuBus::default();
    bus.write_byte(0x0040, 0xA5);
    bus.write_byte(0x0100, 0x40);
    bus.write_byte(0x0101, 0x10);
    let mut cpu = W65C02S::new();
    cpu.set_pc(0x0100);
    let mut acc = RelativeBitBranch::get_operand(&bus, &mut cpu);
    assert_eq!(cpu.cycles, 5);
    assert_eq!(cpu.pc, 0x0102);
    assert_eq!(acc.read(&bus, &mut cpu), 0xA5);
    let target = acc.get_branch_target(&bus, &mut cpu);
    assert_eq!(target, 0x0112);
    assert_eq!(cpu.cycles, 6);
}

#[test]
fn simple_ea_reads_and_writes_through_bus() {
    let (mut bus, mut cpu) = setup(&[0x42]);
    let mut acc = ZeroPage::get_operand(&bus, &mut cpu);
    acc.write(&mut bus, &mut cpu, 0x99);
    assert_eq!(bus.read_byte(0x0042), 0x99);
    assert_eq!(acc.read(&bus, &mut cpu), 0x99);
}

#[test]
fn rmw_sequence_bit_set_at_fixed_address() {
    // A read-modify-write accessor issues the locked read, the same-value
    // rewrite, then the final write, in that order.
    let (mut bus, mut cpu) = setup(&[0x42]);
    bus.write_byte(0x0042, 0b0000_0101);
    let mut acc = ZeroPage::get_operand(&bus, &mut cpu);
    let v = acc.read_locked(&bus, &mut cpu);
    assert_eq!(v, 0b0000_0101);
    acc.write_locked(&mut bus, &mut cpu, v);
    assert_eq!(bus.read_byte(0x0042), 0b0000_0101);
    acc.write_locked(&mut bus, &mut cpu, v | 0b0100_0000);
    assert_eq!(bus.read_byte(0x0042), 0b0100_0101);
}
