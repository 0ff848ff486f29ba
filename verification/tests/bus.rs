use gametank_core::cartridges::CartridgeType;
use gametank_core::gametank_bus::reg_system_control::{
    VIA_SPI_BIT_CLK, VIA_SPI_BIT_CS, VIA_SPI_BIT_MOSI,
};
use gametank_core::gametank_bus::{AcpBus, CpuBus};

const FLAGS_FRAMEBUFFER: u8 = 0b0000_0000;
const FLAGS_VRAM: u8 = 0b0010_0000;
const FLAGS_BLITTER: u8 = 0b0000_0001;

/// Shift one bit into the cartridge bank shifter through the I/O-adapter
/// output register: set the data line with the clock low, then raise the
/// clock.
fn shift_bit(bus: &mut CpuBus, bit: bool) {
    let mosi = if bit { VIA_SPI_BIT_MOSI } else { 0x00 };
    bus.write_byte(0x2801, mosi);
    bus.write_byte(0x2801, mosi | VIA_SPI_BIT_CLK);
}

/// Drive the full bank-select protocol: shift the index in, most significant
/// bit first, then raise chip select to latch it.
fn select_bank(bus: &mut CpuBus, bank: u8) {
    for i in (0..8).rev() {
        shift_bit(bus, (bank >> i) & 1 != 0);
    }
    bus.write_byte(0x2801, 0x00);
    bus.write_byte(0x2801, VIA_SPI_BIT_CS);
}

fn bank_switched_bus() -> CpuBus {
    // Bank b holds b in every byte.
    let mut payload = vec![0u8; 0x200000];
    for (i, p) in payload.iter_mut().enumerate() {
        *p = (i / 0x4000) as u8;
    }
    CpuBus::new(CartridgeType::from_slice(&payload))
}

#[test]
fn ram_write_then_read_round_trips() {
    let mut bus = CpuBus::default();
    bus.write_byte(0x0000, 0x11);
    bus.write_byte(0x1FFF, 0x22);
    assert_eq!(bus.read_byte(0x0000), 0x11);
    assert_eq!(bus.read_byte(0x1FFF), 0x22);
}

#[test]
fn ram_banking_switches_storage() {
    let mut bus = CpuBus::default();
    bus.write_byte(0x0010, 0xAA);
    // Select RAM bank 1 (bits 7 and 6 of the banking register).
    bus.write_byte(0x2005, 0b0100_0000);
    assert_eq!(bus.read_byte(0x0010), 0x00);
    bus.write_byte(0x0010, 0xBB);
    assert_eq!(bus.read_byte(0x0010), 0xBB);
    // Back to bank 0: the first byte is still there.
    bus.write_byte(0x2005, 0);
    assert_eq!(bus.read_byte(0x0010), 0xAA);
}

#[test]
fn via_write_then_read_round_trips() {
    let mut bus = CpuBus::default();
    bus.write_byte(0x2800, 0x5A);
    bus.write_byte(0x280F, 0xA5);
    assert_eq!(bus.read_byte(0x2800), 0x5A);
    assert_eq!(bus.read_byte(0x280F), 0xA5);
}

#[test]
fn audio_ram_write_then_read_round_trips() {
    let mut bus = CpuBus::default();
    bus.write_byte(0x3000, 0x33);
    bus.write_byte(0x3FFF, 0x44);
    assert_eq!(bus.read_byte(0x3000), 0x33);
    assert_eq!(bus.read_byte(0x3FFF), 0x44);
}

#[test]
fn framebuffer_write_then_read_round_trips() {
    let mut bus = CpuBus::default();
    bus.write_byte(0x2007, FLAGS_FRAMEBUFFER);
    bus.write_byte(0x4000, 0x55);
    bus.write_byte(0x7FFF, 0x66);
    assert_eq!(bus.read_byte(0x4000), 0x55);
    assert_eq!(bus.read_byte(0x7FFF), 0x66);
}

#[test]
fn vram_write_then_read_round_trips() {
    let mut bus = CpuBus::default();
    bus.write_byte(0x2007, FLAGS_VRAM);
    bus.write_byte(0x4000, 0x77);
    bus.write_byte(0x7FFF, 0x88);
    assert_eq!(bus.read_byte(0x4000), 0x77);
    assert_eq!(bus.read_byte(0x7FFF), 0x88);
}

#[test]
fn blitter_registers_write_then_read_round_trip() {
    let mut bus = CpuBus::default();
    bus.write_byte(0x2007, FLAGS_BLITTER);
    for offset in 0..8u16 {
        bus.write_byte(0x4000 + offset, 0x10 + offset as u8);
    }
    for offset in 0..8u16 {
        assert_eq!(bus.read_byte(0x4000 + offset), 0x10 + offset as u8);
    }
}

#[test]
fn cartridge_rom_ignores_writes() {
    let mut bus = CpuBus::default();
    let before = bus.read_byte(0x9000);
    bus.write_byte(0x9000, 0xEE);
    assert_eq!(bus.read_byte(0x9000), before);
}

#[test]
fn unmapped_addresses_read_zero_and_ignore_writes() {
    let mut bus = CpuBus::default();
    assert_eq!(bus.read_byte(0x2AAA), 0);
    assert_eq!(bus.read_byte(0x2010), 0);
    bus.write_byte(0x2AAA, 0x99);
    assert_eq!(bus.read_byte(0x2AAA), 0);
}

#[test]
fn reads_are_pure_across_the_map() {
    let mut bus = bank_switched_bus();
    bus.write_byte(0x0123, 0x42);
    bus.write_byte(0x3210, 0x24);
    for addr in [
        0x0000u16, 0x0123, 0x1FFF, 0x2000, 0x2005, 0x2007, 0x2008, 0x2009, 0x2800, 0x2801,
        0x3000, 0x3210, 0x4000, 0x5555, 0x7FFF, 0x8000, 0xBFFF, 0xC000, 0xFFFF, 0x2C00,
    ] {
        let first = bus.read_byte(addr);
        let second = bus.read_byte(addr);
        assert_eq!(first, second);
    }
}

#[test]
fn only_output_register_writes_move_the_bank_state() {
    let mut bus = bank_switched_bus();
    // Shift a one in so the shifter state is distinctive.
    shift_bit(&mut bus, true);
    let (shifter, mask) = match &bus.cartridge {
        CartridgeType::Cart2m(c) => (c.bank_shifter, c.bank_mask),
        _ => unreachable!(),
    };
    assert_eq!(shifter, 1);
    // Writes everywhere but the output register leave the bank state alone.
    bus.write_byte(0x0000, 0xFF);
    bus.write_byte(0x2800, 0xFF);
    bus.write_byte(0x2802, 0xFF);
    bus.write_byte(0x3000, 0xFF);
    bus.write_byte(0x4000, 0xFF);
    bus.write_byte(0x9000, 0xFF);
    match &bus.cartridge {
        CartridgeType::Cart2m(c) => {
            assert_eq!(c.bank_shifter, shifter);
            assert_eq!(c.bank_mask, mask);
        },
        _ => unreachable!(),
    }
    // A rising clock on the output register moves the shifter.
    bus.write_byte(0x2801, 0x00);
    bus.write_byte(0x2801, VIA_SPI_BIT_CLK);
    match &bus.cartridge {
        CartridgeType::Cart2m(c) => assert_eq!(c.bank_shifter, shifter << 1),
        _ => unreachable!(),
    }
}

#[test]
fn same_value_rewrite_on_output_register_does_not_shift() {
    let mut bus = bank_switched_bus();
    // Shift a one in, leaving the clock line high.
    bus.write_byte(0x2801, VIA_SPI_BIT_MOSI);
    bus.write_byte(0x2801, VIA_SPI_BIT_MOSI | VIA_SPI_BIT_CLK);
    let shifter_before = match &bus.cartridge {
        CartridgeType::Cart2m(c) => c.bank_shifter,
        _ => unreachable!(),
    };
    assert_eq!(shifter_before, 1);
    // Rewriting the value the register already holds raises no edge.
    let held = bus.read_byte(0x2801);
    bus.write_byte(0x2801, held);
    match &bus.cartridge {
        CartridgeType::Cart2m(c) => assert_eq!(c.bank_shifter, shifter_before),
        _ => unreachable!(),
    }
}

#[test]
fn bank_switched_cartridge_maps_fixed_and_selected_banks() {
    // CPU 0xC000 and up (cartridge 0x4000 to 0x7FFF) always reads the fixed
    // boot bank 0x7F; CPU 0x8000 (cartridge 0x0000) reads the selected bank.
    let mut bus = bank_switched_bus();
    assert_eq!(bus.read_byte(0xC000), 0x7F);
    assert_eq!(bus.read_byte(0xFFFF), 0x7F);
    // The power-on mask selects bank 0x7E.
    assert_eq!(bus.read_byte(0x8000), 0x7E);
    // Drive the shift register to select bank 5.
    select_bank(&mut bus, 5);
    assert_eq!(bus.read_byte(0x8000), 5);
    assert_eq!(bus.read_byte(0xBFFF), 5);
    // The fixed window is unaffected by the selected index.
    assert_eq!(bus.read_byte(0xC000), 0x7F);
}

#[test]
fn gamepad_latch_toggles_on_write_not_read() {
    let mut bus = CpuBus::default();
    bus.system_control.gamepads[0].up = true;
    bus.system_control.gamepads[0].b = true;
    bus.system_control.gamepads[0].a = true;
    // Select latch clear: first half of the button set (up, b).
    assert_eq!(bus.read_byte(0x2008), 0b0001_0001);
    assert_eq!(bus.read_byte(0x2008), 0b0001_0001);
    // A write toggles the latch: second half (up, a).
    bus.write_byte(0x2008, 0);
    assert_eq!(bus.read_byte(0x2008), 0b0001_0001);
    assert!(bus.system_control.gamepads[0].port_select);
    bus.system_control.gamepads[0].a = false;
    bus.system_control.gamepads[0].start = true;
    assert_eq!(bus.read_byte(0x2008), 0b0010_0001);
}

#[test]
fn system_control_registers_store_and_read() {
    let mut bus = CpuBus::default();
    bus.write_byte(0x2000, 7);
    bus.write_byte(0x2001, 8);
    bus.write_byte(0x2005, 0b0100_0101);
    bus.write_byte(0x2006, 9);
    assert_eq!(bus.read_byte(0x2000), 7);
    assert_eq!(bus.read_byte(0x2001), 8);
    assert_eq!(bus.read_byte(0x2005), 0b0100_0101);
    assert_eq!(bus.read_byte(0x2006), 9);
    assert_eq!(bus.read_byte(0x2002), 0);
}

#[test]
fn vblank_nmi_follows_flag_bit() {
    let mut bus = CpuBus::default();
    assert!(bus.vblank_nmi_enabled());
    bus.write_byte(0x2007, 0);
    assert!(!bus.vblank_nmi_enabled());
    bus.write_byte(0x2007, 0b0000_0100);
    assert!(bus.vblank_nmi_enabled());
}

#[test]
fn read_full_framebuffer_follows_page_out_bit() {
    let mut bus = CpuBus::default();
    // Power-on flags have the page-out bit set: the lit framebuffer shows.
    assert_eq!(bus.read_full_framebuffer().len(), 0x4000);
    assert!(bus.read_full_framebuffer().iter().all(|b| *b == 0xFF));
    bus.write_byte(0x2007, 0);
    assert!(bus.read_full_framebuffer().iter().all(|b| *b == 0x00));
}

#[test]
fn framebuffer_bank_bit_selects_cpu_side_buffer() {
    let mut bus = CpuBus::default();
    bus.write_byte(0x2007, FLAGS_FRAMEBUFFER);
    bus.write_byte(0x4000, 0x12);
    // Flip the framebuffer select bit: the other buffer shows through.
    bus.write_byte(0x2005, 0b0000_1000);
    assert_eq!(bus.read_byte(0x4000), 0xFF);
    bus.write_byte(0x2005, 0);
    assert_eq!(bus.read_byte(0x4000), 0x12);
}

#[test]
fn vram_page_and_quadrant_select_storage() {
    let mut bus = CpuBus::default();
    bus.write_byte(0x2007, FLAGS_VRAM);
    bus.write_byte(0x4000, 0x31);
    // Another VRAM page is distinct storage.
    bus.write_byte(0x2005, 0b0000_0001);
    assert_eq!(bus.read_byte(0x4000), 0x00);
    bus.write_byte(0x2005, 0);
    assert_eq!(bus.read_byte(0x4000), 0x31);
    // Moving the blitter into another quadrant exposes different cells.
    bus.write_byte(0x2007, FLAGS_BLITTER);
    bus.write_byte(0x4002, 200);
    bus.write_byte(0x2007, FLAGS_VRAM);
    assert_eq!(bus.read_byte(0x4000), 0x00);
    bus.write_byte(0x4000, 0x32);
    bus.write_byte(0x2007, FLAGS_BLITTER);
    bus.write_byte(0x4002, 0);
    bus.write_byte(0x2007, FLAGS_VRAM);
    assert_eq!(bus.read_byte(0x4000), 0x31);
}

#[test]
fn vram_writes_mark_dirty_quadrant() {
    let mut bus = CpuBus::default();
    bus.write_byte(0x2007, FLAGS_VRAM);
    assert!(!bus.vram_quad_written[0]);
    bus.write_byte(0x4000, 1);
    assert!(bus.vram_quad_written[0]);
    assert!(!bus.vram_quad_written[1]);
}

#[test]
fn acp_bus_mirrors_audio_ram_and_latches_sample() {
    let mut acp = AcpBus::default();
    acp.write_byte(0x0010, 0x42);
    assert_eq!(acp.read_byte(0x0010), 0x42);
    // Every address mirrors the 4 KB window.
    assert_eq!(acp.read_byte(0x1010), 0x42);
    assert_eq!(acp.sample, 0);
    acp.write_byte(0x8000, 0x55);
    assert_eq!(acp.sample, 0x55);
    assert_eq!(acp.read_byte(0x0000), 0x55);
    acp.write_byte(0x0000, 0x66);
    assert_eq!(acp.sample, 0x55);
}
