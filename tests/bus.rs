use phpboy_core::bus::Bus;
use phpboy_core::cartridge::LoadError;

fn image(cart_type: u8, rom_code: u8, ram_code: u8, len: usize) -> Vec<u8> {
    let mut rom = vec![0u8; len];
    rom[0x134..0x13B].copy_from_slice(b"TESTROM");
    rom[0x147] = cart_type;
    rom[0x148] = rom_code;
    rom[0x149] = ram_code;
    rom
}

#[test]
fn test_bus_read_write() {
    let mut bus = Bus::new();

    bus.write(0xC000, 0x42);
    assert_eq!(bus.read(0xC000), 0x42);

    // Test echo RAM
    assert_eq!(bus.read(0xE000), 0x42);
}

#[test]
fn test_button_input() {
    let mut bus = Bus::new();

    bus.set_button(0, true); // Press A
    assert_eq!(bus.buttons() & 0x01, 0x00);

    bus.set_button(0, false); // Release A
    assert_eq!(bus.buttons() & 0x01, 0x01);
}

#[test]
fn echo_region_mirrors_working_memory_both_ways() {
    let mut bus = Bus::new();
    for (addr, v) in [(0xC000u16, 0x11u8), (0xC123, 0x5A), (0xDDFF, 0xFE)] {
        bus.write(addr, v);
        assert_eq!(bus.read(addr + 0x2000), v);
        bus.write(addr + 0x2000, v ^ 0xFF);
        assert_eq!(bus.read(addr), v ^ 0xFF);
    }
}

#[test]
fn unusable_range_always_reads_ff() {
    let mut bus = Bus::new();
    for addr in 0xFEA0u16..0xFF00 {
        bus.write(addr, 0x00);
        assert_eq!(bus.read(addr), 0xFF);
    }
}

#[test]
fn press_then_release_restores_joypad_byte() {
    let mut bus = Bus::new();
    for button in 0u8..8 {
        let before = bus.buttons();
        bus.set_button(button, true);
        assert_eq!(bus.buttons(), before & !(1 << button));
        bus.set_button(button, false);
        assert_eq!(bus.buttons(), before);
    }
    bus.set_button(8, true);
    assert_eq!(bus.buttons(), 0xFF);
}

#[test]
fn joypad_address_reads_button_byte() {
    let mut bus = Bus::new();
    bus.set_button(3, true);
    assert_eq!(bus.read(0xFF00), 0xF7);
    bus.write(0xFF00, 0x00);
    assert_eq!(bus.read(0xFF00), 0xF7);
}

#[test]
fn interrupt_enable_aliases_last_io_cell() {
    let mut bus = Bus::new();
    bus.write(0xFFFF, 0x1F);
    assert_eq!(bus.read(0xFF7F), 0x1F);
    bus.write(0xFF7F, 0x03);
    assert_eq!(bus.read(0xFFFF), 0x03);
}

#[test]
fn flat_regions_store_bytes() {
    let mut bus = Bus::new();
    for (addr, v) in [(0x8000u16, 1u8), (0x9FFF, 2), (0xFE00, 3), (0xFE9F, 4), (0xFF80, 5), (0xFFFE, 6), (0xFF40, 7)] {
        bus.write(addr, v);
        assert_eq!(bus.read(addr), v);
    }
}

#[test]
fn rom_only_cartridge_has_no_ram() {
    let mut bus = Bus::new();
    assert!(bus.load_rom(&image(0x00, 0x00, 0x00, 0x8000)).is_ok());
    assert_eq!(bus.cartridge().header.title, "TESTROM");
    assert_eq!(bus.cartridge().header.ram_size, 0);
    bus.write(0x0000, 0x0A);
    for addr in [0xA000u16, 0xA123, 0xBFFF] {
        bus.write(addr, 0x12);
        assert_eq!(bus.read(addr), 0xFF);
    }
}

#[test]
fn failed_load_keeps_previous_cartridge_and_ram() {
    let mut bus = Bus::new();
    assert!(bus.load_rom(&image(0x03, 0x00, 0x02, 0x8000)).is_ok());
    bus.write(0x0000, 0x0A);
    bus.write(0xA010, 0x77);
    assert_eq!(bus.load_rom(&vec![0u8; 0x14F]), Err(LoadError::TooSmall));
    assert_eq!(bus.cartridge().header.title, "TESTROM");
    assert_eq!(bus.cartridge().ram().len(), 8192);
    assert_eq!(bus.read(0xA010), 0x77);
}

#[test]
fn mbc1_switches_rom_banks() {
    let mut rom = image(0x01, 0x01, 0x00, 0x10000);
    for bank in 0..4usize {
        rom[bank * 0x4000 + 0x10] = bank as u8;
    }
    let mut bus = Bus::new();
    assert!(bus.load_rom(&rom).is_ok());
    assert_eq!(bus.read(0x0010), 0);
    assert_eq!(bus.read(0x4010), 1);
    bus.write(0x2000, 2);
    assert_eq!(bus.read(0x4010), 2);
    bus.write(0x2000, 3);
    assert_eq!(bus.read(0x4010), 3);
    // zero selects bank one
    bus.write(0x2000, 0);
    assert_eq!(bus.read(0x4010), 1);
    // five wraps to one of four banks
    bus.write(0x2000, 5);
    assert_eq!(bus.read(0x4010), 1);
    assert_eq!(bus.read(0x0010), 0);
}

#[test]
fn ram_gate_must_be_opened() {
    let mut bus = Bus::new();
    assert!(bus.load_rom(&image(0x13, 0x00, 0x03, 0x8000)).is_ok());
    bus.write(0xA000, 0x55);
    assert_eq!(bus.read(0xA000), 0xFF);
    bus.write(0x0000, 0x0A);
    bus.write(0xA000, 0x55);
    assert_eq!(bus.read(0xA000), 0x55);
    // another RAM bank holds other bytes
    bus.write(0x4000, 0x01);
    assert_eq!(bus.read(0xA000), 0x00);
    bus.write(0x4000, 0x00);
    assert_eq!(bus.read(0xA000), 0x55);
    bus.write(0x0000, 0x00);
    assert_eq!(bus.read(0xA000), 0xFF);
}

#[test]
fn reset_zeroes_memory_and_keeps_cartridge() {
    let mut bus = Bus::new();
    assert!(bus.load_rom(&image(0x00, 0x00, 0x00, 0x8000)).is_ok());
    bus.write(0xC000, 9);
    bus.set_button(0, true);
    bus.reset();
    assert_eq!(bus.read(0xC000), 0);
    assert_eq!(bus.buttons(), 0xFF);
    assert_eq!(bus.cartridge().header.title, "TESTROM");
    assert_eq!(bus.read(0x0134), b'T');
}
