use phpboy_core::cartridge::LoadError;
use phpboy_core::emulator::GameBoyCore;
use phpboy_core::ppu::Mode;
use phpboy_core::{CYCLES_PER_FRAME, SCREEN_BYTES};

#[test]
fn nop_frame_takes_exactly_the_budget() {
    let mut core = GameBoyCore::new();
    assert!(core.load_rom(&vec![0u8; 32768]).is_ok());
    assert_eq!(core.get_pixels().len(), SCREEN_BYTES);
    assert!(core.get_pixels().iter().all(|&b| b == 255));
    core.step();
    assert_eq!(core.get_cycles(), CYCLES_PER_FRAME as u64);
    assert_eq!(core.ppu().mode(), Mode::OamSearch);
    assert_eq!(core.ppu().scanline(), 0);
    assert_eq!(&core.get_pixels()[0..8], &[255, 255, 255, 255, 0, 0, 0, 255]);
    core.step();
    assert_eq!(core.get_cycles(), 2 * CYCLES_PER_FRAME as u64);
}

#[test]
fn overshoot_is_carried_to_next_frame() {
    // LD BC,nn (12 cycles) forever: 70224 = 12 * 5852, so frames end exactly;
    // a 4-cycle NOP first shifts every frame end by 4 past the budget.
    let mut rom = vec![0u8; 0x8000];
    rom[0x100] = 0x00;
    let mut i = 0x101;
    while i + 3 <= 0x8000 {
        rom[i] = 0x01;
        i += 3;
    }
    let mut core = GameBoyCore::new();
    core.load_rom(&rom).unwrap();
    core.step();
    let first = core.get_cycles();
    assert_eq!(first, CYCLES_PER_FRAME as u64 + 4);
    core.step();
    let second = core.get_cycles();
    assert!(second >= 2 * CYCLES_PER_FRAME as u64 && second < 2 * CYCLES_PER_FRAME as u64 + 12);
}

#[test]
fn failed_load_changes_nothing() {
    let mut core = GameBoyCore::new();
    let mut rom = vec![0u8; 0x8000];
    rom[0x134..0x13B].copy_from_slice(b"TESTROM");
    core.load_rom(&rom).unwrap();
    core.step();
    let cycles = core.get_cycles();
    assert_eq!(core.load_rom(&[0u8; 16]), Err(LoadError::TooSmall));
    assert_eq!(core.get_cycles(), cycles);
    assert_eq!(core.bus().cartridge().header.title, "TESTROM");
}

#[test]
fn input_reaches_joypad_register() {
    let mut core = GameBoyCore::new();
    core.set_input(7, true);
    assert_eq!(core.bus().read(0xFF00), 0x7F);
    core.set_input(7, false);
    assert_eq!(core.bus().read(0xFF00), 0xFF);
}

#[test]
fn reset_clears_cycle_count_and_whitens_screen() {
    let mut core = GameBoyCore::new();
    core.load_rom(&vec![0u8; 32768]).unwrap();
    core.step();
    core.reset();
    assert_eq!(core.get_cycles(), 0);
    assert!(core.get_pixels().iter().all(|&b| b == 255));
    assert_eq!(core.cpu().registers().pc, 0x0100);
}

#[test]
fn palette_comes_from_io_block() {
    // LD HL,0xFF47; LD (HL),0x00; then NOPs: every shade becomes white
    let mut rom = vec![0u8; 0x8000];
    rom[0x100..0x105].copy_from_slice(&[0x21, 0x47, 0xFF, 0x36, 0x00]);
    let mut core = GameBoyCore::new();
    core.load_rom(&rom).unwrap();
    assert_eq!(core.bus().read(0xFF47), 0xFC);
    assert_eq!(core.bus().read(0xFF40), 0x91);
    core.step();
    assert_eq!(core.bus().read(0xFF47), 0x00);
    assert!(core.get_pixels().iter().all(|&b| b == 255));
}

#[test]
fn scanline_is_published_at_ly() {
    let mut core = GameBoyCore::new();
    core.load_rom(&vec![0u8; 32768]).unwrap();
    core.step();
    assert_eq!(core.bus().read(0xFF44), 0);
    assert_eq!(core.ppu().scanline(), 0);
}
