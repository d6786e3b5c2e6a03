use rgb::cart::{Cart, CartridgeType};
use rgb::joypad::{Joypad, JoypadButtons};
use rgb::ppu::Ppu;
use rgb::timer::Timer;

#[test]
fn test() {}

#[test]
fn test_timer_tima_overflow_at_262144_hz() {
    let mut timer = Timer::new();
    timer.write_register(0xFF07, 0b101); // enabled, one tick per 16 T-cycles
    timer.write_register(0xFF06, 0x23); // TMA

    // 16 * 255 = 4080 T-cycles bring TIMA to 0xFF without overflowing.
    let mut interrupted = false;
    for _ in 0..255 {
        interrupted = interrupted || timer.step(16);
    }
    assert!(!interrupted);
    assert_eq!(timer.read_register(0xFF05), 0xFF);

    // One more tick reloads TIMA from TMA and requests the interrupt.
    assert!(timer.step(16));
    assert_eq!(timer.read_register(0xFF05), 0x23);
}

#[test]
fn test_timer_div_resets_on_write() {
    let mut timer = Timer::new();
    timer.step(1024);
    assert_eq!(timer.read_register(0xFF04), 4);
    timer.write_register(0xFF04, 0x5A);
    assert_eq!(timer.read_register(0xFF04), 0);
}

#[test]
fn test_ppu_line_advances_every_456_cycles() {
    let mut ppu = Ppu::new();
    assert_eq!(ppu.read_register(0xFF44), 0);
    ppu.step(456);
    assert_eq!(ppu.read_register(0xFF44), 1);
    ppu.step(455);
    assert_eq!(ppu.read_register(0xFF44), 1);
    ppu.step(1);
    assert_eq!(ppu.read_register(0xFF44), 2);
}

#[test]
fn test_ppu_ly_wraps_after_153() {
    let mut ppu = Ppu::new();
    for _ in 0..154 {
        ppu.step(456);
    }
    assert_eq!(ppu.read_register(0xFF44), 0);
}

#[test]
fn test_ppu_vblank_at_line_144() {
    let mut ppu = Ppu::new();
    for _ in 0..143 {
        ppu.step(456);
    }
    assert!(!ppu.take_vblank_interrupt());
    ppu.step(456);
    assert!(ppu.take_vblank_interrupt());
    assert_eq!(ppu.read_register(0xFF44), 144);
}

#[test]
fn test_ppu_ly_write_is_ignored() {
    let mut ppu = Ppu::new();
    ppu.step(456);
    ppu.write_register(0xFF44, 0x99);
    assert_eq!(ppu.read_register(0xFF44), 1);
}

#[test]
fn test_joypad_direction_nibble() {
    let mut joypad = Joypad::new();
    let mut buttons = JoypadButtons::new();
    buttons.down = true;
    buttons.a = true;
    let edge = joypad.update_buttons(buttons);
    assert!(edge);

    joypad.write_register(0xEF); // select the direction group (bit 4 low)
    let value = joypad.read_register();
    assert_eq!(value & 0x0F, 0x07); // down pressed clears bit 3

    joypad.write_register(0xDF); // select the action group (bit 5 low)
    let value = joypad.read_register();
    assert_eq!(value & 0x0F, 0x0E); // a pressed clears bit 0
}

#[test]
fn test_joypad_no_group_selected() {
    let mut joypad = Joypad::new();
    let mut buttons = JoypadButtons::new();
    buttons.start = true;
    joypad.update_buttons(buttons);
    joypad.write_register(0xFF);
    assert_eq!(joypad.read_register() & 0x0F, 0x0F);
}

fn mbc3_rom() -> Vec<u8> {
    let mut rom = vec![0u8; 0x8000 * 8];
    rom[0x0147] = 0x13; // MBC3 with RAM and battery
    rom[0x0149] = 0x03; // 32 KiB of external RAM
    for (i, b) in b"BANKTEST".iter().enumerate() {
        rom[0x0134 + i] = *b;
    }
    // A marker at the start of each switchable bank.
    for bank in 0..16 {
        rom[bank * 0x4000] = bank as u8;
    }
    rom
}

#[test]
fn test_mbc3_bank_switching() {
    let mut cart = Cart::new(mbc3_rom());
    assert!(matches!(cart.cartridge_type, CartridgeType::Mbc3RamBattery));
    assert_eq!(cart.read(0x4000), 1); // bank 1 after reset
    cart.write(0x2000, 5);
    assert_eq!(cart.read(0x4000), 5);
    cart.write(0x2000, 0); // bank 0 is unselectable and maps to 1
    assert_eq!(cart.read(0x4000), 1);
}

#[test]
fn test_mbc3_ram_enable_gate() {
    let mut cart = Cart::new(mbc3_rom());
    assert_eq!(cart.read_ram(0xA000), 0xFF); // disabled reads 0xFF
    cart.write_ram(0xA000, 0x55); // discarded while disabled
    cart.write(0x0000, 0x0A); // enable
    assert_eq!(cart.read_ram(0xA000), 0x00);
    cart.write_ram(0xA000, 0x55);
    assert_eq!(cart.read_ram(0xA000), 0x55);
    cart.write(0x0000, 0x00); // disable again
    assert_eq!(cart.read_ram(0xA000), 0xFF);
}

#[test]
fn test_mbc1_banking_mode() {
    let mut rom = vec![0u8; 0x4000 * 64];
    rom[0x0147] = 0x01; // MBC1
    for bank in 0..64 {
        rom[bank * 0x4000] = bank as u8;
    }
    let mut cart = Cart::new(rom);
    cart.write(0x2000, 2); // low bank bits
    cart.write(0x4000, 1); // upper bank bits
    // ROM-banking mode composes the upper bits into the bank number.
    assert_eq!(cart.read(0x4000), 34);
    cart.write(0x6000, 1); // RAM-banking mode drops the upper bits
    assert_eq!(cart.read(0x4000), 2);
}

#[test]
fn test_cart_title() {
    let cart = Cart::new(mbc3_rom());
    assert_eq!(cart.get_title(), "BANKTEST");
}

#[test]
fn test_rom_only_ignores_bank_writes() {
    let mut rom = vec![0u8; 0x8000];
    rom[0x0147] = 0x00;
    rom[0x4000] = 0xAA;
    let mut cart = Cart::new(rom);
    cart.write(0x2000, 3);
    assert_eq!(cart.read(0x4000), 0xAA);
}

#[test]
fn test_sprite_priority_uses_raw_background_index() {
    let mut ppu = Ppu::new();
    // LCD on, unsigned tiles, sprites on, background on.
    ppu.write_register(0xFF40, 0x93);
    // BGP maps every index to shade 0; OBP0 maps index 1 to shade 3.
    ppu.write_register(0xFF47, 0x00);
    ppu.write_register(0xFF48, 0x0C);
    // Tile 0: raw index 1 everywhere; tile 1: raw index 0; tile 2 is the
    // sprite's, raw index 1.
    for row in 0..8u16 {
        ppu.write_vram(0x8000 + row * 2, 0xFF);
        ppu.write_vram(0x8020 + row * 2, 0xFF);
    }
    // Columns 8-15 of the background read tile 1 (raw index 0).
    ppu.write_vram(0x9801, 1);
    // Two behind-background sprites on line 0: over raw index 1 (x 0-7)
    // and over raw index 0 (x 8-15).
    ppu.write_oam(0xFE00, 16);
    ppu.write_oam(0xFE01, 8);
    ppu.write_oam(0xFE02, 2);
    ppu.write_oam(0xFE03, 0x80);
    ppu.write_oam(0xFE04, 16);
    ppu.write_oam(0xFE05, 16);
    ppu.write_oam(0xFE06, 2);
    ppu.write_oam(0xFE07, 0x80);

    ppu.step(456);
    let fb = ppu.get_frame_buffer();
    // The raw background index at x 0 is 1, even though BGP stores shade
    // 0 there, so the behind-background sprite must not draw.
    assert_eq!(fb[0], 0);
    // At x 8 the raw index is 0, so the sprite shows through.
    assert_eq!(fb[8], 3);
}

#[test]
fn test_sprite_straddling_top_edge_is_kept() {
    let mut ppu = Ppu::new();
    // LCD on, unsigned tiles, sprites on, background off.
    ppu.write_register(0xFF40, 0x92);
    ppu.write_register(0xFF48, 0x0C); // OBP0 maps index 1 to shade 3
    // Tile 2: raw index 1 everywhere.
    for row in 0..8u16 {
        ppu.write_vram(0x8020 + row * 2, 0xFF);
    }
    // OAM Y = 12: the sprite's span [-4, 4) contains line 0.
    ppu.write_oam(0xFE00, 12);
    ppu.write_oam(0xFE01, 8);
    ppu.write_oam(0xFE02, 2);
    ppu.write_oam(0xFE03, 0x00);

    ppu.step(456);
    let fb = ppu.get_frame_buffer();
    assert_eq!(fb[0], 3);
}

#[test]
fn test_sprite_straddling_left_edge_is_clipped_not_dropped() {
    let mut ppu = Ppu::new();
    ppu.write_register(0xFF40, 0x92);
    ppu.write_register(0xFF48, 0x0C);
    for row in 0..8u16 {
        ppu.write_vram(0x8020 + row * 2, 0xFF);
    }
    // OAM X = 4: columns -4..4, so screen columns 0..4 are visible.
    ppu.write_oam(0xFE00, 16);
    ppu.write_oam(0xFE01, 4);
    ppu.write_oam(0xFE02, 2);
    ppu.write_oam(0xFE03, 0x00);

    ppu.step(456);
    let fb = ppu.get_frame_buffer();
    assert_eq!(fb[0], 3);
    assert_eq!(fb[3], 3);
    assert_eq!(fb[4], 0);
}

#[test]
fn test_stop_halts_and_resets_divider() {
    let mut cpu = rgb::cpu::Cpu::new();
    cpu.mmap.step_timer(1024);
    assert_eq!(cpu.mmap.read(0xFF04), 4);
    cpu.mmap.write(0x0000, 0x10); // STOP
    let instruction = cpu.decode().unwrap();
    cpu.execute(instruction);
    assert!(cpu.halted);
    assert_eq!(cpu.mmap.read(0xFF04), 0);
}

#[test]
fn test_halted_dispatch_step_reports_24_cycles() {
    let mut cpu = rgb::cpu::Cpu::new();
    cpu.sp = 0xFFFE;
    cpu.halted = true;
    cpu.ime = true;
    cpu.mmap.write(0xFFFF, 0x01);
    cpu.mmap.write(0xFF0F, 0x01);
    // The step wakes, dispatches to the VBlank vector, and reports the
    // four idle T-cycles plus the twenty of the dispatch.
    let cycles = cpu.step_instruction().unwrap();
    assert_eq!(cycles, 24);
    assert_eq!(cpu.pc, 0x0040);
    assert!(!cpu.halted);

    // A halted step with nothing pending reports the idle four.
    let mut idle = rgb::cpu::Cpu::new();
    idle.halted = true;
    let cycles = idle.step_instruction().unwrap();
    assert_eq!(cycles, 4);
}
