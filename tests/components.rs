use rusty_boy_core::gpu::{get_monochrome_palette_value, Mode, GPU};
use rusty_boy_core::header::{checksum_ok, get_licencee_name, Header};
use rusty_boy_core::keypad::{key_from_char, key_from_name, keycode_to_key, Key};
use rusty_boy_core::mbc::{from_rom, get_number_ram_banks, get_number_rom_banks, Cartridge, MBC};
use rusty_boy_core::serial::Serial;
use rusty_boy_core::timer::Timer;

fn cart_rom(kind: u8, rom_size: u8, ram_size: u8, banks: usize) -> Vec<u8> {
    let mut rom = vec![0u8; banks * 0x4000];
    for b in 0..banks {
        rom[b * 0x4000] = b as u8;
    }
    rom[0x147] = kind;
    rom[0x148] = rom_size;
    rom[0x149] = ram_size;
    rom
}

#[test]
fn palette_maps_fields_to_grey_levels() {
    assert_eq!(get_monochrome_palette_value(0xE4, 0), 255);
    assert_eq!(get_monochrome_palette_value(0xE4, 1), 192);
    assert_eq!(get_monochrome_palette_value(0xE4, 2), 96);
    assert_eq!(get_monochrome_palette_value(0xE4, 3), 0);
    assert_eq!(get_monochrome_palette_value(0xFC, 0), 255);
    assert_eq!(get_monochrome_palette_value(0xFC, 1), 0);
}

#[test]
fn ppu_line_takes_456_cycles() {
    let mut gpu = GPU::new();
    gpu.write(0xFF40, 0x91);
    // Run out the vertical blank the LCD starts in.
    let mut guard = 0;
    while gpu.ppu.mode != Mode::OAM {
        gpu.step(4);
        guard += 1;
        assert!(guard < 20_000);
    }
    assert_eq!(gpu.read(0xFF44), 0);
    let mut cycles = 0u32;
    while gpu.read(0xFF44) == 0 {
        gpu.step(4);
        cycles += 4;
    }
    assert_eq!(cycles, 456);
    assert_eq!(gpu.ppu.mode, Mode::OAM);
    // A whole frame of 154 lines brings LY back to 1.
    let mut frame = 0u32;
    loop {
        gpu.step(4);
        frame += 4;
        if gpu.read(0xFF44) == 1 && gpu.ppu.mode == Mode::OAM && gpu.ppu.clock == 0 {
            break;
        }
    }
    assert_eq!(frame, 154 * 456);
}

#[test]
fn vblank_raises_interrupt_and_lcd_off_clears() {
    let mut gpu = GPU::new();
    gpu.write(0xFF40, 0x91);
    assert_eq!(gpu.ppu.interrupt & 0x01, 0x01);
    gpu.data[0] = 0;
    gpu.write(0xFF40, 0x11);
    assert!(gpu.screen_data().iter().all(|&b| b == 255));
    assert_eq!(gpu.read(0xFF44), 0);
    assert_eq!(gpu.read(0xFF41) & 0x03, 0);
}

#[test]
fn lcd_registers_read_back() {
    let mut gpu = GPU::new();
    gpu.write(0xFF40, 0xD3);
    assert_eq!(gpu.read(0xFF40), 0xD3);
    gpu.write(0xFF41, 0x78);
    assert_eq!(gpu.read(0xFF41) & 0xF8, 0xF8);
    gpu.write(0xFF42, 7);
    gpu.write(0xFF43, 9);
    gpu.write(0xFF4A, 11);
    gpu.write(0xFF4B, 13);
    assert_eq!((gpu.read(0xFF42), gpu.read(0xFF43), gpu.read(0xFF4A), gpu.read(0xFF4B)), (7, 9, 11, 13));
    gpu.write(0xFF44, 99);
    assert_eq!(gpu.read(0xFF44), 0);
}

#[test]
fn timer_registers_and_divider() {
    let mut t = Timer::new();
    t.write(0xFF07, 0x06);
    assert_eq!(t.read(0xFF07), 0xFE);
    t.step(20);
    assert_eq!(t.read(0xFF04), 5);
    t.write(0xFF04, 0x77);
    assert_eq!(t.read(0xFF04), 0);
    t.write(0xFF06, 0x10);
    t.write(0xFF05, 0xFE);
    t.step(1);
    assert_eq!(t.read(0xFF05), 0xFE);
    assert_eq!(t.interrupt, 0);
    t.step(2);
    assert_eq!(t.read(0xFF05), 0x10);
    assert_eq!(t.interrupt, 0x04);
}

#[test]
fn serial_registers_store() {
    let mut s = Serial::new();
    s.write(0xFF01, 0x42);
    s.write(0xFF02, 0x81);
    assert_eq!(s.read(0xFF01), 0x42);
    assert_eq!(s.read(0xFF02), 0x81);
}

#[test]
fn bank_count_tables() {
    assert_eq!(get_number_rom_banks(0x00), Some(2));
    assert_eq!(get_number_rom_banks(0x07), Some(256));
    assert_eq!(get_number_rom_banks(0x54), Some(96));
    assert_eq!(get_number_rom_banks(0x08), None);
    assert_eq!(get_number_ram_banks(0x03), Some(4));
    assert_eq!(get_number_ram_banks(0x06), None);
}

#[test]
fn mbc1_banking() {
    let rom = cart_rom(0x03, 0x05, 0x03, 64);
    let mut c = from_rom(&rom).unwrap();
    assert!(c.has_battery());
    assert_eq!(c.read_rom(0x4000), 1);
    c.write_rom(0x2000, 0x00);
    assert_eq!(c.read_rom(0x4000), 1);
    c.write_rom(0x2000, 0x05);
    assert_eq!(c.read_rom(0x4000), 5);
    c.write_rom(0x4000, 0x01);
    assert_eq!(c.read_rom(0x4000), 0x25);
    assert_eq!(c.read_rom(0x0000), 0);
    c.write_rom(0x6000, 0x01);
    assert_eq!(c.read_rom(0x0000), 0x20);
    // RAM is off until enabled.
    assert_eq!(c.read_ram(0xA000), 0xFF);
    c.write_rom(0x0000, 0x0A);
    c.write_ram(0xA000, 0x5A);
    assert_eq!(c.read_ram(0xA000), 0x5A);
    c.write_rom(0x4000, 0x00);
    assert_eq!(c.read_ram(0xA000), 0x00);
}

#[test]
fn mbc5_banking() {
    let rom = cart_rom(0x1B, 0x03, 0x02, 16);
    let mut c = from_rom(&rom).unwrap();
    assert!(matches!(c, Cartridge::Mbc5(_)));
    c.write_rom(0x2000, 0x0F);
    assert_eq!(c.read_rom(0x4000), 15);
    c.write_rom(0x2000, 0x00);
    assert_eq!(c.read_rom(0x4000), 0);
    assert_eq!(c.read_ram(0xA000), 0);
    c.write_rom(0x0000, 0x0A);
    c.write_ram(0xA123, 0x77);
    assert_eq!(c.read_ram(0xA123), 0x77);
}

#[test]
fn no_mbc_reads_rom_directly() {
    let mut rom = cart_rom(0x00, 0x00, 0x00, 2);
    rom[0x7FFF] = 0x99;
    let mut c = from_rom(&rom).unwrap();
    assert_eq!(c.read_rom(0x7FFF), 0x99);
    c.write_rom(0x2000, 0x01);
    assert_eq!(c.read_rom(0x4000), 1);
    assert_eq!(c.read_ram(0xA000), 0);
    assert!(!c.has_battery());
}

#[test]
fn header_fields_and_checksum() {
    let mut h = [0u8; 0x50];
    h[0x34..0x3A].copy_from_slice(b"TETRIS");
    h[0x44] = 0x01;
    h[0x45] = 0x00;
    h[0x4B] = 0x01;
    h[0x4E] = 0x12;
    h[0x4F] = 0x34;
    let mut c: u8 = 0;
    for i in 0x34..0x4D {
        c = c.wrapping_sub(h[i]).wrapping_sub(1);
    }
    h[0x4D] = c;
    assert!(checksum_ok(&h));
    let header = Header::load_rom(&h);
    assert_eq!(header.title(), "TETRIS");
    assert_eq!(header.manufacturer_code(), "");
    assert_eq!(header.new_licensee_code, 0x0001);
    assert_eq!(header.global_checksum, 0x1234);
    assert_eq!(header.licencee(), "Nintendo");
    h[0x4D] = c.wrapping_add(1);
    assert!(!checksum_ok(&h));
}

#[test]
fn title_with_high_bytes_is_decoded_lossily() {
    let mut h = [0u8; 0x50];
    h[0x34] = b'A';
    h[0x35] = 0xFF;
    h[0x36] = b'B';
    let header = Header::load_rom(&h);
    assert_eq!(header.title(), "A\u{FFFD}B");
}

#[test]
fn licencee_names() {
    assert_eq!(get_licencee_name(0x0000, 0x33), "None");
    assert_eq!(get_licencee_name(0x0008, 0x33), "Capcom");
    assert_eq!(get_licencee_name(0x0042, 0x33), "Unknown new");
    assert_eq!(get_licencee_name(0x0000, 0x08), "Capcom");
    assert_eq!(get_licencee_name(0x0000, 0x42), "Unknown old");
}

#[test]
fn key_names_and_codes() {
    assert_eq!(key_from_name("Up"), Some(Key::Up));
    assert_eq!(key_from_name("Select"), Some(Key::Select));
    assert_eq!(key_from_name("up"), None);
    assert_eq!(key_from_name(""), None);
    assert_eq!(keycode_to_key(81), Some(Key::Left));
    assert_eq!(keycode_to_key(13), Some(Key::Start));
    assert_eq!(keycode_to_key(0), None);
    assert_eq!(key_from_char('z'), Some(Key::Up));
    assert_eq!(key_from_char('\r'), Some(Key::Start));
    assert_eq!(key_from_char('x'), None);
}

#[test]
fn sprite_drawn_over_background() {
    let mut gpu = GPU::new();
    // Tile 1, row 0: colour 1 on all eight pixels.
    gpu.write(0x8010, 0xFF);
    gpu.write(0x8011, 0x00);
    // OAM entry 0 at the top-left corner, tile 1, no flags; entry 1 with BG priority.
    gpu.write(0xFE00, 16);
    gpu.write(0xFE01, 8);
    gpu.write(0xFE02, 1);
    gpu.write(0xFE03, 0x00);
    gpu.write(0xFE04, 16);
    gpu.write(0xFE05, 20);
    gpu.write(0xFE06, 1);
    gpu.write(0xFE07, 0x80);
    gpu.write(0xFF48, 0xE4);
    gpu.write(0xFF47, 0xE4);
    gpu.write(0xFF40, 0x93);
    // Run out the vertical blank the LCD starts in, then draw line 0.
    let mut guard = 0;
    while gpu.ppu.mode != Mode::OAM {
        gpu.step(4);
        guard += 1;
        assert!(guard < 40_000);
    }
    while gpu.read(0xFF44) == 0 {
        gpu.step(4);
    }
    let screen = gpu.screen_data();
    for x in 0..8 {
        assert_eq!(screen[x * 3], 192);
    }
    assert_eq!(screen[8 * 3], 255);
    // The priority sprite shows over the lightest background shade.
    assert_eq!(screen[12 * 3], 192);
    assert_eq!(screen[20 * 3], 255);
}
