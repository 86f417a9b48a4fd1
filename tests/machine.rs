use rusty_boy_core::error::{Fault, RomError};
use rusty_boy_core::gameboy::{Gameboy, CYCLES_PER_FRAME, MAX_STEP_CYCLES};
use rusty_boy_core::keypad::{Key, KeyEvent};

/// A 32 KiB ROM with no controller, the title "TEST" and a correct header checksum.
fn test_rom() -> Vec<u8> {
    let mut rom = vec![0u8; 0x8000];
    rom[0x134..0x138].copy_from_slice(b"TEST");
    rom[0x147] = 0x00;
    rom[0x148] = 0x00;
    rom[0x149] = 0x00;
    fix_checksum(&mut rom);
    rom
}

fn fix_checksum(rom: &mut Vec<u8>) {
    let mut c: u8 = 0;
    for i in 0x134..0x14D {
        c = c.wrapping_sub(rom[i]).wrapping_sub(1);
    }
    rom[0x14D] = c;
}

/// A ROM whose entry point jumps to itself: JP 0x0100.
fn looping_rom() -> Vec<u8> {
    let mut rom = test_rom();
    rom[0x100] = 0xC3;
    rom[0x101] = 0x00;
    rom[0x102] = 0x01;
    fix_checksum(&mut rom);
    rom
}

#[test]
fn construction_from_minimal_rom() {
    let gb = Gameboy::new_from_data(&test_rom(), false).unwrap();
    assert_eq!(gb.header().title(), "TEST");
    assert_eq!(gb.header().manufacturer_code(), "");
    assert_eq!(gb.header().cgb_flag(), 0x00);
    assert_eq!(gb.header().cartridge_type(), 0x00);
}

#[test]
fn invalid_checksum_rejected() {
    let mut rom = test_rom();
    rom[0x14D] = rom[0x14D].wrapping_add(1);
    assert!(matches!(Gameboy::new_from_data(&rom, false), Err(RomError::BadChecksum)));
    assert!(Gameboy::new_from_data(&rom, true).is_ok());
}

#[test]
fn post_reset_register_state() {
    let gb = Gameboy::new_from_data(&test_rom(), false).unwrap();
    let r = &gb.cpu.registers;
    assert_eq!((r.a, r.f, r.b, r.c, r.d, r.e, r.h, r.l), (0x01, 0xB0, 0x00, 0x13, 0x00, 0xD8, 0x01, 0x4D));
    assert_eq!(r.sp, 0xFFFE);
    assert_eq!(r.pc, 0x0100);
    assert_eq!(gb.cpu.memory.read(0xFF0F), 0);
    assert_eq!(gb.cpu.memory.read(0xFFFF), 0);
    assert_eq!(gb.cpu.memory.read(0xFF40), 0x91);
    assert_eq!(gb.cpu.memory.read(0xFF47), 0xFC);
}

#[test]
fn nop_frame_leaves_screen_light() {
    let mut gb = Gameboy::new_from_data(&looping_rom(), false).unwrap();
    let cycles = gb.run_frame().unwrap();
    assert!(cycles >= CYCLES_PER_FRAME);
    assert!(cycles < CYCLES_PER_FRAME + MAX_STEP_CYCLES);
    assert!(gb.get_screen_data().iter().all(|&b| b == 255));
    assert_eq!(gb.cpu.registers.pc, 0x0100);
    for a in 0xC000u16..0xE000 {
        assert_eq!(gb.cpu.memory.read(a), 0);
    }
}

#[test]
fn frame_charges_at_least_a_frame() {
    let mut gb = Gameboy::new_from_data(&looping_rom(), false).unwrap();
    for _ in 0..3 {
        let cycles = gb.run_frame().unwrap();
        assert!(cycles >= 70_224 && cycles < 70_224 + 24);
    }
}

#[test]
fn framebuffer_holds_only_grey_levels() {
    let rom = looping_rom();
    let mut gb = Gameboy::new_from_data(&rom, false).unwrap();
    // Row 0 of tile 0: colour 3 on the left half, colour 2 on the right.
    gb.cpu.memory.write(0x8000, 0xF0);
    gb.cpu.memory.write(0x8001, 0xFF);
    gb.cpu.memory.write(0xFF47, 0xE4);
    gb.run_frame().unwrap();
    gb.run_frame().unwrap();
    let screen = gb.get_screen_data();
    for p in screen.chunks(3) {
        assert!(p[0] == 0 || p[0] == 96 || p[0] == 192 || p[0] == 255);
        assert_eq!(p[0], p[1]);
        assert_eq!(p[0], p[2]);
    }
    // Row 0 of every tile: four pixels of colour 3 (black), four of colour 2.
    assert_eq!(screen[0], 0);
    assert_eq!(screen[3 * 4], 96);
}

#[test]
fn joypad_interrupt_is_serviced() {
    let mut gb = Gameboy::new_from_data(&looping_rom(), false).unwrap();
    gb.cpu.memory.write(0xFFFF, 0x10);
    gb.cpu.memory.write(0xFF00, 0x20);
    gb.cpu.ime = true;
    gb.update_input(KeyEvent::Press(Key::Right));
    gb.cpu.step().unwrap();
    assert_eq!(gb.cpu.memory.read(0xFF0F) & 0x10, 0x10);
    let sp = gb.cpu.registers.sp;
    let pc = gb.cpu.registers.pc;
    gb.cpu.handle_interrupt();
    assert_eq!(gb.cpu.registers.pc, 0x0060);
    assert_eq!(gb.cpu.registers.sp, sp.wrapping_sub(2));
    assert_eq!(gb.cpu.memory.read_word(gb.cpu.registers.sp), pc);
    assert_eq!(gb.cpu.memory.read(0xFF0F) & 0x10, 0);
    assert!(!gb.cpu.ime);
}

#[test]
fn timer_overflow_reloads_and_interrupts() {
    let mut gb = Gameboy::new_from_data(&looping_rom(), false).unwrap();
    gb.cpu.memory.write(0xFF07, 0x05);
    gb.cpu.memory.write(0xFF06, 0xAB);
    gb.cpu.memory.write(0xFF05, 0xFF);
    gb.cpu.memory.step(4);
    assert_eq!(gb.cpu.memory.read(0xFF05), 0xAB);
    assert_eq!(gb.cpu.memory.read(0xFF0F) & 0x04, 0x04);
}

#[test]
fn short_rom_rejected() {
    let rom = vec![0u8; 0x150];
    assert!(matches!(Gameboy::new_from_data(&rom, true), Err(RomError::TooShort)));
}

#[test]
fn unsupported_cartridge_rejected() {
    let mut rom = test_rom();
    rom[0x147] = 0x05;
    fix_checksum(&mut rom);
    assert!(matches!(Gameboy::new_from_data(&rom, false), Err(RomError::UnsupportedCartridge(0x05))));
}

#[test]
fn bad_size_bytes_rejected() {
    let mut rom = test_rom();
    rom[0x147] = 0x01;
    rom[0x148] = 0x09;
    fix_checksum(&mut rom);
    assert!(matches!(Gameboy::new_from_data(&rom, false), Err(RomError::InvalidRomSize(0x09))));
    rom[0x147] = 0x03;
    rom[0x148] = 0x00;
    rom[0x149] = 0x07;
    fix_checksum(&mut rom);
    assert!(matches!(Gameboy::new_from_data(&rom, false), Err(RomError::InvalidRamSize(0x07))));
}

#[test]
fn unknown_opcode_is_a_fault() {
    let mut rom = test_rom();
    rom[0x100] = 0xD3;
    fix_checksum(&mut rom);
    let mut gb = Gameboy::new_from_data(&rom, false).unwrap();
    assert_eq!(gb.run_frame(), Err(Fault::UnknownOpcode(0xD3)));
}

#[test]
fn interrupt_without_vector_is_a_fault() {
    let mut gb = Gameboy::new_from_data(&looping_rom(), false).unwrap();
    gb.cpu.memory.write(0xFFFF, 0x20);
    gb.cpu.memory.write(0xFF0F, 0x20);
    gb.cpu.ime = true;
    assert_eq!(gb.cpu.step(), Err(Fault::UnknownInterrupt));
}

#[test]
fn halt_idles_until_interrupt() {
    let mut rom = test_rom();
    rom[0x100] = 0x76;
    fix_checksum(&mut rom);
    let mut gb = Gameboy::new_from_data(&rom, false).unwrap();
    assert_eq!(gb.cpu.step(), Ok(4));
    assert!(gb.cpu.halt);
    assert_eq!(gb.cpu.step(), Ok(4));
    assert_eq!(gb.cpu.registers.pc, 0x0101);
    gb.cpu.memory.write(0xFFFF, 0x04);
    gb.cpu.memory.write(0xFF0F, 0x04);
    gb.cpu.step().unwrap();
    assert!(!gb.cpu.halt);
    assert_eq!(gb.cpu.registers.pc, 0x0102);
}
