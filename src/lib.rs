//! The core of a Game Boy (DMG) emulator: CPU, memory map, cartridge bank
//! controllers, pixel processing unit, timer and joypad.

pub mod registers;
pub mod alu;
pub mod keypad;
pub mod serial;
pub mod timer;
pub mod error;
pub mod mbc;
pub mod header;
pub mod gpu;
pub mod memory;
pub mod cpu;
pub mod gameboy;
