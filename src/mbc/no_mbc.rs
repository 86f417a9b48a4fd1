//! A cartridge of 32 KiB of ROM and nothing else.
use super::{CartKind, CartState, MBC};
use vstd::prelude::*;

verus! {

pub struct NoMBC {
    pub rom: Vec<u8>,
}

impl NoMBC {
    pub fn new(rom: &Vec<u8>) -> (r: Self)
        ensures
            r.rom@ == rom@,
    {
        let r = NoMBC { rom: rom.clone() };
        assert(r.rom@ =~= rom@);
        r
    }
}

impl MBC for NoMBC {
    open spec fn cart(&self) -> CartState {
        CartState {
            kind: CartKind::NoMbc,
            rom: self.rom@,
            ram: Seq::empty(),
            rom_banks: 0,
            ram_banks: 0,
            rom_bank: 0,
            ram_bank: 0,
            ram_enabled: false,
            mode1: false,
            has_battery: false,
        }
    }

    open spec fn wf(&self) -> bool {
        true
    }

    fn read_rom(&self, address: u16) -> (r: u8) {
        if (address as usize) < self.rom.len() {
            self.rom[address as usize]
        } else {
            0xFF
        }
    }

    fn write_rom(&mut self, address: u16, value: u8) {
    }

    fn read_ram(&self, address: u16) -> (r: u8) {
        0
    }

    fn write_ram(&mut self, address: u16, value: u8) {
    }

    fn has_battery(&self) -> (r: bool) {
        false
    }
}

} // verus!
