//! MBC5: up to 8 MiB of ROM (nine-bit bank) and 128 KiB of RAM.
use super::{
    get_number_ram_banks, get_number_rom_banks, initial_cart, is_mbc5_type, ram_banks_of,
    rom_banks_of, type_has_ram, CartKind, CartState, MBC,
};
use vstd::prelude::*;

verus! {

pub struct MBC5 {
    pub rom: Vec<u8>,
    pub ram: Vec<u8>,
    pub rom_bank: usize,
    pub ram_bank: usize,
    pub ram_on: bool,
    pub has_battery: bool,
    pub rombanks: usize,
    pub rambanks: usize,
}

impl MBC5 {
    pub fn new(data: &Vec<u8>) -> (r: MBC5)
        requires
            data@.len() > 0x150,
            is_mbc5_type(data@[0x147]),
            rom_banks_of(data@[0x148]) is Some,
            type_has_ram(data@[0x147]) ==> ram_banks_of(data@[0x149]) is Some,
        ensures
            r.wf(),
            r.cart() == initial_cart(data@),
    {
        let rom_type = data[0x147];
        let has_battery = rom_type == 0x1B || rom_type == 0x1E;
        let rambanks = if rom_type == 0x1A || rom_type == 0x1B || rom_type == 0x1D || rom_type
            == 0x1E {
            match get_number_ram_banks(data[0x149]) {
                Some(n) => n,
                None => 0,
            }
        } else {
            0
        };
        let rombanks = match get_number_rom_banks(data[0x148]) {
            Some(n) => n,
            None => 2,
        };
        let res = MBC5 {
            rom: data.clone(),
            ram: vec![0u8; 0x2000 * rambanks],
            rom_bank: 1,
            ram_bank: 0,
            ram_on: false,
            has_battery,
            rombanks,
            rambanks,
        };
        assert(res.rom@ =~= data@);
        assert(res.ram@ =~= initial_cart(data@).ram);
        res
    }
}

impl MBC for MBC5 {
    open spec fn cart(&self) -> CartState {
        CartState {
            kind: CartKind::Mbc5,
            rom: self.rom@,
            ram: self.ram@,
            rom_banks: self.rombanks as int,
            ram_banks: self.rambanks as int,
            rom_bank: self.rom_bank as int,
            ram_bank: self.ram_bank as int,
            ram_enabled: self.ram_on,
            mode1: false,
            has_battery: self.has_battery,
        }
    }

    open spec fn wf(&self) -> bool {
        &&& 2 <= self.rombanks <= 256
        &&& self.rom_bank < self.rombanks
        &&& self.rambanks <= 16
        &&& self.ram_bank < 16
        &&& self.ram@.len() == self.rambanks * 0x2000
    }

    fn read_rom(&self, a: u16) -> (r: u8) {
        let index = if a < 0x4000 {
            a as usize
        } else {
            self.rom_bank * 0x4000 + (a as usize % 0x4000)
        };
        if index < self.rom.len() {
            self.rom[index]
        } else {
            0x00
        }
    }

    fn write_rom(&mut self, a: u16, v: u8) {
        if a < 0x2000 {
            self.ram_on = v % 16 == 0x0A;
        } else if a < 0x3000 {
            self.rom_bank = ((self.rom_bank / 256) * 256 + v as usize) % self.rombanks;
        } else if a < 0x4000 {
            self.rom_bank = (self.rom_bank % 256 + (v % 2) as usize * 256) % self.rombanks;
        } else if a < 0x6000 {
            self.ram_bank = if self.rambanks > 0 {
                (v % 16) as usize % self.rambanks
            } else {
                0
            };
        }
    }

    fn read_ram(&self, a: u16) -> (r: u8) {
        if !self.ram_on {
            return 0;
        }
        let index = self.ram_bank * 0x2000 + (a as usize % 0x2000);
        if index < self.ram.len() {
            self.ram[index]
        } else {
            0
        }
    }

    fn write_ram(&mut self, a: u16, v: u8) {
        if !self.ram_on {
            return ;
        }
        let index = self.ram_bank * 0x2000 + (a as usize % 0x2000);
        if index < self.ram.len() {
            self.ram.set(index, v);
        }
    }

    fn has_battery(&self) -> (r: bool) {
        self.has_battery
    }
}

} // verus!
