//! MBC1: up to 2 MiB of ROM and 32 KiB of RAM.
use super::{
    get_number_ram_banks, get_number_rom_banks, initial_cart, is_mbc1_type, ram_banks_of,
    rom_banks_of, type_has_ram, CartKind, CartState, MBC,
};
use vstd::prelude::*;

verus! {

pub struct MBC1 {
    pub rom: Vec<u8>,
    pub ram: Vec<u8>,
    pub rom_banks_number: usize,
    pub ram_banks_number: usize,
    /// The five low bits of the ROM bank; never 0.
    pub rom_bank: usize,
    /// The two-bit register at 0x4000-0x5FFF: RAM bank, or bits 5 and 6 of the ROM bank.
    pub ram_bank: usize,
    pub ram_enabled: bool,
    /// Banking mode 1 (set by a write of an odd value to 0x6000-0x7FFF).
    pub mode1: bool,
    pub has_battery: bool,
}

impl MBC1 {
    pub fn new(rom: &Vec<u8>) -> (r: Self)
        requires
            rom@.len() > 0x150,
            is_mbc1_type(rom@[0x147]),
            rom_banks_of(rom@[0x148]) is Some,
            type_has_ram(rom@[0x147]) ==> ram_banks_of(rom@[0x149]) is Some,
        ensures
            r.wf(),
            r.cart() == initial_cart(rom@),
    {
        let t = rom[0x147];
        let rom_banks = match get_number_rom_banks(rom[0x148]) {
            Some(n) => n,
            None => 2,
        };
        let ram_banks = if t == 0x02 || t == 0x03 {
            match get_number_ram_banks(rom[0x149]) {
                Some(n) => n,
                None => 0,
            }
        } else {
            0
        };
        let ram = vec![0u8; ram_banks * 0x2000];
        let r = MBC1 {
            rom: rom.clone(),
            ram,
            rom_banks_number: rom_banks,
            ram_banks_number: ram_banks,
            rom_bank: 1,
            ram_bank: 0,
            ram_enabled: false,
            mode1: false,
            has_battery: t == 0x03,
        };
        assert(r.rom@ =~= rom@);
        assert(r.ram@ =~= initial_cart(rom@).ram);
        r
    }

    fn ram_offset(&self, address: u16) -> (r: usize)
        requires
            self.wf(),
        ensures
            r == self.cart().ram_index(address),
    {
        let bank = if self.mode1 && self.ram_banks_number > 0 {
            self.ram_bank % self.ram_banks_number
        } else {
            0
        };
        bank * 0x2000 + (address as usize % 0x2000)
    }
}

impl MBC for MBC1 {
    open spec fn cart(&self) -> CartState {
        CartState {
            kind: CartKind::Mbc1,
            rom: self.rom@,
            ram: self.ram@,
            rom_banks: self.rom_banks_number as int,
            ram_banks: self.ram_banks_number as int,
            rom_bank: self.rom_bank as int,
            ram_bank: self.ram_bank as int,
            ram_enabled: self.ram_enabled,
            mode1: self.mode1,
            has_battery: self.has_battery,
        }
    }

    open spec fn wf(&self) -> bool {
        &&& 2 <= self.rom_banks_number <= 256
        &&& 1 <= self.rom_bank < 32
        &&& self.ram_bank < 4
        &&& self.ram_banks_number <= 16
        &&& self.ram@.len() == self.ram_banks_number * 0x2000
    }

    fn read_rom(&self, address: u16) -> (r: u8) {
        let bank = if address < 0x4000 {
            if self.mode1 {
                (self.ram_bank * 32) % self.rom_banks_number
            } else {
                0
            }
        } else {
            (self.ram_bank * 32 + self.rom_bank) % self.rom_banks_number
        };
        let index = bank * 0x4000 + (address as usize % 0x4000);
        if index < self.rom.len() {
            self.rom[index]
        } else {
            0xFF
        }
    }

    fn write_rom(&mut self, address: u16, value: u8) {
        if address < 0x2000 {
            self.ram_enabled = value % 16 == 0x0A;
        } else if address < 0x4000 {
            let low = (value % 32) as usize;
            self.rom_bank = if low == 0 {
                1
            } else {
                low
            };
        } else if address < 0x6000 {
            self.ram_bank = (value % 4) as usize;
        } else {
            self.mode1 = value % 2 == 1;
        }
    }

    fn read_ram(&self, address: u16) -> (r: u8) {
        if !self.ram_enabled {
            return 0xFF;
        }
        let index = self.ram_offset(address);
        if index < self.ram.len() {
            self.ram[index]
        } else {
            0xFF
        }
    }

    fn write_ram(&mut self, address: u16, value: u8) {
        if !self.ram_enabled {
            return ;
        }
        let index = self.ram_offset(address);
        if index < self.ram.len() {
            self.ram.set(index, value);
        }
    }

    fn has_battery(&self) -> (r: bool) {
        self.has_battery
    }
}

} // verus!
