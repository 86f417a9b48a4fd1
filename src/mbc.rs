//! Cartridge memory-bank controllers.
use crate::error::RomError;
use vstd::prelude::*;

pub mod mbc1;
pub mod mbc5;
pub mod no_mbc;

pub use mbc1::MBC1;
pub use mbc5::MBC5;
pub use no_mbc::NoMBC;

verus! {

#[derive(Clone, Copy, Debug, PartialEq, Eq, Structural)]
pub enum CartKind {
    NoMbc,
    Mbc1,
    Mbc5,
}

/// What a cartridge holds and the state of its bank controller.
pub ghost struct CartState {
    pub kind: CartKind,
    pub rom: Seq<u8>,
    pub ram: Seq<u8>,
    pub rom_banks: int,
    pub ram_banks: int,
    /// MBC1: the five low bank bits (never 0). MBC5: the nine-bit ROM bank.
    pub rom_bank: int,
    /// MBC1: the two-bit secondary register. MBC5: the RAM bank.
    pub ram_bank: int,
    pub ram_enabled: bool,
    /// MBC1 banking mode 1.
    pub mode1: bool,
    pub has_battery: bool,
}

/// The byte at `i` of `s`, or `default` past its end.
pub open spec fn byte_or(s: Seq<u8>, i: int, default: u8) -> u8 {
    if 0 <= i < s.len() {
        s[i]
    } else {
        default
    }
}

/// Whether `address` is in the cartridge ROM window.
pub open spec fn is_rom_address(address: u16) -> bool {
    address < 0x8000
}

/// Whether `address` is in the cartridge RAM window.
pub open spec fn is_ram_address(address: u16) -> bool {
    0xA000 <= address < 0xC000
}

impl CartState {
    /// MBC1: the bank mapped at 0x4000-0x7FFF.
    pub open spec fn mbc1_high_bank(self) -> int {
        (self.ram_bank * 32 + self.rom_bank) % self.rom_banks
    }

    /// MBC1: the bank mapped at 0x0000-0x3FFF.
    pub open spec fn mbc1_low_bank(self) -> int {
        if self.mode1 {
            (self.ram_bank * 32) % self.rom_banks
        } else {
            0
        }
    }

    /// MBC1: the RAM bank in use.
    pub open spec fn mbc1_ram_bank(self) -> int {
        if self.mode1 && self.ram_banks > 0 {
            self.ram_bank % self.ram_banks
        } else {
            0
        }
    }

    /// The index into RAM that `address` selects.
    pub open spec fn ram_index(self, address: u16) -> int {
        let bank = match self.kind {
            CartKind::Mbc1 => self.mbc1_ram_bank(),
            _ => self.ram_bank,
        };
        bank * 0x2000 + address as int % 0x2000
    }

    pub open spec fn read_rom(self, address: u16) -> u8 {
        match self.kind {
            CartKind::NoMbc => byte_or(self.rom, address as int, 0xFF),
            CartKind::Mbc1 => {
                let bank = if address < 0x4000 {
                    self.mbc1_low_bank()
                } else {
                    self.mbc1_high_bank()
                };
                byte_or(self.rom, bank * 0x4000 + address as int % 0x4000, 0xFF)
            },
            CartKind::Mbc5 => {
                let index = if address < 0x4000 {
                    address as int
                } else {
                    self.rom_bank * 0x4000 + address as int % 0x4000
                };
                byte_or(self.rom, index, 0x00)
            },
        }
    }

    /// A write to the ROM window sets the controller's registers.
    pub open spec fn write_rom(self, address: u16, value: u8) -> CartState {
        match self.kind {
            CartKind::NoMbc => self,
            CartKind::Mbc1 => if address < 0x2000 {
                CartState { ram_enabled: value % 16 == 0x0A, ..self }
            } else if address < 0x4000 {
                CartState {
                    rom_bank: if value % 32 == 0 {
                        1
                    } else {
                        value as int % 32
                    },
                    ..self
                }
            } else if address < 0x6000 {
                CartState { ram_bank: value as int % 4, ..self }
            } else {
                CartState { mode1: value % 2 == 1, ..self }
            },
            CartKind::Mbc5 => if address < 0x2000 {
                CartState { ram_enabled: value % 16 == 0x0A, ..self }
            } else if address < 0x3000 {
                CartState {
                    rom_bank: ((self.rom_bank / 256) * 256 + value) % self.rom_banks,
                    ..self
                }
            } else if address < 0x4000 {
                CartState {
                    rom_bank: (self.rom_bank % 256 + (value % 2) * 256) % self.rom_banks,
                    ..self
                }
            } else if address < 0x6000 {
                CartState {
                    ram_bank: if self.ram_banks > 0 {
                        (value as int % 16) % self.ram_banks
                    } else {
                        0
                    },
                    ..self
                }
            } else {
                self
            },
        }
    }

    pub open spec fn read_ram(self, address: u16) -> u8 {
        match self.kind {
            CartKind::NoMbc => 0,
            CartKind::Mbc1 => if self.ram_enabled {
                byte_or(self.ram, self.ram_index(address), 0xFF)
            } else {
                0xFF
            },
            CartKind::Mbc5 => if self.ram_enabled {
                byte_or(self.ram, self.ram_index(address), 0)
            } else {
                0
            },
        }
    }

    pub open spec fn write_ram(self, address: u16, value: u8) -> CartState {
        let i = self.ram_index(address);
        if self.kind != CartKind::NoMbc && self.ram_enabled && 0 <= i < self.ram.len() {
            CartState { ram: self.ram.update(i, value), ..self }
        } else {
            self
        }
    }
}

/// The contract that every cartridge controller keeps.
pub trait MBC {
    spec fn cart(&self) -> CartState;

    spec fn wf(&self) -> bool;

    fn read_rom(&self, address: u16) -> (r: u8)
        requires
            self.wf(),
            is_rom_address(address),
        ensures
            r == self.cart().read_rom(address),
    ;

    /// Sets the controller's registers.
    fn write_rom(&mut self, address: u16, value: u8)
        requires
            old(self).wf(),
            is_rom_address(address),
        ensures
            final(self).wf(),
            final(self).cart() == old(self).cart().write_rom(address, value),
    ;

    fn read_ram(&self, address: u16) -> (r: u8)
        requires
            self.wf(),
            is_ram_address(address),
        ensures
            r == self.cart().read_ram(address),
    ;

    fn write_ram(&mut self, address: u16, value: u8)
        requires
            old(self).wf(),
            is_ram_address(address),
        ensures
            final(self).wf(),
            final(self).cart() == old(self).cart().write_ram(address, value),
    ;

    fn has_battery(&self) -> (r: bool)
        ensures
            r == self.cart().has_battery,
    ;
}

/// The controller that a cartridge header selects.
pub enum Cartridge {
    NoMbc(NoMBC),
    Mbc1(MBC1),
    Mbc5(MBC5),
}

impl MBC for Cartridge {
    open spec fn cart(&self) -> CartState {
        match self {
            Cartridge::NoMbc(m) => m.cart(),
            Cartridge::Mbc1(m) => m.cart(),
            Cartridge::Mbc5(m) => m.cart(),
        }
    }

    open spec fn wf(&self) -> bool {
        match self {
            Cartridge::NoMbc(m) => m.wf(),
            Cartridge::Mbc1(m) => m.wf(),
            Cartridge::Mbc5(m) => m.wf(),
        }
    }

    fn read_rom(&self, address: u16) -> (r: u8) {
        match self {
            Cartridge::NoMbc(m) => m.read_rom(address),
            Cartridge::Mbc1(m) => m.read_rom(address),
            Cartridge::Mbc5(m) => m.read_rom(address),
        }
    }

    fn write_rom(&mut self, address: u16, value: u8) {
        match self {
            Cartridge::NoMbc(m) => m.write_rom(address, value),
            Cartridge::Mbc1(m) => m.write_rom(address, value),
            Cartridge::Mbc5(m) => m.write_rom(address, value),
        }
    }

    fn read_ram(&self, address: u16) -> (r: u8) {
        match self {
            Cartridge::NoMbc(m) => m.read_ram(address),
            Cartridge::Mbc1(m) => m.read_ram(address),
            Cartridge::Mbc5(m) => m.read_ram(address),
        }
    }

    fn write_ram(&mut self, address: u16, value: u8) {
        match self {
            Cartridge::NoMbc(m) => m.write_ram(address, value),
            Cartridge::Mbc1(m) => m.write_ram(address, value),
            Cartridge::Mbc5(m) => m.write_ram(address, value),
        }
    }

    fn has_battery(&self) -> (r: bool) {
        match self {
            Cartridge::NoMbc(m) => m.has_battery(),
            Cartridge::Mbc1(m) => m.has_battery(),
            Cartridge::Mbc5(m) => m.has_battery(),
        }
    }
}

/// Cartridge types (header byte 0x147) driven by MBC1.
pub open spec fn is_mbc1_type(t: u8) -> bool {
    0x01 <= t <= 0x03
}

/// Cartridge types driven by MBC5.
pub open spec fn is_mbc5_type(t: u8) -> bool {
    0x19 <= t <= 0x1E
}

/// Whether a cartridge of type `t` carries external RAM.
pub open spec fn type_has_ram(t: u8) -> bool {
    t == 0x02 || t == 0x03 || t == 0x1A || t == 0x1B || t == 0x1D || t == 0x1E
}

/// Whether a cartridge of type `t` keeps its RAM on a battery.
pub open spec fn type_has_battery(t: u8) -> bool {
    t == 0x03 || t == 0x1B || t == 0x1E
}

/// Why `rom` cannot be loaded as a cartridge, if it cannot.
pub open spec fn cart_error(rom: Seq<u8>) -> Option<RomError> {
    if rom.len() <= 0x150 {
        Some(RomError::TooShort)
    } else {
        let t = rom[0x147];
        if t == 0 {
            None
        } else if !is_mbc1_type(t) && !is_mbc5_type(t) {
            Some(RomError::UnsupportedCartridge(t))
        } else if rom_banks_of(rom[0x148]) is None {
            Some(RomError::InvalidRomSize(rom[0x148]))
        } else if type_has_ram(t) && ram_banks_of(rom[0x149]) is None {
            Some(RomError::InvalidRamSize(rom[0x149]))
        } else {
            None
        }
    }
}

/// The RAM banks that a cartridge with this header carries.
pub open spec fn ram_banks_for(rom: Seq<u8>) -> int {
    if type_has_ram(rom[0x147]) {
        ram_banks_of(rom[0x149])->0
    } else {
        0
    }
}

/// The state in which a loadable `rom` starts.
pub open spec fn initial_cart(rom: Seq<u8>) -> CartState {
    let t = rom[0x147];
    CartState {
        kind: if t == 0 {
            CartKind::NoMbc
        } else if is_mbc1_type(t) {
            CartKind::Mbc1
        } else {
            CartKind::Mbc5
        },
        rom: rom,
        ram: if t == 0 {
            Seq::empty()
        } else {
            Seq::new((ram_banks_for(rom) * 0x2000) as nat, |i: int| 0u8)
        },
        rom_banks: if t == 0 {
            0
        } else {
            rom_banks_of(rom[0x148])->0
        },
        ram_banks: if t == 0 {
            0
        } else {
            ram_banks_for(rom)
        },
        rom_bank: if t == 0 {
            0
        } else {
            1
        },
        ram_bank: 0,
        ram_enabled: false,
        mode1: false,
        has_battery: type_has_battery(t),
    }
}

/// Picks the controller that header byte 0x147 names.
pub fn from_rom(rom: &Vec<u8>) -> (r: Result<Cartridge, RomError>)
    ensures
        r matches Ok(c) ==> cart_error(rom@) is None && c.wf() && c.cart() == initial_cart(rom@),
        r matches Err(e) ==> cart_error(rom@) == Some(e),
{
    if rom.len() <= 0x0150 {
        return Err(RomError::TooShort);
    }
    let t = rom[0x147];
    if t == 0x00 {
        return Ok(Cartridge::NoMbc(NoMBC::new(rom)));
    }
    if !(0x01 <= t && t <= 0x03) && !(0x19 <= t && t <= 0x1E) {
        return Err(RomError::UnsupportedCartridge(t));
    }
    if get_number_rom_banks(rom[0x148]).is_none() {
        return Err(RomError::InvalidRomSize(rom[0x148]));
    }
    let has_ram = t == 0x02 || t == 0x03 || t == 0x1A || t == 0x1B || t == 0x1D || t == 0x1E;
    if has_ram && get_number_ram_banks(rom[0x149]).is_none() {
        return Err(RomError::InvalidRamSize(rom[0x149]));
    }
    if t <= 0x03 {
        Ok(Cartridge::Mbc1(MBC1::new(rom)))
    } else {
        Ok(Cartridge::Mbc5(MBC5::new(rom)))
    }
}

/// ROM banks for header byte 0x148.
pub open spec fn rom_banks_of(code: u8) -> Option<int> {
    if code <= 0x07 {
        Some(vstd::arithmetic::power2::pow2(code as nat + 1) as int)
    } else if code == 0x52 {
        Some(72)
    } else if code == 0x53 {
        Some(80)
    } else if code == 0x54 {
        Some(96)
    } else {
        None
    }
}

/// RAM banks of 8 KiB for header byte 0x149.
pub open spec fn ram_banks_of(code: u8) -> Option<int> {
    if code == 0x00 {
        Some(0)
    } else if code == 0x01 || code == 0x02 {
        Some(1)
    } else if code == 0x03 {
        Some(4)
    } else if code == 0x04 {
        Some(16)
    } else if code == 0x05 {
        Some(8)
    } else {
        None
    }
}

pub fn get_number_rom_banks(value: u8) -> (r: Option<usize>)
    ensures
        r matches Some(n) ==> rom_banks_of(value) == Some(n as int),
        r is None ==> rom_banks_of(value) is None,
        r matches Some(n) ==> 2 <= n <= 256,
{
    proof {
        vstd::arithmetic::power2::lemma2_to64();
    }
    match value {
        0x00 => Some(2),
        0x01 => Some(4),
        0x02 => Some(8),
        0x03 => Some(16),
        0x04 => Some(32),
        0x05 => Some(64),
        0x06 => Some(128),
        0x07 => Some(256),
        0x52 => Some(72),
        0x53 => Some(80),
        0x54 => Some(96),
        _ => None,
    }
}

pub fn get_number_ram_banks(value: u8) -> (r: Option<usize>)
    ensures
        r matches Some(n) ==> ram_banks_of(value) == Some(n as int),
        r is None ==> ram_banks_of(value) is None,
        r matches Some(n) ==> n <= 16,
{
    match value {
        0x00 => Some(0),
        0x01 => Some(1),
        0x02 => Some(1),
        0x03 => Some(4),
        0x04 => Some(16),
        0x05 => Some(8),
        _ => None,
    }
}

} // verus!
