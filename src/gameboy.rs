//! The emulator root: a loaded cartridge, the processor, and the per-frame loop.
use crate::cpu::{flags_clean, CpuView, CPU};
use crate::error::{Fault, RomError};
use crate::gpu::{screen_ok, SCREEN_SIZE_RGB};
use crate::header::{checksum_ok, header_checksum_of, Header};
use crate::keypad::KeyEvent;
use crate::mbc::{cart_error, from_rom, initial_cart};
use crate::memory::MemView;
use crate::registers::Registers;
use vstd::prelude::*;

verus! {

/// Clock cycles in one frame: 154 lines of 456 cycles.
pub const CYCLES_PER_FRAME: u32 = 70224;

/// The most clock cycles one step can charge (a taken CALL).
pub const MAX_STEP_CYCLES: u32 = 24;

#[derive(PartialEq, Eq, Clone, Copy, Debug, Structural)]
pub enum GBMode {
    DMG,
    CGB,
}

pub struct Gameboy {
    pub cpu: CPU,
    pub header: Header,
}

/// The 0x50 header bytes at 0x100 of a ROM image.
pub open spec fn header_bytes(rom: Seq<u8>) -> Seq<u8> {
    rom.subrange(0x100, 0x150)
}

/// Why `rom` is refused, if it is: too short, a header checksum that does not match
/// (unless `skip_checksum`), or a cartridge that cannot be driven.
pub open spec fn load_error(rom: Seq<u8>, skip_checksum: bool) -> Option<RomError> {
    if rom.len() <= 0x150 {
        Some(RomError::TooShort)
    } else if !skip_checksum && header_checksum_of(header_bytes(rom)) != rom[0x14D] {
        Some(RomError::BadChecksum)
    } else {
        cart_error(rom)
    }
}

/// The machine as it starts on `rom`.
pub open spec fn boot_state(rom: Seq<u8>) -> CpuView {
    CpuView {
        registers: Registers::boot(),
        memory: MemView::initial(initial_cart(rom)).with_boot_defaults(),
        ime: false,
        halt: false,
    }
}

impl CpuView {
    /// Steps from `acc` cycles on until the frame's cycles are reached; the cycles counted
    /// at the end, or the fault met on the way.
    pub open spec fn frame(self, acc: int) -> Result<(CpuView, int), Fault>
        decreases CYCLES_PER_FRAME + 256 - acc,
    {
        if acc >= CYCLES_PER_FRAME {
            Ok((self, acc))
        } else {
            match self.step() {
                Err(e) => Err(e),
                Ok((c, n)) => if n == 0 {
                    // A step always charges cycles; this case does not arise.
                    Ok((c, acc))
                } else {
                    c.frame(acc + n)
                },
            }
        }
    }
}

impl Gameboy {
    pub open spec fn wf(&self) -> bool {
        self.cpu.wf()
    }

    fn new_abs(rom: &Vec<u8>, header: Header) -> (r: Result<Gameboy, RomError>)
        ensures
            r matches Ok(g) ==> cart_error(rom@) is None && g.wf() && g.cpu@ == boot_state(rom@)
                && g.header == header && flags_clean(g.cpu.registers) && forall|i: int|
                0 <= i < SCREEN_SIZE_RGB ==> g.cpu.memory.gpu.data[i] == 255,
            r matches Err(e) ==> cart_error(rom@) == Some(e),
    {
        match from_rom(rom) {
            Ok(mbc) => {
                let cpu = CPU::new(mbc);
                assert(0xb0u8 & 0x0F == 0) by (bit_vector);
                Ok(Gameboy { cpu, header })
            },
            Err(e) => Err(e),
        }
    }

    /// Loads a ROM image: checks its size, its header checksum (unless `skip_checksum`)
    /// and its cartridge type, and boots the machine on it.
    pub fn new_from_data(rom: &Vec<u8>, skip_checksum: bool) -> (r: Result<Gameboy, RomError>)
        ensures
            r is Ok <==> load_error(rom@, skip_checksum) is None,
            r matches Err(e) ==> load_error(rom@, skip_checksum) == Some(e),
            r matches Ok(g) ==> {
                &&& g.wf()
                &&& g.cpu@ == boot_state(rom@)
                &&& g.header.parsed_from(header_bytes(rom@))
                &&& flags_clean(g.cpu.registers)
                &&& forall|i: int| 0 <= i < SCREEN_SIZE_RGB ==> g.cpu.memory.gpu.data[i] == 255
            },
    {
        if rom.len() <= 0x0150 {
            return Err(RomError::TooShort);
        }
        let mut bytes = [0u8; 0x50];
        let mut i: usize = 0;
        while i < 0x50
            invariant
                i <= 0x50,
                rom@.len() > 0x150,
                forall|j: int| 0 <= j < i ==> bytes@[j] == rom@[0x100 + j],
            decreases 0x50 - i,
        {
            bytes[i] = rom[0x100 + i];
            i = i + 1;
        }
        assert(bytes@ =~= header_bytes(rom@));
        if !skip_checksum && !checksum_ok(&bytes) {
            return Err(RomError::BadChecksum);
        }
        let header = Header::load_rom(&bytes);
        Gameboy::new_abs(rom, header)
    }

    pub fn update_input(&mut self, event: KeyEvent)
        requires
            old(self).wf(),
        ensures
            final(self).wf(),
            final(self).cpu@ == (CpuView {
                memory: MemView {
                    keypad: match event {
                        KeyEvent::Press(key) => old(self).cpu.memory.keypad.spec_press(key),
                        KeyEvent::Release(key) => old(self).cpu.memory.keypad.spec_release(key),
                    },
                    ..old(self).cpu@.memory
                },
                ..old(self).cpu@
            }),
            final(self).cpu.registers == old(self).cpu.registers,
            final(self).cpu.memory.gpu.data == old(self).cpu.memory.gpu.data,
    {
        match event {
            KeyEvent::Press(key) => self.cpu.memory.keypad.press(key),
            KeyEvent::Release(key) => self.cpu.memory.keypad.release(key),
        }
    }

    /// Runs whole instructions until a frame's cycles have been charged; returns the
    /// cycles charged, at least a frame's and less than a frame's and one step's.
    pub fn run_frame(&mut self) -> (r: Result<u32, Fault>)
        requires
            old(self).wf(),
        ensures
            final(self).wf(),
            r matches Ok(n) ==> old(self).cpu@.frame(0) == Ok::<(CpuView, int), Fault>(
                (final(self).cpu@, n as int),
            ),
            r matches Ok(n) ==> CYCLES_PER_FRAME <= n < CYCLES_PER_FRAME + MAX_STEP_CYCLES,
            r matches Err(e) ==> old(self).cpu@.frame(0) == Err::<(CpuView, int), Fault>(e),
            r is Ok && flags_clean(old(self).cpu.registers) ==> flags_clean(
                final(self).cpu.registers,
            ),
            final(self).header == old(self).header,
    {
        let mut cycles: u32 = 0;
        while cycles < CYCLES_PER_FRAME
            invariant
                self.wf(),
                cycles < CYCLES_PER_FRAME + MAX_STEP_CYCLES,
                old(self).cpu@.frame(0) == self.cpu@.frame(cycles as int),
                flags_clean(old(self).cpu.registers) ==> flags_clean(self.cpu.registers),
                self.header == old(self).header,
            decreases CYCLES_PER_FRAME + MAX_STEP_CYCLES - cycles,
        {
            match self.cpu.step() {
                Err(e) => {
                    return Err(e);
                },
                Ok(n) => {
                    cycles = cycles + n as u32;
                },
            }
        }
        Ok(cycles)
    }

    /// The framebuffer: 160 x 144 pixels, row by row, three equal bytes each.
    pub fn get_screen_data(&self) -> (r: &[u8; SCREEN_SIZE_RGB])
        requires
            self.wf(),
        ensures
            *r == self.cpu.memory.gpu.data,
            r@ == self.cpu@.memory.screen,
            screen_ok(r@),
    {
        self.cpu.memory.gpu.screen_data()
    }

    pub fn header(&self) -> (r: &Header)
        ensures
            *r == self.header,
    {
        &self.header
    }
}

} // verus!
