//! The address-space router: every CPU read and write goes through here.
use crate::gpu::{
    is_shade, line_pixels, pixel_index, rendered_line, same_outside_line, screen_ok, PpuState, GPU,
    SCREEN_SIZE_RGB,
};
use crate::keypad::Keypad;
use crate::mbc::{is_ram_address, is_rom_address, CartState, Cartridge, MBC};
use crate::registers::wrap16;
use crate::serial::Serial;
use crate::timer::{is_timer_address, Timer};
use vstd::array::spec_array_update;
use vstd::prelude::*;

verus! {

pub const WRAM_SIZE: usize = 0x2000;

pub const HRAM_SIZE: usize = 0x7F;

/// The state that the router's reads and writes see, framebuffer included.
pub ghost struct MemView {
    pub cart: CartState,
    pub ppu: PpuState,
    pub keypad: Keypad,
    pub timer: Timer,
    pub serial: Serial,
    pub interrupt_flags: u8,
    pub interrupt_enable: u8,
    pub wram: [u8; WRAM_SIZE],
    pub wram_bank: u8,
    pub hram: [u8; HRAM_SIZE],
    /// The framebuffer, three bytes per pixel.
    pub screen: Seq<u8>,
}

/// A framebuffer of the lightest shade only.
pub open spec fn blank_screen() -> Seq<u8> {
    Seq::new(SCREEN_SIZE_RGB as nat, |i: int| 255u8)
}

/// Framebuffer `d` with line `line` replaced by the grey levels `px`, one per pixel, each
/// written to the pixel's three bytes.
pub open spec fn with_line(d: Seq<u8>, line: int, px: Seq<u8>) -> Seq<u8> {
    Seq::new(
        d.len(),
        |i: int|
            if 3 * pixel_index(line, 0) <= i < 3 * pixel_index(line, 160) {
                px[(i - 3 * pixel_index(line, 0)) / 3]
            } else {
                d[i]
            },
    )
}

impl MemView {
    /// The state before the boot defaults are written.
    pub open spec fn initial(cart: CartState) -> MemView {
        MemView {
            cart: cart,
            ppu: GPU::initial_ppu(),
            keypad: Keypad::initial(),
            timer: Timer::initial(),
            serial: Serial { sb: 0, sc: 0 },
            interrupt_flags: 0,
            interrupt_enable: 0,
            wram: vstd::array::spec_array_fill_for_copy_type(0u8),
            wram_bank: 0,
            hram: vstd::array::spec_array_fill_for_copy_type(0u8),
            screen: blank_screen(),
        }
    }

    /// The I/O registers as the boot ROM leaves them, written in this order.
    #[verifier::opaque]
    pub open spec fn with_boot_defaults(self) -> MemView {
        self.timer_and_sound_defaults().sound_defaults().more_sound_defaults().lcd_defaults()
    }

    #[verifier::opaque]
    pub open spec fn timer_and_sound_defaults(self) -> MemView {
        self
            .write(0xFF05, 0x00)
            .write(0xFF06, 0x00)
            .write(0xFF07, 0x00)
            .write(0xFF10, 0x80)
            .write(0xFF11, 0xBF)
            .write(0xFF12, 0xF3)
            .write(0xFF14, 0xBF)
            .write(0xFF16, 0x3F)
    }

    #[verifier::opaque]
    pub open spec fn sound_defaults(self) -> MemView {
        self
            .write(0xFF17, 0x00)
            .write(0xFF19, 0xBF)
            .write(0xFF1A, 0x7F)
            .write(0xFF1B, 0xFF)
            .write(0xFF1C, 0x9F)
            .write(0xFF1E, 0xFF)
            .write(0xFF20, 0xFF)
            .write(0xFF21, 0x00)
    }

    #[verifier::opaque]
    pub open spec fn more_sound_defaults(self) -> MemView {
        self
            .write(0xFF22, 0x00)
            .write(0xFF23, 0xBF)
            .write(0xFF24, 0x77)
            .write(0xFF25, 0xF3)
            .write(0xFF26, 0xF1)
    }

    #[verifier::opaque]
    pub open spec fn lcd_defaults(self) -> MemView {
        self
            .write(0xFF40, 0x91)
            .write(0xFF42, 0x00)
            .write(0xFF43, 0x00)
            .write(0xFF45, 0x00)
            .write(0xFF47, 0xFC)
            .write(0xFF48, 0xFF)
            .write(0xFF49, 0xFF)
            .write(0xFF4A, 0x00)
            .write(0xFF4B, 0x00)
    }

    #[verifier::opaque]
    pub open spec fn read(self, a: u16) -> u8 {
        if is_rom_address(a) {
            self.cart.read_rom(a)
        } else if a < 0xA000 {
            self.ppu.vram[a - 0x8000]
        } else if is_ram_address(a) {
            self.cart.read_ram(a)
        } else if a < 0xE000 {
            self.wram[a - 0xC000]
        } else if a < 0xFE00 {
            // Echo of 0xC000-0xDDFF.
            self.wram[a - 0xE000]
        } else if a < 0xFEA0 {
            self.ppu.oam[a - 0xFE00]
        } else if a < 0xFF00 {
            0
        } else if a == 0xFF00 {
            0xC0 | (self.keypad.data & 0x3F)
        } else if a == 0xFF01 {
            self.serial.sb
        } else if a == 0xFF02 {
            self.serial.sc
        } else if is_timer_address(a) {
            self.timer.spec_read(a)
        } else if a == 0xFF0F {
            self.interrupt_flags
        } else if 0xFF10 <= a <= 0xFF3F {
            0
        } else if 0xFF40 <= a <= 0xFF4B {
            self.ppu.spec_read(a)
        } else if a == 0xFF4F {
            self.ppu.vram_bank as u8
        } else if a == 0xFF70 {
            self.wram_bank
        } else if 0xFF80 <= a <= 0xFFFE {
            self.hram[a - 0xFF80]
        } else if a == 0xFFFF {
            self.interrupt_enable
        } else {
            0xFF
        }
    }

    /// A write of anything but the DMA register.
    #[verifier::opaque]
    pub open spec fn plain_write(self, a: u16, v: u8) -> MemView {
        if is_rom_address(a) {
            MemView { cart: self.cart.write_rom(a, v), ..self }
        } else if a < 0xA000 {
            MemView {
                ppu: PpuState { vram: spec_array_update(self.ppu.vram, a - 0x8000, v), ..self.ppu },
                ..self
            }
        } else if is_ram_address(a) {
            MemView { cart: self.cart.write_ram(a, v), ..self }
        } else if a < 0xE000 {
            MemView { wram: spec_array_update(self.wram, a - 0xC000, v), ..self }
        } else if a < 0xFE00 {
            MemView { wram: spec_array_update(self.wram, a - 0xE000, v), ..self }
        } else if a < 0xFEA0 {
            self.write_oam(a - 0xFE00, v)
        } else if a < 0xFF00 {
            self
        } else if a == 0xFF00 {
            MemView { keypad: self.keypad.spec_write(v), ..self }
        } else if a == 0xFF01 {
            MemView { serial: Serial { sb: v, ..self.serial }, ..self }
        } else if a == 0xFF02 {
            MemView { serial: Serial { sc: v, ..self.serial }, ..self }
        } else if is_timer_address(a) {
            MemView { timer: self.timer.spec_write(a, v), ..self }
        } else if a == 0xFF0F {
            MemView { interrupt_flags: v, ..self }
        } else if 0xFF40 <= a <= 0xFF4B || a == 0xFF4F {
            MemView {
                ppu: self.ppu.spec_write(a, v),
                screen: if self.ppu.write_blanks(a, v) {
                    blank_screen()
                } else {
                    self.screen
                },
                ..self
            }
        } else if a == 0xFF70 {
            MemView { wram_bank: v, ..self }
        } else if 0xFF80 <= a <= 0xFFFE {
            MemView { hram: spec_array_update(self.hram, a - 0xFF80, v), ..self }
        } else if a == 0xFFFF {
            MemView { interrupt_enable: v, ..self }
        } else {
            self
        }
    }

    pub open spec fn write_oam(self, i: int, v: u8) -> MemView {
        MemView { ppu: PpuState { oam: spec_array_update(self.ppu.oam, i, v), ..self.ppu }, ..self }
    }

    /// The first `n` steps of an OAM DMA from `src`: each copies the byte read at `src + i`
    /// to OAM entry `i`.
    #[verifier::opaque]
    pub open spec fn dma_upto(self, src: u16, n: int) -> MemView
        decreases n,
    {
        if n <= 0 {
            self
        } else {
            let m = self.dma_upto(src, n - 1);
            m.write_oam(n - 1, m.read((src + n - 1) as u16))
        }
    }

    #[verifier::opaque]
    pub open spec fn write(self, a: u16, v: u8) -> MemView {
        if a == 0xFF46 {
            self.dma_upto((v as int * 0x100) as u16, 0xA0)
        } else {
            self.plain_write(a, v)
        }
    }

    /// Little-endian word at `a`.
    #[verifier::opaque]
    pub open spec fn read_word(self, a: u16) -> u16 {
        (self.read(a) + self.read(wrap16(a + 1)) * 256) as u16
    }

    #[verifier::opaque]
    pub open spec fn write_word(self, a: u16, v: u16) -> MemView {
        self.write(a, (v % 256) as u8).write(wrap16(a + 1), (v / 256) as u8)
    }

    /// Whether a write at `a` turns the LCD off, which blanks the framebuffer.
    pub open spec fn write_blanks(self, a: u16, v: u8) -> bool {
        0xFF40 <= a <= 0xFF4B && self.ppu.write_blanks(a, v)
    }

    /// One step of the peripherals: pending interrupts are folded into IF, the video unit
    /// and the timer advance, and what they raise is folded in as well.
    #[verifier::opaque]
    pub open spec fn step(self, cycles: u8) -> MemView {
        let if0 = self.interrupt_flags | self.keypad.interrupt | self.ppu.interrupt
            | self.timer.interrupt;
        let ppu = self.ppu.after_step(cycles);
        let if1 = if0 | ppu.interrupt;
        let timer1 = self.timer.spec_step(cycles);
        MemView {
            interrupt_flags: if1 | timer1.interrupt,
            keypad: Keypad { interrupt: 0, ..self.keypad },
            ppu: PpuState { interrupt: 0, ..ppu },
            timer: Timer { interrupt: 0, ..timer1 },
            screen: if self.ppu.step_renders(cycles) {
                with_line(
                    self.screen,
                    self.ppu.line as int,
                    rendered_line(
                        self.ppu.render_state(),
                        line_pixels(self.screen, self.ppu.line as int),
                    ),
                )
            } else {
                self.screen
            },
            ..self
        }
    }
}

pub struct Memory {
    pub mbc: Cartridge,
    pub gpu: GPU,
    pub keypad: Keypad,
    pub timer: Timer,
    pub serial: Serial,
    pub interrupt_flags: u8,
    pub interrupt_enable: u8,
    pub wram: [u8; WRAM_SIZE],
    pub wram_bank: u8,
    pub hram: [u8; HRAM_SIZE],
}

impl View for Memory {
    type V = MemView;

    open spec fn view(&self) -> MemView {
        MemView {
            cart: self.mbc.cart(),
            ppu: self.gpu.ppu,
            keypad: self.keypad,
            timer: self.timer,
            serial: self.serial,
            interrupt_flags: self.interrupt_flags,
            interrupt_enable: self.interrupt_enable,
            wram: self.wram,
            wram_bank: self.wram_bank,
            hram: self.hram,
            screen: self.gpu.data@,
        }
    }
}

impl Memory {
    pub open spec fn wf(&self) -> bool {
        self.mbc.wf() && self.gpu.wf() && self.timer.wf()
    }

    pub fn new(mbc: Cartridge) -> (r: Memory)
        requires
            mbc.wf(),
        ensures
            r.wf(),
            r@ == MemView::initial(mbc.cart()).with_boot_defaults(),
            forall|i: int| 0 <= i < crate::gpu::SCREEN_SIZE_RGB ==> r.gpu.data[i] == 255,
    {
        let mut memory = Memory {
            mbc,
            gpu: GPU::new(),
            keypad: Keypad::new(),
            serial: Serial::new(),
            timer: Timer::new(),
            wram: [0u8; WRAM_SIZE],
            wram_bank: 0,
            hram: [0u8; HRAM_SIZE],
            interrupt_flags: 0,
            interrupt_enable: 0,
        };
        assert(memory.gpu.data@ =~= blank_screen());
        assert(memory@ == MemView::initial(mbc.cart()));
        memory.init();
        memory
    }

    /// Writes the boot defaults of the I/O registers.
    fn init(&mut self)
        requires
            old(self).wf(),
            forall|i: int| 0 <= i < crate::gpu::SCREEN_SIZE_RGB ==> old(self).gpu.data[i] == 255,
            !old(self).gpu.ppu.lcd_on,
        ensures
            final(self).wf(),
            final(self)@ == old(self)@.with_boot_defaults(),
            forall|i: int| 0 <= i < crate::gpu::SCREEN_SIZE_RGB ==> final(self).gpu.data[i] == 255,
    {
        proof {
            reveal(MemView::with_boot_defaults);
        }
        self.init_timer_and_sound_defaults();
        self.init_sound_defaults();
        self.init_more_sound_defaults();
        self.init_lcd_defaults();
    }

    #[verifier::spinoff_prover]
    fn init_timer_and_sound_defaults(&mut self)
        requires
            old(self).wf(),
            forall|i: int| 0 <= i < crate::gpu::SCREEN_SIZE_RGB ==> old(self).gpu.data[i] == 255,
            !old(self).gpu.ppu.lcd_on,
        ensures
            final(self).wf(),
            final(self)@ == old(self)@.timer_and_sound_defaults(),
            forall|i: int| 0 <= i < crate::gpu::SCREEN_SIZE_RGB ==> final(self).gpu.data[i] == 255,
            !final(self).gpu.ppu.lcd_on,
    {
        proof {
            reveal(MemView::timer_and_sound_defaults);
            reveal(MemView::write);
            reveal(MemView::plain_write);
        }
        self.write(0xFF05, 0x00);
        self.write(0xFF06, 0x00);
        self.write(0xFF07, 0x00);
        self.write(0xFF10, 0x80);
        self.write(0xFF11, 0xBF);
        self.write(0xFF12, 0xF3);
        self.write(0xFF14, 0xBF);
        self.write(0xFF16, 0x3F);
    }

    #[verifier::spinoff_prover]
    fn init_sound_defaults(&mut self)
        requires
            old(self).wf(),
            forall|i: int| 0 <= i < crate::gpu::SCREEN_SIZE_RGB ==> old(self).gpu.data[i] == 255,
            !old(self).gpu.ppu.lcd_on,
        ensures
            final(self).wf(),
            final(self)@ == old(self)@.sound_defaults(),
            forall|i: int| 0 <= i < crate::gpu::SCREEN_SIZE_RGB ==> final(self).gpu.data[i] == 255,
            !final(self).gpu.ppu.lcd_on,
    {
        proof {
            reveal(MemView::sound_defaults);
            reveal(MemView::write);
            reveal(MemView::plain_write);
        }
        self.write(0xFF17, 0x00);
        self.write(0xFF19, 0xBF);
        self.write(0xFF1A, 0x7F);
        self.write(0xFF1B, 0xFF);
        self.write(0xFF1C, 0x9F);
        self.write(0xFF1E, 0xFF);
        self.write(0xFF20, 0xFF);
        self.write(0xFF21, 0x00);
    }

    #[verifier::spinoff_prover]
    fn init_more_sound_defaults(&mut self)
        requires
            old(self).wf(),
            forall|i: int| 0 <= i < crate::gpu::SCREEN_SIZE_RGB ==> old(self).gpu.data[i] == 255,
            !old(self).gpu.ppu.lcd_on,
        ensures
            final(self).wf(),
            final(self)@ == old(self)@.more_sound_defaults(),
            forall|i: int| 0 <= i < crate::gpu::SCREEN_SIZE_RGB ==> final(self).gpu.data[i] == 255,
            !final(self).gpu.ppu.lcd_on,
    {
        proof {
            reveal(MemView::more_sound_defaults);
            reveal(MemView::write);
            reveal(MemView::plain_write);
        }
        self.write(0xFF22, 0x00);
        self.write(0xFF23, 0xBF);
        self.write(0xFF24, 0x77);
        self.write(0xFF25, 0xF3);
        self.write(0xFF26, 0xF1);
    }

    #[verifier::spinoff_prover]
    fn init_lcd_defaults(&mut self)
        requires
            old(self).wf(),
            forall|i: int| 0 <= i < crate::gpu::SCREEN_SIZE_RGB ==> old(self).gpu.data[i] == 255,
            !old(self).gpu.ppu.lcd_on,
        ensures
            final(self).wf(),
            final(self)@ == old(self)@.lcd_defaults(),
            forall|i: int| 0 <= i < crate::gpu::SCREEN_SIZE_RGB ==> final(self).gpu.data[i] == 255,
            
    {
        proof {
            reveal(MemView::lcd_defaults);
        }
        self.write(0xFF40, 0x91);
        self.write(0xFF42, 0x00);
        self.write(0xFF43, 0x00);
        self.write(0xFF45, 0x00);
        self.write(0xFF47, 0xFC);
        self.write(0xFF48, 0xFF);
        self.write(0xFF49, 0xFF);
        self.write(0xFF4A, 0x00);
        self.write(0xFF4B, 0x00);
    }

    pub fn read(&self, address: u16) -> (r: u8)
        requires
            self.wf(),
        ensures
            r == self@.read(address),
    {
        proof {
            reveal(MemView::read);
        }
        let a = address;
        if a < 0x8000 {
            self.mbc.read_rom(a)
        } else if a < 0xA000 {
            self.gpu.ppu.vram[(a - 0x8000) as usize]
        } else if a < 0xC000 {
            self.mbc.read_ram(a)
        } else if a < 0xE000 {
            self.wram[(a - 0xC000) as usize]
        } else if a < 0xFE00 {
            self.wram[(a - 0xE000) as usize]
        } else if a < 0xFEA0 {
            self.gpu.ppu.oam[(a - 0xFE00) as usize]
        } else if a < 0xFF00 {
            0
        } else if a == 0xFF00 {
            self.keypad.read()
        } else if a == 0xFF01 || a == 0xFF02 {
            self.serial.read(a)
        } else if 0xFF04 <= a && a <= 0xFF07 {
            self.timer.read(a)
        } else if a == 0xFF0F {
            self.interrupt_flags
        } else if 0xFF10 <= a && a <= 0xFF3F {
            0
        } else if 0xFF40 <= a && a <= 0xFF4B {
            self.gpu.read(a)
        } else if a == 0xFF4F {
            self.gpu.ppu.vram_bank as u8
        } else if a == 0xFF70 {
            self.wram_bank
        } else if 0xFF80 <= a && a <= 0xFFFE {
            self.hram[(a - 0xFF80) as usize]
        } else if a == 0xFFFF {
            self.interrupt_enable
        } else {
            0xFF
        }
    }

    /// Routes a write of anything but the DMA register.
    #[verifier::spinoff_prover]
    #[verifier::rlimit(100)]
    fn write_plain(&mut self, a: u16, value: u8)
        requires
            old(self).wf(),
            a != 0xFF46,
        ensures
            final(self).wf(),
            final(self)@ == old(self)@.plain_write(a, value),
            old(self)@.write_blanks(a, value) ==> forall|i: int|
                0 <= i < crate::gpu::SCREEN_SIZE_RGB ==> final(self).gpu.data[i] == 255,
            !old(self)@.write_blanks(a, value) ==> final(self).gpu.data == old(self).gpu.data,
    {
        proof {
            reveal(MemView::plain_write);
        }
        if a < 0x8000 {
            self.mbc.write_rom(a, value);
        } else if a < 0xA000 {
            self.gpu.ppu.vram[(a - 0x8000) as usize] = value;
        } else if a < 0xC000 {
            self.mbc.write_ram(a, value);
        } else if a < 0xE000 {
            self.wram[(a - 0xC000) as usize] = value;
        } else if a < 0xFE00 {
            self.wram[(a - 0xE000) as usize] = value;
        } else if a < 0xFEA0 {
            self.gpu.ppu.oam[(a - 0xFE00) as usize] = value;
        } else if a < 0xFF00 {
        } else if a == 0xFF00 {
            self.keypad.write(value);
        } else if a == 0xFF01 || a == 0xFF02 {
            self.serial.write(a, value);
        } else if 0xFF04 <= a && a <= 0xFF07 {
            self.timer.write(a, value);
        } else if a == 0xFF0F {
            self.interrupt_flags = value;
        } else if (0xFF40 <= a && a <= 0xFF4B) || a == 0xFF4F {
            self.gpu.write(a, value);
            proof {
                if old(self).gpu.ppu.write_blanks(a, value) {
                    assert(self.gpu.data@ =~= blank_screen());
                }
            }
        } else if a == 0xFF70 {
            self.wram_bank = value;
        } else if 0xFF80 <= a && a <= 0xFFFE {
            self.hram[(a - 0xFF80) as usize] = value;
        } else if a == 0xFFFF {
            self.interrupt_enable = value;
        }
    }

    pub fn write(&mut self, address: u16, value: u8)
        requires
            old(self).wf(),
        ensures
            final(self).wf(),
            final(self)@ == old(self)@.write(address, value),
            old(self)@.write_blanks(address, value) ==> forall|i: int|
                0 <= i < crate::gpu::SCREEN_SIZE_RGB ==> final(self).gpu.data[i] == 255,
            !old(self)@.write_blanks(address, value) ==> final(self).gpu.data
                == old(self).gpu.data,
    {
        proof {
            reveal(MemView::write);
        }
        if address == 0xFF46 {
            self.dma_transfer(value);
        } else {
            self.write_plain(address, value);
        }
    }

    /// Copies 160 bytes from `address` * 0x100 to OAM through the router.
    pub fn dma_transfer(&mut self, address: u8)
        requires
            old(self).wf(),
        ensures
            final(self).wf(),
            final(self)@ == old(self)@.dma_upto((address as int * 0x100) as u16, 0xA0),
            final(self).gpu.data == old(self).gpu.data,
    {
        proof {
            reveal_with_fuel(MemView::dma_upto, 2);
            reveal(MemView::plain_write);
        }
        let start: u16 = address as u16 * 0x100;
        let mut i: u16 = 0;
        while i < 0xA0
            invariant
                i <= 0xA0,
                start == (address as int * 0x100) as u16,
                self.wf(),
                self@ == old(self)@.dma_upto(start, i as int),
                self.gpu.data == old(self).gpu.data,
            decreases 0xA0 - i,
        {
            let v = self.read(start + i);
            self.write_plain(0xFE00 + i, v);
            proof {
                reveal_with_fuel(MemView::dma_upto, 2);
                reveal(MemView::plain_write);
            }
            i = i + 1;
        }
    }

    pub fn write_word(&mut self, address: u16, value: u16)
        requires
            old(self).wf(),
        ensures
            final(self).wf(),
            final(self)@ == old(self)@.write_word(address, value),
    {
        proof {
            reveal(MemView::write_word);
        }
        self.write(address, (value % 256) as u8);
        self.write(address.wrapping_add(1), (value / 256) as u8);
    }

    pub fn read_word(&self, address: u16) -> (r: u16)
        requires
            self.wf(),
        ensures
            r == self@.read_word(address),
    {
        proof {
            reveal(MemView::read_word);
        }
        self.read(address) as u16 + self.read(address.wrapping_add(1)) as u16 * 256
    }

    /// Advances the video unit and the timer by `cycles` and collects their interrupts.
    pub fn step(&mut self, cycles: u8)
        requires
            old(self).wf(),
        ensures
            final(self).wf(),
            final(self)@ == old(self)@.step(cycles),
            !old(self).gpu.ppu.step_renders(cycles) ==> final(self).gpu.data
                == old(self).gpu.data,
            old(self).gpu.ppu.step_renders(cycles) ==> same_outside_line(
                final(self).gpu.data@,
                old(self).gpu.data@,
                old(self).gpu.ppu.line as int,
            ),
            old(self).gpu.ppu.step_renders(cycles) ==> line_pixels(
                final(self).gpu.data@,
                old(self).gpu.ppu.line as int,
            ) == rendered_line(
                old(self).gpu.ppu.render_state(),
                line_pixels(old(self).gpu.data@, old(self).gpu.ppu.line as int),
            ),
    {
        proof {
            reveal(MemView::step);
        }
        self.interrupt_flags = self.interrupt_flags | self.keypad.interrupt | self.gpu.ppu.interrupt
            | self.timer.interrupt;
        self.keypad.interrupt = 0;
        self.gpu.step(cycles);
        self.interrupt_flags = self.interrupt_flags | self.gpu.ppu.interrupt;
        self.gpu.ppu.interrupt = 0;
        self.timer.step(cycles);
        self.interrupt_flags = self.interrupt_flags | self.timer.interrupt;
        self.timer.interrupt = 0;
        proof {
            if old(self).gpu.ppu.step_renders(cycles) {
                lemma_line_drawn(
                    old(self).gpu.data@,
                    self.gpu.data@,
                    old(self).gpu.ppu.line as int,
                );
            }
        }
    }
}

} // verus!

verus! {

/// A word written to work RAM reads back.
pub proof fn lemma_wram_word(m: MemView, a: u16, v: u16)
    requires
        0xC000 <= a < 0xDFFF,
    ensures
        m.write_word(a, v).read_word(a) == v,
{
    reveal(MemView::write_word);
    reveal(MemView::read_word);
    reveal(MemView::write);
    reveal(MemView::plain_write);
    reveal(MemView::read);
    let m1 = m.write(a, (v % 256) as u8);
    let m2 = m1.write(wrap16(a + 1), (v / 256) as u8);
    assert(m1 == MemView {
        wram: spec_array_update(m.wram, a - 0xC000, (v % 256) as u8),
        ..m
    });
    assert(m2 == MemView {
        wram: spec_array_update(m1.wram, wrap16(a + 1) - 0xC000, (v / 256) as u8),
        ..m1
    });
    assert(m2.wram@ == m.wram@.update(a - 0xC000, (v % 256) as u8).update(
        a + 1 - 0xC000,
        (v / 256) as u8,
    ));
    assert(m2.read(a) == v % 256);
    assert(m2.read(wrap16(a + 1)) == v / 256);
}

} // verus!

verus! {

/// A framebuffer that keeps its grey levels in all three channels, and differs from `d`
/// only on line `line`, is `d` with that line's pixels put in.
proof fn lemma_line_drawn(d: Seq<u8>, e: Seq<u8>, line: int)
    requires
        0 <= line < 144,
        screen_ok(d),
        screen_ok(e),
        same_outside_line(e, d, line),
    ensures
        e == with_line(d, line, line_pixels(e, line)),
{
    let base = 3 * pixel_index(line, 0);
    let px = line_pixels(e, line);
    assert forall|i: int| 0 <= i < e.len() implies e[i] == with_line(d, line, px)[i] by {
        if base <= i < 3 * pixel_index(line, 160) {
            let x = (i - base) / 3;
            let p = pixel_index(line, x);
            assert(0 <= x < 160);
            assert(i == 3 * p || i == 3 * p + 1 || i == 3 * p + 2);
            assert(is_shade(e[3 * p]));
            assert(px[x] == e[3 * p]);
        }
    }
    assert(e =~= with_line(d, line, px));
}

} // verus!

verus! {

/// A step of the peripherals leaves work RAM as it was.
pub proof fn lemma_step_keeps_wram(m: MemView, cycles: u8, a: u16)
    requires
        0xC000 <= a < 0xDFFF,
    ensures
        m.step(cycles).read_word(a) == m.read_word(a),
{
    reveal(MemView::step);
    reveal(MemView::read_word);
    reveal(MemView::read);
}

} // verus!
