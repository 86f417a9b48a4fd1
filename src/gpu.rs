//! The pixel processing unit: VRAM, OAM, the LCD registers, the per-scanline mode
//! machine and the scanline renderer.
use vstd::prelude::*;

verus! {

pub const SCREEN_WIDTH: usize = 160;

pub const SCREEN_HEIGHT: usize = 144;

pub const SCREEN_SIZE_RGB: usize = 69120;

pub const VRAM_SIZE: usize = 0x4000;

pub const VOAM_SIZE: usize = 0xA0;

/// Cycles spent in each mode of a visible scanline, and on each line of vertical blank.
pub const OAM_CYCLES: u32 = 80;

pub const VRAM_CYCLES: u32 = 172;

pub const HBLANK_CYCLES: u32 = 204;

pub const LINE_CYCLES: u32 = 456;

/// The last line of vertical blank.
pub const LAST_LINE: u8 = 153;

#[derive(PartialEq, Eq, Copy, Clone, Debug, Structural)]
pub enum Mode {
    HBlank,
    VBlank,
    OAM,
    VRAM,
}

impl Mode {
    /// The mode's number in STAT bits 0 and 1.
    pub open spec fn spec_code(self) -> u8 {
        match self {
            Mode::HBlank => 0,
            Mode::VBlank => 1,
            Mode::OAM => 2,
            Mode::VRAM => 3,
        }
    }

    fn code(self) -> (r: u8)
        ensures
            r == self.spec_code(),
    {
        match self {
            Mode::HBlank => 0,
            Mode::VBlank => 1,
            Mode::OAM => 2,
            Mode::VRAM => 3,
        }
    }
}

/// One of the four grey levels a pixel can take.
pub open spec fn is_shade(v: u8) -> bool {
    v == 0 || v == 96 || v == 192 || v == 255
}

/// Every pixel of the framebuffer is a grey level, written alike to its three channels.
pub open spec fn screen_ok(d: Seq<u8>) -> bool {
    &&& d.len() == SCREEN_SIZE_RGB
    &&& forall|p: int|
        0 <= p < SCREEN_SIZE_RGB / 3 ==> #[trigger] is_shade(d[3 * p]) && d[3 * p + 1] == d[3 * p]
            && d[3 * p + 2] == d[3 * p]
}

/// The grey level that color index `index` takes through palette register `value`:
/// index fields of 0, 1, 2, 3 give 255, 192, 96, 0.
pub open spec fn shade_of(value: u8, index: u8) -> u8 {
    let field = (value >> (2 * index) as u8) & 0x03;
    if field == 0 {
        255
    } else if field == 1 {
        192
    } else if field == 2 {
        96
    } else {
        0
    }
}

/// Everything of the video unit but its framebuffer.
pub struct PpuState {
    pub mode: Mode,
    pub clock: u32,
    pub vram: [u8; VRAM_SIZE],
    pub oam: [u8; VOAM_SIZE],
    /// LCDC.7
    pub lcd_on: bool,
    /// LCDC.6: 0x9800 or 0x9C00.
    pub win_tilemap: u16,
    /// LCDC.5
    pub win_on: bool,
    /// LCDC.4: 0x8800 (signed tile numbers) or 0x8000.
    pub bgw_tiles: u16,
    /// LCDC.3: 0x9800 or 0x9C00.
    pub bg_tilemap: u16,
    /// LCDC.2: 8 or 16.
    pub sprite_size: u8,
    /// LCDC.1
    pub sprite_on: bool,
    /// LCDC.0
    pub bgw_on: bool,
    /// STAT.6
    pub lyc_interrupt: bool,
    /// STAT.5
    pub mode2_interrupt: bool,
    /// STAT.4
    pub mode1_interrupt: bool,
    /// STAT.3
    pub mode0_interrupt: bool,
    pub scy: u8,
    pub scx: u8,
    /// LY
    pub line: u8,
    pub lyc: u8,
    pub palette_bg_value: u8,
    pub palette_obp0_value: u8,
    pub palette_obp1_value: u8,
    pub wy: u8,
    pub wx: u8,
    pub vram_bank: usize,
    /// Set when the window starts on this frame.
    pub wy_trigger: bool,
    /// The window's internal line counter.
    pub wy_pos: i32,
    /// Interrupt bits raised and not yet collected.
    pub interrupt: u8,
}

impl PpuState {
    /// The register encodings that the renderer relies on.
    pub open spec fn regs_ok(&self) -> bool {
        &&& self.vram_bank <= 1
        &&& self.sprite_size == 8 || self.sprite_size == 16
        &&& self.bgw_tiles == 0x8000 || self.bgw_tiles == 0x8800
        &&& self.win_tilemap == 0x9800 || self.win_tilemap == 0x9C00
        &&& self.bg_tilemap == 0x9800 || self.bg_tilemap == 0x9C00
    }

    /// The window line counter stays behind the current line (level with it once the
    /// line is rendered).
    pub open spec fn wf(&self) -> bool {
        &&& self.regs_ok()
        &&& self.clock < LINE_CYCLES
        &&& self.line <= LAST_LINE
        &&& self.mode != Mode::VBlank ==> self.line < 144
        &&& self.mode == Mode::VBlank ==> !self.wy_trigger
        &&& self.wy_trigger ==> -1 <= self.wy_pos && self.wy_pos < self.line + (if self.mode
            == Mode::HBlank {
            1int
        } else {
            0
        })
    }

    /// What rendering the current line needs.
    pub open spec fn render_ready(&self) -> bool {
        &&& self.regs_ok()
        &&& self.line < 144
        &&& self.wy_trigger ==> -1 <= self.wy_pos && self.wy_pos < self.line
    }

    /// Whether the window is drawn on the line being rendered.
    pub open spec fn window_active(&self) -> bool {
        self.win_on && self.wy_trigger && self.wx <= 166
    }

    /// What rendering a scanline changes besides the framebuffer: the window line counter.
    pub open spec fn after_render(self) -> PpuState {
        if self.window_active() {
            PpuState { wy_pos: (self.wy_pos + 1) as i32, ..self }
        } else {
            self
        }
    }

    pub open spec fn after_lyc_check(self) -> PpuState {
        if self.lyc_interrupt && self.line == self.lyc {
            PpuState { interrupt: self.interrupt | 0x02, ..self }
        } else {
            self
        }
    }

    /// Entering `mode`, with its entry actions and STAT interrupt.
    pub open spec fn after_mode_change(self, mode: Mode) -> PpuState {
        let p = PpuState { mode: mode, ..self };
        match mode {
            Mode::HBlank => {
                let q = p.after_render();
                if q.mode0_interrupt {
                    PpuState { interrupt: q.interrupt | 0x02, ..q }
                } else {
                    q
                }
            },
            Mode::VBlank => {
                let q = PpuState { wy_trigger: false, interrupt: p.interrupt | 0x01, ..p };
                if q.mode1_interrupt {
                    PpuState { interrupt: q.interrupt | 0x02, ..q }
                } else {
                    q
                }
            },
            Mode::OAM => if p.mode2_interrupt {
                PpuState { interrupt: p.interrupt | 0x02, ..p }
            } else {
                p
            },
            Mode::VRAM => if p.win_on && !p.wy_trigger && p.line == p.wy {
                PpuState { wy_trigger: true, wy_pos: -1i32, ..p }
            } else {
                p
            },
        }
    }

    /// The mode machine advanced by `ticks` cycles.
    pub open spec fn after_step(self, ticks: u8) -> PpuState {
        let c = self.clock + ticks;
        if !self.lcd_on {
            self
        } else {
            match self.mode {
                Mode::HBlank => if c >= HBLANK_CYCLES {
                    let p = PpuState { clock: 0, line: (self.line + 1) as u8, ..self };
                    if p.line == 144 {
                        p.after_mode_change(Mode::VBlank)
                    } else {
                        p.after_mode_change(Mode::OAM)
                    }
                } else {
                    PpuState { clock: c as u32, ..self }
                },
                Mode::VBlank => if c >= LINE_CYCLES {
                    if self.line + 1 > LAST_LINE {
                        PpuState { clock: 0, line: 0, ..self }.after_mode_change(Mode::OAM)
                    } else {
                        PpuState { clock: 0, line: (self.line + 1) as u8, ..self }
                    }
                } else {
                    PpuState { clock: c as u32, ..self }
                },
                Mode::OAM => if c >= OAM_CYCLES {
                    PpuState { clock: 0, ..self }.after_mode_change(Mode::VRAM)
                } else {
                    PpuState { clock: c as u32, ..self }
                },
                Mode::VRAM => if c >= VRAM_CYCLES {
                    PpuState { clock: 0, ..self }.after_mode_change(Mode::HBlank).after_lyc_check()
                } else {
                    PpuState { clock: c as u32, ..self }
                },
            }
        }
    }

    /// The state from which a line is drawn: horizontal blank entered, the window line
    /// counter advanced.
    pub open spec fn render_state(self) -> PpuState {
        PpuState { clock: 0, mode: Mode::HBlank, ..self }.after_render()
    }

    /// Whether a step of `ticks` cycles renders a scanline.
    pub open spec fn step_renders(self, ticks: u8) -> bool {
        self.lcd_on && self.mode == Mode::VRAM && self.clock + ticks >= VRAM_CYCLES
    }

    pub open spec fn lcdc(&self) -> u8 {
        (if self.lcd_on { 0x80u8 } else { 0 }) | (if self.win_tilemap == 0x9C00 {
            0x40u8
        } else {
            0
        }) | (if self.win_on { 0x20u8 } else { 0 }) | (if self.bgw_tiles == 0x8000 {
            0x10u8
        } else {
            0
        }) | (if self.bg_tilemap == 0x9C00 { 0x08u8 } else { 0 }) | (if self.sprite_size == 16 {
            0x04u8
        } else {
            0
        }) | (if self.sprite_on { 0x02u8 } else { 0 }) | (if self.bgw_on { 0x01u8 } else { 0 })
    }

    pub open spec fn stat(&self) -> u8 {
        0x80u8 | (if self.lyc_interrupt { 0x40u8 } else { 0 }) | (if self.mode2_interrupt {
            0x20u8
        } else {
            0
        }) | (if self.mode1_interrupt { 0x10u8 } else { 0 }) | (if self.mode0_interrupt {
            0x08u8
        } else {
            0
        }) | (if self.line == self.lyc { 0x04u8 } else { 0 }) | self.mode.spec_code()
    }

    pub open spec fn spec_read(&self, a: u16) -> u8 {
        if 0x8000 <= a < 0xA000 {
            self.vram[self.vram_bank * 0x2000 + a % 0x2000]
        } else if 0xFE00 <= a < 0xFEA0 {
            self.oam[a - 0xFE00]
        } else if a == 0xFF40 {
            self.lcdc()
        } else if a == 0xFF41 {
            self.stat()
        } else if a == 0xFF42 {
            self.scy
        } else if a == 0xFF43 {
            self.scx
        } else if a == 0xFF44 {
            self.line
        } else if a == 0xFF45 {
            self.lyc
        } else if a == 0xFF46 {
            0
        } else if a == 0xFF47 {
            self.palette_bg_value
        } else if a == 0xFF48 {
            self.palette_obp0_value
        } else if a == 0xFF49 {
            self.palette_obp1_value
        } else if a == 0xFF4A {
            self.wy
        } else if a == 0xFF4B {
            self.wx
        } else if a == 0xFF4F {
            (self.vram_bank + 0xFE) as u8
        } else {
            0xFF
        }
    }

    /// LCDC written with `v`: turning the LCD off resets the line machine, turning it on
    /// enters vertical blank four cycles in.
    pub open spec fn after_lcdc(self, v: u8) -> PpuState {
        let q = PpuState {
            lcd_on: v & 0x80 != 0,
            win_tilemap: if v & 0x40 != 0 {
                0x9C00
            } else {
                0x9800
            },
            win_on: v & 0x20 != 0,
            bgw_tiles: if v & 0x10 != 0 {
                0x8000
            } else {
                0x8800
            },
            bg_tilemap: if v & 0x08 != 0 {
                0x9C00
            } else {
                0x9800
            },
            sprite_size: if v & 0x04 != 0 {
                16
            } else {
                8
            },
            sprite_on: v & 0x02 != 0,
            bgw_on: v & 0x01 != 0,
            ..self
        };
        if self.lcd_on && !q.lcd_on {
            PpuState { clock: 0, line: 0, mode: Mode::HBlank, wy_trigger: false, ..q }
        } else if !self.lcd_on && q.lcd_on {
            PpuState { clock: 4, ..q.after_mode_change(Mode::VBlank) }
        } else {
            q
        }
    }

    pub open spec fn spec_write(self, a: u16, v: u8) -> PpuState {
        if 0x8000 <= a < 0xA000 {
            PpuState {
                vram: vstd::array::spec_array_update(
                    self.vram,
                    self.vram_bank * 0x2000 + a % 0x2000,
                    v,
                ),
                ..self
            }
        } else if 0xFE00 <= a < 0xFEA0 {
            PpuState { oam: vstd::array::spec_array_update(self.oam, a - 0xFE00, v), ..self }
        } else if a == 0xFF40 {
            self.after_lcdc(v)
        } else if a == 0xFF41 {
            PpuState {
                lyc_interrupt: v & 0x40 != 0,
                mode2_interrupt: v & 0x20 != 0,
                mode1_interrupt: v & 0x10 != 0,
                mode0_interrupt: v & 0x08 != 0,
                ..self
            }
        } else if a == 0xFF42 {
            PpuState { scy: v, ..self }
        } else if a == 0xFF43 {
            PpuState { scx: v, ..self }
        } else if a == 0xFF45 {
            PpuState { lyc: v, ..self }.after_lyc_check()
        } else if a == 0xFF47 {
            PpuState { palette_bg_value: v, ..self }
        } else if a == 0xFF48 {
            PpuState { palette_obp0_value: v, ..self }
        } else if a == 0xFF49 {
            PpuState { palette_obp1_value: v, ..self }
        } else if a == 0xFF4A {
            PpuState { wy: v, ..self }
        } else if a == 0xFF4B {
            PpuState { wx: v, ..self }
        } else if a == 0xFF4F {
            PpuState { vram_bank: (v % 2) as usize, ..self }
        } else {
            self
        }
    }

    /// Whether writing `v` at `a` turns the LCD off.
    pub open spec fn write_blanks(self, a: u16, v: u8) -> bool {
        a == 0xFF40 && self.lcd_on && v & 0x80 == 0
    }
}

/// The byte of VRAM bank 0 at address `a`; 0xFF outside 0x8000-0x9FFF.
pub open spec fn vram_at(p: PpuState, a: int) -> u8 {
    if 0x8000 <= a < 0xA000 {
        p.vram[a % 0x2000]
    } else {
        0xFF
    }
}

/// The window line drawn on the current line, or -1 when the window is not drawn.
pub open spec fn window_line(p: PpuState) -> int {
    if p.window_active() {
        p.wy_pos as int
    } else {
        -1
    }
}

/// Whether the background or window layer is drawn on the current line.
pub open spec fn bg_drawn(p: PpuState) -> bool {
    window_line(p) >= 0 || p.bgw_on
}

/// The grey level of background or window pixel `x` on the current line, `p` being the state
/// with the window line counter advanced for this line: the tile map entry gives a tile,
/// the tile's row gives two bit planes, their bits at the pixel give a colour index, and
/// BGP gives its grey level.
pub open spec fn bg_shade(p: PpuState, x: int) -> u8 {
    let winy = window_line(p);
    let bgy = (p.scy + p.line) % 256;
    let bgx = p.scx + x;
    let in_window = winy >= 0 && x + 7 >= p.wx;
    let winx = x + 7 - p.wx;
    let map = if in_window {
        p.win_tilemap as int
    } else {
        p.bg_tilemap as int
    };
    let tile_y = if in_window {
        (winy / 8) % 32
    } else {
        (bgy / 8) % 32
    };
    let tile_x = if in_window {
        winx / 8
    } else {
        (bgx / 8) % 32
    };
    let py = if in_window {
        winy % 8
    } else {
        bgy % 8
    };
    let px = if in_window {
        winx % 8
    } else {
        bgx % 8
    };
    let tile = vram_at(p, map + tile_y * 32 + tile_x);
    let offset = if p.bgw_tiles == 0x8000 {
        tile as int
    } else {
        (tile + 128) % 256
    };
    let row = p.bgw_tiles + offset * 16 + py * 2;
    let bit = (7 - px) as u8;
    let color = ((vram_at(p, row) >> bit) % 2 + ((vram_at(p, row + 1) >> bit) % 2) * 2) as u8;
    shade_of(p.palette_bg_value, color)
}

/// Whether `d` and `e` agree outside line `line` of the framebuffer.
pub open spec fn same_outside_line(d: Seq<u8>, e: Seq<u8>, line: int) -> bool {
    forall|i: int|
        0 <= i < SCREEN_SIZE_RGB && !(3 * pixel_index(line, 0) <= i < 3 * pixel_index(line, 160))
            ==> #[trigger] d[i] == e[i]
}

/// The grey levels of line `line` of framebuffer `d`, one per pixel.
pub open spec fn line_pixels(d: Seq<u8>, line: int) -> Seq<u8> {
    Seq::new(SCREEN_WIDTH as nat, |x: int| d[3 * pixel_index(line, x)])
}

/// Whether OAM entry `i` covers the current line.
pub open spec fn sprite_covers(p: PpuState, i: int) -> bool {
    let top = p.oam[4 * i] as int;
    top <= p.line + 16 < top + p.sprite_size
}

/// The OAM entries drawn on the current line: after the entries `acc` already chosen, those
/// from entry `i` on that cover it, in OAM order, ten in all at most.
pub open spec fn sprites_from(p: PpuState, i: int, acc: Seq<int>) -> Seq<int>
    decreases 40 - i,
{
    if i >= 40 || acc.len() >= 10 {
        acc
    } else if sprite_covers(p, i) {
        sprites_from(p, i + 1, acc.push(i))
    } else {
        sprites_from(p, i + 1, acc)
    }
}

/// The colour index of pixel `px` (counted from the left on screen) of OAM entry `i` on
/// the current line, with the entry's flips applied.
pub open spec fn sprite_color(p: PpuState, i: int, px: int) -> u8 {
    let top = p.oam[4 * i] as int;
    let tile = p.oam[4 * i + 2] as int;
    let flags = p.oam[4 * i + 3];
    let row = p.line + 16 - top;
    let tile_y = if flags & 0x40 != 0 {
        p.sprite_size - 1 - row
    } else {
        row
    };
    let addr = 0x8000 + tile * 16 + tile_y * 2;
    let bit = (if flags & 0x20 != 0 {
        px
    } else {
        7 - px
    }) as u8;
    ((vram_at(p, addr) >> bit) % 2 + ((vram_at(p, addr + 1) >> bit) % 2) * 2) as u8
}

/// Column `x` of `row` once OAM entry `i` is drawn over it: colour 0 is transparent, and an
/// entry with the priority flag shows only where the background layer `bg` has the
/// lightest shade.
pub open spec fn sprite_pixel(p: PpuState, bg: Seq<u8>, row: Seq<u8>, i: int, x: int) -> u8 {
    let px = x + 8 - p.oam[4 * i + 1];
    let flags = p.oam[4 * i + 3];
    let palette = if flags & 0x10 != 0 {
        p.palette_obp1_value
    } else {
        p.palette_obp0_value
    };
    if 0 <= px < 8 && sprite_color(p, i, px) != 0 && !(flags & 0x80 != 0 && bg[x] != 255) {
        shade_of(palette, sprite_color(p, i, px))
    } else {
        row[x]
    }
}

pub open spec fn with_sprite(p: PpuState, bg: Seq<u8>, row: Seq<u8>, i: int) -> Seq<u8> {
    Seq::new(SCREEN_WIDTH as nat, |x: int| sprite_pixel(p, bg, row, i, x))
}

/// The background layer `bg` with the first `n` entries of `list` drawn over it, in order.
pub open spec fn with_sprites(p: PpuState, bg: Seq<u8>, list: Seq<int>, n: int) -> Seq<u8>
    decreases n,
{
    if n <= 0 {
        bg
    } else {
        with_sprite(p, bg, with_sprites(p, bg, list, n - 1), list[n - 1])
    }
}

/// The background layer `bg` with the current line's sprites drawn over it.
pub open spec fn sprites_over(p: PpuState, bg: Seq<u8>) -> Seq<u8> {
    let list = sprites_from(p, 0, Seq::empty());
    with_sprites(p, bg, list, list.len() as int)
}

/// Line `before` of the framebuffer once rendered from state `p`: the background and
/// window layer (when drawn), then the sprites (when enabled).
pub open spec fn rendered_line(p: PpuState, before: Seq<u8>) -> Seq<u8> {
    let bg = if bg_drawn(p) {
        Seq::new(SCREEN_WIDTH as nat, |x: int| bg_shade(p, x))
    } else {
        before
    };
    if p.sprite_on {
        sprites_over(p, bg)
    } else {
        bg
    }
}

/// The grey level for color index `index` of palette register `value`.
pub fn get_monochrome_palette_value(value: u8, index: u8) -> (r: u8)
    requires
        index < 4,
    ensures
        r == shade_of(value, index),
        is_shade(r),
{
    let field = (value >> (2 * index)) & 0x03;
    if field == 0 {
        255
    } else if field == 1 {
        192
    } else if field == 2 {
        96
    } else {
        0
    }
}

pub struct GPU {
    pub data: [u8; SCREEN_SIZE_RGB],
    pub ppu: PpuState,
}

/// The byte offset of pixel `x` of line `line` in the framebuffer.
pub open spec fn pixel_index(line: int, x: int) -> int {
    line * SCREEN_WIDTH + x
}

impl GPU {
    pub open spec fn wf(&self) -> bool {
        self.ppu.wf() && screen_ok(self.data@)
    }

    pub open spec fn initial_ppu() -> PpuState {
        PpuState {
            mode: Mode::HBlank,
            clock: 0,
            vram: vstd::array::spec_array_fill_for_copy_type(0u8),
            oam: vstd::array::spec_array_fill_for_copy_type(0u8),
            lcd_on: false,
            win_tilemap: 0x9C00,
            win_on: false,
            bgw_tiles: 0x8000,
            bg_tilemap: 0x9C00,
            sprite_size: 8,
            sprite_on: false,
            bgw_on: false,
            lyc_interrupt: false,
            mode2_interrupt: false,
            mode1_interrupt: false,
            mode0_interrupt: false,
            scy: 0,
            scx: 0,
            line: 0,
            lyc: 0,
            palette_bg_value: 0,
            palette_obp0_value: 0,
            palette_obp1_value: 1,
            wy: 0,
            wx: 0,
            vram_bank: 0,
            wy_trigger: false,
            wy_pos: -1i32,
            interrupt: 0,
        }
    }

    pub fn new() -> (r: Self)
        ensures
            r.wf(),
            r.ppu == GPU::initial_ppu(),
            forall|i: int| 0 <= i < SCREEN_SIZE_RGB ==> r.data[i] == 255,
    {
        let r = GPU {
            data: [255u8; SCREEN_SIZE_RGB],
            ppu: PpuState {
                mode: Mode::HBlank,
                clock: 0,
                vram: [0u8; VRAM_SIZE],
                oam: [0u8; VOAM_SIZE],
                lcd_on: false,
                win_tilemap: 0x9C00,
                win_on: false,
                bgw_tiles: 0x8000,
                bg_tilemap: 0x9C00,
                sprite_size: 8,
                sprite_on: false,
                bgw_on: false,
                lyc_interrupt: false,
                mode2_interrupt: false,
                mode1_interrupt: false,
                mode0_interrupt: false,
                scy: 0,
                scx: 0,
                line: 0,
                lyc: 0,
                palette_bg_value: 0,
                palette_obp0_value: 0,
                palette_obp1_value: 1,
                wy: 0,
                wx: 0,
                vram_bank: 0,
                wy_trigger: false,
                wy_pos: -1,
                interrupt: 0,
            },
        };
        assert(screen_ok(r.data@));
        r
    }

    /// The colour build has the same video unit.
    pub fn new_cgb() -> (r: GPU)
        ensures
            r.wf(),
            r.ppu == GPU::initial_ppu(),
            forall|i: int| 0 <= i < SCREEN_SIZE_RGB ==> r.data[i] == 255,
    {
        GPU::new()
    }

    /// Advances the mode machine by `ticks` cycles, rendering the current line on the
    /// change from pixel transfer to horizontal blank.
    #[verifier::spinoff_prover]
    #[verifier::rlimit(100)]
    pub fn step(&mut self, ticks: u8)
        requires
            old(self).wf(),
        ensures
            final(self).wf(),
            final(self).ppu == old(self).ppu.after_step(ticks),
            !old(self).ppu.step_renders(ticks) ==> final(self).data == old(self).data,
            old(self).ppu.step_renders(ticks) ==> same_outside_line(
                final(self).data@,
                old(self).data@,
                old(self).ppu.line as int,
            ),
            old(self).ppu.step_renders(ticks) ==> line_pixels(
                final(self).data@,
                old(self).ppu.line as int,
            ) == rendered_line(
                old(self).ppu.render_state(),
                line_pixels(old(self).data@, old(self).ppu.line as int),
            ),
    {
        if !self.ppu.lcd_on {
            return ;
        }
        let c = self.ppu.clock + ticks as u32;
        match self.ppu.mode {
            Mode::HBlank => {
                if c >= HBLANK_CYCLES {
                    self.ppu.clock = 0;
                    self.ppu.line = self.ppu.line + 1;
                    if self.ppu.line == 144 {
                        self.change_mode(Mode::VBlank);
                    } else {
                        self.change_mode(Mode::OAM);
                    }
                } else {
                    self.ppu.clock = c;
                }
            },
            Mode::VBlank => {
                if c >= LINE_CYCLES {
                    if self.ppu.line + 1 > LAST_LINE {
                        self.ppu.clock = 0;
                        self.ppu.line = 0;
                        self.change_mode(Mode::OAM);
                    } else {
                        self.ppu.clock = 0;
                        self.ppu.line = self.ppu.line + 1;
                    }
                } else {
                    self.ppu.clock = c;
                }
            },
            Mode::OAM => {
                if c >= OAM_CYCLES {
                    self.ppu.clock = 0;
                    self.change_mode(Mode::VRAM);
                } else {
                    self.ppu.clock = c;
                }
            },
            Mode::VRAM => {
                if c >= VRAM_CYCLES {
                    self.ppu.clock = 0;
                    self.change_mode(Mode::HBlank);
                    self.check_interrupt_lyc();
                } else {
                    self.ppu.clock = c;
                }
            },
        }
    }

    fn check_interrupt_lyc(&mut self)
        ensures
            final(self).ppu == old(self).ppu.after_lyc_check(),
            final(self).data == old(self).data,
    {
        if self.ppu.lyc_interrupt && self.ppu.line == self.ppu.lyc {
            self.ppu.interrupt = self.ppu.interrupt | 0x02;
        }
    }

    #[verifier::spinoff_prover]
    #[verifier::rlimit(100)]
    fn change_mode(&mut self, mode: Mode)
        requires
            mode == Mode::HBlank ==> old(self).ppu.render_ready(),
            screen_ok(old(self).data@),
        ensures
            final(self).ppu == old(self).ppu.after_mode_change(mode),
            screen_ok(final(self).data@),
            mode != Mode::HBlank ==> final(self).data == old(self).data,
            mode == Mode::HBlank ==> same_outside_line(
                final(self).data@,
                old(self).data@,
                old(self).ppu.line as int,
            ),
            mode == Mode::HBlank ==> line_pixels(final(self).data@, old(self).ppu.line as int)
                == rendered_line(
                PpuState { mode: Mode::HBlank, ..old(self).ppu }.after_render(),
                line_pixels(old(self).data@, old(self).ppu.line as int),
            ),
    {
        self.ppu.mode = mode;
        let raise = match mode {
            Mode::HBlank => {
                self.renderscan();
                self.ppu.mode0_interrupt
            },
            Mode::VBlank => {
                self.ppu.wy_trigger = false;
                self.ppu.interrupt = self.ppu.interrupt | 0x01;
                self.ppu.mode1_interrupt
            },
            Mode::OAM => self.ppu.mode2_interrupt,
            Mode::VRAM => {
                if self.ppu.win_on && !self.ppu.wy_trigger && self.ppu.line == self.ppu.wy {
                    self.ppu.wy_trigger = true;
                    self.ppu.wy_pos = -1;
                }
                false
            },
        };
        if raise {
            self.ppu.interrupt = self.ppu.interrupt | 0x02;
        }
    }

    pub fn read(&self, a: u16) -> (r: u8)
        requires
            self.ppu.wf(),
        ensures
            r == self.ppu.spec_read(a),
    {
        let p = &self.ppu;
        if 0x8000 <= a && a < 0xA000 {
            p.vram[p.vram_bank * 0x2000 + (a as usize % 0x2000)]
        } else if 0xFE00 <= a && a < 0xFEA0 {
            p.oam[(a - 0xFE00) as usize]
        } else if a == 0xFF40 {
            (if p.lcd_on {
                0x80u8
            } else {
                0
            }) | (if p.win_tilemap == 0x9C00 {
                0x40u8
            } else {
                0
            }) | (if p.win_on {
                0x20u8
            } else {
                0
            }) | (if p.bgw_tiles == 0x8000 {
                0x10u8
            } else {
                0
            }) | (if p.bg_tilemap == 0x9C00 {
                0x08u8
            } else {
                0
            }) | (if p.sprite_size == 16 {
                0x04u8
            } else {
                0
            }) | (if p.sprite_on {
                0x02u8
            } else {
                0
            }) | (if p.bgw_on {
                0x01u8
            } else {
                0
            })
        } else if a == 0xFF41 {
            0x80u8 | (if p.lyc_interrupt {
                0x40u8
            } else {
                0
            }) | (if p.mode2_interrupt {
                0x20u8
            } else {
                0
            }) | (if p.mode1_interrupt {
                0x10u8
            } else {
                0
            }) | (if p.mode0_interrupt {
                0x08u8
            } else {
                0
            }) | (if p.line == p.lyc {
                0x04u8
            } else {
                0
            }) | p.mode.code()
        } else {
            match a {
                0xFF42 => p.scy,
                0xFF43 => p.scx,
                0xFF44 => p.line,
                0xFF45 => p.lyc,
                0xFF46 => 0,
                0xFF47 => p.palette_bg_value,
                0xFF48 => p.palette_obp0_value,
                0xFF49 => p.palette_obp1_value,
                0xFF4A => p.wy,
                0xFF4B => p.wx,
                0xFF4F => p.vram_bank as u8 + 0xFE,
                _ => 0xFF,
            }
        }
    }

    /// Reads VRAM bank 0 at `a`; 0xFF outside 0x8000-0x9FFF.
    fn rbvram0(&self, a: u16) -> (r: u8)
        ensures
            r == vram_at(self.ppu, a as int),
    {
        if a < 0x8000 || a >= 0xA000 {
            0xFF
        } else {
            self.ppu.vram[a as usize % 0x2000]
        }
    }

    #[verifier::spinoff_prover]
    #[verifier::rlimit(100)]
    pub fn write(&mut self, a: u16, v: u8)
        requires
            old(self).wf(),
        ensures
            final(self).wf(),
            final(self).ppu == old(self).ppu.spec_write(a, v),
            old(self).ppu.write_blanks(a, v) ==> forall|i: int|
                0 <= i < SCREEN_SIZE_RGB ==> final(self).data[i] == 255,
            !old(self).ppu.write_blanks(a, v) ==> final(self).data == old(self).data,
    {
        if 0x8000 <= a && a < 0xA000 {
            let i = self.ppu.vram_bank * 0x2000 + (a as usize % 0x2000);
            self.ppu.vram[i] = v;
        } else if 0xFE00 <= a && a < 0xFEA0 {
            self.ppu.oam[(a - 0xFE00) as usize] = v;
        } else if a == 0xFF40 {
            self.write_lcdc(v);
        } else if a == 0xFF45 {
            self.ppu.lyc = v;
            self.check_interrupt_lyc();
        } else {
            self.write_register(a, v);
        }
    }

    /// LCDC: turning the LCD off clears the screen and resets the line machine; turning
    /// it on enters vertical blank.
    #[verifier::spinoff_prover]
    #[verifier::rlimit(100)]
    fn write_lcdc(&mut self, v: u8)
        requires
            old(self).wf(),
        ensures
            final(self).wf(),
            final(self).ppu == old(self).ppu.after_lcdc(v),
            old(self).ppu.write_blanks(0xFF40, v) ==> forall|i: int|
                0 <= i < SCREEN_SIZE_RGB ==> final(self).data[i] == 255,
            !old(self).ppu.write_blanks(0xFF40, v) ==> final(self).data == old(self).data,
    {
        let orig_lcd_on = self.ppu.lcd_on;
        self.ppu.lcd_on = v & 0x80 != 0;
        self.ppu.win_tilemap = if v & 0x40 != 0 {
            0x9C00
        } else {
            0x9800
        };
        self.ppu.win_on = v & 0x20 != 0;
        self.ppu.bgw_tiles = if v & 0x10 != 0 {
            0x8000
        } else {
            0x8800
        };
        self.ppu.bg_tilemap = if v & 0x08 != 0 {
            0x9C00
        } else {
            0x9800
        };
        self.ppu.sprite_size = if v & 0x04 != 0 {
            16
        } else {
            8
        };
        self.ppu.sprite_on = v & 0x02 != 0;
        self.ppu.bgw_on = v & 0x01 != 0;
        if orig_lcd_on && !self.ppu.lcd_on {
            self.ppu.clock = 0;
            self.ppu.line = 0;
            self.ppu.mode = Mode::HBlank;
            self.ppu.wy_trigger = false;
            self.clear_screen();
        }
        if !orig_lcd_on && self.ppu.lcd_on {
            self.change_mode(Mode::VBlank);
            self.ppu.clock = 4;
        }
    }

    /// The registers whose writes only store a value.
    #[verifier::spinoff_prover]
    #[verifier::rlimit(100)]
    fn write_register(&mut self, a: u16, v: u8)
        requires
            !(0x8000 <= a < 0xA000),
            !(0xFE00 <= a < 0xFEA0),
            a != 0xFF40,
            a != 0xFF45,
            old(self).wf(),
        ensures
            final(self).wf(),
            final(self).ppu == old(self).ppu.spec_write(a, v),
            final(self).data == old(self).data,
    {
        match a {
            0xFF41 => {
                self.ppu.lyc_interrupt = v & 0x40 != 0;
                self.ppu.mode2_interrupt = v & 0x20 != 0;
                self.ppu.mode1_interrupt = v & 0x10 != 0;
                self.ppu.mode0_interrupt = v & 0x08 != 0;
            },
            0xFF42 => self.ppu.scy = v,
            0xFF43 => self.ppu.scx = v,
            0xFF47 => self.ppu.palette_bg_value = v,
            0xFF48 => self.ppu.palette_obp0_value = v,
            0xFF49 => self.ppu.palette_obp1_value = v,
            0xFF4A => self.ppu.wy = v,
            0xFF4B => self.ppu.wx = v,
            0xFF4F => self.ppu.vram_bank = (v % 2) as usize,
            _ => {},
        }
    }

    /// Fills the framebuffer with the lightest shade.
    fn clear_screen(&mut self)
        ensures
            final(self).ppu == old(self).ppu,
            forall|i: int| 0 <= i < SCREEN_SIZE_RGB ==> final(self).data[i] == 255,
            screen_ok(final(self).data@),
    {
        let mut i: usize = 0;
        while i < SCREEN_SIZE_RGB
            invariant
                i <= SCREEN_SIZE_RGB,
                self.ppu == old(self).ppu,
                forall|j: int| 0 <= j < i ==> self.data[j] == 255,
            decreases SCREEN_SIZE_RGB - i,
        {
            self.data[i] = 255;
            i = i + 1;
        }
    }

    fn renderscan(&mut self)
        requires
            old(self).ppu.render_ready(),
            screen_ok(old(self).data@),
        ensures
            final(self).ppu == old(self).ppu.after_render(),
            screen_ok(final(self).data@),
            same_outside_line(final(self).data@, old(self).data@, old(self).ppu.line as int),
            line_pixels(final(self).data@, old(self).ppu.line as int) == rendered_line(
                old(self).ppu.after_render(),
                line_pixels(old(self).data@, old(self).ppu.line as int),
            ),
    {
        let ghost ln = self.ppu.line as int;
        self.draw_bg();
        let ghost p = self.ppu;
        proof {
            if bg_drawn(p) {
                assert(line_pixels(self.data@, ln) =~= Seq::new(
                    SCREEN_WIDTH as nat,
                    |x: int| bg_shade(p, x),
                ));
            } else {
                assert(line_pixels(self.data@, ln) =~= line_pixels(old(self).data@, ln));
            }
        }
        self.draw_sprites();
    }

    /// Writes grey level `color` to the three channels of pixel `x` on the current line.
    fn set_color(&mut self, x: usize, color: u8)
        requires
            old(self).ppu.line < 144,
            x < SCREEN_WIDTH,
            is_shade(color),
            screen_ok(old(self).data@),
        ensures
            final(self).ppu == old(self).ppu,
            screen_ok(final(self).data@),
            final(self).data@ == old(self).data@.update(
                3 * pixel_index(old(self).ppu.line as int, x as int),
                color,
            ).update(3 * pixel_index(old(self).ppu.line as int, x as int) + 1, color).update(
                3 * pixel_index(old(self).ppu.line as int, x as int) + 2,
                color,
            ),
    {
        let index = (self.ppu.line as usize * SCREEN_WIDTH + x) * 3;
        self.data[index] = color;
        self.data[index + 1] = color;
        self.data[index + 2] = color;
        proof {
            let q = pixel_index(old(self).ppu.line as int, x as int);
            assert forall|p: int| 0 <= p < SCREEN_SIZE_RGB / 3 implies #[trigger] is_shade(
                self.data@[3 * p],
            ) && self.data@[3 * p + 1] == self.data@[3 * p] && self.data@[3 * p + 2]
                == self.data@[3 * p] by {
                if p != q {
                    assert(is_shade(old(self).data@[3 * p]));
                }
            }
        }
    }

    #[verifier::spinoff_prover]
    #[verifier::rlimit(100)]
    fn draw_bg(&mut self)
        requires
            old(self).ppu.render_ready(),
            screen_ok(old(self).data@),
        ensures
            final(self).ppu == old(self).ppu.after_render(),
            final(self).ppu.regs_ok(),
            final(self).ppu.line < 144,
            screen_ok(final(self).data@),
            same_outside_line(final(self).data@, old(self).data@, old(self).ppu.line as int),
            bg_drawn(final(self).ppu) ==> forall|x: int|
                0 <= x < SCREEN_WIDTH ==> final(self).data@[3 * pixel_index(
                    old(self).ppu.line as int,
                    x,
                )] == bg_shade(final(self).ppu, x),
            !bg_drawn(final(self).ppu) ==> final(self).data == old(self).data,
    {
        let w_trigger = self.ppu.win_on && self.ppu.wy_trigger && self.ppu.wx <= 166;
        let winy: i32 = if w_trigger {
            self.ppu.wy_pos = self.ppu.wy_pos + 1;
            self.ppu.wy_pos
        } else {
            -1
        };
        if winy < 0 && !self.ppu.bgw_on {
            return ;
        }
        let wintiley: u16 = if winy >= 0 {
            ((winy as u16) / 8) % 32
        } else {
            0
        };
        let bgy: u8 = self.ppu.scy.wrapping_add(self.ppu.line);
        let bgtiley: u16 = (bgy as u16 / 8) % 32;
        let mut x: usize = 0;
        while x < SCREEN_WIDTH
            invariant
                x <= SCREEN_WIDTH,
                self.ppu == old(self).ppu.after_render(),
                self.ppu.regs_ok(),
                self.ppu.line < 144,
                screen_ok(self.data@),
                winy < 144,
                winy as int == window_line(self.ppu),
                bg_drawn(self.ppu),
                wintiley < 32,
                bgtiley < 32,
                winy >= 0 ==> wintiley == (winy / 8) % 32,
                bgy == (self.ppu.scy + self.ppu.line) % 256,
                bgtiley == (bgy / 8) % 32,
                same_outside_line(self.data@, old(self).data@, self.ppu.line as int),
                forall|k: int|
                    0 <= k < x ==> self.data@[3 * pixel_index(self.ppu.line as int, k)]
                        == bg_shade(self.ppu, k),
            decreases SCREEN_WIDTH - x,
        {
            let in_window = winy >= 0 && x as u16 + 7 >= self.ppu.wx as u16;
            let bgx: u16 = self.ppu.scx as u16 + x as u16;
            let mut tilemapbase: u16 = self.ppu.bg_tilemap;
            let mut tiley: u16 = bgtiley;
            let mut tilex: u16 = (bgx / 8) % 32;
            let mut pixely: u16 = bgy as u16 % 8;
            let mut pixelx: u16 = bgx % 8;
            if in_window {
                let winx: u16 = x as u16 + 7 - self.ppu.wx as u16;
                tilemapbase = self.ppu.win_tilemap;
                tiley = wintiley;
                tilex = winx / 8;
                pixely = winy as u16 % 8;
                pixelx = winx % 8;
            }
            let tile_number: u8 = self.rbvram0(tilemapbase + tiley * 32 + tilex);
            let offset: u16 = if self.ppu.bgw_tiles == 0x8000 {
                tile_number as u16
            } else {
                (tile_number as u16 + 128) % 256
            };
            let tile_address: u16 = self.ppu.bgw_tiles + offset * 16;
            let row: u16 = tile_address + pixely * 2;
            let b1 = self.rbvram0(row);
            let b2 = self.rbvram0(row + 1);
            let xbit = (7 - pixelx) as u8;
            let color_number: u8 = (b1 >> xbit) % 2 + ((b2 >> xbit) % 2) * 2;
            let color = get_monochrome_palette_value(self.ppu.palette_bg_value, color_number);
            assert(color == bg_shade(self.ppu, x as int));
            self.set_color(x, color);
            x = x + 1;
        }
    }

    #[verifier::spinoff_prover]
    #[verifier::rlimit(100)]
    fn draw_sprites(&mut self)
        requires
            old(self).ppu.regs_ok(),
            old(self).ppu.line < 144,
            screen_ok(old(self).data@),
        ensures
            final(self).ppu == old(self).ppu,
            screen_ok(final(self).data@),
            same_outside_line(final(self).data@, old(self).data@, old(self).ppu.line as int),
            !old(self).ppu.sprite_on ==> final(self).data == old(self).data,
            old(self).ppu.sprite_on ==> line_pixels(final(self).data@, old(self).ppu.line as int)
                == sprites_over(old(self).ppu, line_pixels(old(self).data@, old(self).ppu.line as int)),
    {
        if !self.ppu.sprite_on {
            return ;
        }
        let ghost p = self.ppu;
        let ghost ln = self.ppu.line as int;
        let ghost row0 = line_pixels(self.data@, ln);
        // Lines and columns are counted from 16 above and 8 left of the screen, as OAM does.
        let line: u16 = self.ppu.line as u16 + 16;
        let size: u16 = self.ppu.sprite_size as u16;
        let mut chosen: Vec<usize> = Vec::new();
        let mut i: usize = 0;
        assert(chosen@.map_values(|v: usize| v as int) =~= Seq::<int>::empty());
        while i < 40 && chosen.len() < 10
            invariant
                i <= 40,
                chosen.len() <= 10,
                forall|k: int| 0 <= k < chosen.len() ==> chosen[k] < 40,
                forall|k: int| 0 <= k < chosen.len() ==> sprite_covers(p, chosen[k] as int),
                self.ppu == p,
                self.data == old(self).data,
                row0 == line_pixels(self.data@, ln),
                ln == p.line,
                line == p.line + 16,
                size == p.sprite_size,
                size <= 16,
                sprites_from(p, 0, Seq::empty()) == sprites_from(
                    p,
                    i as int,
                    chosen@.map_values(|v: usize| v as int),
                ),
            decreases 40 - i,
        {
            let top = self.ppu.oam[i * 4] as u16;
            if top <= line && line < top + size {
                let ghost before = chosen@.map_values(|v: usize| v as int);
                chosen.push(i);
                assert(chosen@.map_values(|v: usize| v as int) =~= before.push(i as int));
            }
            i = i + 1;
        }
        let ghost list = chosen@.map_values(|v: usize| v as int);
        assert(sprites_from(p, i as int, list) == list);
        // The background layer of the line, against which priority is decided.
        let mut bg: Vec<u8> = Vec::new();
        let mut k: usize = 0;
        while k < SCREEN_WIDTH
            invariant
                k <= SCREEN_WIDTH,
                self.ppu == p,
                p.line < 144,
                ln == p.line,
                row0 == line_pixels(self.data@, ln),
                bg@ == row0.subrange(0, k as int),
            decreases SCREEN_WIDTH - k,
        {
            bg.push(self.data[(self.ppu.line as usize * SCREEN_WIDTH + k) * 3]);
            k = k + 1;
        }
        assert(bg@ =~= row0);
        let mut s: usize = 0;
        while s < chosen.len()
            invariant
                s <= chosen.len() <= 10,
                forall|k: int| 0 <= k < chosen.len() ==> chosen[k] < 40,
                forall|k: int| 0 <= k < chosen.len() ==> sprite_covers(p, chosen[k] as int),
                list == chosen@.map_values(|v: usize| v as int),
                list == sprites_from(p, 0, Seq::empty()),
                self.ppu == p,
                p.regs_ok(),
                p.line < 144,
                ln == p.line,
                line == p.line + 16,
                size == p.sprite_size,
                screen_ok(self.data@),
                same_outside_line(self.data@, old(self).data@, ln),
                line_pixels(self.data@, ln) == with_sprites(p, row0, list, s as int),
                bg@ == row0,
                bg.len() == SCREEN_WIDTH,
            decreases chosen.len() - s,
        {
            let ghost start = line_pixels(self.data@, ln);
            let ghost e = list[s as int];
            let base = chosen[s] * 4;
            let top = self.ppu.oam[base] as u16;
            let left = self.ppu.oam[base + 1] as u16;
            let tile = self.ppu.oam[base + 2];
            let flags = self.ppu.oam[base + 3];
            let flip_x = flags & 0x20 != 0;
            let flip_y = flags & 0x40 != 0;
            let below_bg = flags & 0x80 != 0;
            let palette = if flags & 0x10 != 0 {
                self.ppu.palette_obp1_value
            } else {
                self.ppu.palette_obp0_value
            };
            let row = line - top;
            let tile_y = if flip_y {
                size - 1 - row
            } else {
                row
            };
            let tile_address: u16 = 0x8000 + (tile as u16) * 16 + tile_y * 2;
            let low_byte = self.rbvram0(tile_address);
            let high_byte = self.rbvram0(tile_address + 1);
            let mut px: u16 = 0;
            while px < 8
                invariant
                    px <= 8,
                    e == chosen[s as int] as int,
                    0 <= e < 40,
                    sprite_covers(p, e),
                    base == 4 * e,
                    left == p.oam[4 * e + 1],
                    flags == p.oam[4 * e + 3],
                    tile == p.oam[4 * e + 2],
                    top == p.oam[4 * e],
                    palette == (if flags & 0x10 != 0 {
                        p.palette_obp1_value
                    } else {
                        p.palette_obp0_value
                    }),
                    flip_x == (flags & 0x20 != 0),
                    below_bg == (flags & 0x80 != 0),
                    low_byte == vram_at(p, tile_address as int),
                    high_byte == vram_at(p, tile_address + 1),
                    tile_address == 0x8000 + tile * 16 + (if flags & 0x40 != 0 {
                        p.sprite_size - 1 - (p.line + 16 - top)
                    } else {
                        p.line + 16 - top
                    }) * 2,
                    self.ppu == p,
                    p.regs_ok(),
                    p.line < 144,
                    ln == p.line,
                    line == p.line + 16,
                    screen_ok(self.data@),
                    same_outside_line(self.data@, old(self).data@, ln),
                    bg@ == row0,
                    bg.len() == SCREEN_WIDTH,
                    line_pixels(self.data@, ln) == Seq::new(
                        SCREEN_WIDTH as nat,
                        |x: int|
                            if x + 8 - left < px {
                                sprite_pixel(p, row0, start, e, x)
                            } else {
                                start[x]
                            },
                    ),
                decreases 8 - px,
            {
                let tile_x = (if flip_x {
                    px
                } else {
                    7 - px
                }) as u8;
                let color_number: u8 = (low_byte >> tile_x) % 2 + ((high_byte >> tile_x) % 2) * 2;
                assert(color_number == sprite_color(p, e, px as int));
                let ghost cur = line_pixels(self.data@, ln);
                // Screen column plus 8.
                let xs = left + px;
                if color_number != 0 && 8 <= xs && xs < SCREEN_WIDTH as u16 + 8 {
                    let x = (xs - 8) as usize;
                    if !(below_bg && bg[x] != 255) {
                        let color = get_monochrome_palette_value(palette, color_number);
                        self.set_color(x, color);
                        assert(line_pixels(self.data@, ln) =~= cur.update(x as int, color));
                    }
                }
                px = px + 1;
                assert(line_pixels(self.data@, ln) =~= Seq::new(
                    SCREEN_WIDTH as nat,
                    |x: int|
                        if x + 8 - left < px {
                            sprite_pixel(p, row0, start, e, x)
                        } else {
                            start[x]
                        },
                ));
            }
            assert(line_pixels(self.data@, ln) =~= with_sprite(p, row0, start, e));
            s = s + 1;
        }
    }

    pub fn screen_data(&self) -> (r: &[u8; SCREEN_SIZE_RGB])
        ensures
            *r == self.data,
    {
        &self.data
    }
}

} // verus!

verus! {

/// A visible scanline: OAM search, pixel transfer and horizontal blank take 80, 172 and 204
/// cycles, 456 in all, and end at the start of the next line (vertical blank after the
/// 144th).
pub proof fn lemma_visible_line(p: PpuState)
    requires
        p.wf(),
        p.lcd_on,
        p.mode == Mode::OAM,
        p.clock == 0,
    ensures
        OAM_CYCLES + VRAM_CYCLES + HBLANK_CYCLES == LINE_CYCLES,
        ({
            let q = p.after_step(80).after_step(172).after_step(204);
            &&& q.clock == 0
            &&& q.line == p.line + 1
            &&& if p.line < 143 {
                q.mode == Mode::OAM
            } else {
                q.mode == Mode::VBlank
            }
        }),
{
}

/// A line of vertical blank takes 456 cycles; after line 153, the 154th line of the frame,
/// the next frame starts at line 0.
pub proof fn lemma_blank_line(p: PpuState)
    requires
        p.wf(),
        p.lcd_on,
        p.mode == Mode::VBlank,
        p.clock == 0,
    ensures
        ({
            let q = p.after_step(228).after_step(228);
            &&& q.clock == 0
            &&& if p.line < LAST_LINE {
                q.mode == Mode::VBlank && q.line == p.line + 1
            } else {
                q.mode == Mode::OAM && q.line == 0
            }
        }),
{
}

} // verus!

verus! {

/// The mode machine after `n` steps of four cycles each.
pub open spec fn steps4(p: PpuState, n: nat) -> PpuState
    decreases n,
{
    if n == 0 {
        p
    } else {
        steps4(p, (n - 1) as nat).after_step(4)
    }
}

proof fn lemma_steps4_add(p: PpuState, a: nat, b: nat)
    ensures
        steps4(p, a + b) == steps4(steps4(p, a), b),
    decreases b,
{
    if b > 0 {
        lemma_steps4_add(p, a, (b - 1) as nat);
        assert(steps4(p, a + b) == steps4(p, (a + b - 1) as nat).after_step(4));
    }
}

/// Steps that stay below the end of a mode (or of a blank line) only advance the clock.
proof fn lemma_steps4_within(p: PpuState, k: nat, end: int)
    requires
        p.lcd_on,
        end == (if p.mode == Mode::OAM {
            80int
        } else if p.mode == Mode::VRAM {
            172int
        } else if p.mode == Mode::HBlank {
            204int
        } else {
            456int
        }),
        p.clock + 4 * k < end,
    ensures
        steps4(p, k) == (PpuState { clock: (p.clock + 4 * k) as u32, ..p }),
    decreases k,
{
    if k > 0 {
        lemma_steps4_within(p, (k - 1) as nat, end);
    }
}

/// A visible line run in steps of four cycles: after 114 steps (20 in OAM search, 43 in
/// pixel transfer, 51 in horizontal blank; 456 cycles) the machine is at the start of the
/// next line.
pub proof fn lemma_line_in_steps(p: PpuState)
    requires
        p.wf(),
        p.lcd_on,
        p.mode == Mode::OAM,
        p.clock == 0,
        p.line < 143,
    ensures
        steps4(p, 114).mode == Mode::OAM,
        steps4(p, 114).clock == 0,
        steps4(p, 114).line == p.line + 1,
{
    lemma_steps4_within(p, 19, 80);
    let p1 = steps4(p, 20);
    assert(p1 == steps4(p, 19).after_step(4));
    assert(p1.mode == Mode::VRAM && p1.clock == 0 && p1.line == p.line && p1.lcd_on);
    lemma_steps4_within(p1, 42, 172);
    let p2 = steps4(p1, 43);
    assert(p2 == steps4(p1, 42).after_step(4));
    assert(p2.mode == Mode::HBlank && p2.clock == 0 && p2.line == p.line && p2.lcd_on);
    lemma_steps4_within(p2, 50, 204);
    let p3 = steps4(p2, 51);
    assert(p3 == steps4(p2, 50).after_step(4));
    lemma_steps4_add(p, 20, 43);
    lemma_steps4_add(p, 63, 51);
}

/// A line of vertical blank run in steps of four cycles: after 114 steps (456 cycles) the
/// next blank line starts, or, after line 153, line 0 of the next frame.
pub proof fn lemma_blank_line_in_steps(p: PpuState)
    requires
        p.wf(),
        p.lcd_on,
        p.mode == Mode::VBlank,
        p.clock == 0,
    ensures
        steps4(p, 114).clock == 0,
        p.line < LAST_LINE ==> steps4(p, 114).mode == Mode::VBlank && steps4(p, 114).line
            == p.line + 1,
        p.line == LAST_LINE ==> steps4(p, 114).mode == Mode::OAM && steps4(p, 114).line == 0,
{
    lemma_steps4_within(p, 113, 456);
    assert(steps4(p, 114) == steps4(p, 113).after_step(4));
}

} // verus!
