//! The picture-processing unit: the scanline state machine, its registers,
//! VRAM and OAM, and the line renderer.
use vstd::prelude::*;
use crate::interrupt::InterruptFlags;
use crate::register::{bit_of, bit_set, get_bit, pow2, test_bit};

verus! {

pub const DISPLAY_WIDTH: usize = 160;
pub const DISPLAY_HEIGHT: usize = 144;
/// Bytes of the RGB frame buffer.
pub const FRAME_BUFFER_SIZE: usize = 69120;
/// Pixels on screen.
pub const SHADE_BUFFER_SIZE: usize = 23040;
pub const VRAM_SIZE: usize = 0x2000;
pub const OAM_SIZE: usize = 0xA0;
/// Dots spent in each mode of a visible line.
pub const OAM_SCAN_DOTS: u16 = 80;
pub const TRANSFER_DOTS: u16 = 172;
pub const HBLANK_DOTS: u16 = 204;
/// Dots of one line.
pub const LINE_DOTS: u16 = 456;
/// Lines of a frame, visible and v-blank.
pub const FRAME_LINES: u8 = 154;

/// The four modes of a scanline.
#[derive(Clone, Copy, Debug, PartialEq, Eq, Structural)]
pub enum PpuMode {
    HBlank,
    VBlank,
    OamScan,
    Transfer,
}

/// The number that STAT reports for a mode.
pub open spec fn mode_number(m: PpuMode) -> u8 {
    match m {
        PpuMode::HBlank => 0,
        PpuMode::VBlank => 1,
        PpuMode::OamScan => 2,
        PpuMode::Transfer => 3,
    }
}

/// Dots spent in mode `m` before the next transition.
pub open spec fn mode_length(m: PpuMode) -> int {
    match m {
        PpuMode::OamScan => 80,
        PpuMode::Transfer => 172,
        PpuMode::HBlank => 204,
        PpuMode::VBlank => 456,
    }
}

/// Where the scanline machine stands: its mode, the dots spent in that mode,
/// the current line, and the frames completed (counted as v-blank ends,
/// wrapping).
#[derive(Clone, Copy, Debug, PartialEq, Eq, Structural)]
pub struct Timing {
    pub mode: PpuMode,
    pub dots: u16,
    pub ly: u8,
    pub frame: u16,
}

impl Timing {
    pub open spec fn valid(self) -> bool {
        &&& self.dots < mode_length(self.mode)
        &&& (self.mode == PpuMode::VBlank ==> 144 <= self.ly < 154)
        &&& (self.mode != PpuMode::VBlank ==> self.ly < 144)
    }

    /// The state one dot later.
    pub open spec fn next(self) -> Timing {
        if self.dots + 1 < mode_length(self.mode) {
            Timing { dots: (self.dots + 1) as u16, ..self }
        } else {
            match self.mode {
                PpuMode::OamScan => Timing { mode: PpuMode::Transfer, dots: 0, ..self },
                PpuMode::Transfer => Timing { mode: PpuMode::HBlank, dots: 0, ..self },
                PpuMode::HBlank => if self.ly + 1 == 144 {
                    Timing { mode: PpuMode::VBlank, dots: 0, ly: 144, ..self }
                } else {
                    Timing { mode: PpuMode::OamScan, dots: 0, ly: (self.ly + 1) as u8, ..self }
                },
                PpuMode::VBlank => if self.ly + 1 == 154 {
                    Timing { mode: PpuMode::OamScan, dots: 0, ly: 0, frame: self.frame.wrapping_add(1) }
                } else {
                    Timing { mode: PpuMode::VBlank, dots: 0, ly: (self.ly + 1) as u8, ..self }
                },
            }
        }
    }

    /// The state `n` dots later.
    pub open spec fn run(self, n: nat) -> Timing
        decreases n,
    {
        if n == 0 {
            self
        } else {
            self.next().run((n - 1) as nat)
        }
    }

    /// Advances by one dot.
    pub fn step(&mut self)
        requires
            old(self).valid(),
        ensures
            *final(self) == old(self).next(),
            final(self).valid(),
    {
        let len: u16 = match self.mode {
            PpuMode::OamScan => OAM_SCAN_DOTS,
            PpuMode::Transfer => TRANSFER_DOTS,
            PpuMode::HBlank => HBLANK_DOTS,
            PpuMode::VBlank => LINE_DOTS,
        };
        if self.dots + 1 < len {
            self.dots = self.dots + 1;
        } else {
            self.dots = 0;
            match self.mode {
                PpuMode::OamScan => {
                    self.mode = PpuMode::Transfer;
                },
                PpuMode::Transfer => {
                    self.mode = PpuMode::HBlank;
                },
                PpuMode::HBlank => {
                    if self.ly + 1 == 144 {
                        self.mode = PpuMode::VBlank;
                        self.ly = 144;
                    } else {
                        self.mode = PpuMode::OamScan;
                        self.ly = self.ly + 1;
                    }
                },
                PpuMode::VBlank => {
                    if self.ly + 1 == 154 {
                        self.mode = PpuMode::OamScan;
                        self.ly = 0;
                        self.frame = self.frame.wrapping_add(1);
                    } else {
                        self.ly = self.ly + 1;
                    }
                },
            }
        }
    }
}

/// Running `a` dots and then `b` dots is running `a + b` dots.
pub proof fn lemma_run_add(t: Timing, a: nat, b: nat)
    ensures
        t.run(a + b) == t.run(a).run(b),
    decreases a,
{
    if a > 0 {
        lemma_run_add(t.next(), (a - 1) as nat, b);
        assert((a + b - 1) as nat == ((a - 1) as nat + b) as nat);
    }
}

/// Inside one mode, dots only count up.
pub proof fn lemma_run_within_mode(t: Timing, k: nat)
    requires
        t.dots + k < mode_length(t.mode),
    ensures
        t.run(k) == (Timing { dots: (t.dots + k) as u16, ..t }),
    decreases k,
{
    if k > 0 {
        lemma_run_within_mode(t.next(), (k - 1) as nat);
    }
}

/// Running a whole mode from its first dot reaches the next mode's first dot.
pub proof fn lemma_run_mode(t: Timing)
    requires
        t.dots == 0,
        mode_length(t.mode) >= 1,
    ensures
        t.run(mode_length(t.mode) as nat) == (Timing { dots: (mode_length(t.mode) - 1) as u16, ..t }).next(),
{
    let n = (mode_length(t.mode) - 1) as nat;
    lemma_run_within_mode(t, n);
    lemma_run_add(t, n, 1);
    let m = t.run(n);
    assert(m.run(1) == m.next().run(0));
    assert(n + 1 == mode_length(t.mode) as nat);
}

/// A visible line `l` (0..=143) spends 80 + 172 + 204 = 456 dots in OAM scan,
/// pixel transfer and h-blank, and then the next line begins, or v-blank
/// after line 143.
pub proof fn lemma_visible_line_dots(l: u8, fr: u16)
    requires
        l < 144,
    ensures
        (Timing { mode: PpuMode::OamScan, dots: 0, ly: l, frame: fr }).run(456) == (if l == 143 {
            Timing { mode: PpuMode::VBlank, dots: 0, ly: 144, frame: fr }
        } else {
            Timing { mode: PpuMode::OamScan, dots: 0, ly: (l + 1) as u8, frame: fr }
        }),
{
    let t0 = Timing { mode: PpuMode::OamScan, dots: 0, ly: l, frame: fr };
    let t1 = Timing { mode: PpuMode::Transfer, dots: 0, ly: l, frame: fr };
    let t2 = Timing { mode: PpuMode::HBlank, dots: 0, ly: l, frame: fr };
    lemma_run_mode(t0);
    lemma_run_mode(t1);
    lemma_run_mode(t2);
    lemma_run_add(t0, 80, 172);
    lemma_run_add(t0, 252, 204);
}

/// From the start of v-blank line `i`, the lines left of v-blank take
/// 456 dots each and end at the start of line 0 with the frame counted.
pub proof fn lemma_vblank_from(i: u8, fr: u16)
    requires
        144 <= i < 154,
    ensures
        (Timing { mode: PpuMode::VBlank, dots: 0, ly: i, frame: fr }).run(((154 - i) * 456) as nat)
            == (Timing { mode: PpuMode::OamScan, dots: 0, ly: 0, frame: fr.wrapping_add(1) }),
    decreases 154 - i,
{
    let t = Timing { mode: PpuMode::VBlank, dots: 0, ly: i, frame: fr };
    lemma_run_mode(t);
    if i < 153 {
        lemma_vblank_from((i + 1) as u8, fr);
        lemma_run_add(t, 456, ((153 - i) * 456) as nat);
        assert(456 + ((153 - i) * 456) as nat == ((154 - i) * 456) as nat);
    }
}

/// Inside v-blank line `i`, fewer dots than are left of v-blank keep the
/// machine in v-blank with the frame not yet counted.
pub proof fn lemma_vblank_within(i: u8, fr: u16, k: nat)
    requires
        144 <= i < 154,
        k < (154 - i) * 456,
    ensures
        (Timing { mode: PpuMode::VBlank, dots: 0, ly: i, frame: fr }).run(k).mode == PpuMode::VBlank,
        144 <= (Timing { mode: PpuMode::VBlank, dots: 0, ly: i, frame: fr }).run(k).ly < 154,
        (Timing { mode: PpuMode::VBlank, dots: 0, ly: i, frame: fr }).run(k).frame == fr,
    decreases 154 - i,
{
    let t = Timing { mode: PpuMode::VBlank, dots: 0, ly: i, frame: fr };
    if k < 456 {
        lemma_run_within_mode(t, k);
    } else {
        lemma_run_mode(t);
        lemma_vblank_within((i + 1) as u8, fr, (k - 456) as nat);
        lemma_run_add(t, 456, (k - 456) as nat);
    }
}

/// From the start of visible line `l`, the visible lines left take 456 dots
/// each and end at the start of v-blank.
pub proof fn lemma_lines_from(l: u8, fr: u16)
    requires
        l < 144,
    ensures
        (Timing { mode: PpuMode::OamScan, dots: 0, ly: l, frame: fr }).run(((144 - l) * 456) as nat)
            == (Timing { mode: PpuMode::VBlank, dots: 0, ly: 144, frame: fr }),
    decreases 144 - l,
{
    let t = Timing { mode: PpuMode::OamScan, dots: 0, ly: l, frame: fr };
    lemma_visible_line_dots(l, fr);
    if l < 143 {
        lemma_lines_from((l + 1) as u8, fr);
        lemma_run_add(t, 456, ((143 - l) * 456) as nat);
        assert(456 + ((143 - l) * 456) as nat == ((144 - l) * 456) as nat);
    }
}

/// V-blank lasts ten lines of 456 dots: from its first dot, 4560 dots later
/// line 0 begins again and the frame is counted; any fewer dots stay in
/// v-blank with the count unchanged.
pub proof fn lemma_vblank_dots(fr: u16, k: nat)
    ensures
        (Timing { mode: PpuMode::VBlank, dots: 0, ly: 144, frame: fr }).run(4560) == (Timing {
            mode: PpuMode::OamScan,
            dots: 0,
            ly: 0,
            frame: fr.wrapping_add(1),
        }),
        k < 4560 ==> (Timing { mode: PpuMode::VBlank, dots: 0, ly: 144, frame: fr }).run(k).mode
            == PpuMode::VBlank && (Timing { mode: PpuMode::VBlank, dots: 0, ly: 144, frame: fr }).run(
            k,
        ).frame == fr,
{
    lemma_vblank_from(144, fr);
    if k < 4560 {
        lemma_vblank_within(144, fr, k);
    }
}

/// A whole frame is 154 lines of 456 dots: 70224 dots after line 0 begins,
/// line 0 begins again and exactly one more frame has been counted; any
/// fewer dots leave the count as it was.
pub proof fn lemma_frame_dots(fr: u16, k: nat)
    ensures
        (Timing { mode: PpuMode::OamScan, dots: 0, ly: 0, frame: fr }).run(70224) == (Timing {
            mode: PpuMode::OamScan,
            dots: 0,
            ly: 0,
            frame: fr.wrapping_add(1),
        }),
        k < 70224 ==> (Timing { mode: PpuMode::OamScan, dots: 0, ly: 0, frame: fr }).run(k).frame
            == fr,
{
    let start = Timing { mode: PpuMode::OamScan, dots: 0, ly: 0, frame: fr };
    lemma_lines_from(0, fr);
    lemma_vblank_from(144, fr);
    lemma_run_add(start, 65664, 4560);
    if k < 70224 {
        if k < 65664 {
            lemma_lines_within(0, fr, k);
        } else {
            lemma_run_add(start, 65664, (k - 65664) as nat);
            lemma_vblank_within(144, fr, (k - 65664) as nat);
        }
    }
}

/// Inside visible line `l`, the frame count does not move.
pub proof fn lemma_line_within(l: u8, fr: u16, k: nat)
    requires
        l < 144,
        k < 456,
    ensures
        (Timing { mode: PpuMode::OamScan, dots: 0, ly: l, frame: fr }).run(k).frame == fr,
{
    let t0 = Timing { mode: PpuMode::OamScan, dots: 0, ly: l, frame: fr };
    let t1 = Timing { mode: PpuMode::Transfer, dots: 0, ly: l, frame: fr };
    let t2 = Timing { mode: PpuMode::HBlank, dots: 0, ly: l, frame: fr };
    lemma_run_mode(t0);
    lemma_run_mode(t1);
    if k < 80 {
        lemma_run_within_mode(t0, k);
    } else if k < 252 {
        lemma_run_add(t0, 80, (k - 80) as nat);
        lemma_run_within_mode(t1, (k - 80) as nat);
    } else {
        lemma_run_add(t0, 80, 172);
        lemma_run_add(t0, 252, (k - 252) as nat);
        lemma_run_within_mode(t2, (k - 252) as nat);
    }
}

/// Before v-blank is reached from the start of visible line `l`, the frame
/// count does not move.
pub proof fn lemma_lines_within(l: u8, fr: u16, k: nat)
    requires
        l < 144,
        k < (144 - l) * 456,
    ensures
        (Timing { mode: PpuMode::OamScan, dots: 0, ly: l, frame: fr }).run(k).frame == fr,
    decreases 144 - l,
{
    let t = Timing { mode: PpuMode::OamScan, dots: 0, ly: l, frame: fr };
    if k < 456 {
        lemma_line_within(l, fr, k);
    } else {
        lemma_visible_line_dots(l, fr);
        lemma_lines_within((l + 1) as u8, fr, (k - 456) as nat);
        lemma_run_add(t, 456, (k - 456) as nat);
    }
}

/// The shade (0..=3) that palette register `pal` gives to colour number `color`.
pub open spec fn palette_shade(pal: u8, color: int) -> u8 {
    ((pal as int / pow2(2 * color)) % 4) as u8
}

/// The shade that palette register `pal` gives to colour number `color`.
pub fn apply_palette(pal: u8, color: u8) -> (r: u8)
    requires
        color < 4,
    ensures
        r == palette_shade(pal, color as int),
        r < 4,
{
    proof {
        reveal_with_fuel(pow2, 7);
    }
    let div: u8 = match color {
        0 => 1,
        1 => 4,
        2 => 16,
        _ => 64,
    };
    (pal / div) % 4
}

/// The default palette: white, light grey, dark grey, black.
pub open spec fn default_palette() -> Seq<u8> {
    seq![0xff, 0xff, 0xff, 0xc0, 0xc0, 0xc0, 0x60, 0x60, 0x60, 0x00, 0x00, 0x00]
}

/// The picture-processing unit.
pub struct Ppu {
    pub vram: Vec<u8>,
    pub oam: Vec<u8>,
    pub lcdc: u8,
    pub scy: u8,
    pub scx: u8,
    pub lyc: u8,
    pub bgp: u8,
    pub obp0: u8,
    pub obp1: u8,
    pub wy: u8,
    pub wx: u8,
    /// STAT bit 6: request STAT on LY == LYC.
    pub int_lyc: bool,
    /// STAT bit 5: request STAT on entering OAM scan.
    pub int_oam: bool,
    /// STAT bit 4: request STAT on entering v-blank.
    pub int_vblank_mode: bool,
    /// STAT bit 3: request STAT on entering h-blank.
    pub int_hblank: bool,
    pub timing: Timing,
    /// Window lines drawn so far in this frame.
    pub window_line: u8,
    /// One shade (0..=3) per pixel, row by row.
    pub shades: Vec<u8>,
    /// RGB bytes, three per pixel, materialised from `shades` on demand.
    pub frame_buffer: Vec<u8>,
    /// Frame whose shades `frame_buffer` holds, when `fb_valid`.
    pub fb_frame: u16,
    pub fb_valid: bool,
    /// Four RGB colours for shades 0..=3.
    pub palette: Vec<u8>,
}

impl Ppu {
    /// VRAM, OAM and the shades cleared, scroll, window, LYC and STAT enables
    /// zero, line 0 starting with no frame counted, no frame buffer built.
    /// (LCDC and the palette registers are left to the caller.)
    pub open spec fn powered_on(&self) -> bool {
        &&& self.vram@ == Seq::new(VRAM_SIZE as nat, |i: int| 0u8)
        &&& self.oam@ == Seq::new(OAM_SIZE as nat, |i: int| 0u8)
        &&& self.shades@ == Seq::new(SHADE_BUFFER_SIZE as nat, |i: int| 0u8)
        &&& self.scy == 0 && self.scx == 0 && self.lyc == 0 && self.wy == 0 && self.wx == 0
        &&& !self.int_lyc && !self.int_oam && !self.int_vblank_mode && !self.int_hblank
        &&& self.timing == (Timing { mode: PpuMode::OamScan, dots: 0, ly: 0, frame: 0 })
        &&& self.window_line == 0
        &&& !self.fb_valid
    }

    pub open spec fn wf(&self) -> bool {
        &&& self.vram@.len() == VRAM_SIZE
        &&& self.oam@.len() == OAM_SIZE
        &&& self.shades@.len() == SHADE_BUFFER_SIZE
        &&& self.frame_buffer@.len() == FRAME_BUFFER_SIZE
        &&& self.palette@.len() == 12
        &&& self.timing.valid()
        &&& self.window_line <= 144
        &&& forall|i: int| 0 <= i < SHADE_BUFFER_SIZE ==> #[trigger] self.shades@[i] < 4
    }

    pub open spec fn lcd_on(&self) -> bool {
        bit_set(self.lcdc, 7)
    }

    /// Whether the STAT request line is high: any enabled condition holds.
    pub open spec fn stat_condition(&self) -> bool {
        (self.int_lyc && self.timing.ly == self.lyc) || (self.int_oam && self.timing.mode
            == PpuMode::OamScan) || (self.int_vblank_mode && self.timing.mode == PpuMode::VBlank)
            || (self.int_hblank && self.timing.mode == PpuMode::HBlank)
    }

    /// The value STAT reads.
    pub open spec fn stat_spec(&self) -> u8 {
        (0x80 + (if self.int_lyc { 0x40int } else { 0 }) + (if self.int_oam { 0x20int } else { 0 })
            + (if self.int_vblank_mode { 0x10int } else { 0 }) + (if self.int_hblank {
            0x08int
        } else {
            0
        }) + (if self.timing.ly == self.lyc { 0x04int } else { 0 }) + mode_number(
            self.timing.mode,
        )) as u8
    }

    /// What a read of register `addr` (0xFF40..=0xFF4B) returns.
    pub open spec fn reg_spec(&self, addr: u16) -> u8 {
        if addr == 0xFF40 {
            self.lcdc
        } else if addr == 0xFF41 {
            self.stat_spec()
        } else if addr == 0xFF42 {
            self.scy
        } else if addr == 0xFF43 {
            self.scx
        } else if addr == 0xFF44 {
            self.timing.ly
        } else if addr == 0xFF45 {
            self.lyc
        } else if addr == 0xFF47 {
            self.bgp
        } else if addr == 0xFF48 {
            self.obp0
        } else if addr == 0xFF49 {
            self.obp1
        } else if addr == 0xFF4A {
            self.wy
        } else if addr == 0xFF4B {
            self.wx
        } else {
            0xFF
        }
    }

    /// The state after a write of `v` to register `addr`.
    pub open spec fn reg_written(&self, addr: u16, v: u8) -> Ppu {
        if addr == 0xFF40 {
            if bit_set(v, 7) && !self.lcd_on() {
                Ppu {
                    lcdc: v,
                    timing: Timing { mode: PpuMode::OamScan, dots: 0, ly: 0, ..self.timing },
                    ..*self
                }
            } else if !bit_set(v, 7) && self.lcd_on() {
                Ppu {
                    lcdc: v,
                    timing: Timing { mode: PpuMode::HBlank, dots: 0, ly: 0, ..self.timing },
                    window_line: 0,
                    ..*self
                }
            } else {
                Ppu { lcdc: v, ..*self }
            }
        } else if addr == 0xFF41 {
            Ppu {
                int_lyc: bit_set(v, 6),
                int_oam: bit_set(v, 5),
                int_vblank_mode: bit_set(v, 4),
                int_hblank: bit_set(v, 3),
                ..*self
            }
        } else if addr == 0xFF42 {
            Ppu { scy: v, ..*self }
        } else if addr == 0xFF43 {
            Ppu { scx: v, ..*self }
        } else if addr == 0xFF45 {
            Ppu { lyc: v, ..*self }
        } else if addr == 0xFF47 {
            Ppu { bgp: v, ..*self }
        } else if addr == 0xFF48 {
            Ppu { obp0: v, ..*self }
        } else if addr == 0xFF49 {
            Ppu { obp1: v, ..*self }
        } else if addr == 0xFF4A {
            Ppu { wy: v, ..*self }
        } else if addr == 0xFF4B {
            Ppu { wx: v, ..*self }
        } else {
            *self
        }
    }

    /// Offset in VRAM of the 16 bytes of tile `idx` under the current
    /// addressing mode (LCDC bit 4: unsigned from 0x8000, else signed from 0x9000).
    pub open spec fn tile_base(&self, idx: u8) -> int {
        if bit_set(self.lcdc, 4) {
            idx * 16
        } else if idx < 128 {
            0x1000 + idx * 16
        } else {
            0x1000 + (idx - 256) * 16
        }
    }

    /// Colour number at pixel (`px`, `py`) of the 256x256 plane drawn by the
    /// tile map at VRAM offset `map`.
    pub open spec fn map_color(&self, map: int, px: int, py: int) -> int {
        let idx = self.vram@[map + (py / 8) * 32 + px / 8];
        let a = self.tile_base(idx) + (py % 8) * 2;
        2 * bit_of(self.vram@[a + 1], 7 - px % 8) + bit_of(self.vram@[a], 7 - px % 8)
    }

    pub open spec fn window_on_line(&self) -> bool {
        bit_set(self.lcdc, 5) && self.timing.ly >= self.wy && self.wx <= 166
    }

    /// Colour number of background or window at column `x` of the current line.
    pub open spec fn bg_color(&self, x: int) -> int {
        if !bit_set(self.lcdc, 0) {
            0
        } else if self.window_on_line() && x + 7 >= self.wx {
            self.map_color(
                if bit_set(self.lcdc, 6) {
                    0x1C00
                } else {
                    0x1800
                },
                x + 7 - self.wx,
                self.window_line as int,
            )
        } else {
            self.map_color(
                if bit_set(self.lcdc, 3) {
                    0x1C00
                } else {
                    0x1800
                },
                (x + self.scx) % 256,
                (self.timing.ly + self.scy) % 256,
            )
        }
    }

    /// The RGB frame buffer for `shades` under `palette`.
    pub open spec fn rgb_of(shades: Seq<u8>, palette: Seq<u8>) -> Seq<u8> {
        Seq::new(FRAME_BUFFER_SIZE as nat, |i: int| palette[3 * shades[i / 3] + i % 3])
    }
}


impl Ppu {
    /// A PPU at power-on: memory cleared, LCD off, white screen.
    pub fn new() -> (r: Ppu)
        ensures
            r.wf(),
            r.powered_on(),
            r.lcdc == 0,
            r.bgp == 0 && r.obp0 == 0 && r.obp1 == 0,
            r.palette@ == default_palette(),
    {
        let vram = vec![0u8; VRAM_SIZE];
        let oam = vec![0u8; OAM_SIZE];
        let shades = vec![0u8; SHADE_BUFFER_SIZE];
        let frame_buffer = vec![0xffu8; FRAME_BUFFER_SIZE];
        let palette: Vec<u8> = vec![0xff, 0xff, 0xff, 0xc0, 0xc0, 0xc0, 0x60, 0x60, 0x60, 0x00, 0x00, 0x00];
        assert(vram@ =~= Seq::new(VRAM_SIZE as nat, |i: int| 0u8));
        assert(oam@ =~= Seq::new(OAM_SIZE as nat, |i: int| 0u8));
        assert(shades@ =~= Seq::new(SHADE_BUFFER_SIZE as nat, |i: int| 0u8));
        assert(palette@ =~= default_palette());
        Ppu {
            vram,
            oam,
            lcdc: 0,
            scy: 0,
            scx: 0,
            lyc: 0,
            bgp: 0,
            obp0: 0,
            obp1: 0,
            wy: 0,
            wx: 0,
            int_lyc: false,
            int_oam: false,
            int_vblank_mode: false,
            int_hblank: false,
            timing: Timing { mode: PpuMode::OamScan, dots: 0, ly: 0, frame: 0 },
            window_line: 0,
            shades,
            frame_buffer,
            fb_frame: 0,
            fb_valid: false,
            palette,
        }
    }

    /// Back to the power-on state, keeping the palette colours.
    pub fn reset(&mut self)
        requires
            old(self).wf(),
        ensures
            final(self).wf(),
            final(self).palette@ == old(self).palette@,
            final(self).powered_on(),
            final(self).lcdc == 0,
            final(self).bgp == 0 && final(self).obp0 == 0 && final(self).obp1 == 0,
    {
        let palette = self.palette.clone();
        *self = Ppu::new();
        self.palette = palette;
    }

    /// Reads register `addr` (0xFF40..=0xFF4B).
    pub fn read_reg(&self, addr: u16) -> (r: u8)
        ensures
            r == self.reg_spec(addr),
    {
        if addr == 0xFF40 {
            self.lcdc
        } else if addr == 0xFF41 {
            let mut v: u8 = 0x80;
            if self.int_lyc {
                v = v + 0x40;
            }
            if self.int_oam {
                v = v + 0x20;
            }
            if self.int_vblank_mode {
                v = v + 0x10;
            }
            if self.int_hblank {
                v = v + 0x08;
            }
            if self.timing.ly == self.lyc {
                v = v + 0x04;
            }
            v + match self.timing.mode {
                PpuMode::HBlank => 0u8,
                PpuMode::VBlank => 1u8,
                PpuMode::OamScan => 2u8,
                PpuMode::Transfer => 3u8,
            }
        } else if addr == 0xFF42 {
            self.scy
        } else if addr == 0xFF43 {
            self.scx
        } else if addr == 0xFF44 {
            self.timing.ly
        } else if addr == 0xFF45 {
            self.lyc
        } else if addr == 0xFF47 {
            self.bgp
        } else if addr == 0xFF48 {
            self.obp0
        } else if addr == 0xFF49 {
            self.obp1
        } else if addr == 0xFF4A {
            self.wy
        } else if addr == 0xFF4B {
            self.wx
        } else {
            0xFF
        }
    }

    /// Writes register `addr` (0xFF40..=0xFF4B). LY is read-only; turning the
    /// LCD off parks the machine at line 0, turning it on starts line 0.
    pub fn write_reg(&mut self, addr: u16, v: u8)
        requires
            old(self).wf(),
        ensures
            final(self).wf(),
            *final(self) == old(self).reg_written(addr, v),
    {
        if addr == 0xFF40 {
            let on = test_bit(v, 7);
            let was_on = test_bit(self.lcdc, 7);
            if on && !was_on {
                self.timing = Timing { mode: PpuMode::OamScan, dots: 0, ly: 0, frame: self.timing.frame };
            } else if !on && was_on {
                self.timing = Timing { mode: PpuMode::HBlank, dots: 0, ly: 0, frame: self.timing.frame };
                self.window_line = 0;
            }
            self.lcdc = v;
        } else if addr == 0xFF41 {
            self.int_lyc = test_bit(v, 6);
            self.int_oam = test_bit(v, 5);
            self.int_vblank_mode = test_bit(v, 4);
            self.int_hblank = test_bit(v, 3);
        } else if addr == 0xFF42 {
            self.scy = v;
        } else if addr == 0xFF43 {
            self.scx = v;
        } else if addr == 0xFF45 {
            self.lyc = v;
        } else if addr == 0xFF47 {
            self.bgp = v;
        } else if addr == 0xFF48 {
            self.obp0 = v;
        } else if addr == 0xFF49 {
            self.obp1 = v;
        } else if addr == 0xFF4A {
            self.wy = v;
        } else if addr == 0xFF4B {
            self.wx = v;
        }
    }

    /// Reads VRAM at offset `off`.
    pub fn read_vram(&self, off: usize) -> (r: u8)
        requires
            self.wf(),
            off < VRAM_SIZE,
        ensures
            r == self.vram@[off as int],
    {
        self.vram[off]
    }

    /// Writes VRAM at offset `off`.
    pub fn write_vram(&mut self, off: usize, v: u8)
        requires
            old(self).wf(),
            off < VRAM_SIZE,
        ensures
            final(self).wf(),
            *final(self) == (Ppu { vram: final(self).vram, ..*old(self) }),
            final(self).vram@ == old(self).vram@.update(off as int, v),
    {
        self.vram.set(off, v);
    }

    /// Reads OAM at offset `off`.
    pub fn read_oam(&self, off: usize) -> (r: u8)
        requires
            self.wf(),
            off < OAM_SIZE,
        ensures
            r == self.oam@[off as int],
    {
        self.oam[off]
    }

    /// Writes OAM at offset `off`.
    pub fn write_oam(&mut self, off: usize, v: u8)
        requires
            old(self).wf(),
            off < OAM_SIZE,
        ensures
            final(self).wf(),
            *final(self) == (Ppu { oam: final(self).oam, ..*old(self) }),
            final(self).oam@ == old(self).oam@.update(off as int, v),
    {
        self.oam.set(off, v);
    }

    fn tile_base_exec(&self, idx: u8) -> (r: usize)
        ensures
            r == self.tile_base(idx),
            r + 16 <= VRAM_SIZE,
    {
        if test_bit(self.lcdc, 4) {
            idx as usize * 16
        } else if idx < 128 {
            0x1000 + idx as usize * 16
        } else {
            0x1000 - (256 - idx as usize) * 16
        }
    }

    /// Colour number at (`px`, `py`) of the plane of the tile map at `map`.
    pub fn map_color_exec(&self, map: usize, px: usize, py: usize) -> (r: u8)
        requires
            self.wf(),
            map == 0x1800 || map == 0x1C00,
            px < 256,
            py < 256,
        ensures
            r == self.map_color(map as int, px as int, py as int),
            r < 4,
    {
        let idx = self.vram[map + (py / 8) * 32 + px / 8];
        let a = self.tile_base_exec(idx) + (py % 8) * 2;
        let bit = 7 - (px % 8) as u8;
        2 * get_bit(self.vram[a + 1], bit) + get_bit(self.vram[a], bit)
    }

    /// Colour number of background or window at column `x` of the current line.
    pub fn bg_color_exec(&self, x: usize) -> (r: u8)
        requires
            self.wf(),
            x < DISPLAY_WIDTH,
            self.timing.ly < 144,
        ensures
            r == self.bg_color(x as int),
            r < 4,
    {
        if !test_bit(self.lcdc, 0) {
            0
        } else if test_bit(self.lcdc, 5) && self.timing.ly >= self.wy && self.wx <= 166 && x + 7
            >= self.wx as usize {
            let map: usize = if test_bit(self.lcdc, 6) {
                0x1C00
            } else {
                0x1800
            };
            self.map_color_exec(map, x + 7 - self.wx as usize, self.window_line as usize)
        } else {
            let map: usize = if test_bit(self.lcdc, 3) {
                0x1C00
            } else {
                0x1800
            };
            self.map_color_exec(
                map,
                (x + self.scx as usize) % 256,
                (self.timing.ly as usize + self.scy as usize) % 256,
            )
        }
    }

    /// Draws background and window for the current line into the shade
    /// buffer, and returns each column's colour number (sprites need them).
    pub fn render_background(&mut self) -> (colors: Vec<u8>)
        requires
            old(self).wf(),
            old(self).timing.ly < 144,
        ensures
            final(self).wf(),
            *final(self) == (Ppu { shades: final(self).shades, ..*old(self) }),
            colors@.len() == DISPLAY_WIDTH,
            forall|x: int|
                0 <= x < DISPLAY_WIDTH ==> #[trigger] colors@[x] == old(self).bg_color(x),
            forall|i: int|
                0 <= i < SHADE_BUFFER_SIZE ==> #[trigger] final(self).shades@[i] == if old(
                    self,
                ).timing.ly * 160 <= i < old(self).timing.ly * 160 + 160 {
                    palette_shade(old(self).bgp, old(self).bg_color(i - old(self).timing.ly * 160))
                } else {
                    old(self).shades@[i]
                },
    {
        let ghost start = *self;
        let row = self.timing.ly as usize * DISPLAY_WIDTH;
        let mut colors: Vec<u8> = Vec::new();
        let mut x: usize = 0;
        while x < DISPLAY_WIDTH
            invariant
                self.wf(),
                *self == (Ppu { shades: self.shades, ..start }),
                start.wf(),
                start.timing.ly < 144,
                row == start.timing.ly * 160,
                x <= DISPLAY_WIDTH,
                colors@.len() == x,
                forall|k: int| 0 <= k < x ==> #[trigger] colors@[k] == start.bg_color(k),
                forall|i: int|
                    0 <= i < SHADE_BUFFER_SIZE ==> #[trigger] self.shades@[i] == if row <= i < row
                        + x {
                        palette_shade(start.bgp, start.bg_color(i - row))
                    } else {
                        start.shades@[i]
                    },
            decreases DISPLAY_WIDTH - x,
        {
            let c = self.bg_color_exec(x);
            let shade = apply_palette(self.bgp, c);
            self.shades.set(row + x, shade);
            colors.push(c);
            x = x + 1;
        }
        colors
    }
}


impl Ppu {
    /// Shade `i` of the buffer once the current line is drawn: background
    /// or window, then sprites, on the current line; unchanged elsewhere.
    pub open spec fn drawn(&self, i: int) -> u8 {
        let row = self.timing.ly * 160;
        if row <= i < row + 160 {
            self.sprite_shade(
                i - row,
                self.bg_color(i - row),
                palette_shade(self.bgp, self.bg_color(i - row)),
            )
        } else {
            self.shades@[i]
        }
    }
}

/// Index used for "no sprite".
pub const NO_SPRITE: usize = 40;

impl Ppu {
    /// Sprite height in pixels: 16 when LCDC bit 2 is set, else 8.
    pub open spec fn sprite_height(&self) -> int {
        if bit_set(self.lcdc, 2) {
            16
        } else {
            8
        }
    }

    /// Whether OAM entry `s` covers the current line.
    pub open spec fn on_line(&self, s: int) -> bool {
        let y = self.oam@[4 * s] - 16;
        y <= self.timing.ly < y + self.sprite_height()
    }

    /// The OAM entries below `i` that cover the current line, in OAM order,
    /// at most ten.
    pub open spec fn selected_below(&self, i: nat) -> Seq<usize>
        decreases i,
    {
        if i == 0 {
            seq![]
        } else {
            let p = self.selected_below((i - 1) as nat);
            if self.on_line(i - 1) && p.len() < 10 {
                p.push((i - 1) as usize)
            } else {
                p
            }
        }
    }

    /// Colour number of sprite `s` at column `x` of the current line; 0
    /// where it does not cover the pixel.
    pub open spec fn sprite_color_spec(&self, s: int, x: int) -> int {
        let h = self.sprite_height();
        let y = self.oam@[4 * s] - 16;
        let sx = self.oam@[4 * s + 1] - 8;
        if !(y <= self.timing.ly < y + h && sx <= x < sx + 8) {
            0
        } else {
            let flags = self.oam@[4 * s + 3];
            let row = if bit_set(flags, 6) {
                h - 1 - (self.timing.ly - y)
            } else {
                self.timing.ly - y
            };
            let tile0 = self.oam@[4 * s + 2] as int;
            let tile = if h == 16 {
                tile0 - tile0 % 2
            } else {
                tile0
            };
            let a = tile * 16 + row * 2;
            let bit = if bit_set(flags, 5) {
                x - sx
            } else {
                7 - (x - sx)
            };
            2 * bit_of(self.vram@[a + 1], bit) + bit_of(self.vram@[a], bit)
        }
    }

    /// Among the first `k` of `sel`, the sprite drawn at column `x`: the one
    /// with the lowest X with a non-zero colour there, the earlier on a tie;
    /// `NO_SPRITE` when none.
    pub open spec fn winner(&self, sel: Seq<usize>, x: int, k: nat) -> usize
        decreases k,
    {
        if k == 0 || k > sel.len() {
            NO_SPRITE
        } else {
            let b = self.winner(sel, x, (k - 1) as nat);
            let s = sel[k - 1];
            if self.sprite_color_spec(s as int, x) != 0 && (b == NO_SPRITE || self.oam@[4 * s + 1]
                < self.oam@[4 * b + 1]) {
                s
            } else {
                b
            }
        }
    }

    /// The shade of column `x` after sprites were drawn over a background of
    /// colour `bg` and shade `under`.
    pub open spec fn sprite_shade(&self, x: int, bg: int, under: u8) -> u8 {
        let sel = self.selected_below(40);
        let w = self.winner(sel, x, sel.len());
        if !bit_set(self.lcdc, 1) || w == NO_SPRITE || (bit_set(self.oam@[4 * w + 3], 7) && bg != 0) {
            under
        } else {
            palette_shade(
                if bit_set(self.oam@[4 * w + 3], 4) {
                    self.obp1
                } else {
                    self.obp0
                },
                self.sprite_color_spec(w as int, x),
            )
        }
    }

    /// Colour number of sprite `s` at column `x` of the current line.
    fn sprite_color(&self, s: usize, x: usize, height: u8) -> (r: u8)
        requires
            self.wf(),
            s < 40,
            x < DISPLAY_WIDTH,
            height == self.sprite_height(),
        ensures
            r == self.sprite_color_spec(s as int, x as int),
            r < 4,
    {
        let y = self.oam[4 * s] as i32 - 16;
        let sx = self.oam[4 * s + 1] as i32 - 8;
        let ly = self.timing.ly as i32;
        let xi = x as i32;
        if !(y <= ly && ly < y + height as i32 && sx <= xi && xi < sx + 8) {
            return 0;
        }
        let flags = self.oam[4 * s + 3];
        let mut row = (ly - y) as usize;
        if test_bit(flags, 6) {
            row = height as usize - 1 - row;
        }
        let mut tile = self.oam[4 * s + 2] as usize;
        if height == 16 {
            tile = tile - tile % 2;
        }
        let a = tile * 16 + row * 2;
        let col = (xi - sx) as u8;
        let bit = if test_bit(flags, 5) {
            col
        } else {
            7 - col
        };
        2 * get_bit(self.vram[a + 1], bit) + get_bit(self.vram[a], bit)
    }

    /// The OAM entries that cover the current line, in OAM order, at most ten.
    fn select_sprites(&self, height: u8) -> (selected: Vec<usize>)
        requires
            self.wf(),
            height == self.sprite_height(),
        ensures
            selected@ == self.selected_below(40),
            selected@.len() <= 10,
            forall|k: int| 0 <= k < selected@.len() ==> #[trigger] selected@[k] < 40,
    {
        let ly = self.timing.ly as i32;
        let mut selected: Vec<usize> = Vec::new();
        let mut i: usize = 0;
        while i < 40
            invariant
                self.wf(),
                height == self.sprite_height(),
                ly == self.timing.ly,
                i <= 40,
                selected@ == self.selected_below(i as nat),
                selected@.len() <= 10,
                forall|k: int| 0 <= k < selected@.len() ==> #[trigger] selected@[k] < i,
            decreases 40 - i,
        {
            let y = self.oam[4 * i] as i32 - 16;
            if y <= ly && ly < y + height as i32 && selected.len() < 10 {
                selected.push(i);
            }
            i = i + 1;
        }
        selected
    }

    /// Draws the sprites of the current line over the background: at most
    /// ten per line in OAM order; where sprites overlap the one with the
    /// lowest X wins; a sprite with its priority bit set stays behind
    /// background colours 1..=3.
    pub fn render_sprites(&mut self, colors: &Vec<u8>)
        requires
            old(self).wf(),
            old(self).timing.ly < 144,
            colors@.len() == DISPLAY_WIDTH,
        ensures
            final(self).wf(),
            *final(self) == (Ppu { shades: final(self).shades, ..*old(self) }),
            forall|i: int|
                0 <= i < SHADE_BUFFER_SIZE ==> #[trigger] final(self).shades@[i] == if old(
                    self,
                ).timing.ly * 160 <= i < old(self).timing.ly * 160 + 160 {
                    old(self).sprite_shade(
                        i - old(self).timing.ly * 160,
                        colors@[i - old(self).timing.ly * 160] as int,
                        old(self).shades@[i],
                    )
                } else {
                    old(self).shades@[i]
                },
    {
        if !test_bit(self.lcdc, 1) {
            return;
        }
        let height: u8 = if test_bit(self.lcdc, 2) {
            16
        } else {
            8
        };
        let selected = self.select_sprites(height);
        let ghost start = *self;
        let ghost sel = selected@;
        let row = self.timing.ly as usize * DISPLAY_WIDTH;
        let mut x: usize = 0;
        while x < DISPLAY_WIDTH
            invariant
                self.wf(),
                start.wf(),
                *self == (Ppu { shades: self.shades, ..start }),
                bit_set(start.lcdc, 1),
                start.timing.ly < 144,
                row == start.timing.ly * 160,
                colors@.len() == DISPLAY_WIDTH,
                x <= DISPLAY_WIDTH,
                height == start.sprite_height(),
                selected@ == sel,
                sel == start.selected_below(40),
                sel.len() <= 10,
                forall|k: int| 0 <= k < sel.len() ==> #[trigger] sel[k] < 40,
                forall|i: int|
                    0 <= i < SHADE_BUFFER_SIZE ==> #[trigger] self.shades@[i] == if row <= i < row
                        + x {
                        start.sprite_shade(i - row, colors@[i - row] as int, start.shades@[i])
                    } else {
                        start.shades@[i]
                    },
            decreases DISPLAY_WIDTH - x,
        {
            let mut best: usize = NO_SPRITE;
            let mut best_color: u8 = 0;
            let mut best_x: u8 = 0;
            let mut k: usize = 0;
            while k < selected.len()
                invariant
                    self.wf(),
                    *self == (Ppu { shades: self.shades, ..start }),
                    x < DISPLAY_WIDTH,
                    height == start.sprite_height(),
                    selected@ == sel,
                    forall|j: int| 0 <= j < sel.len() ==> #[trigger] sel[j] < 40,
                    k <= sel.len(),
                    best == start.winner(sel, x as int, k as nat),
                    best <= NO_SPRITE,
                    best < NO_SPRITE ==> best_color == start.sprite_color_spec(best as int, x as int)
                        && best_x == start.oam@[4 * best + 1] && best_color < 4,
                decreases sel.len() - k,
            {
                let s = selected[k];
                let c = self.sprite_color(s, x, height);
                let sx = self.oam[4 * s + 1];
                if c != 0 && (best == NO_SPRITE || sx < best_x) {
                    best = s;
                    best_color = c;
                    best_x = sx;
                }
                k = k + 1;
            }
            if best < NO_SPRITE {
                let flags = self.oam[4 * best + 3];
                let behind = test_bit(flags, 7) && colors[x] != 0;
                if !behind {
                    let pal = if test_bit(flags, 4) {
                        self.obp1
                    } else {
                        self.obp0
                    };
                    let shade = apply_palette(pal, best_color);
                    self.shades.set(row + x, shade);
                }
            }
            x = x + 1;
        }
    }
}

impl Ppu {
    /// Draws the current line: background and window, then sprites.
    pub fn render_line(&mut self)
        requires
            old(self).wf(),
            old(self).timing.ly < 144,
        ensures
            final(self).wf(),
            *final(self) == (Ppu { shades: final(self).shades, ..*old(self) }),
            forall|i: int|
                0 <= i < SHADE_BUFFER_SIZE ==> #[trigger] final(self).shades@[i] == old(
                    self,
                ).drawn(i),
    {
        let ghost start = *self;
        let colors = self.render_background();
        proof {
            lemma_sprites_ignore_shades(*self, start);
        }
        self.render_sprites(&colors);
    }
}

/// A run of `k` dots followed by one more dot is a run of `k + 1` dots.
pub proof fn lemma_dots_run_extend(
    o: Ppu,
    f: InterruptFlags,
    m: Ppu,
    h: InterruptFlags,
    n: Ppu,
    g: InterruptFlags,
    k: nat,
)
    requires
        Ppu::dots_run(o, f, m, h, k),
        Ppu::dot_step(m, h, n, g),
    ensures
        Ppu::dots_run(o, f, n, g, k + 1),
{
    assert(((k + 1) as nat - 1) as nat == k);
}

/// Which OAM entries are selected does not depend on the shade buffer.
pub proof fn lemma_selection_ignores_shades(a: Ppu, b: Ppu, i: nat)
    requires
        a == (Ppu { shades: a.shades, ..b }),
    ensures
        a.selected_below(i) == b.selected_below(i),
    decreases i,
{
    if i > 0 {
        lemma_selection_ignores_shades(a, b, (i - 1) as nat);
    }
}

/// Which sprite wins a column does not depend on the shade buffer.
pub proof fn lemma_winner_ignores_shades(a: Ppu, b: Ppu, sel: Seq<usize>, x: int, k: nat)
    requires
        a == (Ppu { shades: a.shades, ..b }),
    ensures
        a.winner(sel, x, k) == b.winner(sel, x, k),
    decreases k,
{
    if k > 0 {
        lemma_winner_ignores_shades(a, b, sel, x, (k - 1) as nat);
    }
}

/// What sprites draw does not depend on the shade buffer.
pub proof fn lemma_sprites_ignore_shades(a: Ppu, b: Ppu)
    requires
        a == (Ppu { shades: a.shades, ..b }),
    ensures
        forall|x: int, bg: int, u: u8| #[trigger] a.sprite_shade(x, bg, u) == b.sprite_shade(x, bg, u),
{
    lemma_selection_ignores_shades(a, b, 40);
    assert forall|x: int, bg: int, u: u8| #[trigger] a.sprite_shade(x, bg, u) == b.sprite_shade(x, bg, u) by {
        let sel = b.selected_below(40);
        lemma_winner_ignores_shades(a, b, sel, x, sel.len());
    }
}


impl Ppu {
    /// Whether the dot after `t` enters v-blank.
    pub open spec fn enters_vblank(t: Timing) -> bool {
        t.mode == PpuMode::HBlank && t.next().mode == PpuMode::VBlank
    }

    /// Whether the window was drawn on the line that the dot after `t` ends.
    pub open spec fn ends_window_line(&self, t: Timing) -> bool {
        t.mode == PpuMode::HBlank && t.dots + 1 == 204 && self.window_on_line()
    }

    /// The window-line counter one dot after `self`: cleared on entering
    /// v-blank, counted up as a line on which the window was drawn ends.
    pub open spec fn window_line_after_dot(&self) -> u8 {
        if Ppu::enters_vblank(self.timing) {
            0
        } else if self.ends_window_line(self.timing) && self.window_line < 144 {
            (self.window_line + 1) as u8
        } else {
            self.window_line
        }
    }

    /// Whether the dot after `self` ends pixel transfer, when the line is drawn.
    pub open spec fn ends_transfer(&self) -> bool {
        self.timing.mode == PpuMode::Transfer && self.timing.dots + 1 == 172
    }

    /// `(n, g)` is `(o, f)` one dot later: the timing moves one dot (counting
    /// a frame as v-blank ends), the line is drawn as pixel transfer ends,
    /// the window-line counter moves, v-blank is requested on entering
    /// v-blank, and STAT is requested at each mode or line change where an
    /// enabled STAT condition holds.
    pub open spec fn dot_step(o: Ppu, f: InterruptFlags, n: Ppu, g: InterruptFlags) -> bool {
        &&& n == (Ppu {
            timing: o.timing.next(),
            window_line: o.window_line_after_dot(),
            shades: n.shades,
            ..o
        })
        &&& (!o.ends_transfer() ==> n.shades == o.shades)
        &&& (o.ends_transfer() ==> forall|i: int|
            0 <= i < SHADE_BUFFER_SIZE ==> #[trigger] n.shades@[i] == o.drawn(i))
        &&& g == (InterruptFlags {
            vblank: f.vblank || Ppu::enters_vblank(o.timing),
            stat: f.stat || (n.timing.dots == 0 && n.stat_condition()),
            ..f
        })
    }

    /// `(n, g)` is `(o, f)` after `k` dots, each a `dot_step`.
    pub open spec fn dots_run(o: Ppu, f: InterruptFlags, n: Ppu, g: InterruptFlags, k: nat) -> bool
        decreases k,
    {
        if k == 0 {
            n == o && g == f
        } else {
            exists|m: Ppu, h: InterruptFlags|
                Ppu::dots_run(o, f, m, h, (k - 1) as nat) && #[trigger] Ppu::dot_step(m, h, n, g)
        }
    }

    /// Advances the PPU by one dot. The line is drawn as pixel transfer ends;
    /// entering v-blank requests the v-blank interrupt; the frame is counted as
    /// v-blank ends; each mode change requests STAT when an enabled STAT
    /// condition holds.
    pub fn step_dot(&mut self, flags: &mut InterruptFlags)
        requires
            old(self).wf(),
        ensures
            final(self).wf(),
            Ppu::dot_step(*old(self), *old(flags), *final(self), *final(flags)),
    {
        let t = self.timing;
        if t.mode == PpuMode::Transfer && t.dots + 1 == TRANSFER_DOTS {
            self.render_line();
        }
        let window_drawn = t.mode == PpuMode::HBlank && t.dots + 1 == HBLANK_DOTS && test_bit(
            self.lcdc,
            5,
        ) && t.ly >= self.wy && self.wx <= 166;
        self.timing.step();
        if t.mode == PpuMode::HBlank && self.timing.mode == PpuMode::VBlank {
            flags.vblank = true;
            self.window_line = 0;
        } else if window_drawn && self.window_line < 144 {
            self.window_line = self.window_line + 1;
        }
        if self.timing.dots == 0 {
            let stat = (self.int_lyc && self.timing.ly == self.lyc) || (self.int_oam
                && self.timing.mode == PpuMode::OamScan) || (self.int_vblank_mode
                && self.timing.mode == PpuMode::VBlank) || (self.int_hblank && self.timing.mode
                == PpuMode::HBlank);
            if stat {
                flags.stat = true;
            }
        }
    }

    /// Advances the PPU by `cycles` dots while the LCD is on, one `dot_step`
    /// per dot; with the LCD off nothing moves.
    pub fn clock(&mut self, cycles: u16, flags: &mut InterruptFlags)
        requires
            old(self).wf(),
        ensures
            final(self).wf(),
            old(self).lcd_on() ==> Ppu::dots_run(
                *old(self),
                *old(flags),
                *final(self),
                *final(flags),
                cycles as nat,
            ),
            old(self).lcd_on() ==> final(self).timing == old(self).timing.run(cycles as nat),
            !old(self).lcd_on() ==> *final(self) == *old(self) && *final(flags) == *old(flags),
            final(self).vram == old(self).vram && final(self).oam == old(self).oam,
            final(self).lcdc == old(self).lcdc,
            old(flags).vblank ==> final(flags).vblank,
            old(flags).stat ==> final(flags).stat,
            final(flags).timer == old(flags).timer && final(flags).serial == old(flags).serial
                && final(flags).joypad == old(flags).joypad,
    {
        if !test_bit(self.lcdc, 7) {
            return;
        }
        let ghost start = *self;
        let ghost fstart = *flags;
        let mut i: u16 = 0;
        while i < cycles
            invariant
                self.wf(),
                i <= cycles,
                self.timing == start.timing.run(i as nat),
                Ppu::dots_run(start, fstart, *self, *flags, i as nat),
                *self == (Ppu {
                    timing: self.timing,
                    window_line: self.window_line,
                    shades: self.shades,
                    ..start
                }),
                fstart.vblank ==> flags.vblank,
                fstart.stat ==> flags.stat,
                flags.timer == fstart.timer && flags.serial == fstart.serial && flags.joypad
                    == fstart.joypad,
            decreases cycles - i,
        {
            proof {
                lemma_run_add(start.timing, i as nat, 1);
                let m = start.timing.run(i as nat);
                assert(m.run(1) == m.next().run(0));
            }
            let ghost before = *self;
            let ghost fbefore = *flags;
            self.step_dot(flags);
            proof {
                assert(Ppu::dots_run(start, fstart, before, fbefore, i as nat) && Ppu::dot_step(
                    before,
                    fbefore,
                    *self,
                    *flags,
                ));
                lemma_dots_run_extend(start, fstart, before, fbefore, *self, *flags, i as nat);
            }
            i = i + 1;
        }
    }

    /// The RGB frame buffer: rebuilt from the shades when a new frame was
    /// completed (or the palette changed) since it was last built.
    pub fn frame_buffer(&mut self) -> (r: &Vec<u8>)
        requires
            old(self).wf(),
        ensures
            final(self).wf(),
            r@ == final(self).frame_buffer@,
            !old(self).fb_valid || old(self).fb_frame != old(self).timing.frame ==> r@ == Ppu::rgb_of(
                old(self).shades@,
                old(self).palette@,
            ),
            old(self).fb_valid && old(self).fb_frame == old(self).timing.frame ==> r@
                == old(self).frame_buffer@,
            *final(self) == (Ppu {
                frame_buffer: final(self).frame_buffer,
                fb_frame: old(self).timing.frame,
                fb_valid: true,
                ..*old(self)
            }),

    {
        if !self.fb_valid || self.fb_frame != self.timing.frame {
            let ghost start = *self;
            let mut j: usize = 0;
            while j < FRAME_BUFFER_SIZE
                invariant
                    self.wf(),
                    *self == (Ppu { frame_buffer: self.frame_buffer, ..start }),
                    j <= FRAME_BUFFER_SIZE,
                    forall|k: int|
                        0 <= k < j ==> #[trigger] self.frame_buffer@[k] == Ppu::rgb_of(
                            start.shades@,
                            start.palette@,
                        )[k],
                decreases FRAME_BUFFER_SIZE - j,
            {
                let shade = self.shades[j / 3] as usize;
                let v = self.palette[3 * shade + j % 3];
                self.frame_buffer.set(j, v);
                j = j + 1;
            }
            assert(self.frame_buffer@ =~= Ppu::rgb_of(start.shades@, start.palette@));
            self.fb_frame = self.timing.frame;
            self.fb_valid = true;
        }
        &self.frame_buffer
    }

    /// Replaces the four RGB colours of shades 0..=3.
    pub fn set_palette_colors(&mut self, colors: &Vec<u8>)
        requires
            old(self).wf(),
            colors@.len() == 12,
        ensures
            final(self).wf(),
            *final(self) == (Ppu { palette: final(self).palette, fb_valid: false, ..*old(self) }),
            final(self).palette@ == colors@,
    {
        self.palette = colors.clone();
        self.fb_valid = false;
    }

    pub fn frame_index(&self) -> (r: u16)
        ensures
            r == self.timing.frame,
    {
        self.timing.frame
    }

    pub fn mode(&self) -> (r: PpuMode)
        ensures
            r == self.timing.mode,
    {
        self.timing.mode
    }

    pub fn ly(&self) -> (r: u8)
        ensures
            r == self.timing.ly,
    {
        self.timing.ly
    }
}

} // verus!
