//! The pixel-processing unit: scan-line timing state machine and line
//! rendering into an RGBA frame buffer.
//!
//! Each line is drawn as a fixed diagonal pattern of the four color indices,
//! mapped through the background palette; fetching tiles and sprites from
//! video memory is not done here.

use vstd::prelude::*;

use crate::bus::Bus;
use crate::{CYCLES_PER_FRAME, SCREEN_BYTES};

verus! {

/// Bytes in one RGBA scan-line.
pub const LINE_BYTES: usize = 640;

pub const OAM_SEARCH_CYCLES: u32 = 80;

pub const DRAWING_CYCLES: u32 = 172;

pub const HBLANK_CYCLES: u32 = 204;

/// Length of a whole scan-line, and of each vertical-blank line.
pub const LINE_CYCLES: u32 = 456;

pub const VISIBLE_LINES: u8 = 144;

pub const TOTAL_LINES: u8 = 154;

/// LCD control register.
pub const LCDC_ADDR: u16 = 0xFF40;

/// LCD status register.
pub const STAT_ADDR: u16 = 0xFF41;

pub const SCY_ADDR: u16 = 0xFF42;

pub const SCX_ADDR: u16 = 0xFF43;

/// Current scan-line, as software reads it.
pub const LY_ADDR: u16 = 0xFF44;

pub const LYC_ADDR: u16 = 0xFF45;

/// Background palette register.
pub const BGP_ADDR: u16 = 0xFF47;

pub const OBP0_ADDR: u16 = 0xFF48;

pub const OBP1_ADDR: u16 = 0xFF49;

/// PPU modes.
#[derive(Debug, Clone, Copy, PartialEq, Eq, Structural)]
pub enum Mode {
    HBlank,
    VBlank,
    OamSearch,
    Drawing,
}

/// Timing state: mode, cycles spent in the mode, current scan-line.
pub struct Timing {
    pub mode: Mode,
    pub cycle: int,
    pub line: int,
}

/// Cycles that `mode` lasts on one scan-line.
pub open spec fn budget(mode: Mode) -> int {
    match mode {
        Mode::OamSearch => 80,
        Mode::Drawing => 172,
        Mode::HBlank => 204,
        Mode::VBlank => 456,
    }
}

impl Timing {
    pub open spec fn wf(self) -> bool {
        &&& 0 <= self.cycle < budget(self.mode)
        &&& 0 <= self.line < 154
        &&& (self.mode is VBlank <==> self.line >= 144)
    }
}

/// The state at power-on and at the start of every frame.
pub open spec fn frame_start() -> Timing {
    Timing { mode: Mode::OamSearch, cycle: 0, line: 0 }
}

/// One hardware cycle of the transition table.
pub open spec fn tick(t: Timing) -> Timing {
    let c = t.cycle + 1;
    if c < budget(t.mode) {
        Timing { cycle: c, ..t }
    } else {
        match t.mode {
            Mode::OamSearch => Timing { mode: Mode::Drawing, cycle: 0, line: t.line },
            Mode::Drawing => Timing { mode: Mode::HBlank, cycle: 0, line: t.line },
            Mode::HBlank => if t.line + 1 >= 144 {
                Timing { mode: Mode::VBlank, cycle: 0, line: t.line + 1 }
            } else {
                Timing { mode: Mode::OamSearch, cycle: 0, line: t.line + 1 }
            },
            Mode::VBlank => if t.line + 1 >= 154 {
                frame_start()
            } else {
                Timing { mode: Mode::VBlank, cycle: 0, line: t.line + 1 }
            },
        }
    }
}

/// `n` hardware cycles from `t`.
pub open spec fn ticks(t: Timing, n: nat) -> Timing
    decreases n,
{
    if n == 0 {
        t
    } else {
        tick(ticks(t, (n - 1) as nat))
    }
}

/// The next cycle from `t` ends the drawing phase, which renders the line.
pub open spec fn renders(t: Timing) -> bool {
    t.mode is Drawing && t.cycle + 1 >= 172
}

/// Gray level of palette shade `shade` (0 lightest, 3 darkest).
pub open spec fn shade_level(shade: u8) -> u8 {
    if shade == 0 {
        255
    } else if shade == 1 {
        192
    } else if shade == 2 {
        96
    } else {
        0
    }
}

/// The shade that `palette` assigns to 2-bit color index `color`.
pub open spec fn palette_shade(color: u8, palette: u8) -> u8 {
    (palette >> ((2 * color) as u8)) & 3u8
}

/// Color index of pixel (x, y) in the background pattern.
pub open spec fn pattern_color(x: int, y: int) -> u8 {
    ((x + y) % 4) as u8
}

/// Byte `k` of scan-line `y` in RGBA order, alpha always opaque.
pub open spec fn line_byte(y: int, k: int, bgp: u8) -> u8 {
    if k % 4 == 3 {
        255
    } else {
        shade_level(palette_shade(pattern_color(k / 4, y), bgp))
    }
}

/// `fb` with scan-line `y` rendered; lines past the screen change nothing.
pub open spec fn render_line(fb: Seq<u8>, y: int, bgp: u8) -> Seq<u8> {
    if 0 <= y < 144 {
        Seq::new(
            fb.len(),
            |i: int|
                if y * 640 <= i < y * 640 + 640 {
                    line_byte(y, i - y * 640, bgp)
                } else {
                    fb[i]
                },
        )
    } else {
        fb
    }
}

/// The frame buffer after `n` cycles from `t`.
pub open spec fn frame_after(t: Timing, n: nat, fb: Seq<u8>, bgp: u8) -> Seq<u8>
    decreases n,
{
    if n == 0 {
        fb
    } else {
        let prev = frame_after(t, (n - 1) as nat, fb, bgp);
        let s = ticks(t, (n - 1) as nat);
        if renders(s) {
            render_line(prev, s.line, bgp)
        } else {
            prev
        }
    }
}

/// Pixel-processing unit state.
pub struct Ppu {
    mode: Mode,
    cycle: u32,
    scanline: u8,
    lcdc: u8,
    stat: u8,
    scy: u8,
    scx: u8,
    ly: u8,
    lyc: u8,
    bgp: u8,
    obp0: u8,
    obp1: u8,
}

impl Ppu {
    pub closed spec fn timing(&self) -> Timing {
        Timing { mode: self.mode, cycle: self.cycle as int, line: self.scanline as int }
    }

    /// Background palette register.
    pub closed spec fn bgp_spec(&self) -> u8 {
        self.bgp
    }

    /// The registers other than the timing state: LCDC, STAT, SCY, SCX, LYC,
    /// BGP, OBP0, OBP1.
    pub closed spec fn registers(&self) -> (u8, u8, u8, u8, u8, u8, u8, u8) {
        (self.lcdc, self.stat, self.scy, self.scx, self.lyc, self.bgp, self.obp0, self.obp1)
    }

    pub closed spec fn wf(&self) -> bool {
        self.timing().wf() && self.ly == self.scanline
    }

    /// Power-on state: OAM search on scan-line 0, LCD on, default palettes.
    pub fn new() -> (r: Ppu)
        ensures
            r.wf(),
            r.timing() == frame_start(),
            r.registers() == (0x91u8, 0u8, 0u8, 0u8, 0u8, 0xFCu8, 0xFFu8, 0xFFu8),
            r.bgp_spec() == 0xFC,
    {
        Ppu {
            mode: Mode::OamSearch,
            cycle: 0,
            scanline: 0,
            lcdc: 0x91,
            stat: 0x00,
            scy: 0,
            scx: 0,
            ly: 0,
            lyc: 0,
            bgp: 0xFC,
            obp0: 0xFF,
            obp1: 0xFF,
        }
    }

    /// Back to the power-on state.
    pub fn reset(&mut self)
        ensures
            final(self).wf(),
            final(self).timing() == frame_start(),
            final(self).registers() == (0x91u8, 0u8, 0u8, 0u8, 0u8, 0xFCu8, 0xFFu8, 0xFFu8),
            final(self).bgp_spec() == 0xFC,
    {
        *self = Self::new();
    }

    pub fn mode(&self) -> (r: Mode)
        ensures
            r == self.timing().mode,
    {
        self.mode
    }

    pub fn scanline(&self) -> (r: u8)
        ensures
            r == self.timing().line,
    {
        self.scanline
    }

    pub fn cycle(&self) -> (r: u32)
        ensures
            r == self.timing().cycle,
    {
        self.cycle
    }

    pub fn bgp(&self) -> (r: u8)
        ensures
            r == self.bgp_spec(),
    {
        self.bgp
    }

    /// Take the LCD control, status, scroll, compare and palette registers
    /// from the bus's I/O block.
    pub fn load_registers(&mut self, bus: &Bus)
        requires
            old(self).wf(),
            bus.wf(),
        ensures
            final(self).wf(),
            final(self).timing() == old(self).timing(),
            final(self).registers() == (
                bus@.read(LCDC_ADDR),
                bus@.read(STAT_ADDR),
                bus@.read(SCY_ADDR),
                bus@.read(SCX_ADDR),
                bus@.read(LYC_ADDR),
                bus@.read(BGP_ADDR),
                bus@.read(OBP0_ADDR),
                bus@.read(OBP1_ADDR),
            ),
            final(self).bgp_spec() == bus@.read(BGP_ADDR),
    {
        self.lcdc = bus.read(LCDC_ADDR);
        self.stat = bus.read(STAT_ADDR);
        self.scy = bus.read(SCY_ADDR);
        self.scx = bus.read(SCX_ADDR);
        self.lyc = bus.read(LYC_ADDR);
        self.bgp = bus.read(BGP_ADDR);
        self.obp0 = bus.read(OBP0_ADDR);
        self.obp1 = bus.read(OBP1_ADDR);
    }

    /// Advance by `cycles` hardware cycles, rendering each scan-line into
    /// `framebuffer` as its drawing phase ends.
    pub fn step(&mut self, cycles: u32, framebuffer: &mut Vec<u8>)
        requires
            old(self).wf(),
            old(framebuffer)@.len() >= SCREEN_BYTES,
        ensures
            final(self).wf(),
            final(self).timing() == ticks(old(self).timing(), cycles as nat),
            final(self).registers() == old(self).registers(),
            final(self).bgp_spec() == old(self).bgp_spec(),
            final(framebuffer)@.len() == old(framebuffer)@.len(),
            final(framebuffer)@ == frame_after(
                old(self).timing(),
                cycles as nat,
                old(framebuffer)@,
                old(self).bgp_spec(),
            ),
    {
        let mut i: u32 = 0;
        while i < cycles
            invariant
                0 <= i <= cycles,
                self.wf(),
                self.timing() == ticks(old(self).timing(), i as nat),
                self.registers() == old(self).registers(),
                framebuffer@.len() == old(framebuffer)@.len(),
                old(framebuffer)@.len() >= SCREEN_BYTES,
                framebuffer@ == frame_after(
                    old(self).timing(),
                    i as nat,
                    old(framebuffer)@,
                    old(self).bgp_spec(),
                ),
            decreases cycles - i,
        {
            self.tick(framebuffer);
            i = i + 1;
        }
    }

    /// One hardware cycle.
    fn tick(&mut self, framebuffer: &mut Vec<u8>)
        requires
            old(self).wf(),
            old(framebuffer)@.len() >= SCREEN_BYTES,
        ensures
            final(self).wf(),
            final(self).timing() == tick(old(self).timing()),
            final(self).registers() == old(self).registers(),
            final(framebuffer)@ == if renders(old(self).timing()) {
                render_line(old(framebuffer)@, old(self).timing().line, old(self).bgp)
            } else {
                old(framebuffer)@
            },
    {
        self.cycle = self.cycle + 1;
        match self.mode {
            Mode::OamSearch => {
                if self.cycle >= OAM_SEARCH_CYCLES {
                    self.mode = Mode::Drawing;
                    self.cycle = 0;
                }
            },
            Mode::Drawing => {
                if self.cycle >= DRAWING_CYCLES {
                    self.render_scanline(framebuffer);
                    self.mode = Mode::HBlank;
                    self.cycle = 0;
                }
            },
            Mode::HBlank => {
                if self.cycle >= HBLANK_CYCLES {
                    self.scanline = self.scanline + 1;
                    self.ly = self.scanline;
                    self.cycle = 0;
                    if self.scanline >= VISIBLE_LINES {
                        self.mode = Mode::VBlank;
                    } else {
                        self.mode = Mode::OamSearch;
                    }
                }
            },
            Mode::VBlank => {
                if self.cycle >= LINE_CYCLES {
                    self.scanline = self.scanline + 1;
                    self.ly = self.scanline;
                    self.cycle = 0;
                    if self.scanline >= TOTAL_LINES {
                        self.scanline = 0;
                        self.ly = 0;
                        self.mode = Mode::OamSearch;
                    }
                }
            },
        }
    }

    /// Render the current scan-line into `framebuffer`.
    fn render_scanline(&self, framebuffer: &mut Vec<u8>)
        requires
            old(framebuffer)@.len() >= SCREEN_BYTES,
        ensures
            final(framebuffer)@ == render_line(old(framebuffer)@, self.scanline as int, self.bgp),
    {
        let y = self.scanline as usize;
        if y >= 144 {
            return;
        }
        let base: usize = y * LINE_BYTES;
        let mut x: usize = 0;
        while x < 160
            invariant
                y < 144,
                base == y * 640,
                x <= 160,
                framebuffer@.len() == old(framebuffer)@.len(),
                old(framebuffer)@.len() >= SCREEN_BYTES,
                forall|i: int|
                    0 <= i < framebuffer@.len() ==> framebuffer@[i] == if base <= i < base + 4 * x {
                        line_byte(y as int, i - base, self.bgp)
                    } else {
                        old(framebuffer)@[i]
                    },
            decreases 160 - x,
        {
            let offset = base + 4 * x;
            let color = ((x + y) % 4) as u8;
            let rgb = self.dmg_color(color, self.bgp);
            framebuffer.set(offset, rgb.0);
            framebuffer.set(offset + 1, rgb.1);
            framebuffer.set(offset + 2, rgb.2);
            framebuffer.set(offset + 3, 255);
            assert((4 * x) / 4 == x && (4 * x) % 4 == 0);
            assert((4 * x + 1) / 4 == x && (4 * x + 1) % 4 == 1);
            assert((4 * x + 2) / 4 == x && (4 * x + 2) % 4 == 2);
            assert((4 * x + 3) / 4 == x && (4 * x + 3) % 4 == 3);
            x = x + 1;
        }
        assert(framebuffer@ =~= render_line(old(framebuffer)@, y as int, self.bgp));
    }

    /// Gray RGB triple for 2-bit color index `color` under `palette`.
    fn dmg_color(&self, color: u8, palette: u8) -> (r: (u8, u8, u8))
        requires
            color < 4,
        ensures
            r.0 == shade_level(palette_shade(color, palette)),
            r.1 == r.0,
            r.2 == r.0,
    {
        let shade = (palette >> (color * 2)) & 0x03;
        match shade {
            0 => (255, 255, 255),
            1 => (192, 192, 192),
            2 => (96, 96, 96),
            _ => (0, 0, 0),
        }
    }
}

/// Start of scan-line `y`: OAM search on visible lines, else vertical blank.
pub open spec fn line_start(y: int) -> Timing {
    if y < 144 {
        Timing { mode: Mode::OamSearch, cycle: 0, line: y }
    } else {
        Timing { mode: Mode::VBlank, cycle: 0, line: y }
    }
}

proof fn lemma_within_mode(t: Timing, k: nat)
    requires
        t.wf(),
        t.cycle + k < budget(t.mode),
    ensures
        ticks(t, k) == (Timing { cycle: t.cycle + k, ..t }),
    decreases k,
{
    if k > 0 {
        lemma_within_mode(t, (k - 1) as nat);
    }
}

proof fn lemma_ticks_add(t: Timing, a: nat, b: nat)
    ensures
        ticks(t, a + b) == ticks(ticks(t, a), b),
    decreases b,
{
    if b > 0 {
        lemma_ticks_add(t, a, (b - 1) as nat);
        assert(ticks(t, a + b) == tick(ticks(t, (a + b - 1) as nat)));
    }
}

/// A mode entered at cycle 0 ends after exactly its budget.
proof fn lemma_mode_end(t: Timing)
    requires
        t.wf(),
        t.cycle == 0,
    ensures
        ticks(t, budget(t.mode) as nat) == tick(Timing { cycle: budget(t.mode) - 1, ..t }),
{
    lemma_within_mode(t, (budget(t.mode) - 1) as nat);
}

proof fn lemma_visible_line(y: int)
    requires
        0 <= y < 144,
    ensures
        ticks(line_start(y), 80) == (Timing { mode: Mode::Drawing, cycle: 0, line: y }),
        ticks(line_start(y), 252) == (Timing { mode: Mode::HBlank, cycle: 0, line: y }),
        ticks(line_start(y), 456) == line_start(y + 1),
{
    let t0 = line_start(y);
    let t1 = Timing { mode: Mode::Drawing, cycle: 0, line: y };
    let t2 = Timing { mode: Mode::HBlank, cycle: 0, line: y };
    lemma_mode_end(t0);
    lemma_mode_end(t1);
    lemma_mode_end(t2);
    lemma_ticks_add(t0, 80, 172);
    lemma_ticks_add(t0, 252, 204);
}

proof fn lemma_vblank_line(y: int)
    requires
        144 <= y < 154,
    ensures
        ticks(line_start(y), 456) == if y + 1 < 154 {
            line_start(y + 1)
        } else {
            frame_start()
        },
{
    lemma_mode_end(line_start(y));
}

proof fn lemma_visible_lines(n: nat)
    requires
        n <= 144,
    ensures
        ticks(frame_start(), n * 456) == line_start(n as int),
    decreases n,
{
    if n > 0 {
        lemma_visible_lines((n - 1) as nat);
        lemma_ticks_add(frame_start(), ((n - 1) * 456) as nat, 456);
        lemma_visible_line(n - 1);
    }
}

proof fn lemma_vblank_lines(n: nat)
    requires
        n <= 10,
    ensures
        ticks(line_start(144), n * 456) == if n < 10 {
            line_start(144 + n as int)
        } else {
            frame_start()
        },
    decreases n,
{
    if n > 0 {
        lemma_vblank_lines((n - 1) as nat);
        lemma_ticks_add(line_start(144), ((n - 1) * 456) as nat, 456);
        lemma_vblank_line(144 + n - 1);
    }
}

/// From the power-on state the first scan-line runs 80 cycles of OAM
/// search, then 172 of drawing, reaching horizontal blank on line 0 after
/// 80 + 172 cycles; 204 cycles later line 1 starts with OAM search.
pub proof fn lemma_first_line_sequence()
    ensures
        ticks(frame_start(), 80) == (Timing { mode: Mode::Drawing, cycle: 0, line: 0 }),
        ticks(frame_start(), 80 + 172) == (Timing { mode: Mode::HBlank, cycle: 0, line: 0 }),
        ticks(frame_start(), 80 + 172 + 204) == (Timing {
            mode: Mode::OamSearch,
            cycle: 0,
            line: 1,
        }),
{
    lemma_visible_line(0);
}

/// After 144 visible lines of 80 + 172 + 204 cycles the PPU enters vertical
/// blank on line 144; ten lines of 456 cycles later it is back at line 0 in
/// OAM search, and the total is the frame's cycle count.
pub proof fn lemma_frame_cycle()
    ensures
        ticks(frame_start(), 144 * (80 + 172 + 204)) == (Timing {
            mode: Mode::VBlank,
            cycle: 0,
            line: 144,
        }),
        ticks(frame_start(), 144 * (80 + 172 + 204) + 10 * 456) == frame_start(),
        144 * (80 + 172 + 204) + 10 * 456 == CYCLES_PER_FRAME,
{
    lemma_visible_lines(144);
    lemma_vblank_lines(10);
    lemma_ticks_add(frame_start(), 144 * 456, 10 * 456);
}

} // verus!
