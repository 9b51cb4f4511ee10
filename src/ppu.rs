use vstd::prelude::*;

verus! {

/// Number of bytes in the frame: one grayscale byte per pixel of 160 x 144.
pub const FRAME_LEN: usize = 23040;

/// Which objects a color palette serves.
#[derive(Clone, Copy, Debug, PartialEq, Eq, Structural)]
pub enum PaletteType {
    BackGround,
    Object,
}

/// A color palette memory: 64 bytes reached through an index register
/// whose bit 7 makes each data write step the index.
pub struct Palette {
    pub specification_index: u8,
    pub palette: Vec<u8>,
    pub palette_type: PaletteType,
}

/// The index register after one auto-increment step: bit 7 is kept and the
/// six index bits count on modulo 64.
pub open spec fn next_index(idx: u8) -> u8 {
    (idx & 0x80) | (((idx & 0x3f) + 1) as u8 & 0x3f)
}

impl Palette {
    pub open spec fn wf(&self) -> bool {
        self.palette@.len() == 0x40
    }

    pub fn new(palette_type: PaletteType) -> (r: Self)
        ensures
            r.wf(),
            r.specification_index == 0,
            r.palette_type == palette_type,
            r.palette@ == Seq::new(0x40, |i: int| 0u8),
    {
        Self { specification_index: 0, palette: vec![0u8; 0x40], palette_type }
    }

    pub fn get_specification_index(&self) -> (r: u8)
        ensures
            r == self.specification_index,
    {
        self.specification_index
    }

    pub fn set_specification_index(&mut self, value: u8)
        ensures
            final(self).specification_index == value,
            final(self).palette@ == old(self).palette@,
            final(self).palette_type == old(self).palette_type,
    {
        self.specification_index = value;
    }

    pub fn is_autoincrement(&self) -> (r: bool)
        ensures
            r == (self.specification_index >= 0x80),
    {
        self.specification_index >= 0x80
    }

    pub fn get_index(&self) -> (r: u8)
        ensures
            r == self.specification_index & 0x3f,
            r < 0x40,
    {
        let i = self.specification_index;
        assert(i & 0x3f < 0x40) by (bit_vector);
        i & 0x3f
    }

    pub fn get_color_data(&self) -> (r: u8)
        requires
            self.wf(),
        ensures
            r == self.palette@[(self.specification_index & 0x3f) as int],
    {
        let index = self.get_index() as usize;
        self.palette[index]
    }

    /// Whether `post` is this palette after a data write of `value`.
    pub open spec fn data_written(&self, post: &Palette, value: u8) -> bool {
        &&& post.palette@ == self.palette@.update((self.specification_index & 0x3f) as int, value)
        &&& post.palette_type == self.palette_type
        &&& post.specification_index == if self.specification_index >= 0x80 {
            next_index(self.specification_index)
        } else {
            self.specification_index
        }
    }

    pub fn set_color_data(&mut self, value: u8)
        requires
            old(self).wf(),
        ensures
            final(self).wf(),
            old(self).data_written(final(self), value),
    {
        let index = self.get_index() as usize;
        self.palette.set(index, value);
        if self.is_autoincrement() {
            let idx = self.specification_index;
            self.specification_index = (idx & 0x80) | (((idx & 0x3f) + 1) & 0x3f);
        }
    }

    /// The 15-bit color of color `pixel_value` of palette `palette_index`:
    /// two bytes, low byte first.
    pub fn get_pixel_color(&self, palette_index: u8, pixel_value: u8) -> (r: u16)
        requires
            self.wf(),
            palette_index < 8,
            pixel_value < 4,
            self.palette_type == PaletteType::Object ==> pixel_value != 0,
        ensures
            r == self.palette@[palette_index * 8 + pixel_value * 2 + 1] as int * 256
                + self.palette@[palette_index * 8 + pixel_value * 2] as int,
    {
        let i = (palette_index * 8 + pixel_value * 2) as usize;
        let lower = self.palette[i];
        let higher = self.palette[i + 1];
        let hi = higher as u16;
        let lo = lower as u16;
        assert(((hi << 8u16) | lo) as int == hi as int * 256 + lo as int) by (bit_vector)
            requires
                hi <= 0xff,
                lo <= 0xff,
        ;
        (hi << 8u16) | lo
    }
}

/// The tile map that a background or window fetch reads.
#[derive(Clone, Copy, Debug, PartialEq, Eq, Structural)]
pub enum MapArea {
    Base1800,
    Base1C00,
}

/// How tile numbers address tile data: signed from 0x1000 or unsigned from 0x0000.
#[derive(Clone, Copy, Debug, PartialEq, Eq, Structural)]
pub enum TileArea {
    Base1000,
    Base0000,
}

/// Object height: 8 (square) or 16 pixels.
#[derive(Clone, Copy, Debug, PartialEq, Eq, Structural)]
pub enum ObjSize {
    Square,
    Rectangle,
}

/// The four PPU modes, as STAT bits 1..0 hold them.
#[derive(Clone, Copy, Debug, PartialEq, Eq, Structural)]
pub enum Mode {
    HBlank,
    VBlank,
    SearchingOAM,
    Drawing,
}

/// The number that STAT bits 1..0 hold for a mode.
pub open spec fn mode_bits(mode: Mode) -> u8 {
    match mode {
        Mode::HBlank => 0,
        Mode::VBlank => 1,
        Mode::SearchingOAM => 2,
        Mode::Drawing => 3,
    }
}

/// The LCD registers and the mode machine's counters and interrupt lines.
#[derive(Clone, Copy, Debug, PartialEq, Eq, Structural)]
pub struct PpuRegs {
    pub lcdc: u8,
    pub stat: u8,
    pub scy: u8,
    pub scx: u8,
    pub ly: u8,
    pub lyc: u8,
    pub dma: u8,
    pub bgp: u8,
    pub obp0: u8,
    pub obp1: u8,
    pub wy: u8,
    pub wx: u8,
    pub vbk: u8,
    /// cycles spent in the current mode
    pub counter: u16,
    pub irq_lcdc: bool,
    pub irq_vblank: bool,
}

/// The pixel processing unit: video RAM, object attribute memory, the LCD
/// registers and the frame being drawn.
pub struct Ppu {
    pub vram: Vec<u8>,
    pub oam: Vec<u8>,
    pub regs: PpuRegs,
    pub bg_color: Palette,
    pub obj_color: Palette,
    pub frame: Vec<u8>,
}

impl PpuRegs {
    /// The current mode (STAT bits 1..0).
    pub open spec fn mode(self) -> u8 {
        self.stat & 3
    }

    /// The registers with mode `m` in STAT.
    pub open spec fn with_mode(self, m: u8) -> PpuRegs {
        PpuRegs { stat: (self.stat & 0xfc) | m, ..self }
    }

    /// Raises the LCD STAT interrupt where the current mode's enable bit is set.
    pub open spec fn mode_irq(self) -> PpuRegs {
        if (self.stat & 3 == 0 && self.stat & 0x08 != 0) || (self.stat & 3 == 1 && self.stat & 0x10
            != 0) || (self.stat & 3 == 2 && self.stat & 0x20 != 0) {
            PpuRegs { irq_lcdc: true, ..self }
        } else {
            self
        }
    }

    /// Recomputes the LY=LYC flag; its rise raises the LCD STAT interrupt
    /// where STAT bit 6 enables it.
    pub open spec fn lyc_update(self) -> PpuRegs {
        if self.ly == self.lyc {
            PpuRegs {
                stat: self.stat | 0x04,
                irq_lcdc: self.irq_lcdc || (self.stat & 0x04 == 0 && self.stat & 0x40 != 0),
                ..self
            }
        } else {
            PpuRegs { stat: self.stat & 0xfb, ..self }
        }
    }

    /// Whether an update by `clock` cycles ends OAM search and draws a line.
    pub open spec fn renders(self, clock: u8) -> bool {
        self.lcdc & 0x80 != 0 && self.stat & 3 == 2 && self.counter + clock >= 80
    }

    /// The registers after `clock` cycles of the mode machine.
    pub open spec fn updated(self, clock: u8) -> PpuRegs {
        let c = (self.counter + clock) as u16;
        if self.lcdc & 0x80 == 0 {
            self
        } else if self.stat & 3 == 2 {
            if c >= 80 {
                PpuRegs { counter: (c - 80) as u16, ..self }.with_mode(3)
            } else {
                PpuRegs { counter: c, ..self }
            }
        } else if self.stat & 3 == 3 {
            if c >= 172 {
                PpuRegs { counter: (c - 172) as u16, ..self }.with_mode(0).mode_irq()
            } else {
                PpuRegs { counter: c, ..self }
            }
        } else if self.stat & 3 == 0 {
            if c >= 204 {
                let r = PpuRegs { counter: (c - 204) as u16, ly: (self.ly + 1) as u8, ..self };
                let r = if r.ly >= 144 {
                    PpuRegs { irq_vblank: true, ..r.with_mode(1) }
                } else {
                    r.with_mode(2)
                };
                r.lyc_update().mode_irq()
            } else {
                PpuRegs { counter: c, ..self }
            }
        } else {
            if c >= 456 {
                let r = PpuRegs { counter: (c - 456) as u16, ly: (self.ly + 1) as u8, ..self };
                let r = if r.ly >= 154 {
                    PpuRegs { ly: 0, ..r.with_mode(2) }.mode_irq()
                } else {
                    r
                };
                r.lyc_update()
            } else {
                PpuRegs { counter: c, ..self }
            }
        }
    }

    /// The value that a read of LCD register `addr` yields.
    pub open spec fn read_spec(self, addr: u16) -> u8 {
        if addr == 0xff40 {
            self.lcdc
        } else if addr == 0xff41 {
            self.stat
        } else if addr == 0xff42 {
            self.scy
        } else if addr == 0xff43 {
            self.scx
        } else if addr == 0xff44 {
            self.ly
        } else if addr == 0xff45 {
            self.lyc
        } else if addr == 0xff46 {
            self.dma
        } else if addr == 0xff47 {
            self.bgp
        } else if addr == 0xff48 {
            self.obp0
        } else if addr == 0xff49 {
            self.obp1
        } else if addr == 0xff4a {
            self.wy
        } else if addr == 0xff4b {
            self.wx
        } else {
            0xfe | self.vbk
        }
    }

    /// The registers after a write of `value` to `addr`. Switching the LCD
    /// on or off restarts the mode machine at line 0 and recomputes the
    /// LY=LYC flag; STAT bits 2..0 and LY are read-only; every write of LYC
    /// recomputes the LY=LYC flag.
    pub open spec fn written(self, addr: u16, value: u8) -> PpuRegs {
        if addr == 0xff40 {
            if self.lcdc & 0x80 != value & 0x80 {
                PpuRegs {
                    ly: 0,
                    counter: 0,
                    lcdc: value,
                    ..self.with_mode(if value & 0x80 != 0 { 2u8 } else { 0u8 }).mode_irq()
                }.lyc_update()
            } else {
                PpuRegs { lcdc: value, ..self }
            }
        } else if addr == 0xff41 {
            PpuRegs { stat: (value & 0xf8) | (self.stat & 0x07), ..self }
        } else if addr == 0xff42 {
            PpuRegs { scy: value, ..self }
        } else if addr == 0xff43 {
            PpuRegs { scx: value, ..self }
        } else if addr == 0xff45 {
            PpuRegs { lyc: value, ..self }.lyc_update()
        } else if addr == 0xff46 {
            PpuRegs { dma: value, ..self }
        } else if addr == 0xff47 {
            PpuRegs { bgp: value, ..self }
        } else if addr == 0xff48 {
            PpuRegs { obp0: value, ..self }
        } else if addr == 0xff49 {
            PpuRegs { obp1: value, ..self }
        } else if addr == 0xff4a {
            PpuRegs { wy: value, ..self }
        } else if addr == 0xff4b {
            PpuRegs { wx: value, ..self }
        } else if addr == 0xff4f {
            PpuRegs { vbk: value & 1, ..self }
        } else {
            self
        }
    }
}

/// Whether the PPU answers at `addr`: video RAM, OAM, the LCD registers
/// 0xFF40-0xFF4B, the VRAM bank register 0xFF4F and the color palette
/// registers 0xFF68-0xFF6B.
pub open spec fn is_ppu_addr(addr: u16) -> bool {
    (0x8000 <= addr <= 0x9fff) || (0xfe00 <= addr <= 0xfe9f) || (0xff40 <= addr <= 0xff4b) || addr
        == 0xff4f || (0xff68 <= addr <= 0xff6b)
}

/// Bounds of the low bits of a byte.
pub proof fn lemma_low_bits(v: u8)
    by (bit_vector)
    ensures
        v & 3 < 4,
        v & 1 < 2,
        v & 0x3f < 0x40,
        (v & 0xfc) & 3 == 0,
        ((v & 0xfc) | 0) & 3 == 0,
        ((v & 0xfc) | 1) & 3 == 1,
        ((v & 0xfc) | 2) & 3 == 2,
        ((v & 0xfc) | 3) & 3 == 3,
        (v | 0x04) & 3 == v & 3,
        (v & 0xfb) & 3 == v & 3,
        ((v & 0xf8) | (v & 0x07)) & 3 == v & 3,
        (v | 0x04) & 4 != 0,
        (v & 0xfb) & 4 == 0,
        ((v & 0xfc) | 0) & 4 == v & 4,
        ((v & 0xfc) | 1) & 4 == v & 4,
        ((v & 0xfc) | 2) & 4 == v & 4,
        ((v & 0xfc) | 3) & 4 == v & 4,
{
}

/// How many cycles a mode lasts (per line, for VBlank).
pub open spec fn mode_duration(mode: u8) -> int {
    if mode == 2 {
        80
    } else if mode == 3 {
        172
    } else if mode == 0 {
        204
    } else {
        456
    }
}

impl PpuRegs {
    /// The mode machine's invariant: a line below 154, a visible line in
    /// every mode but VBlank and a VBlank line in VBlank, less time spent in
    /// the mode than it lasts, and the LY=LYC flag of STAT up to date.
    pub open spec fn inv(self) -> bool {
        &&& self.ly < 154
        &&& (self.stat & 4 != 0) == (self.ly == self.lyc)
        &&& self.stat & 3 != 1 ==> self.ly < 144
        &&& self.stat & 3 == 1 ==> self.ly >= 144
        &&& self.counter < mode_duration(self.stat & 3)
    }
}

/// The LCD registers at power-on: LCD on, OAM search of line 0, LY = LYC.
pub open spec fn power_on_regs() -> PpuRegs {
    PpuRegs {
        lcdc: 0x80,
        stat: 0x06,
        scy: 0,
        scx: 0,
        ly: 0,
        lyc: 0,
        dma: 0,
        bgp: 0,
        obp0: 0,
        obp1: 0,
        wy: 0,
        wx: 0,
        vbk: 0,
        counter: 0,
        irq_lcdc: false,
        irq_vblank: false,
    }
}

/// Whether `b` is one of the four grayscale bytes of the output.
pub open spec fn is_shade(b: u8) -> bool {
    b == 0x00 || b == 0x55 || b == 0xaa || b == 0xff
}

/// Whether every byte of `s` is one of the four grayscale bytes.
#[verifier::opaque]
pub open spec fn all_shades(s: Seq<u8>) -> bool {
    forall|i: int| 0 <= i < s.len() ==> #[trigger] is_shade(s[i])
}

/// The grayscale byte of a DMG shade: 0 white (0xFF) to 3 black (0x00).
pub open spec fn gray(shade: u8) -> u8 {
    if shade == 0 {
        0xff
    } else if shade == 1 {
        0xaa
    } else if shade == 2 {
        0x55
    } else {
        0x00
    }
}

/// The grayscale byte that palette register `palette` gives color `color`.
pub open spec fn palette_shade(palette: u8, color: u8) -> u8 {
    gray((palette >> (color * 2) as u8) & 3)
}

/// The two-bit color of column `ox` (0 leftmost) of a tile row given by
/// its low and high bit planes.
pub open spec fn tile_color(low: u8, high: u8, ox: u8) -> u8 {
    (((high >> (7 - ox) as u8) & 1) << 1u8) | ((low >> (7 - ox) as u8) & 1)
}

/// Whether pixel `x` of the current line shows the window.
pub open spec fn in_window(r: PpuRegs, x: int) -> bool {
    r.lcdc & 0x20 != 0 && r.wy <= r.ly && r.wx as int - 7 <= x
}

/// The VRAM offset of the tile map for the background or the window.
pub open spec fn map_base(r: PpuRegs, window: bool) -> int {
    if window {
        if r.lcdc & 0x40 != 0 {
            0x1c00
        } else {
            0x1800
        }
    } else {
        if r.lcdc & 0x08 != 0 {
            0x1c00
        } else {
            0x1800
        }
    }
}

/// The VRAM offset of tile `tile_no`'s data: unsigned from 0x0000, or
/// signed around 0x1000 (tiles 128-255 at 0x0800-0x0FFF).
pub open spec fn tile_data_addr(r: PpuRegs, tile_no: u8) -> int {
    if r.lcdc & 0x10 != 0 {
        tile_no * 16
    } else if tile_no < 128 {
        0x1000 + tile_no * 16
    } else {
        tile_no * 16
    }
}

/// The source point of pixel `x` of the current line: in the window, or in
/// the scrolled 256 x 256 background.
pub open spec fn bg_source(r: PpuRegs, x: int) -> (u8, u8) {
    if in_window(r, x) {
        ((x - (r.wx - 7)) as u8, (r.ly - r.wy) as u8)
    } else {
        (((r.scx + x) % 256) as u8, ((r.scy + r.ly) % 256) as u8)
    }
}

/// The VRAM offset of the tile row that source point (px, py) lies in.
pub open spec fn bg_row_addr(r: PpuRegs, vram: Seq<u8>, window: bool, px: u8, py: u8) -> int {
    let tile_no = vram[map_base(r, window) + (py / 8) * 32 + px / 8];
    tile_data_addr(r, tile_no) + (py % 8) * 2
}

/// The grayscale byte of background or window pixel `x` of the current line.
pub open spec fn bg_pixel(r: PpuRegs, vram: Seq<u8>, x: int) -> u8 {
    let (px, py) = bg_source(r, x);
    let a = bg_row_addr(r, vram, in_window(r, x), px, py);
    palette_shade(r.bgp, tile_color(vram[a], vram[a + 1], px % 8))
}

/// The current line as the background and window draw it.
pub open spec fn bg_line(r: PpuRegs, vram: Seq<u8>) -> Seq<u8> {
    Seq::new(160, |x: int| bg_pixel(r, vram, x))
}

/// Object height: 16 with LCDC bit 2, else 8.
pub open spec fn sprite_height(r: PpuRegs) -> int {
    if r.lcdc & 0x04 != 0 {
        16
    } else {
        8
    }
}

/// Whether object `i` lies on the current line and has a column on screen.
pub open spec fn sprite_on_line(r: PpuRegs, oam: Seq<u8>, i: int) -> bool {
    let y = oam[4 * i];
    let x = oam[4 * i + 1];
    0 < x && x <= 167 && y <= r.ly + 16 && r.ly + 16 < y + sprite_height(r)
}

/// The VRAM offset of the row of object `i` that the current line shows.
pub open spec fn sprite_row_addr(r: PpuRegs, oam: Seq<u8>, i: int) -> int {
    let tile = if r.lcdc & 0x04 != 0 {
        oam[4 * i + 2] & 0xfe
    } else {
        oam[4 * i + 2]
    };
    let row = r.ly + 16 - oam[4 * i];
    let oy = if oam[4 * i + 3] & 0x40 != 0 {
        sprite_height(r) - 1 - row
    } else {
        row
    };
    tile * 16 + oy * 2
}

/// Pixel `old` after column `ox` of object `i` is drawn over it: color 0 is
/// transparent, and with the priority bit only a background of color 0
/// (white) is covered.
pub open spec fn sprite_pixel(r: PpuRegs, vram: Seq<u8>, oam: Seq<u8>, i: int, ox: int, old: u8) -> u8 {
    let attr = oam[4 * i + 3];
    let a = sprite_row_addr(r, oam, i);
    let ix = if attr & 0x20 != 0 {
        7 - ox
    } else {
        ox
    };
    let c = tile_color(vram[a], vram[a + 1], ix as u8);
    let palette = if attr & 0x10 != 0 {
        r.obp1
    } else {
        r.obp0
    };
    if c == 0 || (attr & 0x80 != 0 && old != 0xff) {
        old
    } else {
        palette_shade(palette, c)
    }
}

/// `line` with the first `k` columns of object `i` drawn over it.
pub open spec fn draw_sprite_cols(r: PpuRegs, vram: Seq<u8>, oam: Seq<u8>, line: Seq<u8>, i: int, k: int) -> Seq<u8> {
    Seq::new(
        160,
        |x: int|
            {
                let ox = x - (oam[4 * i + 1] - 8);
                if 0 <= ox < k {
                    sprite_pixel(r, vram, oam, i, ox, line[x])
                } else {
                    line[x]
                }
            },
    )
}

/// `line` after objects 0 to n-1 are drawn over it in order, at most ten of
/// them, with the number drawn.
pub open spec fn sprites_upto(r: PpuRegs, vram: Seq<u8>, oam: Seq<u8>, line: Seq<u8>, n: int) -> (Seq<u8>, int)
    decreases n,
{
    if n <= 0 {
        (line, 0)
    } else {
        let (l, c) = sprites_upto(r, vram, oam, line, n - 1);
        if c < 10 && sprite_on_line(r, oam, n - 1) {
            (draw_sprite_cols(r, vram, oam, l, n - 1, 8), c + 1)
        } else {
            (l, c)
        }
    }
}

/// Line `ly` of `frame`.
pub open spec fn frame_row(frame: Seq<u8>, ly: int) -> Seq<u8> {
    frame.subrange(ly * 160, ly * 160 + 160)
}

/// `frame` with line `ly` replaced by `line`.
pub open spec fn with_row(frame: Seq<u8>, ly: int, line: Seq<u8>) -> Seq<u8> {
    Seq::new(
        frame.len(),
        |i: int|
            if ly * 160 <= i < ly * 160 + 160 {
                line[i - ly * 160]
            } else {
                frame[i]
            },
    )
}

/// The current line as the scanline renderer leaves it: the background
/// (when LCDC bit 0 enables it), then the objects (when LCDC bit 1 does).
pub open spec fn scan_line(r: PpuRegs, vram: Seq<u8>, oam: Seq<u8>, frame: Seq<u8>) -> Seq<u8> {
    let base = if r.lcdc & 0x01 != 0 {
        bg_line(r, vram)
    } else {
        frame_row(frame, r.ly as int)
    };
    if r.lcdc & 0x02 != 0 {
        sprites_upto(r, vram, oam, base, 40).0
    } else {
        base
    }
}

impl Ppu {
    pub open spec fn wf(&self) -> bool {
        &&& self.vram@.len() == 0x2000
        &&& self.oam@.len() == 0xa0
        &&& self.frame@.len() == FRAME_LEN
        &&& self.bg_color.wf()
        &&& self.obj_color.wf()
        &&& self.bg_color.palette_type == PaletteType::BackGround
        &&& self.obj_color.palette_type == PaletteType::Object
        &&& self.regs.inv()
        &&& all_shades(self.frame@)
    }

    /// The frame after the current line is rendered.
    pub open spec fn scanned_frame(&self) -> Seq<u8> {
        with_row(
            self.frame@,
            self.regs.ly as int,
            scan_line(self.regs, self.vram@, self.oam@, self.frame@),
        )
    }

    /// The value that a read of `addr` yields: VRAM reads give 0xFF while
    /// the line is drawn (mode 3), OAM reads while OAM is searched or the
    /// line is drawn (modes 2 and 3).
    pub open spec fn read_spec(&self, addr: u16) -> u8 {
        if 0x8000 <= addr <= 0x9fff {
            if self.regs.stat & 3 != 3 {
                self.vram@[addr - 0x8000]
            } else {
                0xff
            }
        } else if 0xfe00 <= addr <= 0xfe9f {
            if self.regs.stat & 3 == 0 || self.regs.stat & 3 == 1 {
                self.oam@[addr - 0xfe00]
            } else {
                0xff
            }
        } else if addr == 0xff68 {
            self.bg_color.specification_index
        } else if addr == 0xff69 {
            self.bg_color.palette@[(self.bg_color.specification_index & 0x3f) as int]
        } else if addr == 0xff6a {
            self.obj_color.specification_index
        } else if addr == 0xff6b {
            self.obj_color.palette@[(self.obj_color.specification_index & 0x3f) as int]
        } else {
            self.regs.read_spec(addr)
        }
    }

    /// Whether `post` is this PPU after a write of `value` to `addr`; VRAM
    /// and OAM writes are dropped in the modes in which reads are.
    pub open spec fn written(&self, post: &Ppu, addr: u16, value: u8) -> bool {
        &&& post.regs == self.regs.written(addr, value)
        &&& post.frame@ == self.frame@
        &&& post.vram@ == if 0x8000 <= addr <= 0x9fff && self.regs.stat & 3 != 3 {
            self.vram@.update(addr - 0x8000, value)
        } else {
            self.vram@
        }
        &&& post.oam@ == if 0xfe00 <= addr <= 0xfe9f && (self.regs.stat & 3 == 0 || self.regs.stat
            & 3 == 1) {
            self.oam@.update(addr - 0xfe00, value)
        } else {
            self.oam@
        }
        &&& if addr == 0xff68 {
            post.bg_color.specification_index == value && post.bg_color.palette@
                == self.bg_color.palette@ && post.bg_color.palette_type
                == self.bg_color.palette_type
        } else if addr == 0xff69 {
            self.bg_color.data_written(&post.bg_color, value)
        } else {
            post.bg_color == self.bg_color
        }
        &&& if addr == 0xff6a {
            post.obj_color.specification_index == value && post.obj_color.palette@
                == self.obj_color.palette@ && post.obj_color.palette_type
                == self.obj_color.palette_type
        } else if addr == 0xff6b {
            self.obj_color.data_written(&post.obj_color, value)
        } else {
            post.obj_color == self.obj_color
        }
    }

    pub fn new() -> (r: Self)
        ensures
            r.wf(),
            r.regs == power_on_regs(),
            forall|i: int| 0 <= i < 0x2000 ==> r.vram@[i] == 0,
            forall|i: int| 0 <= i < 0xa0 ==> r.oam@[i] == 0,
            forall|i: int| 0 <= i < FRAME_LEN ==> r.frame@[i] == 0,
    {
        let r = Ppu {
            vram: vec![0u8; 0x2000],
            oam: vec![0u8; 0xa0],
            regs: PpuRegs {
                lcdc: 0x80,
                stat: 0x06,
                scy: 0,
                scx: 0,
                ly: 0,
                lyc: 0,
                dma: 0,
                bgp: 0,
                obp0: 0,
                obp1: 0,
                wy: 0,
                wx: 0,
                vbk: 0,
                counter: 0,
                irq_lcdc: false,
                irq_vblank: false,
            },
            bg_color: Palette::new(PaletteType::BackGround),
            obj_color: Palette::new(PaletteType::Object),
            frame: vec![0u8; FRAME_LEN],
        };
        assert(all_shades(r.frame@)) by {
            reveal(all_shades);
        }
        assert(0x06u8 & 3 == 2 && 0x06u8 & 4 != 0) by (bit_vector);
        r
    }

    pub fn get_vbk(&self) -> (r: u8)
        ensures
            r == 0xfe | self.regs.vbk,
    {
        0b1111_1110 | self.regs.vbk
    }

    pub fn set_vbk(&mut self, value: u8)
        requires
            old(self).wf(),
        ensures
            final(self).wf(),
            final(self).regs == (PpuRegs { vbk: value & 1, ..old(self).regs }),
            final(self).vram == old(self).vram && final(self).oam == old(self).oam && final(self).frame
                == old(self).frame && final(self).bg_color == old(self).bg_color
                && final(self).obj_color == old(self).obj_color,
    {
        self.regs.vbk = value & 1;
    }

    /// The frame: one grayscale byte per pixel, row by row.
    pub fn get_frame(&self) -> (r: &[u8])
        requires
            self.wf(),
        ensures
            r@ == self.frame@,
            r@.len() == FRAME_LEN,
            forall|i: int| 0 <= i < r@.len() ==> #[trigger] is_shade(r@[i]),
    {
        reveal(all_shades);
        self.frame.as_slice()
    }

    pub fn is_irq_vblank(&self) -> (r: bool)
        ensures
            r == self.regs.irq_vblank,
    {
        self.regs.irq_vblank
    }

    pub fn is_irq_lcdc(&self) -> (r: bool)
        ensures
            r == self.regs.irq_lcdc,
    {
        self.regs.irq_lcdc
    }

    pub fn set_irq_vblank(&mut self, flag: bool)
        requires
            old(self).wf(),
        ensures
            final(self).wf(),
            final(self).regs == (PpuRegs { irq_vblank: flag, ..old(self).regs }),
            final(self).vram == old(self).vram && final(self).oam == old(self).oam && final(self).frame
                == old(self).frame && final(self).bg_color == old(self).bg_color
                && final(self).obj_color == old(self).obj_color,
    {
        self.regs.irq_vblank = flag;
    }

    pub fn set_irq_lcdc(&mut self, flag: bool)
        requires
            old(self).wf(),
        ensures
            final(self).wf(),
            final(self).regs == (PpuRegs { irq_lcdc: flag, ..old(self).regs }),
            final(self).vram == old(self).vram && final(self).oam == old(self).oam && final(self).frame
                == old(self).frame && final(self).bg_color == old(self).bg_color
                && final(self).obj_color == old(self).obj_color,
    {
        self.regs.irq_lcdc = flag;
    }

    pub fn is_lcd_and_ppu_enable(&self) -> (r: bool)
        ensures
            r == (self.regs.lcdc & 0x80 != 0),
    {
        self.regs.lcdc & 0x80 != 0
    }

    pub fn window_map_area(&self) -> (r: MapArea)
        ensures
            r == (if self.regs.lcdc & 0x40 != 0 {
                MapArea::Base1C00
            } else {
                MapArea::Base1800
            }),
    {
        if self.regs.lcdc & 0x40 != 0 {
            MapArea::Base1C00
        } else {
            MapArea::Base1800
        }
    }

    pub fn is_window_enable(&self) -> (r: bool)
        ensures
            r == (self.regs.lcdc & 0x20 != 0),
    {
        self.regs.lcdc & 0x20 != 0
    }

    pub fn get_tile_area(&self) -> (r: TileArea)
        ensures
            r == (if self.regs.lcdc & 0x10 != 0 {
                TileArea::Base0000
            } else {
                TileArea::Base1000
            }),
    {
        if self.regs.lcdc & 0x10 != 0 {
            TileArea::Base0000
        } else {
            TileArea::Base1000
        }
    }

    pub fn bg_map_area(&self) -> (r: MapArea)
        ensures
            r == (if self.regs.lcdc & 0x08 != 0 {
                MapArea::Base1C00
            } else {
                MapArea::Base1800
            }),
    {
        if self.regs.lcdc & 0x08 != 0 {
            MapArea::Base1C00
        } else {
            MapArea::Base1800
        }
    }

    pub fn get_obj_size(&self) -> (r: ObjSize)
        ensures
            r == (if self.regs.lcdc & 0x04 != 0 {
                ObjSize::Rectangle
            } else {
                ObjSize::Square
            }),
    {
        if self.regs.lcdc & 0x04 != 0 {
            ObjSize::Rectangle
        } else {
            ObjSize::Square
        }
    }

    pub fn is_obj_square(&self) -> (r: bool)
        ensures
            r == (self.regs.lcdc & 0x04 == 0),
    {
        (self.regs.lcdc & 0x04) == 0
    }

    pub fn is_obj_enable(&self) -> (r: bool)
        ensures
            r == (self.regs.lcdc & 0x02 != 0),
    {
        self.regs.lcdc & 0x02 != 0
    }

    pub fn is_bg_window_enable(&self) -> (r: bool)
        ensures
            r == (self.regs.lcdc & 0x01 != 0),
    {
        self.regs.lcdc & 0x01 != 0
    }

    pub fn is_lyc_eq_ly_stat_interrupt(&self) -> (r: bool)
        ensures
            r == (self.regs.stat & 0x40 != 0),
    {
        self.regs.stat & 0x40 != 0
    }

    pub fn is_mode2_oam_stat_interrupt(&self) -> (r: bool)
        ensures
            r == (self.regs.stat & 0x20 != 0),
    {
        self.regs.stat & 0x20 != 0
    }

    pub fn is_mode1_vblank_stat_interrupt(&self) -> (r: bool)
        ensures
            r == (self.regs.stat & 0x10 != 0),
    {
        self.regs.stat & 0x10 != 0
    }

    pub fn is_mode0_hblank_stat_interrupt(&self) -> (r: bool)
        ensures
            r == (self.regs.stat & 0x08 != 0),
    {
        self.regs.stat & 0x08 != 0
    }

    pub fn is_lcy_eq_ly_flag(&self) -> (r: bool)
        ensures
            r == (self.regs.stat & 0x04 != 0),
    {
        self.regs.stat & 0x04 != 0
    }

    pub fn get_mode_flag(&self) -> (r: Mode)
        ensures
            mode_bits(r) == self.regs.stat & 3,
    {
        let m = self.regs.stat & 0x03;
        if m == 0 {
            Mode::HBlank
        } else if m == 1 {
            Mode::VBlank
        } else if m == 2 {
            Mode::SearchingOAM
        } else {
            proof {
                lemma_low_bits(self.regs.stat);
            }
            Mode::Drawing
        }
    }
}

/// `frame` with line `ly` replaced twice is `frame` with the second line.
pub proof fn lemma_with_row_twice(frame: Seq<u8>, ly: int, a: Seq<u8>, b: Seq<u8>)
    ensures
        with_row(with_row(frame, ly, a), ly, b) == with_row(frame, ly, b),
{
    assert(with_row(with_row(frame, ly, a), ly, b) =~= with_row(frame, ly, b));
}

/// Line `ly` of a frame whose line `ly` was replaced is the new line.
pub proof fn lemma_row_of_with_row(frame: Seq<u8>, ly: int, line: Seq<u8>)
    requires
        0 <= ly < 144,
        frame.len() == FRAME_LEN,
        line.len() == 160,
    ensures
        frame_row(with_row(frame, ly, line), ly) == line,
{
    assert(frame_row(with_row(frame, ly, line), ly) =~= line);
}

/// A frame with its own line put back is unchanged.
pub proof fn lemma_with_own_row(frame: Seq<u8>, ly: int)
    requires
        0 <= ly < 144,
        frame.len() == FRAME_LEN,
    ensures
        with_row(frame, ly, frame_row(frame, ly)) == frame,
{
    assert(with_row(frame, ly, frame_row(frame, ly)) =~= frame);
}

/// What the object fold yields is a line of 160 pixels.
pub proof fn lemma_sprites_len(r: PpuRegs, vram: Seq<u8>, oam: Seq<u8>, line: Seq<u8>, n: int)
    requires
        line.len() == 160,
    ensures
        sprites_upto(r, vram, oam, line, n).0.len() == 160,
        0 <= sprites_upto(r, vram, oam, line, n).1 <= 10,
    decreases n,
{
    if n > 0 {
        lemma_sprites_len(r, vram, oam, line, n - 1);
    }
}

/// Bounds of a STAT write, which keeps bits 2..0.
pub proof fn lemma_stat_write(value: u8, stat: u8)
    by (bit_vector)
    ensures
        ((value & 0xf8) | (stat & 0x07)) & 3 == stat & 3,
        ((value & 0xf8) | (stat & 0x07)) & 4 == stat & 4,
{
}

impl Ppu {
    /// Whether `post` differs from this PPU in its registers alone.
    pub open spec fn same_memory(&self, post: &Ppu) -> bool {
        &&& post.vram@ == self.vram@
        &&& post.oam@ == self.oam@
        &&& post.frame@ == self.frame@
        &&& post.bg_color == self.bg_color
        &&& post.obj_color == self.obj_color
    }

    pub fn set_mode_flag(&mut self, mode: Mode)
        ensures
            final(self).regs == old(self).regs.with_mode(mode_bits(mode)),
            old(self).same_memory(final(self)),
    {
        let bits: u8 = match mode {
            Mode::HBlank => 0,
            Mode::VBlank => 1,
            Mode::SearchingOAM => 2,
            Mode::Drawing => 3,
        };
        self.regs.stat = (self.regs.stat & 0xfc) | bits;
    }

    /// Recomputes the LY=LYC flag of STAT.
    pub fn update_lyc_interrupt(&mut self)
        ensures
            final(self).regs == old(self).regs.lyc_update(),
            old(self).same_memory(final(self)),
    {
        if self.regs.ly == self.regs.lyc {
            if self.regs.stat & 0x04 == 0 && self.regs.stat & 0x40 != 0 {
                self.regs.irq_lcdc = true;
            }
            self.regs.stat = self.regs.stat | 0x04;
        } else {
            self.regs.stat = self.regs.stat & 0xfb;
        }
    }

    /// Raises the LCD STAT interrupt when the current mode's source is enabled.
    pub fn update_mode_interrupt(&mut self)
        ensures
            final(self).regs == old(self).regs.mode_irq(),
            old(self).same_memory(final(self)),
    {
        let st = self.regs.stat;
        if (st & 3 == 0 && st & 0x08 != 0) || (st & 3 == 1 && st & 0x10 != 0) || (st & 3 == 2 && st
            & 0x20 != 0) {
            self.regs.irq_lcdc = true;
        }
    }

    pub fn read(&self, addr: u16) -> (r: u8)
        requires
            self.wf(),
            is_ppu_addr(addr),
        ensures
            r == self.read_spec(addr),
    {
        let mode = self.regs.stat & 0x3;
        if 0x8000 <= addr && addr <= 0x9fff {
            if mode != 3 {
                self.vram[(addr - 0x8000) as usize]
            } else {
                0xff
            }
        } else if 0xfe00 <= addr && addr <= 0xfe9f {
            if mode == 0 || mode == 1 {
                self.oam[(addr - 0xfe00) as usize]
            } else {
                0xff
            }
        } else if addr == 0xff68 {
            self.bg_color.get_specification_index()
        } else if addr == 0xff69 {
            self.bg_color.get_color_data()
        } else if addr == 0xff6a {
            self.obj_color.get_specification_index()
        } else if addr == 0xff6b {
            self.obj_color.get_color_data()
        } else if addr == 0xff40 {
            self.regs.lcdc
        } else if addr == 0xff41 {
            self.regs.stat
        } else if addr == 0xff42 {
            self.regs.scy
        } else if addr == 0xff43 {
            self.regs.scx
        } else if addr == 0xff44 {
            self.regs.ly
        } else if addr == 0xff45 {
            self.regs.lyc
        } else if addr == 0xff46 {
            self.regs.dma
        } else if addr == 0xff47 {
            self.regs.bgp
        } else if addr == 0xff48 {
            self.regs.obp0
        } else if addr == 0xff49 {
            self.regs.obp1
        } else if addr == 0xff4a {
            self.regs.wy
        } else if addr == 0xff4b {
            self.regs.wx
        } else {
            self.get_vbk()
        }
    }

    pub fn write(&mut self, addr: u16, value: u8)
        requires
            old(self).wf(),
            is_ppu_addr(addr),
        ensures
            final(self).wf(),
            old(self).written(final(self), addr, value),
    {
        let mode = self.regs.stat & 0x3;
        proof {
            lemma_low_bits(self.regs.stat);
            lemma_low_bits(value);
        }
        if 0x8000 <= addr && addr <= 0x9fff {
            if mode != 3 {
                self.vram.set((addr - 0x8000) as usize, value);
            }
        } else if 0xfe00 <= addr && addr <= 0xfe9f {
            if mode == 0 || mode == 1 {
                self.oam.set((addr - 0xfe00) as usize, value);
            }
        } else if addr == 0xff68 {
            self.bg_color.set_specification_index(value);
        } else if addr == 0xff69 {
            self.bg_color.set_color_data(value);
        } else if addr == 0xff6a {
            self.obj_color.set_specification_index(value);
        } else if addr == 0xff6b {
            self.obj_color.set_color_data(value);
        } else if addr == 0xff40 {
            if self.regs.lcdc & 0x80 != value & 0x80 {
                let m = if value & 0x80 != 0 {
                    Mode::SearchingOAM
                } else {
                    Mode::HBlank
                };
                self.set_mode_flag(m);
                self.update_mode_interrupt();
                self.regs.ly = 0;
                self.regs.counter = 0;
                proof {
                    lemma_low_bits(old(self).regs.stat);
                    lemma_low_bits(self.regs.stat);
                }
                self.update_lyc_interrupt();
            }
            self.regs.lcdc = value;
        } else if addr == 0xff41 {
            proof {
                lemma_stat_write(value, self.regs.stat);
            }
            self.regs.stat = (value & 0xf8) | (self.regs.stat & 0x07);
        } else if addr == 0xff42 {
            self.regs.scy = value;
        } else if addr == 0xff43 {
            self.regs.scx = value;
        } else if addr == 0xff44 {
        } else if addr == 0xff45 {
            self.regs.lyc = value;
            self.update_lyc_interrupt();
            proof {
                lemma_low_bits(old(self).regs.stat);
            }
        } else if addr == 0xff46 {
            self.regs.dma = value;
        } else if addr == 0xff47 {
            self.regs.bgp = value;
        } else if addr == 0xff48 {
            self.regs.obp0 = value;
        } else if addr == 0xff49 {
            self.regs.obp1 = value;
        } else if addr == 0xff4a {
            self.regs.wy = value;
        } else if addr == 0xff4b {
            self.regs.wx = value;
        } else {
            self.set_vbk(value);
        }
    }
}

impl Ppu {
    pub fn is_sprite_visible(&self, sprite_x: u8, sprite_y: u8, height: u8) -> (r: bool)
        ensures
            r == (0 < sprite_x && sprite_x <= 167 && sprite_y <= self.regs.ly + 16
                && self.regs.ly + 16 < sprite_y + height),
    {
        (0 < sprite_x) && (sprite_x <= 160 + 7) && (sprite_y as u16 <= self.regs.ly as u16 + 16) && (
        self.regs.ly as u16 + 16 < sprite_y as u16 + height as u16)
    }

    /// The low and high bit planes of row `offset_y` of the background or
    /// window tile at map position (`tile_x`, `tile_y`).
    pub fn get_bg_window_tile_row(&self, tile_x: u8, tile_y: u8, offset_y: u8, window_flag: bool) -> (r: (u8, u8))
        requires
            self.wf(),
            tile_x < 32,
            tile_y < 32,
            offset_y < 8,
        ensures
            ({
                let tile_no = self.vram@[map_base(self.regs, window_flag) + tile_y * 32 + tile_x];
                let a = tile_data_addr(self.regs, tile_no) + offset_y * 2;
                r == (self.vram@[a], self.vram@[a + 1])
            }),
    {
        let tile_map_index = (tile_x as usize) + (tile_y as usize) * 32;
        let base: usize = if window_flag {
            match self.window_map_area() {
                MapArea::Base1800 => 0x1800,
                MapArea::Base1C00 => 0x1c00,
            }
        } else {
            match self.bg_map_area() {
                MapArea::Base1800 => 0x1800,
                MapArea::Base1C00 => 0x1c00,
            }
        };
        let tile_no = self.vram[base + tile_map_index];
        let tile_addr: usize = match self.get_tile_area() {
            TileArea::Base0000 => (tile_no as usize) * 16,
            TileArea::Base1000 => if tile_no < 128 {
                0x1000 + (tile_no as usize) * 16
            } else {
                (tile_no as usize) * 16
            },
        };
        let a = tile_addr + (offset_y as usize) * 2;
        (self.vram[a], self.vram[a + 1])
    }

    /// The low and high bit planes of row `offset_y` of object tile `tile_no`.
    pub fn get_sprite_tile_row(&self, tile_no: u8, offset_y: u8) -> (r: (u8, u8))
        requires
            self.wf(),
            offset_y < 16,
        ensures
            r == (self.vram@[tile_no * 16 + offset_y * 2], self.vram@[tile_no * 16 + offset_y * 2
                + 1]),
    {
        let tile_addr = (tile_no as usize) * 16 + (offset_y as usize) * 2;
        (self.vram[tile_addr], self.vram[tile_addr + 1])
    }

    /// The grayscale byte of a background pixel through BGP.
    pub fn get_pixel_color(&self, tile_row_low: u8, tile_row_high: u8, offset_x: u8) -> (r: u8)
        requires
            offset_x < 8,
        ensures
            r == palette_shade(self.regs.bgp, tile_color(tile_row_low, tile_row_high, offset_x)),
    {
        let tile_color = self.get_tile_color(tile_row_low, tile_row_high, offset_x);
        shade_of(self.regs.bgp, tile_color)
    }

    /// The grayscale byte of an object pixel through OBP0 or OBP1, as
    /// attribute bit 4 selects.
    pub fn get_sprite_color(&self, tile_color: u8, sprite_flag: u8) -> (r: u8)
        requires
            tile_color < 4,
        ensures
            r == palette_shade(
                if sprite_flag & 0x10 != 0 {
                    self.regs.obp1
                } else {
                    self.regs.obp0
                },
                tile_color,
            ),
    {
        let palette = if sprite_flag & 0x10 != 0 {
            self.regs.obp1
        } else {
            self.regs.obp0
        };
        shade_of(palette, tile_color)
    }

    pub fn get_tile_color(&self, tile_row_low: u8, tile_row_high: u8, offset_x: u8) -> (r: u8)
        requires
            offset_x < 8,
        ensures
            r == tile_color(tile_row_low, tile_row_high, offset_x),
            r < 4,
    {
        let shift_num = 7 - offset_x;
        let bit_low = (tile_row_low >> shift_num) & 1;
        let bit_high = (tile_row_high >> shift_num) & 1;
        proof {
            lemma_low_bits(tile_row_low >> shift_num);
            lemma_low_bits(tile_row_high >> shift_num);
        }
        assert(((bit_high << 1u8) | bit_low) < 4) by (bit_vector)
            requires
                bit_low < 2,
                bit_high < 2,
        ;
        (bit_high << 1u8) | bit_low
    }

    /// Draws the background and window over the current line.
    pub fn render_bg(&mut self)
        requires
            old(self).wf(),
            old(self).regs.ly < 144,
        ensures
            final(self).wf(),
            final(self).regs == old(self).regs,
            final(self).vram@ == old(self).vram@,
            final(self).oam@ == old(self).oam@,
            final(self).bg_color == old(self).bg_color,
            final(self).obj_color == old(self).obj_color,
            final(self).frame@ == with_row(
                old(self).frame@,
                old(self).regs.ly as int,
                bg_line(old(self).regs, old(self).vram@),
            ),
    {
        reveal(all_shades);
        let ghost f0 = self.frame@;
        let ghost r = self.regs;
        let ly = self.regs.ly;
        let wx = self.regs.wx;
        let wy = self.regs.wy;
        let row_start = (ly as usize) * 160;
        let mut x: u8 = 0;
        while x < 160
            invariant
                x <= 160,
                self.wf(),
                self.regs == r,
                self.vram@ == old(self).vram@,
                self.oam@ == old(self).oam@,
                self.bg_color == old(self).bg_color,
                self.obj_color == old(self).obj_color,
                r == old(self).regs,
                f0 == old(self).frame@,
                ly == r.ly,
                wx == r.wx,
                wy == r.wy,
                ly < 144,
                row_start == ly * 160,
                self.frame@ == Seq::new(
                    FRAME_LEN as nat,
                    |i: int|
                        if row_start <= i < row_start + x {
                            bg_pixel(r, self.vram@, i - row_start)
                        } else {
                            f0[i]
                        },
                ),
            decreases 160 - x,
        {
            reveal(all_shades);
            let window_flag = self.is_window_enable() && wy <= ly && (wx as u16) <= (x as u16) + 7;
            let (pixel_x, pixel_y): (u8, u8) = if window_flag {
                ((x as u16 + 7 - wx as u16) as u8, ly - wy)
            } else {
                (
                    ((self.regs.scx as u16 + x as u16) % 256) as u8,
                    ((self.regs.scy as u16 + ly as u16) % 256) as u8,
                )
            };
            assert((pixel_x, pixel_y) == bg_source(r, x as int));
            let (low, high) = self.get_bg_window_tile_row(
                pixel_x / 8,
                pixel_y / 8,
                pixel_y % 8,
                window_flag,
            );
            let color = self.get_pixel_color(low, high, pixel_x % 8);
            assert(color == bg_pixel(r, self.vram@, x as int));
            self.frame.set(row_start + x as usize, color);
            x = x + 1;
            assert(self.frame@ =~= Seq::new(
                FRAME_LEN as nat,
                |i: int|
                    if row_start <= i < row_start + x {
                        bg_pixel(r, self.vram@, i - row_start)
                    } else {
                        f0[i]
                    },
            ));
        }
        assert(self.frame@ =~= with_row(f0, ly as int, bg_line(r, self.vram@)));
    }
}

/// The grayscale byte that palette register `palette` gives color `color`.
fn shade_of(palette: u8, color: u8) -> (r: u8)
    requires
        color < 4,
    ensures
        r == palette_shade(palette, color),
{
    let shade = (palette >> (color * 2)) & 0x3;
    if shade == 0 {
        0xff
    } else if shade == 1 {
        0xaa
    } else if shade == 2 {
        0x55
    } else {
        0x00
    }
}

impl Ppu {
    /// Draws up to ten objects of the current line over it, in OAM order.
    pub fn render_sprites(&mut self)
        requires
            old(self).wf(),
            old(self).regs.ly < 144,
        ensures
            final(self).wf(),
            final(self).regs == old(self).regs,
            final(self).vram@ == old(self).vram@,
            final(self).oam@ == old(self).oam@,
            final(self).bg_color == old(self).bg_color,
            final(self).obj_color == old(self).obj_color,
            final(self).frame@ == with_row(
                old(self).frame@,
                old(self).regs.ly as int,
                sprites_upto(
                    old(self).regs,
                    old(self).vram@,
                    old(self).oam@,
                    frame_row(old(self).frame@, old(self).regs.ly as int),
                    40,
                ).0,
            ),
    {
        reveal(all_shades);
        let ghost f0 = self.frame@;
        let ghost r = self.regs;
        let ghost l0 = frame_row(f0, r.ly as int);
        let ly = self.regs.ly;
        let row_start = (ly as usize) * 160;
        let height: u8 = if self.regs.lcdc & 0x4 != 0 {
            16
        } else {
            8
        };
        let square = self.is_obj_square();
        let mut sprites_num: u8 = 0;
        let mut i: usize = 0;
        proof {
            lemma_with_own_row(f0, ly as int);
        }
        while i < 40
            invariant
                i <= 40,
                self.wf(),
                self.regs == r,
                r == old(self).regs,
                self.vram@ == old(self).vram@,
                self.oam@ == old(self).oam@,
                self.bg_color == old(self).bg_color,
                self.obj_color == old(self).obj_color,
                f0 == old(self).frame@,
                l0 == frame_row(f0, r.ly as int),
                ly == r.ly,
                ly < 144,
                row_start == ly * 160,
                height == sprite_height(r),
                square == (r.lcdc & 0x04 == 0),
                self.frame@ == with_row(f0, ly as int, sprites_upto(r, self.vram@, self.oam@, l0, i as int).0),
                sprites_num == sprites_upto(r, self.vram@, self.oam@, l0, i as int).1,
            decreases 40 - i,
        {
            reveal(all_shades);
            let ghost li = sprites_upto(r, self.vram@, self.oam@, l0, i as int).0;
            proof {
                lemma_sprites_len(r, self.vram@, self.oam@, l0, i as int);
            }
            let sprite_addr = i * 4;
            let sprite_y = self.oam[sprite_addr];
            let sprite_x = self.oam[sprite_addr + 1];
            let tile_no = if square {
                self.oam[sprite_addr + 2]
            } else {
                self.oam[sprite_addr + 2] & 0xfe
            };
            let sprite_flag = self.oam[sprite_addr + 3];
            let flip_y_flag = sprite_flag & 0x40 != 0;
            let flip_x_flag = sprite_flag & 0x20 != 0;
            let priority_flag = sprite_flag & 0x80 != 0;

            if sprites_num < 10 && self.is_sprite_visible(sprite_x, sprite_y, height) {
                let row = ly + 16 - sprite_y;
                let offset_y = if flip_y_flag {
                    height - 1 - row
                } else {
                    row
                };
                let (low, high) = self.get_sprite_tile_row(tile_no, offset_y);
                assert(tile_no * 16 + offset_y * 2 == sprite_row_addr(r, self.oam@, i as int));
                let mut offset_x: u8 = 0;
                proof {
                    assert(draw_sprite_cols(r, self.vram@, self.oam@, li, i as int, 0) =~= li);
                }
                while offset_x < 8
                    invariant
                        offset_x <= 8,
                        self.wf(),
                        self.regs == r,
                        self.vram@ == old(self).vram@,
                        self.oam@ == old(self).oam@,
                        self.bg_color == old(self).bg_color,
                        self.obj_color == old(self).obj_color,
                        li.len() == 160,
                        ly == r.ly,
                        ly < 144,
                        row_start == ly * 160,
                        i < 40,
                        sprite_x == self.oam@[4 * i as int + 1],
                        sprite_flag == self.oam@[4 * i as int + 3],
                        flip_x_flag == (sprite_flag & 0x20 != 0),
                        priority_flag == (sprite_flag & 0x80 != 0),
                        low == self.vram@[sprite_row_addr(r, self.oam@, i as int)],
                        high == self.vram@[sprite_row_addr(r, self.oam@, i as int) + 1],
                        self.frame@ == with_row(
                            f0,
                            ly as int,
                            draw_sprite_cols(r, self.vram@, self.oam@, li, i as int, offset_x as int),
                        ),
                    decreases 8 - offset_x,
                {
                    reveal(all_shades);
                    let ghost before = self.frame@;
                    if sprite_x as u16 + offset_x as u16 >= 8 && sprite_x as u16 + offset_x as u16 - 8 < 160 {
                        let pixel_x = (sprite_x as u16 + offset_x as u16 - 8) as usize;
                        let index_x = if flip_x_flag {
                            7 - offset_x
                        } else {
                            offset_x
                        };
                        let tile_color = self.get_tile_color(low, high, index_x);
                        let index = row_start + pixel_x;
                        let current = self.frame[index];
                        assert(current == li[pixel_x as int]);
                        if tile_color != 0 && !(priority_flag && current != 0xff) {
                            let color = self.get_sprite_color(tile_color, sprite_flag);
                            self.frame.set(index, color);
                        }
                        assert(self.frame@ =~= with_row(
                            f0,
                            ly as int,
                            draw_sprite_cols(r, self.vram@, self.oam@, li, i as int, offset_x + 1),
                        ));
                    } else {
                        assert(self.frame@ =~= with_row(
                            f0,
                            ly as int,
                            draw_sprite_cols(r, self.vram@, self.oam@, li, i as int, offset_x + 1),
                        ));
                    }
                    offset_x = offset_x + 1;
                }
                sprites_num = sprites_num + 1;
            }
            i = i + 1;
        }
    }

    /// Renders the current line: the background and window, then the objects.
    pub fn render_scan(&mut self)
        requires
            old(self).wf(),
            old(self).regs.ly < 144,
        ensures
            final(self).wf(),
            final(self).regs == old(self).regs,
            final(self).vram@ == old(self).vram@,
            final(self).oam@ == old(self).oam@,
            final(self).bg_color == old(self).bg_color,
            final(self).obj_color == old(self).obj_color,
            final(self).frame@ == old(self).scanned_frame(),
    {
        let ghost f0 = self.frame@;
        let ghost r = self.regs;
        let ghost base = if r.lcdc & 0x01 != 0 {
            bg_line(r, self.vram@)
        } else {
            frame_row(f0, r.ly as int)
        };
        if self.regs.lcdc & 0x1 != 0 {
            self.render_bg();
            proof {
                lemma_row_of_with_row(f0, r.ly as int, base);
            }
        } else {
            proof {
                lemma_with_own_row(f0, r.ly as int);
            }
        }
        assert(self.frame@ == with_row(f0, r.ly as int, base));
        assert(frame_row(self.frame@, r.ly as int) == base);
        if self.is_obj_enable() {
            self.render_sprites();
            proof {
                lemma_with_row_twice(
                    f0,
                    r.ly as int,
                    base,
                    sprites_upto(r, self.vram@, self.oam@, base, 40).0,
                );
            }
        }
    }

    /// Advances the mode machine by `clock` cycles (at most 80, less than
    /// the shortest mode), rendering the line when OAM search ends.
    pub fn update(&mut self, clock: u8)
        requires
            old(self).wf(),
            clock <= 80,
        ensures
            final(self).wf(),
            final(self).regs == old(self).regs.updated(clock),
            final(self).vram@ == old(self).vram@,
            final(self).oam@ == old(self).oam@,
            final(self).bg_color == old(self).bg_color,
            final(self).obj_color == old(self).obj_color,
            final(self).frame@ == if old(self).regs.renders(clock) {
                old(self).scanned_frame()
            } else {
                old(self).frame@
            },
    {
        if !self.is_lcd_and_ppu_enable() {
            return;
        }
        let ghost r0 = self.regs;
        proof {
            lemma_low_bits(r0.stat);
        }
        let c = self.regs.counter + clock as u16;
        match self.get_mode_flag() {
            Mode::SearchingOAM => {
                if c >= 80 {
                    self.render_scan();
                    self.regs.counter = c - 80;
                    self.set_mode_flag(Mode::Drawing);
                } else {
                    self.regs.counter = c;
                }
            },
            Mode::Drawing => {
                if c >= 172 {
                    self.regs.counter = c - 172;
                    self.set_mode_flag(Mode::HBlank);
                    self.update_mode_interrupt();
                } else {
                    self.regs.counter = c;
                }
            },
            Mode::HBlank => {
                if c >= 204 {
                    self.regs.counter = c - 204;
                    self.regs.ly = self.regs.ly + 1;
                    if self.regs.ly >= 144 {
                        self.set_mode_flag(Mode::VBlank);
                        proof {
                            lemma_low_bits(self.regs.stat);
                        }
                        self.regs.irq_vblank = true;
                    } else {
                        self.set_mode_flag(Mode::SearchingOAM);
                        proof {
                            lemma_low_bits(self.regs.stat);
                        }
                    }
                    self.update_lyc_interrupt();
                    self.update_mode_interrupt();
                } else {
                    self.regs.counter = c;
                }
            },
            Mode::VBlank => {
                if c >= 456 {
                    self.regs.counter = c - 456;
                    self.regs.ly = self.regs.ly + 1;
                    if self.regs.ly >= 154 {
                        self.set_mode_flag(Mode::SearchingOAM);
                        proof {
                            lemma_low_bits(self.regs.stat);
                        }
                        self.regs.ly = 0;
                        self.update_mode_interrupt();
                    }
                    self.update_lyc_interrupt();
                } else {
                    self.regs.counter = c;
                }
            },
        }
        proof {
            lemma_low_bits(self.regs.stat);
        }
    }
}

/// Where in the frame the mode machine stands: cycles since the start of
/// line 0, from 0 to 70223. A visible line spends 80 cycles in OAM search,
/// 172 drawing and 204 in HBlank.
pub open spec fn frame_dot(r: PpuRegs) -> int {
    r.ly * 456 + (if r.stat & 3 == 3 {
        80int
    } else if r.stat & 3 == 0 {
        252int
    } else {
        0int
    }) + r.counter
}

/// The first cycle of VBlank within a frame: line 144, at 144 * 456.
pub open spec fn vblank_dot() -> int {
    65664int
}

/// Frame cadence: with the LCD on, an update by `clock` cycles moves the
/// frame position on by exactly `clock`, modulo the 70,224 cycles of a
/// frame, and raises the VBlank interrupt exactly when the position passes
/// the start of line 144. So successive VBlank interrupts are one frame,
/// 70,224 cycles, apart.
pub proof fn law_frame_cadence(r: PpuRegs, clock: u8)
    requires
        r.inv(),
        r.lcdc & 0x80 != 0,
        clock <= 80,
    ensures
        r.updated(clock).inv(),
        frame_dot(r.updated(clock)) == (frame_dot(r) + clock) % 70224,
        r.updated(clock).irq_vblank == (r.irq_vblank || (frame_dot(r) < vblank_dot() <= frame_dot(r)
            + clock)),
        r.updated(clock).lcdc == r.lcdc,
{
    lemma_low_bits(r.stat);
    let c = r.counter + clock;
    let u = r.updated(clock);
    let m = r.stat & 3;
    if m == 2 {
        if c >= 80 {
            lemma_low_bits(((r.stat & 0xfc) | 3) as u8);
        }
    } else if m == 3 {
        if c >= 172 {
            lemma_low_bits(((r.stat & 0xfc) | 0) as u8);
        }
    } else if m == 0 {
        if c >= 204 {
            let s1: u8 = if r.ly + 1 >= 144 {
                ((r.stat & 0xfc) | 1) as u8
            } else {
                ((r.stat & 0xfc) | 2) as u8
            };
            lemma_low_bits(s1);
            lemma_low_bits((s1 | 0x04) as u8);
            lemma_low_bits((s1 & 0xfb) as u8);
        }
    } else {
        if c >= 456 {
            lemma_low_bits(((r.stat & 0xfc) | 2) as u8);
            let s2: u8 = if r.ly + 1 >= 154 {
                ((r.stat & 0xfc) | 2) as u8
            } else {
                r.stat
            };
            lemma_low_bits((s2 | 0x04) as u8);
            lemma_low_bits((s2 & 0xfb) as u8);
        }
    }
}

/// Object priority: for an object pixel of non-zero color whose attribute
/// has the priority bit, the object shows only over background color 0
/// (white, 0xFF); over any other background shade the background stays.
/// Without the priority bit the object always shows.
pub proof fn law_sprite_priority(r: PpuRegs, vram: Seq<u8>, oam: Seq<u8>, i: int, ox: int, old: u8)
    requires
        ({
            let a = sprite_row_addr(r, oam, i);
            let ix = if oam[4 * i + 3] & 0x20 != 0 {
                7 - ox
            } else {
                ox
            };
            tile_color(vram[a], vram[a + 1], ix as u8) != 0
        }),
    ensures
        ({
            let attr = oam[4 * i + 3];
            let a = sprite_row_addr(r, oam, i);
            let ix = if attr & 0x20 != 0 {
                7 - ox
            } else {
                ox
            };
            let c = tile_color(vram[a], vram[a + 1], ix as u8);
            let shown = palette_shade(
                if attr & 0x10 != 0 {
                    r.obp1
                } else {
                    r.obp0
                },
                c,
            );
            &&& attr & 0x80 != 0 ==> sprite_pixel(r, vram, oam, i, ox, old) == if old == 0xff {
                shown
            } else {
                old
            }
            &&& attr & 0x80 == 0 ==> sprite_pixel(r, vram, oam, i, ox, old) == shown
        }),
{
}

} // verus!
