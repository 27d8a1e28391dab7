//! DMG Picture Processing Unit.
//!
//! The PPU drives the 160×144 LCD. It operates on a fixed 456-dot scanline
//! grid across 154 lines (144 visible + 10 VBlank), cycling through four
//! modes per visible scanline:
//!
//!   Mode 2 (OAM Scan) →  80 dots — locate sprites for this scanline
//!   Mode 3 (Drawing)  → 172 dots — pixel pipeline pushes pixels to the LCD
//!   Mode 0 (HBlank)   → 204 dots — horizontal blank between scanlines
//!
//! During VBlank (scanlines 144–153) the PPU remains in Mode 1 for the
//! entire scanline. One full frame is 70,224 dots (~59.7 fps).
//!
//! Each visible scanline is rendered in one batch at the Drawing→HBlank
//! transition: background (SCX/SCY scroll, BGP), window (its own line
//! counter and tile map), then up to ten sprites (OBP0/OBP1, X/Y flip,
//! 8×16 mode, BG priority).  The output is a 160×144 framebuffer of shade
//! indices 0–3.
//!
//! The CPU reads 0xFF and its writes are dropped when it accesses VRAM
//! during Mode 3, or OAM during Mode 2 or Mode 3.  A CPU access to OAM
//! during Mode 2 corrupts the OAM row being scanned.  OAM DMA bypasses the
//! restriction through [`PPU::write_oam_direct`].
//!
//! Mode 3 always lasts 172 dots; the SCX, sprite and window penalties that
//! lengthen it on hardware are not modelled.
use vstd::prelude::*;
use crate::bytes::zeroed_bytes;
use crate::memory::Memory;

verus! {

broadcast use vstd::array::group_array_axioms;

/// The DMG screen is 160×144 pixels.
pub const SCREEN_WIDTH: usize = 160;

pub const SCREEN_HEIGHT: usize = 144;

/// Every scanline — visible or VBlank — is exactly 456 T-cycles (dots).
pub const DOTS_PER_SCANLINE: u16 = 456;

/// Scanlines 0–143 produce pixels. Scanlines 144–153 are VBlank.
pub const VISIBLE_SCANLINES: u8 = 144;

/// 144 visible + 10 VBlank = 154 total scanlines per frame.
pub const TOTAL_SCANLINES: u8 = 154;

/// Mode 2 (OAM Scan) lasts the first 80 dots of each visible scanline.
pub const OAM_SCAN_DOTS: u16 = 80;

/// Mode 3 (Drawing) lasts 172 dots; Mode 0 (HBlank) fills the remaining 204.
pub const DRAWING_DOTS: u16 = 172;

// LCDC (FF40) bits.
pub const LCDC_LCD_ENABLE: u8 = 0x80;

pub const LCDC_WINDOW_MAP: u8 = 0x40;

pub const LCDC_WINDOW_ENABLE: u8 = 0x20;

pub const LCDC_TILE_DATA: u8 = 0x10;

pub const LCDC_BG_MAP: u8 = 0x08;

pub const LCDC_OBJ_SIZE: u8 = 0x04;

pub const LCDC_OBJ_ENABLE: u8 = 0x02;

pub const LCDC_BG_ENABLE: u8 = 0x01;

// OAM attribute bits.
pub const ATTR_BG_PRIORITY: u8 = 0x80;

pub const ATTR_Y_FLIP: u8 = 0x40;

pub const ATTR_X_FLIP: u8 = 0x20;

pub const ATTR_PALETTE: u8 = 0x10;

// STAT (FF41) bits.
pub const STAT_LYC_INT: u8 = 0x40;

pub const STAT_OAM_INT: u8 = 0x20;

pub const STAT_VBLANK_INT: u8 = 0x10;

pub const STAT_HBLANK_INT: u8 = 0x08;

pub const STAT_LYC_FLAG: u8 = 0x04;

pub const STAT_MODE_MASK: u8 = 0x03;

// IF (FF0F) bits raised by the PPU.
pub const IF_VBLANK: u8 = 0x01;

pub const IF_STAT: u8 = 0x02;

/// The four modes the PPU cycles through each frame.
#[derive(Debug, Clone, Copy, PartialEq, Eq, Structural)]
pub enum Mode {
    /// Mode 0: horizontal blank; the CPU may access VRAM and OAM.
    HBlank,
    /// Mode 1: vertical blank (scanlines 144–153).
    VBlank,
    /// Mode 2: the PPU scans OAM for this line's sprites; OAM is locked.
    OamScan,
    /// Mode 3: the pixel pipeline runs; VRAM and OAM are locked.
    Drawing,
}

/// The two-bit STAT mode field for `mode`.
pub open spec fn mode_bits(mode: Mode) -> u8 {
    match mode {
        Mode::HBlank => 0,
        Mode::VBlank => 1,
        Mode::OamScan => 2,
        Mode::Drawing => 3,
    }
}

/// The mode for a position on the 456 × 154 dot grid.
pub open spec fn mode_at(ly: u8, dot: u16) -> Mode {
    if ly >= VISIBLE_SCANLINES {
        Mode::VBlank
    } else if dot < OAM_SCAN_DOTS {
        Mode::OamScan
    } else if dot < OAM_SCAN_DOTS + DRAWING_DOTS {
        Mode::Drawing
    } else {
        Mode::HBlank
    }
}

/// One decoded OAM entry.  The sprite appears at screen row `y − 16` and
/// column `x − 8`.
#[derive(Debug, Clone, Copy)]
pub struct Sprite {
    pub y: u8,
    pub x: u8,
    pub tile: u8,
    pub attrs: u8,
    /// Position in OAM (0–39).
    pub oam_idx: u8,
}

/// Drawing priority: lower OAM X wins, ties go to the lower OAM index.
/// A smaller key means a higher priority.
pub open spec fn priority_key(s: Sprite) -> int {
    s.x as int * 64 + s.oam_idx as int
}

/// The 2-bit colour index of pixel `bit` (7 = leftmost) of a tile row
/// stored as the byte pair (`lo`, `hi`).
pub open spec fn pixel_color(lo: u8, hi: u8, bit: u8) -> u8 {
    ((hi >> bit) & 1) << 1 | ((lo >> bit) & 1)
}

/// The shade (0–3) that `palette` (BGP, OBP0 or OBP1) assigns to `color_id`:
/// bits 1–0 for colour 0 up to bits 7–6 for colour 3.
pub open spec fn palette_shade(palette: u8, color_id: u8) -> u8 {
    (palette >> ((color_id * 2) as u8)) & 3
}

/// VRAM offset of the first byte of tile `tile_id`.  With LCDC bit 4 set
/// (the 0x8000 method) the id is unsigned from offset 0; otherwise (the
/// 0x8800 method) it is signed from offset 0x1000, so ids 0–127 land at
/// 0x1000.. and ids 128–255 at 0x0800..0x0FFF.
pub open spec fn tile_offset(lcd_control: u8, tile_id: u8) -> u16 {
    if lcd_control & LCDC_TILE_DATA != 0 || tile_id >= 128 {
        (tile_id as int * 16) as u16
    } else {
        (0x1000 + tile_id as int * 16) as u16
    }
}

/// VRAM offset of the 32×32 tile map selected by `bit` of LCDC.
pub open spec fn tile_map_base(lcd_control: u8, bit: u8) -> u16 {
    if lcd_control & bit != 0 {
        0x1C00
    } else {
        0x1800
    }
}

/// A little-endian 16-bit word of OAM.
pub open spec fn oam_word(oam: [u8; 0xA0], offset: int) -> u16 {
    oam[offset] as u16 | ((oam[offset + 1] as u16) << 8)
}

/// OAM with a little-endian word stored at `offset`.
pub open spec fn oam_with_word(oam: [u8; 0xA0], offset: int, value: u16) -> [u8; 0xA0] {
    vstd::array::spec_array_update(
        vstd::array::spec_array_update(oam, offset, value as u8),
        offset + 1,
        (value >> 8) as u8,
    )
}

/// OAM with the `n` bytes at `src` copied to `dst` (the ranges must not overlap).
pub open spec fn oam_copied(oam: [u8; 0xA0], src: int, dst: int, n: nat) -> [u8; 0xA0]
    decreases n,
{
    if n == 0 {
        oam
    } else {
        vstd::array::spec_array_update(
            oam_copied(oam, src, dst, (n - 1) as nat),
            dst + n - 1,
            oam[src + n - 1],
        )
    }
}

pub struct PPU {
    /// Video RAM (8 KiB, 0x8000–0x9FFF).
    pub vram: [u8; 0x2000],
    /// Object attribute memory (160 B, 0xFE00–0xFE9F).
    pub oam: [u8; 0xA0],
    /// LCDC (FF40).
    pub lcd_control: u8,
    /// STAT (FF41): mode bits and LYC flag (read-only), interrupt enables.
    pub lcd_status: u8,
    /// SCY (FF42).
    pub scroll_y: u8,
    /// SCX (FF43).
    pub scroll_x: u8,
    /// LY (FF44): current scanline, 0–153.
    pub ly: u8,
    /// LYC (FF45).
    pub lyc: u8,
    /// DMA (FF46): last value written; the transfer itself is the MMU's.
    pub dma: u8,
    /// BGP (FF47).
    pub bg_palette: u8,
    /// OBP0 (FF48).
    pub obj_palette0: u8,
    /// OBP1 (FF49).
    pub obj_palette1: u8,
    /// WY (FF4A).
    pub window_y: u8,
    /// WX (FF4B): the window's left column is WX − 7.
    pub window_x: u8,
    /// The window's own line counter: it advances only on scanlines that
    /// draw window pixels and restarts with each frame.
    pub window_line: u8,
    /// T-cycle position within the current scanline (0–455).
    pub dot: u16,
    /// Current mode, kept in sync with STAT bits 0–1.
    pub mode: Mode,
    /// Level of the combined STAT interrupt line after the last update; the
    /// interrupt fires on its rising edge.
    pub stat_line: bool,
    /// One shade index (0–3) per pixel, row by row.
    pub framebuffer: [u8; 23040],
    /// A CPU read of OAM during Mode 2 corrupts OAM; the corruption is
    /// applied at the start of the next step.
    pub oam_cpu_read_pending: bool,
}

impl PPU {
    /// The position invariant: a dot within the line, a line within the
    /// frame, and the mode the one that position is in.  The one exception
    /// is the start of line 0 while the LCD is (or has just been switched)
    /// on after being off: the hardware shows mode 0 there and skips the
    /// first OAM scan, and the mode catches up at the next step.
    pub open spec fn wf(self) -> bool {
        &&& self.dot < DOTS_PER_SCANLINE
        &&& self.ly < TOTAL_SCANLINES
        &&& (self.mode == mode_at(self.ly, self.dot) || (self.ly == 0 && self.dot == 0
            && self.mode == Mode::HBlank))
    }

    pub open spec fn lcd_on(self) -> bool {
        self.lcd_control & LCDC_LCD_ENABLE != 0
    }

    // -----------------------------------------------------------------------
    // OAM corruption
    // -----------------------------------------------------------------------

    /// OAM after the Mode 2 corruption for the row being scanned (row
    /// `dot / 4`; row 0 is immune).  With `a` = word 0 of row N, `b` = word 0
    /// of row N−1 and `c` = word 2 of row N−1: a read sets word 0 of row N to
    /// `b | (a & c)`; a write sets it to `((a ^ c) & (b ^ c)) ^ c` and copies
    /// words 1–3 of row N−1 over those of row N.
    pub open spec fn oam_corrupted(self, write: bool) -> PPU {
        let row = (self.dot / 4) as int;
        if row == 0 || row > 19 {
            self
        } else {
            let n = row * 8;
            let p = (row - 1) * 8;
            let a = oam_word(self.oam, n);
            let b = oam_word(self.oam, p);
            let c = oam_word(self.oam, p + 4);
            if !write {
                PPU { oam: oam_with_word(self.oam, n, b | (a & c)), ..self }
            } else {
                let o = oam_with_word(self.oam, n, ((a ^ c) & (b ^ c)) ^ c);
                PPU { oam: oam_copied(o, p + 2, n + 2, 6), ..self }
            }
        }
    }

    // -----------------------------------------------------------------------
    // STAT and interrupts
    // -----------------------------------------------------------------------

    /// Whether the combined STAT interrupt line is high: the OR of every
    /// enabled source (HBlank, VBlank, OAM scan, LYC=LY).
    pub open spec fn stat_line_high(self) -> bool {
        ||| (self.mode == Mode::HBlank && self.lcd_status & STAT_HBLANK_INT != 0)
        ||| (self.mode == Mode::VBlank && self.lcd_status & STAT_VBLANK_INT != 0)
        ||| (self.mode == Mode::OamScan && self.lcd_status & STAT_OAM_INT != 0)
        ||| (self.lcd_status & STAT_LYC_FLAG != 0 && self.lcd_status & STAT_LYC_INT != 0)
    }

    /// STAT brought in line with LY and the dot counter, and the interrupts
    /// this raises: VBlank on entering Mode 1, STAT on a rising edge of the
    /// STAT line.
    pub open spec fn stat_updated(self, flag: u8) -> (PPU, u8) {
        let new_mode = mode_at(self.ly, self.dot);
        let status = (self.lcd_status & !STAT_MODE_MASK) | mode_bits(new_mode);
        let status = if self.ly == self.lyc {
            status | STAT_LYC_FLAG
        } else {
            status & !STAT_LYC_FLAG
        };
        let p = PPU { lcd_status: status, mode: new_mode, ..self };
        let f = if self.mode != Mode::VBlank && new_mode == Mode::VBlank {
            flag | IF_VBLANK
        } else {
            flag
        };
        let line = p.stat_line_high();
        let f = if line && !self.stat_line {
            f | IF_STAT
        } else {
            f
        };
        (PPU { stat_line: line, ..p }, f)
    }

    /// The position after `cycles` more dots (at most one line boundary).
    pub open spec fn advanced(self, cycles: u16) -> PPU {
        let dot = self.dot + cycles;
        if dot >= DOTS_PER_SCANLINE {
            let ly = ((self.ly + 1) % TOTAL_SCANLINES as int) as u8;
            PPU {
                dot: (dot - DOTS_PER_SCANLINE) as u16,
                ly: ly,
                window_line: if ly == 0 {
                    0
                } else {
                    self.window_line
                },
                ..self
            }
        } else {
            PPU { dot: dot as u16, ..self }
        }
    }

    /// One `step` of `cycles` T-cycles: the new PPU and the new IF value.
    pub open spec fn stepped(self, cycles: u16, flag: u8) -> (PPU, u8) {
        if !self.lcd_on() {
            (
                PPU {
                    oam_cpu_read_pending: false,
                    ly: 0,
                    dot: 0,
                    mode: Mode::HBlank,
                    lcd_status: self.lcd_status & !STAT_MODE_MASK,
                    ..self
                },
                flag,
            )
        } else {
            let p1 = if self.oam_cpu_read_pending {
                PPU { oam_cpu_read_pending: false, ..self.oam_corrupted(false) }
            } else {
                self
            };
            let p2 = p1.advanced(cycles);
            let (p3, f3) = p2.stat_updated(flag);
            if p2.mode == Mode::Drawing && p3.mode == Mode::HBlank {
                (p3.rendered(), f3)
            } else {
                (p3, f3)
            }
        }
    }

    // -----------------------------------------------------------------------
    // Background and window
    // -----------------------------------------------------------------------

    /// Colour index of the background at screen column `x` of line LY.
    pub open spec fn bg_color_id(self, x: int) -> u8 {
        let map_y = self.ly.wrapping_add(self.scroll_y);
        let map_x = ((x + self.scroll_x) % 256) as u8;
        let map_base = tile_map_base(self.lcd_control, LCDC_BG_MAP);
        let tile_id = self.vram[map_base as int + (map_y / 8) as int * 32 + (map_x / 8) as int];
        let tile_base = tile_offset(self.lcd_control, tile_id) as int;
        let lo = self.vram[tile_base + (map_y % 8) as int * 2];
        let hi = self.vram[tile_base + (map_y % 8) as int * 2 + 1];
        pixel_color(lo, hi, (7 - map_x % 8) as u8)
    }

    /// Screen column of the window's left edge (WX − 7, saturating).
    pub open spec fn window_left(self) -> int {
        if self.window_x < 7 {
            0
        } else {
            self.window_x - 7
        }
    }

    /// Whether this scanline draws window pixels.
    pub open spec fn window_drawn(self) -> bool {
        &&& self.lcd_control & LCDC_WINDOW_ENABLE != 0
        &&& self.ly >= self.window_y
        &&& self.window_left() < SCREEN_WIDTH
    }

    pub open spec fn in_window(self, x: int) -> bool {
        self.window_drawn() && x >= self.window_left()
    }

    /// Colour index of the window at screen column `x` (within the window).
    pub open spec fn window_color_id(self, x: int) -> u8 {
        let win_col = x - self.window_left();
        let map_base = tile_map_base(self.lcd_control, LCDC_WINDOW_MAP);
        let tile_id = self.vram[map_base as int + (self.window_line / 8) as int * 32 + win_col / 8];
        let tile_base = tile_offset(self.lcd_control, tile_id) as int;
        let lo = self.vram[tile_base + (self.window_line % 8) as int * 2];
        let hi = self.vram[tile_base + (self.window_line % 8) as int * 2 + 1];
        pixel_color(lo, hi, (7 - win_col % 8) as u8)
    }

    /// Colour index of the background/window layer at column `x` (0 where
    /// neither is drawn).
    pub open spec fn base_color_id(self, x: int) -> u8 {
        if self.in_window(x) {
            self.window_color_id(x)
        } else if self.lcd_control & LCDC_BG_ENABLE != 0 {
            self.bg_color_id(x)
        } else {
            0
        }
    }

    /// Shade of the background/window layer at column `x` (white where
    /// neither is drawn).
    pub open spec fn base_shade(self, x: int) -> u8 {
        if self.in_window(x) || self.lcd_control & LCDC_BG_ENABLE != 0 {
            palette_shade(self.bg_palette, self.base_color_id(x))
        } else {
            0
        }
    }

    // -----------------------------------------------------------------------
    // Sprites
    // -----------------------------------------------------------------------

    pub open spec fn sprite_height(self) -> u8 {
        if self.lcd_control & LCDC_OBJ_SIZE != 0 {
            16
        } else {
            8
        }
    }

    /// OAM entry `i` (0–39).
    pub open spec fn oam_sprite(self, i: int) -> Sprite {
        Sprite {
            y: self.oam[4 * i],
            x: self.oam[4 * i + 1],
            tile: self.oam[4 * i + 2],
            attrs: self.oam[4 * i + 3],
            oam_idx: i as u8,
        }
    }

    /// Whether sprite `s` covers scanline LY: 0 ≤ LY + 16 − y < height.
    pub open spec fn on_line(self, s: Sprite) -> bool {
        self.ly.wrapping_add(16).wrapping_sub(s.y) < self.sprite_height()
    }

    /// The first ten OAM entries (in OAM order) among entries `0..n` that
    /// cover scanline LY.
    pub open spec fn scan_upto(self, n: nat) -> Seq<Sprite>
        decreases n,
    {
        if n == 0 {
            Seq::empty()
        } else {
            let s = self.scan_upto((n - 1) as nat);
            let e = self.oam_sprite(n - 1);
            if s.len() < 10 && self.on_line(e) {
                s.push(e)
            } else {
                s
            }
        }
    }

    /// The sprites drawn on scanline LY.
    pub open spec fn line_sprites(self) -> Seq<Sprite> {
        self.scan_upto(40)
    }

    /// Column of sprite `s`'s tile row that lands on screen column `x`
    /// (meaningful when below 8).
    pub open spec fn sprite_col(s: Sprite, x: int) -> int {
        if x + 8 - s.x < 0 {
            x + 8 - s.x + 256
        } else {
            x + 8 - s.x
        }
    }

    /// Colour index sprite `s` puts at screen column `x` of line LY.
    pub open spec fn sprite_color(self, s: Sprite, x: int) -> u8 {
        let col = PPU::sprite_col(s, x);
        let row_within = self.ly.wrapping_add(16).wrapping_sub(s.y) as int;
        let height = self.sprite_height() as int;
        let pixel_row = if s.attrs & ATTR_Y_FLIP != 0 {
            height - 1 - row_within
        } else {
            row_within
        };
        let tile = if height == 16 {
            if pixel_row < 8 {
                s.tile & 0xFE
            } else {
                s.tile | 0x01
            }
        } else {
            s.tile
        };
        let tile_base = tile as int * 16;
        let lo = self.vram[tile_base + (pixel_row % 8) * 2];
        let hi = self.vram[tile_base + (pixel_row % 8) * 2 + 1];
        pixel_color(lo, hi, PPU::sprite_bit(s, x))
    }

    /// Bit of the tile row (7 = leftmost) that sprite `s` shows at column
    /// `x`; X-flip reverses the order.
    pub open spec fn sprite_bit(s: Sprite, x: int) -> u8 {
        let col = PPU::sprite_col(s, x);
        (if s.attrs & ATTR_X_FLIP != 0 {
            col
        } else {
            7 - col
        }) as u8
    }

    /// Whether sprite `s` draws a pixel at column `x`: it covers the column,
    /// the pixel is not transparent (colour 0), and it is not hidden behind
    /// a non-zero background/window colour by its priority bit.
    pub open spec fn paints(self, s: Sprite, x: int) -> bool {
        &&& PPU::sprite_col(s, x) < 8
        &&& self.sprite_color(s, x) != 0
        &&& !(s.attrs & ATTR_BG_PRIORITY != 0 && self.base_color_id(x) != 0)
    }

    pub open spec fn sprite_shade(self, s: Sprite, x: int) -> u8 {
        let palette = if s.attrs & ATTR_PALETTE != 0 {
            self.obj_palette1
        } else {
            self.obj_palette0
        };
        palette_shade(palette, self.sprite_color(s, x))
    }

    /// Whether `sprites[i]` is the highest-priority sprite among
    /// `sprites[0..n]` that paints column `x`.
    pub open spec fn is_top(self, sprites: Seq<Sprite>, n: int, i: int, x: int) -> bool {
        &&& 0 <= i < n
        &&& self.paints(sprites[i], x)
        &&& forall|j: int|
            0 <= j < n && #[trigger] self.paints(sprites[j], x) ==> priority_key(sprites[i])
                <= priority_key(sprites[j])
    }

    /// The sprite whose pixel shows at column `x`, if any.
    pub open spec fn top_sprite(self, x: int) -> Option<Sprite> {
        let sel = self.line_sprites();
        if self.lcd_control & LCDC_OBJ_ENABLE != 0 && exists|i: int|
            self.is_top(sel, sel.len() as int, i, x) {
            Some(sel[choose|i: int| self.is_top(sel, sel.len() as int, i, x)])
        } else {
            None
        }
    }

    /// The shade shown at column `x` of line LY.
    pub open spec fn scanline_shade(self, x: int) -> u8 {
        match self.top_sprite(x) {
            Some(s) => self.sprite_shade(s, x),
            None => self.base_shade(x),
        }
    }

    /// The framebuffer with the first `n` pixels of row LY rendered.
    pub open spec fn row_rendered(self, n: nat) -> [u8; 23040]
        decreases n,
    {
        if n == 0 {
            self.framebuffer
        } else {
            vstd::array::spec_array_update(
                self.row_rendered((n - 1) as nat),
                self.ly as int * 160 + n - 1,
                self.scanline_shade(n - 1),
            )
        }
    }

    /// The PPU after rendering scanline LY.
    pub open spec fn rendered(self) -> PPU {
        PPU {
            framebuffer: self.row_rendered(160),
            window_line: if self.window_drawn() {
                self.window_line.wrapping_add(1)
            } else {
                self.window_line
            },
            ..self
        }
    }

    // -----------------------------------------------------------------------
    // Executable code
    // -----------------------------------------------------------------------

    pub fn new() -> (p: PPU)
        ensures
            p.wf(),
            p.ly == 0,
            p.dot == 0,
            p.mode == Mode::OamScan,
            p.lcd_control == 0,
            p.lcd_status == 0,
            !p.stat_line,
            !p.oam_cpu_read_pending,
            p.window_line == 0,
            forall|i: int| 0 <= i < 0x2000 ==> p.vram[i] == 0,
            forall|i: int| 0 <= i < 0xA0 ==> p.oam[i] == 0,
            forall|i: int| 0 <= i < 23040 ==> p.framebuffer[i] == 0,
    {
        PPU {
            vram: [0u8; 0x2000],
            oam: [0u8; 0xA0],
            lcd_control: 0,
            lcd_status: 0,
            scroll_y: 0,
            scroll_x: 0,
            ly: 0,
            lyc: 0,
            dma: 0,
            bg_palette: 0,
            obj_palette0: 0,
            obj_palette1: 0,
            window_y: 0,
            window_x: 0,
            window_line: 0,
            dot: 0,
            mode: Mode::OamScan,
            stat_line: false,
            framebuffer: [0u8; 23040],
            oam_cpu_read_pending: false,
        }
    }

    /// Write directly into OAM, bypassing the mode-based access restriction.
    /// OAM DMA runs on the PPU's own bus, so it can write OAM at any time.
    pub fn write_oam_direct(&mut self, offset: usize, value: u8)
        requires
            offset < 0xA0,
        ensures
            *final(self) == (PPU {
                oam: vstd::array::spec_array_update(old(self).oam, offset as int, value),
                ..*old(self)
            }),
    {
        self.oam[offset] = value;
    }

    /// Apply the Mode 2 OAM corruption for the row being scanned.
    fn corrupt_oam(&mut self, write: bool)
        ensures
            *final(self) == old(self).oam_corrupted(write),
    {
        let row = (self.dot / 4) as usize;
        if row == 0 || row > 19 {
            return;
        }
        let n = row * 8;
        let p = (row - 1) * 8;
        let a = oam_word_of(&self.oam, n);
        let b = oam_word_of(&self.oam, p);
        let c = oam_word_of(&self.oam, p + 4);
        if !write {
            oam_write_word(&mut self.oam, n, b | (a & c));
        } else {
            oam_write_word(&mut self.oam, n, ((a ^ c) & (b ^ c)) ^ c);
            let ghost base = self.oam;
            let mut k: usize = 0;
            while k < 6
                invariant
                    1 <= row <= 19,
                    n == row * 8,
                    p == (row - 1) * 8,
                    k <= 6,
                    self.oam == oam_copied(base, p + 2, n + 2, k as nat),
                    *self == (PPU { oam: self.oam, ..*old(self) }),
                    base == oam_with_word(old(self).oam, n as int, ((oam_word(old(self).oam, n as int) ^ oam_word(old(self).oam, p + 4)) & (oam_word(old(self).oam, p as int) ^ oam_word(old(self).oam, p + 4))) ^ oam_word(old(self).oam, p + 4)),
                decreases 6 - k,
            {
                proof {
                    lemma_copied_source_intact(base, p as int + 2, n as int + 2, k as nat);
                }
                let v = self.oam[p + 2 + k];
                self.oam[n + 2 + k] = v;
                k = k + 1;
            }
        }
    }

    pub fn framebuffer(&self) -> (fb: &[u8; 23040])
        ensures
            *fb == self.framebuffer,
    {
        &self.framebuffer
    }

    fn lcd_enabled(&self) -> (on: bool)
        ensures
            on == self.lcd_on(),
    {
        (self.lcd_control & LCDC_LCD_ENABLE) != 0
    }

    /// The mode for the current scanline and dot position.
    pub fn current_mode(&self) -> (m: Mode)
        ensures
            m == mode_at(self.ly, self.dot),
    {
        if self.ly >= VISIBLE_SCANLINES {
            Mode::VBlank
        } else if self.dot < OAM_SCAN_DOTS {
            Mode::OamScan
        } else if self.dot < OAM_SCAN_DOTS + DRAWING_DOTS {
            Mode::Drawing
        } else {
            Mode::HBlank
        }
    }

    fn stat_line_active(&self) -> (high: bool)
        ensures
            high == self.stat_line_high(),
    {
        let lyc_match = (self.lcd_status & STAT_LYC_FLAG) != 0;
        (self.mode == Mode::HBlank && (self.lcd_status & STAT_HBLANK_INT) != 0) || (self.mode
            == Mode::VBlank && (self.lcd_status & STAT_VBLANK_INT) != 0) || (self.mode
            == Mode::OamScan && (self.lcd_status & STAT_OAM_INT) != 0) || (lyc_match && (
        self.lcd_status & STAT_LYC_INT) != 0)
    }

    /// Synchronize STAT with the position and raise the interrupts of any
    /// transition since the last step.
    fn update_stat_and_interrupts(&mut self, interrupt_flag: &mut u8)
        ensures
            (*final(self), *final(interrupt_flag)) == old(self).stat_updated(*old(interrupt_flag)),
    {
        let new_mode = self.current_mode();
        let prev_mode = self.mode;
        self.lcd_status = (self.lcd_status & !STAT_MODE_MASK) | mode_number(new_mode);
        if self.ly == self.lyc {
            self.lcd_status = self.lcd_status | STAT_LYC_FLAG;
        } else {
            self.lcd_status = self.lcd_status & !STAT_LYC_FLAG;
        }
        self.mode = new_mode;
        if prev_mode != Mode::VBlank && new_mode == Mode::VBlank {
            *interrupt_flag = *interrupt_flag | IF_VBLANK;
        }
        let stat_line = self.stat_line_active();
        if stat_line && !self.stat_line {
            *interrupt_flag = *interrupt_flag | IF_STAT;
        }
        self.stat_line = stat_line;
    }

    /// Advance the PPU by `cycles` T-cycles (at most one scanline, as one
    /// instruction or machine cycle never exceeds that) and raise any
    /// pending interrupts.
    ///
    /// With the LCD off the PPU halts: LY is held at 0 and STAT reports
    /// Mode 0; it restarts from dot 0 of line 0 when re-enabled.
    pub fn step(&mut self, cycles: u16, interrupt_flag: &mut u8)
        requires
            old(self).wf(),
            cycles <= DOTS_PER_SCANLINE,
        ensures
            final(self).wf(),
            (*final(self), *final(interrupt_flag)) == old(self).stepped(
                cycles,
                *old(interrupt_flag),
            ),
    {
        if !self.lcd_enabled() {
            self.oam_cpu_read_pending = false;
            self.ly = 0;
            self.dot = 0;
            self.mode = Mode::HBlank;
            self.lcd_status = self.lcd_status & !STAT_MODE_MASK;
            return;
        }
        if self.oam_cpu_read_pending {
            self.corrupt_oam(false);
            self.oam_cpu_read_pending = false;
        }
        self.dot = self.dot + cycles;
        if self.dot >= DOTS_PER_SCANLINE {
            self.dot = self.dot - DOTS_PER_SCANLINE;
            self.ly = (self.ly + 1) % TOTAL_SCANLINES;
            if self.ly == 0 {
                self.window_line = 0;
            }
        }
        let prev_mode = self.mode;
        let ghost advanced = *self;
        self.update_stat_and_interrupts(interrupt_flag);
        if prev_mode == Mode::Drawing && self.mode == Mode::HBlank {
            self.render_scanline();
        }
    }

    /// Render scanline LY into the framebuffer and advance the window line
    /// counter if the window was drawn.
    fn render_scanline(&mut self)
        requires
            old(self).ly < VISIBLE_SCANLINES,
        ensures
            *final(self) == old(self).rendered(),
    {
        let shades = self.compose_scanline();
        let y = self.ly as usize;
        let ghost before = *self;
        let mut x: usize = 0;
        while x < SCREEN_WIDTH
            invariant
                y == before.ly,
                y < 144,
                x <= 160,
                *self == (PPU { framebuffer: before.row_rendered(x as nat), ..before }),
                forall|i: int| 0 <= i < 160 ==> shades[i] == before.scanline_shade(i),
            decreases 160 - x,
        {
            self.framebuffer[y * SCREEN_WIDTH + x] = shades[x];
            x = x + 1;
        }
        if self.window_drawn_now() {
            self.window_line = self.window_line.wrapping_add(1);
        }
    }

    fn window_drawn_now(&self) -> (drawn: bool)
        ensures
            drawn == self.window_drawn(),
    {
        (self.lcd_control & LCDC_WINDOW_ENABLE) != 0 && self.ly >= self.window_y && (
        self.window_x < 7 || self.window_x - 7 < 160)
    }

    /// The shades of scanline LY: background, then window, then sprites.
    ///
    /// Two parallel buffers thread through the layers: `color_ids` holds the
    /// background/window colour index used for the sprite priority check,
    /// `shades` the shade that ends up in the framebuffer.
    fn compose_scanline(&self) -> (shades: [u8; 160])
        requires
            self.ly < VISIBLE_SCANLINES,
        ensures
            forall|i: int| 0 <= i < 160 ==> shades[i] == self.scanline_shade(i),
    {
        let mut color_ids = zeroed_bytes::<160>();
        let mut shades = zeroed_bytes::<160>();
        self.background_layer(&mut color_ids, &mut shades);
        self.render_window_scanline(&mut color_ids, &mut shades);
        assert forall|i: int| 0 <= i < 160 implies color_ids[i] == self.base_color_id(i)
            && shades[i] == self.base_shade(i) by {}
        if (self.lcd_control & LCDC_OBJ_ENABLE) != 0 {
            self.sprite_layer(&color_ids, &mut shades);
        } else {
            assert forall|x: int| 0 <= x < 160 implies shades[x] == self.scanline_shade(x) by {
                assert(self.top_sprite(x) is None);
            }
        }
        shades
    }

    /// The background layer: every column from the scrolled tile map, or
    /// nothing (left as is) with LCDC bit 0 clear.
    fn background_layer(&self, color_ids: &mut [u8; 160], shades: &mut [u8; 160])
        ensures
            forall|i: int|
                #![trigger final(color_ids)[i]]
                #![trigger final(shades)[i]]
                0 <= i < 160 ==> (if self.lcd_control & LCDC_BG_ENABLE != 0 {
                    final(color_ids)[i] == self.bg_color_id(i) && final(shades)[i]
                        == palette_shade(self.bg_palette, self.bg_color_id(i))
                } else {
                    final(color_ids)[i] == old(color_ids)[i] && final(shades)[i] == old(
                        shades,
                    )[i]
                }),
    {
        if (self.lcd_control & LCDC_BG_ENABLE) != 0 {
            let mut x: u8 = 0;
            while x < 160
                invariant
                    x <= 160,
                    self.lcd_control & LCDC_BG_ENABLE != 0,
                    forall|i: int| 0 <= i < x ==> #[trigger] color_ids[i] == self.bg_color_id(i),
                    forall|i: int|
                        0 <= i < x ==> #[trigger] shades[i] == palette_shade(
                            self.bg_palette,
                            self.bg_color_id(i),
                        ),
                    forall|i: int| x <= i < 160 ==> #[trigger] color_ids[i] == old(color_ids)[i],
                    forall|i: int| x <= i < 160 ==> #[trigger] shades[i] == old(shades)[i],
                decreases 160 - x,
            {
                let color_id = self.bg_pixel(x);
                color_ids[x as usize] = color_id;
                shades[x as usize] = apply_palette(self.bg_palette, color_id);
                x = x + 1;
            }
        }
    }

    /// The sprite layer: the scanline's sprites drawn lowest priority first,
    /// so that the highest-priority pixel ends on top.
    fn sprite_layer(&self, color_ids: &[u8; 160], shades: &mut [u8; 160])
        requires
            self.lcd_control & LCDC_OBJ_ENABLE != 0,
            forall|i: int| 0 <= i < 160 ==> color_ids[i] == self.base_color_id(i),
            forall|i: int| 0 <= i < 160 ==> old(shades)[i] == self.base_shade(i),
        ensures
            forall|x: int| 0 <= x < 160 ==> final(shades)[x] == self.scanline_shade(x),
    {
        let sorted = self.scan_oam_for_scanline();
        let ghost sprites = self.line_sprites();
        proof {
            self.lemma_scan_upto(40);
            reveal(drawn_from);
            assert forall|j: int| 0 <= j < sorted.len() implies self.on_line(
                #[trigger] sorted@[j],
            ) by {
                assert(sorted@[j] == sorted@[j]);
            }
            assert forall|x: int| 0 <= x < 160 implies self.painted_upto(
                sorted@,
                0,
                x,
                shades[x],
            ) by {}
        }
        let mut k: usize = 0;
        while k < sorted.len()
            invariant
                k <= sorted.len(),
                forall|j: int| 0 <= j < sorted.len() ==> self.on_line(#[trigger] sorted@[j]),
                descending(sorted@),
                forall|i: int| 0 <= i < 160 ==> color_ids[i] == self.base_color_id(i),
                forall|x: int| 0 <= x < 160 ==> self.painted_upto(sorted@, k as int, x, shades[x]),
            decreases sorted.len() - k,
        {
            let ghost before = *shades;
            let sprite = sorted[k];
            self.draw_sprite(sprite, color_ids, shades);
            proof {
                assert forall|x: int| 0 <= x < 160 implies self.painted_upto(
                    sorted@,
                    k + 1,
                    x,
                    shades[x],
                ) by {
                    self.lemma_paint_step(sorted@, k as int, x, before[x], shades[x]);
                }
            }
            k = k + 1;
        }
        proof {
            assert forall|x: int| 0 <= x < 160 implies shades[x] == self.scanline_shade(x) by {
                self.lemma_top_of_sorted(sprites, sorted@, x, shades[x]);
            }
        }
    }

    /// Whether `shade` is what column `x` shows after drawing `sprites[0..k]`
    /// in order over the background/window layer.
    pub open spec fn painted_upto(self, sprites: Seq<Sprite>, k: int, x: int, shade: u8) -> bool {
        if exists|j: int| 0 <= j < k && self.paints(sprites[j], x) {
            exists|j: int| self.is_top(sprites, k, j, x) && shade == self.sprite_shade(sprites[j], x)
        } else {
            shade == self.base_shade(x)
        }
    }

    /// Drawing one more sprite, of lower priority-key than all drawn so far,
    /// keeps `painted_upto`.
    proof fn lemma_paint_step(self, sprites: Seq<Sprite>, k: int, x: int, before: u8, after: u8)
        requires
            0 <= k < sprites.len(),
            descending(sprites),
            self.painted_upto(sprites, k, x, before),
            after == (if self.paints(sprites[k], x) {
                self.sprite_shade(sprites[k], x)
            } else {
                before
            }),
        ensures
            self.painted_upto(sprites, k + 1, x, after),
    {
        if self.paints(sprites[k], x) {
            assert(self.is_top(sprites, k + 1, k, x));
        } else if exists|j: int| 0 <= j < k && self.paints(sprites[j], x) {
            let j = choose|j: int| self.is_top(sprites, k, j, x) && before == self.sprite_shade(
                sprites[j],
                x,
            );
            assert(self.is_top(sprites, k + 1, j, x));
        } else {
            assert(!exists|j: int| 0 <= j < k + 1 && self.paints(sprites[j], x));
        }
    }

    /// Drawing the scanline's sprites in descending priority-key order
    /// leaves the pixel of the highest-priority painting sprite on top.
    proof fn lemma_top_of_sorted(self, sel: Seq<Sprite>, sorted: Seq<Sprite>, x: int, shade: u8)
        requires
            self.lcd_control & LCDC_OBJ_ENABLE != 0,
            sel == self.line_sprites(),
            in_oam_order(sel),
            sorted.len() == sel.len(),
            drawn_from(sorted, sel, sel.len() as int),
            all_drawn(sel, sel.len() as int, sorted),
            self.painted_upto(sorted, sorted.len() as int, x, shade),
        ensures
            shade == self.scanline_shade(x),
    {
        let n = sel.len() as int;
        if exists|j: int| 0 <= j < n && self.paints(sorted[j], x) {
            let j = choose|j: int| self.is_top(sorted, n, j, x) && shade == self.sprite_shade(
                sorted[j],
                x,
            );
            let i = self.lemma_top_in_selection(sel, sorted, x, j);
            let c = choose|c: int| self.is_top(sel, n, c, x);
            self.lemma_top_unique(sel, x, i, c);
        } else {
            reveal(all_drawn);
            assert forall|i: int| !self.is_top(sel, n, i, x) by {
                if 0 <= i < n && self.paints(sel[i], x) {
                    assert(sel[i] == sel[i]);
                    let j = choose|j: int| 0 <= j < n && sel[i] == sorted[j];
                    assert(self.paints(sorted[j], x));
                }
            }
        }
    }

    /// The top sprite of the drawing order is a top sprite of the selection.
    proof fn lemma_top_in_selection(self, sel: Seq<Sprite>, sorted: Seq<Sprite>, x: int, j: int) -> (i: int)
        requires
            sorted.len() == sel.len(),
            drawn_from(sorted, sel, sel.len() as int),
            all_drawn(sel, sel.len() as int, sorted),
            self.is_top(sorted, sorted.len() as int, j, x),
        ensures
            self.is_top(sel, sel.len() as int, i, x),
            sel[i] == sorted[j],
    {
        let n = sel.len() as int;
        reveal(drawn_from);
        reveal(all_drawn);
        assert(sorted[j] == sorted[j]);
        let i = choose|i: int| 0 <= i < n && sorted[j] == sel[i];
        assert forall|i2: int| 0 <= i2 < n && #[trigger] self.paints(sel[i2], x) implies priority_key(
            sel[i],
        ) <= priority_key(sel[i2]) by {
            assert(sel[i2] == sel[i2]);
            let j2 = choose|j2: int| 0 <= j2 < n && sel[i2] == sorted[j2];
            assert(self.paints(sorted[j2], x));
        }
        i
    }

    /// Sprites of the selection have distinct priority keys, so the top
    /// sprite of a column is unique.
    proof fn lemma_top_unique(self, sel: Seq<Sprite>, x: int, i: int, c: int)
        requires
            in_oam_order(sel),
            self.is_top(sel, sel.len() as int, i, x),
            self.is_top(sel, sel.len() as int, c, x),
        ensures
            sel[i] == sel[c],
    {
        assert(priority_key(sel[c]) == priority_key(sel[i]));
        lemma_key_injective(sel[c], sel[i]);
        if c < i {
            assert(sel[c].oam_idx < sel[i].oam_idx);
        } else if i < c {
            assert(sel[i].oam_idx < sel[c].oam_idx);
        }
    }

    /// Facts about the scan: at most ten sprites, each covering the line,
    /// in increasing OAM order.
    proof fn lemma_scan_upto(self, n: nat)
        requires
            n <= 40,
        ensures
            self.scan_upto(n).len() <= 10,
            forall|i: int| 0 <= i < self.scan_upto(n).len() ==> self.on_line(#[trigger] self.scan_upto(n)[i]),
            forall|i: int| 0 <= i < self.scan_upto(n).len() ==> (#[trigger] self.scan_upto(n)[i]).oam_idx < n,
            in_oam_order(self.scan_upto(n)),
        decreases n,
    {
        if n > 0 {
            self.lemma_scan_upto((n - 1) as nat);
        }
    }

    /// Colour index of the background at screen column `x`.
    fn bg_pixel(&self, x: u8) -> (color_id: u8)
        requires
            x < 160,
        ensures
            color_id == self.bg_color_id(x as int),
            color_id <= 3,
    {
        let map_base = self.bg_tile_map_base();
        let map_y = self.ly.wrapping_add(self.scroll_y);
        let tile_row = (map_y / 8) as u16;
        let pixel_row = (map_y % 8) as u16;
        let map_x = x.wrapping_add(self.scroll_x);
        let tile_col = (map_x / 8) as u16;
        // The tile map is 32 tiles wide; each entry is one byte (tile ID).
        let tile_id = self.vram[(map_base + tile_row * 32 + tile_col) as usize];
        // Each tile is 16 bytes (2 bytes × 8 pixel rows).
        let tile_base = self.tile_data_offset(tile_id);
        let lo = self.vram[(tile_base + pixel_row * 2) as usize];
        let hi = self.vram[(tile_base + pixel_row * 2 + 1) as usize];
        // Bit 7 of each byte is the leftmost pixel of the row.
        let bit = 7 - (map_x % 8);
        proof {
            lemma_pixel_color_bound(lo, hi, bit);
        }
        ((hi >> bit) & 1) << 1 | ((lo >> bit) & 1)
    }

    /// VRAM offset of the active background tile map (LCDC bit 3).
    fn bg_tile_map_base(&self) -> (base: u16)
        ensures
            base == tile_map_base(self.lcd_control, LCDC_BG_MAP),
    {
        if (self.lcd_control & LCDC_BG_MAP) != 0 {
            0x1C00
        } else {
            0x1800
        }
    }

    /// VRAM offset of the active window tile map (LCDC bit 6).
    fn window_tile_map_base(&self) -> (base: u16)
        ensures
            base == tile_map_base(self.lcd_control, LCDC_WINDOW_MAP),
    {
        if (self.lcd_control & LCDC_WINDOW_MAP) != 0 {
            0x1C00
        } else {
            0x1800
        }
    }

    /// VRAM offset of the first byte of tile data for `tile_id` (LCDC bit 4
    /// selects unsigned ids from 0x8000 or signed ids around 0x9000).
    pub fn tile_data_offset(&self, tile_id: u8) -> (offset: u16)
        ensures
            offset == tile_offset(self.lcd_control, tile_id),
            offset <= 0x17F0,
    {
        if (self.lcd_control & LCDC_TILE_DATA) != 0 || tile_id >= 128 {
            // Unsigned ids, and signed ids −128..=−1, start at 0x8000 + 16 × id.
            tile_id as u16 * 16
        } else {
            // Signed ids 0..=127 start at 0x9000.
            0x1000 + tile_id as u16 * 16
        }
    }

    /// Draw the window over `color_ids` and `shades` wherever it is visible
    /// on this scanline.  Column 0 of the window tile map aligns with screen
    /// column WX − 7; the tile row follows the window's own line counter.
    fn render_window_scanline(&self, color_ids: &mut [u8; 160], shades: &mut [u8; 160])
        ensures
            forall|i: int|
                #![trigger final(color_ids)[i]]
                #![trigger final(shades)[i]]
                0 <= i < 160 ==> (if self.in_window(i) {
                    final(color_ids)[i] == self.window_color_id(i) && final(shades)[i]
                        == palette_shade(self.bg_palette, self.window_color_id(i))
                } else {
                    final(color_ids)[i] == old(color_ids)[i] && final(shades)[i] == old(
                        shades,
                    )[i]
                }),
    {
        if (self.lcd_control & LCDC_WINDOW_ENABLE) == 0 {
            return;
        }
        if self.ly < self.window_y {
            return;
        }
        let screen_left: usize = if self.window_x < 7 {
            0
        } else {
            (self.window_x - 7) as usize
        };
        if screen_left >= SCREEN_WIDTH {
            return;
        }
        let map_base = self.window_tile_map_base();
        let tile_row = (self.window_line / 8) as u16;
        let pixel_row = (self.window_line % 8) as u16;
        let mut screen_x = screen_left;
        while screen_x < SCREEN_WIDTH
            invariant
                self.window_drawn(),
                screen_left == self.window_left(),
                screen_left <= screen_x <= 160,
                map_base == tile_map_base(self.lcd_control, LCDC_WINDOW_MAP),
                tile_row == self.window_line / 8,
                pixel_row == self.window_line % 8,
                forall|i: int|
                    screen_left <= i < screen_x ==> #[trigger] color_ids[i] == self.window_color_id(i),
                forall|i: int|
                    screen_left <= i < screen_x ==> #[trigger] shades[i] == palette_shade(
                        self.bg_palette,
                        self.window_color_id(i),
                    ),
                forall|i: int|
                    0 <= i < 160 && !(screen_left <= i < screen_x) ==> #[trigger] color_ids[i] == old(
                        color_ids,
                    )[i],
                forall|i: int|
                    0 <= i < 160 && !(screen_left <= i < screen_x) ==> #[trigger] shades[i] == old(
                        shades,
                    )[i],
            decreases 160 - screen_x,
        {
            let win_col = (screen_x - screen_left) as u8;
            let tile_col = (win_col / 8) as u16;
            let tile_id = self.vram[(map_base + tile_row * 32 + tile_col) as usize];
            let tile_base = self.tile_data_offset(tile_id);
            let lo = self.vram[(tile_base + pixel_row * 2) as usize];
            let hi = self.vram[(tile_base + pixel_row * 2 + 1) as usize];
            let bit = 7 - (win_col % 8);
            proof {
                lemma_pixel_color_bound(lo, hi, bit);
            }
            let color_id = ((hi >> bit) & 1) << 1 | ((lo >> bit) & 1);
            color_ids[screen_x] = color_id;
            shades[screen_x] = apply_palette(self.bg_palette, color_id);
            screen_x = screen_x + 1;
        }
    }

    /// The (up to ten) sprites that cover the current scanline: the hardware
    /// scans OAM in index order and takes the first ten hits.  They come
    /// back sorted for drawing, descending by (X, OAM index), so the
    /// highest-priority sprite is drawn last and ends on top.
    fn scan_oam_for_scanline(&self) -> (sprites: Vec<Sprite>)
        ensures
            sprites@.len() == self.line_sprites().len(),
            descending(sprites@),
            drawn_from(sprites@, self.line_sprites(), self.line_sprites().len() as int),
            all_drawn(self.line_sprites(), self.line_sprites().len() as int, sprites@),
    {
        let sprite_height: u8 = if (self.lcd_control & LCDC_OBJ_SIZE) != 0 {
            16
        } else {
            8
        };
        let ly = self.ly;
        let mut found: Vec<Sprite> = Vec::new();
        let mut i: usize = 0;
        while i < 40
            invariant
                i <= 40,
                sprite_height == self.sprite_height(),
                ly == self.ly,
                found@ == self.scan_upto(i as nat),
            decreases 40 - i,
        {
            let y = self.oam[4 * i];
            let x = self.oam[4 * i + 1];
            let tile = self.oam[4 * i + 2];
            let attrs = self.oam[4 * i + 3];
            // The sprite covers line LY when 0 ≤ LY + 16 − y < height; the
            // wrapping subtraction is large for sprites that do not.
            let row_within = ly.wrapping_add(16).wrapping_sub(y);
            if found.len() < 10 && row_within < sprite_height {
                found.push(Sprite { y, x, tile, attrs, oam_idx: i as u8 });
            }
            i = i + 1;
        }
        proof {
            self.lemma_scan_upto(40);
        }
        sort_for_drawing(&found)
    }

    /// Draw `sprite`'s pixels on this scanline into `shades`.  Colour 0 is
    /// transparent; with the BG-priority attribute the sprite stays behind
    /// background/window colours 1–3.
    fn draw_sprite(&self, sprite: Sprite, color_ids: &[u8; 160], shades: &mut [u8; 160])
        requires
            self.on_line(sprite),
            forall|i: int| 0 <= i < 160 ==> color_ids[i] == self.base_color_id(i),
        ensures
            forall|x: int|
                0 <= x < 160 ==> #[trigger] final(shades)[x] == (if self.paints(sprite, x) {
                    self.sprite_shade(sprite, x)
                } else {
                    old(shades)[x]
                }),
    {
        let sprite_height: u8 = if (self.lcd_control & LCDC_OBJ_SIZE) != 0 {
            16
        } else {
            8
        };
        let palette = if (sprite.attrs & ATTR_PALETTE) != 0 {
            self.obj_palette1
        } else {
            self.obj_palette0
        };
        // The pixel row within this sprite's tile(s) for this scanline.
        let row_within = self.ly.wrapping_add(16).wrapping_sub(sprite.y) as u16;
        let pixel_row = if (sprite.attrs & ATTR_Y_FLIP) != 0 {
            (sprite_height as u16 - 1) - row_within
        } else {
            row_within
        };
        // 8×16 sprites are two consecutive tiles: the top half uses the even
        // tile, the bottom half the odd one.
        let tile = if sprite_height == 16 {
            if pixel_row < 8 {
                sprite.tile & 0xFE
            } else {
                sprite.tile | 0x01
            }
        } else {
            sprite.tile
        };
        // Sprites always use the 0x8000 unsigned addressing method.
        let tile_base = tile as u16 * 16;
        let tile_row = pixel_row % 8;
        let lo = self.vram[(tile_base + tile_row * 2) as usize];
        let hi = self.vram[(tile_base + tile_row * 2 + 1) as usize];
        proof {
            assert forall|x: int| 0 <= x < 160 && PPU::sprite_col(sprite, x) < 8 implies self.sprite_color(
                sprite,
                x,
            ) == pixel_color(lo, hi, #[trigger] PPU::sprite_bit(sprite, x)) by {}
        }
        let mut col: u8 = 0;
        while col < 8
            invariant
                col <= 8,
                forall|i: int| 0 <= i < 160 ==> color_ids[i] == self.base_color_id(i),
                palette == (if sprite.attrs & ATTR_PALETTE != 0 {
                    self.obj_palette1
                } else {
                    self.obj_palette0
                }),
                forall|x: int|
                    0 <= x < 160 && PPU::sprite_col(sprite, x) < 8 ==> self.sprite_color(sprite, x)
                        == pixel_color(lo, hi, #[trigger] PPU::sprite_bit(sprite, x)),
                forall|x: int|
                    0 <= x < 160 ==> #[trigger] shades[x] == (if PPU::sprite_col(sprite, x) < col
                        && self.paints(sprite, x) {
                        self.sprite_shade(sprite, x)
                    } else {
                        old(shades)[x]
                    }),
            decreases 8 - col,
        {
            let screen_x = sprite.x.wrapping_sub(8).wrapping_add(col) as usize;
            proof {
                lemma_sprite_column(sprite, col, screen_x as int);
            }
            if screen_x < SCREEN_WIDTH {
                // Bit 7 is leftmost; X-flip reverses the column order.
                let bit = if (sprite.attrs & ATTR_X_FLIP) != 0 {
                    col
                } else {
                    7 - col
                };
                proof {
                    lemma_pixel_color_bound(lo, hi, bit);
                    assert(PPU::sprite_bit(sprite, screen_x as int) == bit);
                }
                let color_id = ((hi >> bit) & 1) << 1 | ((lo >> bit) & 1);
                if color_id != 0 {
                    if !((sprite.attrs & ATTR_BG_PRIORITY) != 0 && color_ids[screen_x] != 0) {
                        shades[screen_x] = apply_palette(palette, color_id);
                    }
                }
            }
            col = col + 1;
        }
    }
}

/// Column `col` of a sprite's tile row lands on screen column
/// `(x − 8 + col) mod 256`, and on no other column.
proof fn lemma_sprite_column(s: Sprite, col: u8, screen_x: int)
    requires
        col < 8,
        screen_x == (s.x as int - 8 + col) % 256,
    ensures
        forall|x: int| 0 <= x < 160 ==> (PPU::sprite_col(s, x) == col <==> x == screen_x),
{
}

/// Every sprite of `s` occurs among `src[0..n]`.
#[verifier::opaque]
pub open spec fn drawn_from(s: Seq<Sprite>, src: Seq<Sprite>, n: int) -> bool {
    forall|j: int|
        #![trigger s[j]]
        0 <= j < s.len() ==> exists|i: int| #![trigger src[i]] 0 <= i < n && s[j] == src[i]
}

/// Every sprite of `src[0..n]` occurs in `s`.
#[verifier::opaque]
pub open spec fn all_drawn(src: Seq<Sprite>, n: int, s: Seq<Sprite>) -> bool {
    forall|i: int|
        #![trigger src[i]]
        0 <= i < n ==> exists|j: int| #![trigger s[j]] 0 <= j < s.len() && src[i] == s[j]
}

/// Strictly descending priority keys.
pub open spec fn descending(s: Seq<Sprite>) -> bool {
    forall|a: int, b: int| 0 <= a < b < s.len() ==> priority_key(s[a]) > priority_key(s[b])
}

/// Strictly increasing OAM indices, all below 40 (the order of an OAM scan).
pub open spec fn in_oam_order(s: Seq<Sprite>) -> bool {
    &&& forall|i: int, j: int| 0 <= i < j < s.len() ==> s[i].oam_idx < s[j].oam_idx
    &&& forall|i: int| 0 <= i < s.len() ==> s[i].oam_idx < 40
}

/// Order the scanline's sprites for drawing: descending priority key, so the
/// highest-priority sprite (lowest X, then lowest OAM index) is drawn last
/// and stays on top.
fn sort_for_drawing(sprites: &Vec<Sprite>) -> (sorted: Vec<Sprite>)
    requires
        in_oam_order(sprites@),
    ensures
        sorted@.len() == sprites@.len(),
        descending(sorted@),
        drawn_from(sorted@, sprites@, sprites@.len() as int),
        all_drawn(sprites@, sprites@.len() as int, sorted@),
{
    let mut sorted: Vec<Sprite> = Vec::new();
    proof {
        reveal(drawn_from);
        reveal(all_drawn);
    }
    let mut k: usize = 0;
    while k < sprites.len()
        invariant
            k <= sprites@.len(),
            sorted@.len() == k,
            in_oam_order(sprites@),
            descending(sorted@),
            drawn_from(sorted@, sprites@, k as int),
            all_drawn(sprites@, k as int, sorted@),
        decreases sprites@.len() - k,
    {
        let sprite = sprites[k];
        let key = sort_key(&sprite);
        let mut pos: usize = 0;
        while pos < sorted.len() && sort_key(&sorted[pos]) > key
            invariant
                pos <= sorted@.len(),
                key == priority_key(sprite),
                forall|j: int| 0 <= j < pos ==> priority_key(sorted@[j]) > priority_key(sprite),
            decreases sorted@.len() - pos,
        {
            pos = pos + 1;
        }
        proof {
            lemma_insert_in_order(sorted@, sprites@, k as int, pos as int);
        }
        sorted.insert(pos, sprite);
        k = k + 1;
    }
    sorted
}

/// Inserting the next sprite where its key falls keeps the drawing order
/// strictly descending and holding exactly the sprites seen so far.
proof fn lemma_insert_in_order(prev: Seq<Sprite>, sprites: Seq<Sprite>, k: int, pos: int)
    requires
        0 <= k < sprites.len(),
        prev.len() == k,
        0 <= pos <= k,
        in_oam_order(sprites),
        descending(prev),
        drawn_from(prev, sprites, k),
        all_drawn(sprites, k, prev),
        forall|j: int| 0 <= j < pos ==> priority_key(prev[j]) > priority_key(sprites[k]),
        pos < prev.len() ==> priority_key(prev[pos]) <= priority_key(sprites[k]),
    ensures
        prev.insert(pos, sprites[k]).len() == k + 1,
        descending(prev.insert(pos, sprites[k])),
        drawn_from(prev.insert(pos, sprites[k]), sprites, k + 1),
        all_drawn(sprites, k + 1, prev.insert(pos, sprites[k])),
{
    let sprite = sprites[k];
    lemma_later_keys_smaller(prev, sprites, k, pos);
    prev.insert_ensures(pos, sprite);
    let s = prev.insert(pos, sprite);
    lemma_insert_descending(prev, sprite, pos);
    lemma_insert_drawn_from(prev, sprites, k, pos);
    lemma_insert_all_drawn(prev, sprites, k, pos);
}

proof fn lemma_insert_drawn_from(prev: Seq<Sprite>, sprites: Seq<Sprite>, k: int, pos: int)
    requires
        0 <= k < sprites.len(),
        prev.len() == k,
        0 <= pos <= k,
        drawn_from(prev, sprites, k),
    ensures
        drawn_from(prev.insert(pos, sprites[k]), sprites, k + 1),
{
    reveal(drawn_from);
    prev.insert_ensures(pos, sprites[k]);
    let s = prev.insert(pos, sprites[k]);
    assert forall|j: int| #![trigger s[j]] 0 <= j < s.len() implies exists|i: int|
        #![trigger sprites[i]] 0 <= i < k + 1 && s[j] == sprites[i] by {
        if j < pos {
            assert(s[j] == prev[j]);
        } else if j == pos {
            assert(s[j] == sprites[k]);
        } else {
            assert(s[j] == prev[j - 1]);
        }
    }
}

proof fn lemma_insert_all_drawn(prev: Seq<Sprite>, sprites: Seq<Sprite>, k: int, pos: int)
    requires
        0 <= k < sprites.len(),
        prev.len() == k,
        0 <= pos <= k,
        all_drawn(sprites, k, prev),
    ensures
        all_drawn(sprites, k + 1, prev.insert(pos, sprites[k])),
{
    reveal(all_drawn);
    prev.insert_ensures(pos, sprites[k]);
    let s = prev.insert(pos, sprites[k]);
    assert forall|i: int| #![trigger sprites[i]] 0 <= i < k + 1 implies exists|j: int|
        #![trigger s[j]] 0 <= j < s.len() && sprites[i] == s[j] by {
        if i == k {
            assert(s[pos] == sprites[i]);
        } else {
            let j = choose|j: int| 0 <= j < prev.len() && sprites[i] == prev[j];
            if j < pos {
                assert(s[j] == prev[j]);
            } else {
                assert(s[j + 1] == prev[j]);
            }
        }
    }
}

/// The sprites placed so far from `pos` on have smaller keys than the next
/// one: each came earlier in OAM order, so its key differs.
proof fn lemma_later_keys_smaller(prev: Seq<Sprite>, sprites: Seq<Sprite>, k: int, pos: int)
    requires
        0 <= k < sprites.len(),
        prev.len() == k,
        0 <= pos <= k,
        in_oam_order(sprites),
        descending(prev),
        drawn_from(prev, sprites, k),
        pos < prev.len() ==> priority_key(prev[pos]) <= priority_key(sprites[k]),
    ensures
        forall|j: int| pos <= j < prev.len() ==> priority_key(prev[j]) < priority_key(sprites[k]),
{
    reveal(drawn_from);
    let sprite = sprites[k];
    assert forall|j: int| pos <= j < prev.len() implies priority_key(prev[j]) < priority_key(sprite) by {
        assert(prev[j] == prev[j]);
        let i = choose|i: int| 0 <= i < k && prev[j] == sprites[i];
        assert(sprites[i].oam_idx < sprite.oam_idx);
        if priority_key(prev[j]) == priority_key(sprite) {
            lemma_key_injective(prev[j], sprite);
        }
        if j > pos {
            assert(priority_key(prev[pos]) > priority_key(prev[j]));
        }
    }
}

proof fn lemma_insert_descending(prev: Seq<Sprite>, sprite: Sprite, pos: int)
    requires
        0 <= pos <= prev.len(),
        descending(prev),
        forall|j: int| 0 <= j < pos ==> priority_key(prev[j]) > priority_key(sprite),
        forall|j: int| pos <= j < prev.len() ==> priority_key(prev[j]) < priority_key(sprite),
    ensures
        descending(prev.insert(pos, sprite)),
{
    prev.insert_ensures(pos, sprite);
    let s = prev.insert(pos, sprite);
    assert forall|a: int, b: int| 0 <= a < b < s.len() implies priority_key(s[a]) > priority_key(s[b]) by {
        if b < pos {
            assert(s[a] == prev[a] && s[b] == prev[b]);
        } else if b == pos {
            assert(s[a] == prev[a]);
        } else if a < pos {
            assert(s[a] == prev[a] && s[b] == prev[b - 1]);
        } else if a == pos {
            assert(s[b] == prev[b - 1]);
        } else {
            assert(s[a] == prev[a - 1] && s[b] == prev[b - 1]);
        }
    }
}

/// The drawing priority key of `sprite` (see `priority_key`).
fn sort_key(sprite: &Sprite) -> (key: u16)
    ensures
        key == priority_key(*sprite),
{
    sprite.x as u16 * 64 + sprite.oam_idx as u16
}

proof fn lemma_key_injective(a: Sprite, b: Sprite)
    by (nonlinear_arith)
    requires
        a.oam_idx < 64,
        b.oam_idx < 64,
        priority_key(a) == priority_key(b),
    ensures
        a.oam_idx == b.oam_idx,
        a.x == b.x,
{
}

proof fn lemma_pixel_color_bound(lo: u8, hi: u8, bit: u8)
    by (bit_vector)
    requires
        bit < 8,
    ensures
        ((hi >> bit) & 1) << 1 | ((lo >> bit) & 1) <= 3,
{
}

impl Memory for PPU {
    open spec fn inv(&self) -> bool {
        self.wf()
    }

    /// VRAM reads 0xFF during Mode 3, OAM during Modes 2 and 3; unmapped
    /// PPU addresses read 0xFF.
    open spec fn peek(&self, address: u16) -> u8 {
        if 0x8000 <= address <= 0x9FFF {
            if self.mode == Mode::Drawing {
                0xFF
            } else {
                self.vram[address - 0x8000]
            }
        } else if 0xFE00 <= address <= 0xFE9F {
            if self.mode == Mode::OamScan || self.mode == Mode::Drawing {
                0xFF
            } else {
                self.oam[address - 0xFE00]
            }
        } else if address == 0xFF40 {
            self.lcd_control
        } else if address == 0xFF41 {
            self.lcd_status
        } else if address == 0xFF42 {
            self.scroll_y
        } else if address == 0xFF43 {
            self.scroll_x
        } else if address == 0xFF44 {
            self.ly
        } else if address == 0xFF45 {
            self.lyc
        } else if address == 0xFF46 {
            self.dma
        } else if address == 0xFF47 {
            self.bg_palette
        } else if address == 0xFF48 {
            self.obj_palette0
        } else if address == 0xFF49 {
            self.obj_palette1
        } else if address == 0xFF4A {
            self.window_y
        } else if address == 0xFF4B {
            self.window_x
        } else {
            0xFF
        }
    }

    /// A CPU read of OAM during Mode 2 flags the read corruption.
    open spec fn read_effect(self, address: u16) -> Self {
        if 0xFE00 <= address <= 0xFE9F && self.mode == Mode::OamScan {
            PPU { oam_cpu_read_pending: true, ..self }
        } else {
            self
        }
    }

    /// Writes to VRAM during Mode 3 and to OAM during Mode 3 are dropped; an
    /// OAM write during Mode 2 is dropped and corrupts OAM.  STAT keeps its
    /// read-only bits 0–2 and bit 7; LY is read-only.
    open spec fn poke(self, address: u16, value: u8) -> Self {
        if 0x8000 <= address <= 0x9FFF {
            if self.mode == Mode::Drawing {
                self
            } else {
                PPU {
                    vram: vstd::array::spec_array_update(self.vram, address - 0x8000, value),
                    ..self
                }
            }
        } else if 0xFE00 <= address <= 0xFE9F {
            if self.mode == Mode::OamScan {
                self.oam_corrupted(true)
            } else if self.mode == Mode::Drawing {
                self
            } else {
                PPU { oam: vstd::array::spec_array_update(self.oam, address - 0xFE00, value), ..self }
            }
        } else if address == 0xFF40 {
            PPU { lcd_control: value, ..self }
        } else if address == 0xFF41 {
            PPU { lcd_status: (self.lcd_status & 0x07) | (value & 0x78), ..self }
        } else if address == 0xFF42 {
            PPU { scroll_y: value, ..self }
        } else if address == 0xFF43 {
            PPU { scroll_x: value, ..self }
        } else if address == 0xFF45 {
            PPU { lyc: value, ..self }
        } else if address == 0xFF46 {
            PPU { dma: value, ..self }
        } else if address == 0xFF47 {
            PPU { bg_palette: value, ..self }
        } else if address == 0xFF48 {
            PPU { obj_palette0: value, ..self }
        } else if address == 0xFF49 {
            PPU { obj_palette1: value, ..self }
        } else if address == 0xFF4A {
            PPU { window_y: value, ..self }
        } else if address == 0xFF4B {
            PPU { window_x: value, ..self }
        } else {
            self
        }
    }

    fn read_byte(&mut self, address: u16) -> (value: u8) {
        match address {
            // VRAM is locked during Mode 3 (Drawing); the CPU bus floats to 0xFF.
            0x8000..=0x9FFF => {
                if self.mode == Mode::Drawing {
                    0xFF
                } else {
                    self.vram[(address - 0x8000) as usize]
                }
            },
            // OAM is locked during Mode 2 and Mode 3.  During Mode 2 a CPU
            // read also corrupts OAM; the corruption is applied at the next step.
            0xFE00..=0xFE9F => match self.mode {
                Mode::OamScan => {
                    self.oam_cpu_read_pending = true;
                    0xFF
                },
                Mode::Drawing => 0xFF,
                _ => self.oam[(address - 0xFE00) as usize],
            },
            0xFF40 => self.lcd_control,
            0xFF41 => self.lcd_status,
            0xFF42 => self.scroll_y,
            0xFF43 => self.scroll_x,
            0xFF44 => self.ly,
            0xFF45 => self.lyc,
            0xFF46 => self.dma,
            0xFF47 => self.bg_palette,
            0xFF48 => self.obj_palette0,
            0xFF49 => self.obj_palette1,
            0xFF4A => self.window_y,
            0xFF4B => self.window_x,
            _ => 0xFF,
        }
    }

    fn write_byte(&mut self, address: u16, value: u8) {
        match address {
            // VRAM is locked during Mode 3; CPU writes are silently ignored.
            0x8000..=0x9FFF => {
                if self.mode != Mode::Drawing {
                    self.vram[(address - 0x8000) as usize] = value;
                }
            },
            // OAM is locked during Modes 2 and 3.  A write during Mode 2 is
            // dropped but corrupts OAM; Mode 3 just drops it.
            0xFE00..=0xFE9F => match self.mode {
                Mode::OamScan => self.corrupt_oam(true),
                Mode::Drawing => {},
                _ => {
                    self.oam[(address - 0xFE00) as usize] = value;
                },
            },
            0xFF40 => {
                self.lcd_control = value;
            },
            0xFF41 => {
                // Bits 3–6 are writable (interrupt enables); bits 0–2 (mode
                // and LYC flag) are read-only.
                self.lcd_status = (self.lcd_status & 0b0000_0111) | (value & 0b0111_1000);
            },
            0xFF42 => {
                self.scroll_y = value;
            },
            0xFF43 => {
                self.scroll_x = value;
            },
            0xFF44 => {},  // LY is read-only
            0xFF45 => {
                self.lyc = value;
            },
            0xFF46 => {
                self.dma = value;
            },
            0xFF47 => {
                self.bg_palette = value;
            },
            0xFF48 => {
                self.obj_palette0 = value;
            },
            0xFF49 => {
                self.obj_palette1 = value;
            },
            0xFF4A => {
                self.window_y = value;
            },
            0xFF4B => {
                self.window_x = value;
            },
            _ => {},
        }
    }
}

impl PPU {
    /// Read a PPU address as the CPU would, without the OAM-read corruption
    /// side effect (for debuggers, test harnesses and register reads).
    pub fn peek_byte(&self, address: u16) -> (value: u8)
        ensures
            value == self.peek(address),
    {
        match address {
            0x8000..=0x9FFF => {
                if self.mode == Mode::Drawing {
                    0xFF
                } else {
                    self.vram[(address - 0x8000) as usize]
                }
            },
            0xFE00..=0xFE9F => {
                if self.mode == Mode::OamScan || self.mode == Mode::Drawing {
                    0xFF
                } else {
                    self.oam[(address - 0xFE00) as usize]
                }
            },
            0xFF40 => self.lcd_control,
            0xFF41 => self.lcd_status,
            0xFF42 => self.scroll_y,
            0xFF43 => self.scroll_x,
            0xFF44 => self.ly,
            0xFF45 => self.lyc,
            0xFF46 => self.dma,
            0xFF47 => self.bg_palette,
            0xFF48 => self.obj_palette0,
            0xFF49 => self.obj_palette1,
            0xFF4A => self.window_y,
            0xFF4B => self.window_x,
            _ => 0xFF,
        }
    }
}

/// CPU accesses never move the PPU off the dot grid.
pub proof fn lemma_access_keeps_wf(p: PPU, address: u16, value: u8)
    requires
        p.wf(),
    ensures
        p.poke(address, value).wf(),
        p.read_effect(address).wf(),
{
}

/// VRAM and OAM are locked by the position on the line: while pixels are
/// drawn (dots 80–251 of a visible line) both read 0xFF; during the OAM
/// scan (dots 0–79 of a visible line, but for the start of line 0 right
/// after the LCD comes on) OAM reads 0xFF and VRAM reads what it holds; in
/// HBlank (dots 252–455) and VBlank (lines 144–153) both read what they
/// hold.
pub proof fn lemma_access_locked_by_position(p: PPU, address: u16)
    requires
        p.wf(),
        0x8000 <= address <= 0x9FFF || 0xFE00 <= address <= 0xFE9F,
    ensures
        p.ly < 144 && 80 <= p.dot < 252 ==> p.peek(address) == 0xFF,
        p.ly < 144 && p.dot < 80 && !(p.ly == 0 && p.dot == 0 && p.mode == Mode::HBlank)
            ==> p.peek(address) == (if address <= 0x9FFF {
            p.vram[address - 0x8000]
        } else {
            0xFF
        }),
        p.ly >= 144 || p.dot >= 252 ==> p.peek(address) == (if address <= 0x9FFF {
            p.vram[address - 0x8000]
        } else {
            p.oam[address - 0xFE00]
        }),
{
}

/// Outside Mode 3 a CPU read of VRAM returns what a CPU write stored there,
/// and outside Modes 2 and 3 the same holds for OAM.
pub proof fn lemma_vram_oam_read_back(p: PPU, address: u16, value: u8)
    requires
        (0x8000 <= address <= 0x9FFF && p.mode != Mode::Drawing) || (0xFE00 <= address <= 0xFE9F
            && (p.mode == Mode::HBlank || p.mode == Mode::VBlank)),
    ensures
        p.poke(address, value).peek(address) == value,
{
}

/// With the LCD on, every step leaves the mode in sync with the position
/// on the dot grid, and the position within the frame.
pub proof fn lemma_step_keeps_mode_in_sync(p: PPU, cycles: u16, flag: u8)
    requires
        p.wf(),
        p.lcd_on(),
        cycles <= DOTS_PER_SCANLINE,
    ensures
        p.stepped(cycles, flag).0.wf(),
        p.stepped(cycles, flag).0.mode == mode_at(
            p.stepped(cycles, flag).0.ly,
            p.stepped(cycles, flag).0.dot,
        ),
        mode_bits(p.stepped(cycles, flag).0.mode) == p.stepped(cycles, flag).0.lcd_status & 3,
{
    let p1 = if p.oam_cpu_read_pending {
        PPU { oam_cpu_read_pending: false, ..p.oam_corrupted(false) }
    } else {
        p
    };
    let p2 = p1.advanced(cycles);
    let m = mode_at(p2.ly, p2.dot);
    let st = p2.lcd_status;
    let b = mode_bits(m);
    assert(((st & !3u8) | b) & 3 == b && (((st & !3u8) | b) | 4) & 3 == b && (((st & !3u8) | b) & !4u8) & 3 == b) by (bit_vector)
        requires
            b <= 3,
    ;
}

/// Crossing from line 143 into line 144 enters VBlank and requests the
/// VBlank interrupt, with the LCD on and the mode in sync with the dot grid.
pub proof fn lemma_line_144_requests_vblank(p: PPU, cycles: u16, flag: u8)
    requires
        p.wf(),
        p.lcd_on(),
        p.mode == mode_at(p.ly, p.dot),
        p.ly == 143,
        p.dot + cycles >= DOTS_PER_SCANLINE,
        cycles <= DOTS_PER_SCANLINE,
    ensures
        p.stepped(cycles, flag).0.ly == 144,
        p.stepped(cycles, flag).0.mode == Mode::VBlank,
        p.stepped(cycles, flag).1 & IF_VBLANK == IF_VBLANK,
{
    let p1 = if p.oam_cpu_read_pending {
        PPU { oam_cpu_read_pending: false, ..p.oam_corrupted(false) }
    } else {
        p
    };
    assert(p1.ly == p.ly && p1.dot == p.dot && p1.mode == p.mode);
    let f1 = flag | IF_VBLANK;
    assert(f1 & IF_VBLANK == IF_VBLANK && (f1 | IF_STAT) & IF_VBLANK == IF_VBLANK) by (bit_vector)
        requires
            f1 == flag | 1u8,
            IF_VBLANK == 1u8,
            IF_STAT == 2u8,
    ;
}

/// A PPU step only ever adds interrupt requests: every bit set in IF
/// before it is still set after it.
pub proof fn lemma_step_keeps_requests(p: PPU, cycles: u16, flag: u8)
    ensures
        p.stepped(cycles, flag).1 & flag == flag,
{
    let a = flag | IF_VBLANK;
    let b = flag | IF_STAT;
    let c = (flag | IF_VBLANK) | IF_STAT;
    assert(flag & flag == flag && a & flag == flag && b & flag == flag && c & flag == flag) by (bit_vector)
        requires
            a == flag | 1u8,
            b == flag | 2u8,
            c == (flag | 1u8) | 2u8,
    ;
}

/// The STAT mode number of `mode`.
pub fn mode_number(mode: Mode) -> (bits: u8)
    ensures
        bits == mode_bits(mode),
{
    match mode {
        Mode::HBlank => 0,
        Mode::VBlank => 1,
        Mode::OamScan => 2,
        Mode::Drawing => 3,
    }
}

/// Read a little-endian 16-bit word from OAM at `offset`.
fn oam_word_of(oam: &[u8; 0xA0], offset: usize) -> (w: u16)
    requires
        offset + 1 < 0xA0,
    ensures
        w == oam_word(*oam, offset as int),
{
    oam[offset] as u16 | ((oam[offset + 1] as u16) << 8)
}

/// Write a little-endian 16-bit word to OAM at `offset`.
fn oam_write_word(oam: &mut [u8; 0xA0], offset: usize, value: u16)
    requires
        offset + 1 < 0xA0,
    ensures
        *final(oam) == oam_with_word(*old(oam), offset as int, value),
{
    oam[offset] = value as u8;
    oam[offset + 1] = (value >> 8) as u8;
}

/// While copying, the source bytes are still those of the original OAM.
proof fn lemma_copied_source_intact(oam: [u8; 0xA0], src: int, dst: int, n: nat)
    requires
        0 <= src,
        src + 6 <= dst,
        dst + n <= 0xA0,
    ensures
        forall|i: int| src <= i < src + 6 ==> oam_copied(oam, src, dst, n)[i] == oam[i],
    decreases n,
{
    if n > 0 {
        lemma_copied_source_intact(oam, src, dst, (n - 1) as nat);
    }
}

/// The shade (0–3) that `palette` assigns to `color_id` (0–3).
pub fn apply_palette(palette: u8, color_id: u8) -> (shade: u8)
    requires
        color_id <= 3,
    ensures
        shade == palette_shade(palette, color_id),
{
    (palette >> (color_id * 2)) & 0b11
}

proof fn lemma_palette_digits(p: u8)
    by (bit_vector)
    ensures
        (p >> 0u8) & 3 == p % 4,
        (p >> 2u8) & 3 == (p / 4) % 4,
        (p >> 4u8) & 3 == (p / 16) % 4,
        (p >> 6u8) & 3 == p / 64,
{
}

/// A palette (BGP, OBP0, OBP1) is four 2-bit shades, colour 0 in the low
/// bits: colour id c gets base-4 digit c of the palette.  So the palette
/// is the sum of its shades times 1, 4, 16 and 64, and 0xE4 maps every
/// colour id to itself.
pub proof fn lemma_palette_shades(p: u8)
    ensures
        palette_shade(p, 0) == p % 4,
        palette_shade(p, 1) == (p / 4) % 4,
        palette_shade(p, 2) == (p / 16) % 4,
        palette_shade(p, 3) == p / 64,
        p == palette_shade(p, 0) + 4 * palette_shade(p, 1) + 16 * palette_shade(p, 2) + 64
            * palette_shade(p, 3),
        p == 0xE4 ==> palette_shade(p, 0) == 0 && palette_shade(p, 1) == 1 && palette_shade(p, 2)
            == 2 && palette_shade(p, 3) == 3,
{
    lemma_palette_digits(p);
    assert(((0u8 * 2) as u8) == 0u8 && ((1u8 * 2) as u8) == 2u8 && ((2u8 * 2) as u8) == 4u8 && ((
    3u8 * 2) as u8) == 6u8);
}

proof fn lemma_pixel_bits(lo: u8, hi: u8)
    by (bit_vector)
    ensures
        (((hi >> 0u8) & 1) << 1u8 | ((lo >> 0u8) & 1)) == (hi % 2) * 2 + lo % 2,
        (((hi >> 1u8) & 1) << 1u8 | ((lo >> 1u8) & 1)) == ((hi / 2) % 2) * 2 + (lo / 2) % 2,
        (((hi >> 2u8) & 1) << 1u8 | ((lo >> 2u8) & 1)) == ((hi / 4) % 2) * 2 + (lo / 4) % 2,
        (((hi >> 3u8) & 1) << 1u8 | ((lo >> 3u8) & 1)) == ((hi / 8) % 2) * 2 + (lo / 8) % 2,
        (((hi >> 4u8) & 1) << 1u8 | ((lo >> 4u8) & 1)) == ((hi / 16) % 2) * 2 + (lo / 16) % 2,
        (((hi >> 5u8) & 1) << 1u8 | ((lo >> 5u8) & 1)) == ((hi / 32) % 2) * 2 + (lo / 32) % 2,
        (((hi >> 6u8) & 1) << 1u8 | ((lo >> 6u8) & 1)) == ((hi / 64) % 2) * 2 + (lo / 64) % 2,
        (((hi >> 7u8) & 1) << 1u8 | ((lo >> 7u8) & 1)) == (hi / 128) * 2 + lo / 128,
{
}

/// A tile row is two bit planes: the colour id of pixel `b` is bit `b` of
/// the second byte times 2 plus bit `b` of the first byte (pixel 7 is the
/// leftmost, pixel 0 the rightmost).
pub proof fn lemma_pixel_color(lo: u8, hi: u8)
    ensures
        pixel_color(lo, hi, 7) == (hi / 128) * 2 + lo / 128,
        pixel_color(lo, hi, 6) == ((hi / 64) % 2) * 2 + (lo / 64) % 2,
        pixel_color(lo, hi, 5) == ((hi / 32) % 2) * 2 + (lo / 32) % 2,
        pixel_color(lo, hi, 4) == ((hi / 16) % 2) * 2 + (lo / 16) % 2,
        pixel_color(lo, hi, 3) == ((hi / 8) % 2) * 2 + (lo / 8) % 2,
        pixel_color(lo, hi, 2) == ((hi / 4) % 2) * 2 + (lo / 4) % 2,
        pixel_color(lo, hi, 1) == ((hi / 2) % 2) * 2 + (lo / 2) % 2,
        pixel_color(lo, hi, 0) == (hi % 2) * 2 + lo % 2,
{
    lemma_pixel_bits(lo, hi);
}

/// Tile data addressing: with LCDC bit 4 set, tile `t` starts at VRAM
/// offset 16 t (0x8000 + 16 t); with it clear the id is a signed byte
/// counted from offset 0x1000 (0x9000), so ids 128–255 land below it.
/// The background map is at offset 0x1800 (0x9800), or 0x1C00 (0x9C00)
/// with LCDC bit 3 set; the window map likewise with LCDC bit 6.
pub proof fn lemma_tile_addressing(lcd_control: u8, t: u8)
    ensures
        lcd_control & 0x10 != 0 ==> tile_offset(lcd_control, t) as int == 16 * t,
        lcd_control & 0x10 == 0 ==> tile_offset(lcd_control, t) as int == 0x1000 + 16 * (if t < 128 {
            t as int
        } else {
            t - 256
        }),
        tile_map_base(lcd_control, LCDC_BG_MAP) == (if lcd_control & 0x08 != 0 { 0x1C00u16 } else { 0x1800u16 }),
        tile_map_base(lcd_control, LCDC_WINDOW_MAP) == (if lcd_control & 0x40 != 0 { 0x1C00u16 } else { 0x1800u16 }),
{
}

/// The LCD's timing grid: each of the 154 lines has 456 dots; on the 144
/// visible lines dots 0–79 are the OAM scan (mode 2), dots 80–251 drawing
/// (mode 3) and dots 252–455 HBlank (mode 0); lines 144–153 are VBlank
/// (mode 1).  STAT bits 1–0 give the mode's number.
pub proof fn lemma_mode_timing(ly: u8, dot: u16)
    ensures
        ly >= 144 ==> mode_at(ly, dot) == Mode::VBlank,
        ly < 144 && dot < 80 ==> mode_at(ly, dot) == Mode::OamScan,
        ly < 144 && 80 <= dot < 252 ==> mode_at(ly, dot) == Mode::Drawing,
        ly < 144 && dot >= 252 ==> mode_at(ly, dot) == Mode::HBlank,
        mode_bits(Mode::HBlank) == 0 && mode_bits(Mode::VBlank) == 1 && mode_bits(Mode::OamScan) == 2
            && mode_bits(Mode::Drawing) == 3,
        DOTS_PER_SCANLINE == 456 && TOTAL_SCANLINES == 154,
{
}

} // verus!
