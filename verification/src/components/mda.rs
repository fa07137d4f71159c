//! Monochrome Display Adapter (MDA) emulation
//!
//! The MDA provides 80x25 text mode with:
//! - 4KB video RAM at 0xB0000-0xB0FFF
//! - 9x14 pixel characters
//! - 720x350 display resolution
//! - Monochrome green phosphor output

use vstd::prelude::*;

verus! {

/// Size of the video RAM in bytes (80x25 cells, 2 bytes per cell, padded to 4KB)
pub const VRAM_SIZE: usize = 4096;

/// Size of the character-major font table (256 characters x 14 scan lines)
pub const FONT_SIZE: usize = 3584;

/// Smallest character ROM image that holds both banks of the 14 used scan lines
pub const FONT_ROM_MIN_LEN: usize = 0x0E00;

/// Display width in pixels
pub const SCREEN_WIDTH: usize = 720;

/// Display height in pixels
pub const SCREEN_HEIGHT: usize = 350;

/// Number of pixels on screen
pub const SCREEN_PIXELS: usize = 252000;

/// Size of an RGBA framebuffer for the whole screen
pub const FRAMEBUFFER_SIZE: usize = 1008000;

/// Status register port
pub const MDA_STATUS_PORT: u16 = 0x3BA;

/// MDA (Monochrome Display Adapter)
pub struct Mda {
    /// Video RAM (4KB for 80x25 text mode, 2 bytes per cell)
    /// Each cell: byte 0 = character code, byte 1 = attribute
    pub vram: Vec<u8>,
    /// Cycle accumulator for periodic updates
    pub cycle_count: u64,
    /// Update threshold - regenerate framebuffer every N cycles
    pub update_threshold: u64,
    /// Font data, character-major (256 characters x 14 rows x 1 byte)
    pub font_rom: Vec<u8>,
    /// Dirty flag - set when VRAM is written
    pub dirty: bool,
}

/// Offset in the two-bank character ROM of scan line `scan` of character `ch`.
///
/// Bank 0 (0x0000-0x07FF) holds scan lines 0-7, one 256-byte row per line;
/// bank 1 (0x0800-0x0FFF) holds scan lines 8-15 the same way.
pub open spec fn rom_offset(ch: int, scan: int) -> int {
    if scan < 8 {
        scan * 256 + ch
    } else {
        0x0800 + (scan - 8) * 256 + ch
    }
}

/// Foreground intensity of an attribute byte: bit 3 selects high intensity.
pub open spec fn fg_intensity(attribute: u8) -> u8 {
    if attribute & 0x08 != 0 {
        0xFF
    } else {
        0xAA
    }
}

impl Mda {
    /// Well-formedness: video RAM and font table have their fixed sizes.
    pub open spec fn wf(&self) -> bool {
        &&& self.vram@.len() == VRAM_SIZE
        &&& self.font_rom@.len() == FONT_SIZE
    }

    /// Whether pixel column `bit` (0-8) of a font row byte is lit; the 9th
    /// column is always blank.
    pub open spec fn font_bit(font_byte: u8, bit: int) -> bool {
        bit < 8 && (font_byte >> ((7 - bit) as u8)) & 1 != 0
    }

    /// Gray level of screen pixel `p` (row-major, 720 pixels per line).
    pub open spec fn pixel_color(self, p: int) -> u8 {
        let x = p % 720;
        let y = p / 720;
        let col = x / 9;
        let bit = x % 9;
        let row = y / 14;
        let scan = y % 14;
        let cell = row * 80 + col;
        let ch = self.vram@[cell * 2];
        let attribute = self.vram@[cell * 2 + 1];
        let font_byte = self.font_rom@[ch * 14 + scan];
        if Self::font_bit(font_byte, bit) {
            fg_intensity(attribute)
        } else {
            0x00
        }
    }

    /// Create a new MDA with blank VRAM except "HELLO" in the first five
    /// cells (white on black), and an empty font until one is installed.
    pub fn new() -> (r: Self)
        ensures
            r.wf(),
            r.cycle_count == 0,
            r.update_threshold == 79_500,
            !r.dirty,
            r.vram@[0] == 0x48 && r.vram@[2] == 0x45 && r.vram@[4] == 0x4C && r.vram@[6] == 0x4C
                && r.vram@[8] == 0x4F,
            forall|i: int| 0 <= i < 5 ==> #[trigger] r.vram@[2 * i + 1] == 0x07,
            forall|i: int| 10 <= i < VRAM_SIZE ==> #[trigger] r.vram@[i] == 0,
            forall|i: int| 0 <= i < FONT_SIZE ==> #[trigger] r.font_rom@[i] == 0,
    {
        let mut vram: Vec<u8> = vec![0u8; VRAM_SIZE];
        let hello: [u8; 5] = [0x48, 0x45, 0x4C, 0x4C, 0x4F];
        let mut i: usize = 0;
        while i < 5
            invariant
                0 <= i <= 5,
                vram@.len() == VRAM_SIZE,
                hello@ == seq![0x48u8, 0x45u8, 0x4Cu8, 0x4Cu8, 0x4Fu8],
                forall|j: int| 0 <= j < i ==> #[trigger] vram@[2 * j] == hello@[j],
                forall|j: int| 0 <= j < i ==> #[trigger] vram@[2 * j + 1] == 0x07,
                forall|j: int| 2 * i <= j < VRAM_SIZE ==> #[trigger] vram@[j] == 0,
            decreases 5 - i,
        {
            vram[i * 2] = hello[i];
            vram[i * 2 + 1] = 0x07;
            i = i + 1;
        }
        assert(vram@[0] == vram@[2 * 0int]);
        assert(vram@[2] == vram@[2 * 1int]);
        assert(vram@[4] == vram@[2 * 2int]);
        assert(vram@[6] == vram@[2 * 3int]);
        assert(vram@[8] == vram@[2 * 4int]);
        let font_rom: Vec<u8> = vec![0u8; FONT_SIZE];
        Mda { vram, cycle_count: 0, update_threshold: 79_500, font_rom, dirty: false }
    }

    /// Reorganize an IBM MDA character ROM image into the character-major font table.
    ///
    /// The ROM is organized in two 2KB banks: bank 0 (0x0000-0x07FF) holds
    /// scan lines 0-7 and bank 1 (0x0800-0x0FFF) scan lines 8-15, each as one
    /// 256-byte row per scan line. The MDA uses only the first 14 scan lines.
    pub fn load_font_rom(rom_data: &[u8]) -> (font: Vec<u8>)
        requires
            rom_data@.len() >= FONT_ROM_MIN_LEN,
        ensures
            font@.len() == FONT_SIZE,
            forall|ch: int, scan: int|
                0 <= ch < 256 && 0 <= scan < 14 ==> #[trigger] font@[ch * 14 + scan]
                    == rom_data@[rom_offset(ch, scan)],
    {
        let mut font: Vec<u8> = vec![0u8; FONT_SIZE];
        let mut char_idx: usize = 0;
        while char_idx < 256
            invariant
                0 <= char_idx <= 256,
                font@.len() == FONT_SIZE,
                rom_data@.len() >= FONT_ROM_MIN_LEN,
                forall|ch: int, scan: int|
                    0 <= ch < char_idx && 0 <= scan < 14 ==> #[trigger] font@[ch * 14 + scan]
                        == rom_data@[rom_offset(ch, scan)],
            decreases 256 - char_idx,
        {
            let mut scan_line: usize = 0;
            while scan_line < 14
                invariant
                    0 <= char_idx < 256,
                    0 <= scan_line <= 14,
                    font@.len() == FONT_SIZE,
                    rom_data@.len() >= FONT_ROM_MIN_LEN,
                    forall|ch: int, scan: int|
                        0 <= ch < char_idx && 0 <= scan < 14 ==> #[trigger] font@[ch * 14 + scan]
                            == rom_data@[rom_offset(ch, scan)],
                    forall|scan: int|
                        0 <= scan < scan_line ==> #[trigger] font@[char_idx * 14 + scan]
                            == rom_data@[rom_offset(char_idx as int, scan)],
                decreases 14 - scan_line,
            {
                let rom_off: usize = if scan_line < 8 {
                    scan_line * 256 + char_idx
                } else {
                    0x0800 + (scan_line - 8) * 256 + char_idx
                };
                assert(rom_off < FONT_ROM_MIN_LEN);
                let font_offset: usize = char_idx * 14 + scan_line;
                font[font_offset] = rom_data[rom_off];
                scan_line = scan_line + 1;
            }
            char_idx = char_idx + 1;
        }
        font
    }

    /// Install the glyphs of a character ROM image (see `load_font_rom`).
    pub fn install_font_rom(&mut self, rom_data: &[u8])
        requires
            rom_data@.len() >= FONT_ROM_MIN_LEN,
        ensures
            final(self).font_rom@.len() == FONT_SIZE,
            forall|ch: int, scan: int|
                0 <= ch < 256 && 0 <= scan < 14 ==> #[trigger] final(self).font_rom@[ch * 14 + scan]
                    == rom_data@[rom_offset(ch, scan)],
            final(self).vram@ == old(self).vram@,
            final(self).cycle_count == old(self).cycle_count,
            final(self).update_threshold == old(self).update_threshold,
            final(self).dirty == old(self).dirty,
    {
        self.font_rom = Self::load_font_rom(rom_data);
    }

    /// Read from video RAM
    pub fn read_vram(&self, offset: u16) -> (r: u8)
        requires
            self.wf(),
        ensures
            r == self.vram@[(offset & 0xFFF) as int],
    {
        assert(offset & 0xFFF < 4096) by (bit_vector);
        self.vram[(offset & 0xFFF) as usize]
    }

    /// Write to video RAM
    pub fn write_vram(&mut self, offset: u16, value: u8)
        requires
            old(self).wf(),
        ensures
            final(self).vram@ == old(self).vram@.update((offset & 0xFFF) as int, value),
            final(self).dirty,
            final(self).font_rom@ == old(self).font_rom@,
            final(self).cycle_count == old(self).cycle_count,
            final(self).update_threshold == old(self).update_threshold,
    {
        assert(offset & 0xFFF < 4096) by (bit_vector);
        self.vram[(offset & 0xFFF) as usize] = value;
        self.dirty = true;
    }

    /// Update based on CPU cycles
    pub fn tick(&mut self, cycles: u16)
        requires
            old(self).cycle_count + cycles <= u64::MAX,
        ensures
            final(self).cycle_count == old(self).cycle_count + cycles,
            final(self).vram@ == old(self).vram@,
            final(self).font_rom@ == old(self).font_rom@,
            final(self).update_threshold == old(self).update_threshold,
            final(self).dirty == old(self).dirty,
    {
        self.cycle_count = self.cycle_count + cycles as u64;
    }

    /// Value of the status register: bit 3 (vertical retrace) toggles every
    /// 1024 cycles.
    pub open spec fn spec_status(self) -> u8 {
        if (self.cycle_count >> 10u64) & 1 == 0 {
            0x08
        } else {
            0x00
        }
    }

    /// Read from MDA I/O port: the status register at 0x3BA, 0xFF elsewhere.
    pub fn read_u8(&mut self, port: u16) -> (r: u8)
        ensures
            r == (if port == MDA_STATUS_PORT {
                old(self).spec_status()
            } else {
                0xFF
            }),
            *final(self) == *old(self),
    {
        if port == MDA_STATUS_PORT {
            if (self.cycle_count >> 10) & 1 == 0 {
                0x08
            } else {
                0x00
            }
        } else {
            0xFF
        }
    }

    /// Write to MDA I/O port: the mode control (0x3B8) and CRTC registers
    /// (0x3B4, 0x3B5) are accepted and have no effect.
    pub fn write_u8(&mut self, port: u16, value: u8)
        ensures
            *final(self) == *old(self),
    {
    }

    /// Render the text mode display to an RGBA framebuffer
    ///
    /// Converts the 80x25 text cells into 720x350 pixels (9x14 per character):
    /// each pixel gets its gray level in R, G and B and 0xFF in A.
    pub fn render_to_framebuffer(&self, framebuffer: &mut [u8])
        requires
            self.wf(),
            old(framebuffer)@.len() >= FRAMEBUFFER_SIZE,
        ensures
            final(framebuffer)@.len() == old(framebuffer)@.len(),
            forall|p: int, c: int|
                0 <= p < SCREEN_PIXELS && 0 <= c < 4 ==> #[trigger] final(framebuffer)@[p * 4 + c]
                    == (if c == 3 {
                    0xFFu8
                } else {
                    self.pixel_color(p)
                }),
            forall|i: int|
                FRAMEBUFFER_SIZE <= i < old(framebuffer)@.len() ==> #[trigger] final(framebuffer)@[i]
                    == old(framebuffer)@[i],
    {
        let mut p: usize = 0;
        while p < SCREEN_PIXELS
            invariant
                0 <= p <= SCREEN_PIXELS,
                self.wf(),
                framebuffer@.len() == old(framebuffer)@.len(),
                old(framebuffer)@.len() >= FRAMEBUFFER_SIZE,
                forall|q: int, c: int|
                    0 <= q < p && 0 <= c < 4 ==> #[trigger] framebuffer@[q * 4 + c] == (if c == 3 {
                        0xFFu8
                    } else {
                        self.pixel_color(q)
                    }),
                forall|i: int|
                    FRAMEBUFFER_SIZE <= i < old(framebuffer)@.len() ==> #[trigger] framebuffer@[i]
                        == old(framebuffer)@[i],
            decreases SCREEN_PIXELS - p,
        {
            let color = self.pixel(p);
            let idx: usize = p * 4;
            framebuffer[idx] = color;
            framebuffer[idx + 1] = color;
            framebuffer[idx + 2] = color;
            framebuffer[idx + 3] = 0xFF;
            assert forall|q: int, c: int| 0 <= q < p + 1 && 0 <= c < 4 implies #[trigger] framebuffer@[q
                * 4 + c] == (if c == 3 {
                0xFFu8
            } else {
                self.pixel_color(q)
            }) by {
                if q == p {
                    assert(q * 4 + c == idx + c);
                }
            }
            p = p + 1;
        }
    }

    /// Gray level of screen pixel `p`: the glyph bit of its character cell
    /// selects the attribute's foreground intensity or black.
    fn pixel(&self, p: usize) -> (r: u8)
        requires
            self.wf(),
            p < SCREEN_PIXELS,
        ensures
            r == self.pixel_color(p as int),
    {
        let x: usize = p % 720;
        let y: usize = p / 720;
        let col: usize = x / 9;
        let bit: usize = x % 9;
        let row: usize = y / 14;
        let scan: usize = y % 14;
        assert(row < 25 && col < 80);
        let cell: usize = row * 80 + col;
        let ch = self.vram[cell * 2];
        let attribute = self.vram[cell * 2 + 1];
        let font_byte = self.font_rom[ch as usize * 14 + scan];
        let lit = if bit < 8 {
            (font_byte >> ((7 - bit) as u8)) & 1 != 0
        } else {
            false
        };
        if lit {
            if attribute & 0x08 != 0 {
                0xFF
            } else {
                0xAA
            }
        } else {
            0x00
        }
    }
}

} // verus!
