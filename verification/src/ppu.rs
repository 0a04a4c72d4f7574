//! The pixel unit: cycle and scanline counters stepped at three times the
//! core clock, and the background rendering path that turns tile data and
//! palette entries into pixels in the bus's frame buffer. It is a
//! collaborator of the core, out of the interpreter's own scope; its
//! timing counters are what the trace format's cycle field derives from.

use vstd::prelude::*;

use crate::bus::{Bus, BusView, BUFFER_WIDTH};

verus! {

/// The fixed master palette: the display color of each of the 64 palette
/// codes.
pub open spec fn spec_palette_color(i: u8) -> u32 {
    match i {
        0 => 0x666666,
        1 => 0x002A88,
        2 => 0x1412A7,
        3 => 0x3B00A4,
        4 => 0x5C007E,
        5 => 0x6E0040,
        6 => 0x6C0600,
        7 => 0x561D00,
        8 => 0x333500,
        9 => 0x0B4800,
        10 => 0x005200,
        11 => 0x004F08,
        12 => 0x00404D,
        13 => 0x000000,
        14 => 0x000000,
        15 => 0x000000,
        16 => 0xADADAD,
        17 => 0x155FD9,
        18 => 0x4240FF,
        19 => 0x7527FE,
        20 => 0xA01ACC,
        21 => 0xB71E7B,
        22 => 0xB53120,
        23 => 0x994E00,
        24 => 0x6B6D00,
        25 => 0x388700,
        26 => 0x0C9300,
        27 => 0x008F32,
        28 => 0x007C8D,
        29 => 0x000000,
        30 => 0x000000,
        31 => 0x000000,
        32 => 0xFFFEFF,
        33 => 0x64B0FF,
        34 => 0x9290FF,
        35 => 0xC676FF,
        36 => 0xF36AFF,
        37 => 0xFE6ECC,
        38 => 0xFE8170,
        39 => 0xEA9E22,
        40 => 0xBCBE00,
        41 => 0x88D800,
        42 => 0x5CE430,
        43 => 0x45E082,
        44 => 0x48CDDE,
        45 => 0x4F4F4F,
        46 => 0x000000,
        47 => 0x000000,
        48 => 0xFFFEFF,
        49 => 0xC0DFFF,
        50 => 0xD3D2FF,
        51 => 0xE8C8FF,
        52 => 0xFBC2FF,
        53 => 0xFEC4EA,
        54 => 0xFECCC5,
        55 => 0xF7D8A5,
        56 => 0xE4E594,
        57 => 0xCFEF96,
        58 => 0xBDF4AB,
        59 => 0xB3F3CC,
        60 => 0xB5EBF2,
        61 => 0xB8B8B8,
        62 => 0x000000,
        _ => 0x000000,
    }
}

/// The fixed master palette: the display color of each of the 64 palette
/// codes.
pub fn palette_color(i: u8) -> (r: u32)
    ensures
        r == spec_palette_color(i),
{
    match i {
        0 => 0x666666,
        1 => 0x002A88,
        2 => 0x1412A7,
        3 => 0x3B00A4,
        4 => 0x5C007E,
        5 => 0x6E0040,
        6 => 0x6C0600,
        7 => 0x561D00,
        8 => 0x333500,
        9 => 0x0B4800,
        10 => 0x005200,
        11 => 0x004F08,
        12 => 0x00404D,
        13 => 0x000000,
        14 => 0x000000,
        15 => 0x000000,
        16 => 0xADADAD,
        17 => 0x155FD9,
        18 => 0x4240FF,
        19 => 0x7527FE,
        20 => 0xA01ACC,
        21 => 0xB71E7B,
        22 => 0xB53120,
        23 => 0x994E00,
        24 => 0x6B6D00,
        25 => 0x388700,
        26 => 0x0C9300,
        27 => 0x008F32,
        28 => 0x007C8D,
        29 => 0x000000,
        30 => 0x000000,
        31 => 0x000000,
        32 => 0xFFFEFF,
        33 => 0x64B0FF,
        34 => 0x9290FF,
        35 => 0xC676FF,
        36 => 0xF36AFF,
        37 => 0xFE6ECC,
        38 => 0xFE8170,
        39 => 0xEA9E22,
        40 => 0xBCBE00,
        41 => 0x88D800,
        42 => 0x5CE430,
        43 => 0x45E082,
        44 => 0x48CDDE,
        45 => 0x4F4F4F,
        46 => 0x000000,
        47 => 0x000000,
        48 => 0xFFFEFF,
        49 => 0xC0DFFF,
        50 => 0xD3D2FF,
        51 => 0xE8C8FF,
        52 => 0xFBC2FF,
        53 => 0xFEC4EA,
        54 => 0xFECCC5,
        55 => 0xF7D8A5,
        56 => 0xE4E594,
        57 => 0xCFEF96,
        58 => 0xBDF4AB,
        59 => 0xB3F3CC,
        60 => 0xB5EBF2,
        61 => 0xB8B8B8,
        62 => 0x000000,
        _ => 0x000000,
    }
}

/// The pixel unit: timing counters, the frame parity, and the fetched
/// tile and palette state the rendering path reads.
pub struct PPU {
    pub cycle: u32,
    pub scan_line: u32,
    pub frame: u64,
    pub even_odd: bool,
    pub show_background: bool,
    pub tile_data: u64,
    pub palette_data: Vec<u8>,
}

/// The unit after one tick of its clock: 341 cycles to a scanline, 262
/// scanlines to a frame, the frame parity flipping at each wrap.
pub open spec fn spec_tick(p: PPU) -> PPU {
    if p.cycle + 1 > 340 {
        if p.scan_line + 1 > 261 {
            PPU {
                cycle: 0,
                scan_line: 0,
                frame: (p.frame + 1) as u64,
                even_odd: !p.even_odd,
                ..p
            }
        } else {
            PPU { cycle: 0, scan_line: (p.scan_line + 1) as u32, ..p }
        }
    } else {
        PPU { cycle: (p.cycle + 1) as u32, ..p }
    }
}

/// The palette code of the background at the current dot: the low bits of
/// the fetched tile data, or 0 when background rendering is off.
pub open spec fn spec_background_pixel(p: PPU) -> u8 {
    if p.show_background {
        (((p.tile_data >> 32) as u32) & 0x0F) as u8
    } else {
        0
    }
}

/// A palette read, with the mirroring of every fourth entry of the sprite
/// half onto the background half.
pub open spec fn spec_read_palette(p: PPU, address: u16) -> u8 {
    if address >= 16 && address % 4 == 0 {
        p.palette_data[address - 16]
    } else {
        p.palette_data[address as int]
    }
}

/// Where rendering the current dot puts its pixel, and which color: one
/// tick after the start of a scanline the unit renders column 0.
pub open spec fn spec_render_pixel(p: PPU, b: BusView) -> BusView {
    let x = p.cycle - 1;
    let y = p.scan_line;
    let color = spec_background_pixel(p);
    let c = spec_palette_color(spec_read_palette(p, (color % 64) as u16));
    BusView { ppu_pixels: b.ppu_pixels.update(y * 256 + x, c), ..b }
}

/// One step of the pixel unit: advance the clock; on the dots of a
/// visible scanline that correspond to the 256 visible columns, render
/// the background pixel into the frame buffer.
pub open spec fn spec_ppu_step(p: PPU, b: BusView) -> (PPU, BusView) {
    let p2 = spec_tick(p);
    if p2.scan_line < 240 && 1 <= p2.cycle && p2.cycle <= 256 {
        (p2, spec_render_pixel(p2, b))
    } else {
        (p2, b)
    }
}

impl PPU {
    /// The counters sit inside one frame, and every palette entry names
    /// one of the 64 master palette codes.
    pub open spec fn wf(&self) -> bool {
        &&& self.cycle <= 340
        &&& self.scan_line <= 261
        &&& self.palette_data@.len() == 32
        &&& forall|i: int| 0 <= i < 32 ==> self.palette_data@[i] < 64
    }

    /// A pixel unit at power-on: counters zeroed, background rendering
    /// on, palette cleared.
    pub fn new() -> (r: PPU)
        ensures
            r.wf(),
            r.cycle == 0,
            r.scan_line == 0,
            r.frame == 0,
            r.even_odd == false,
            r.show_background == true,
            r.tile_data == 0,
            r.palette_data@ == Seq::new(32, |i: int| 0u8),
    {
        PPU {
            cycle: 0,
            scan_line: 0,
            frame: 0,
            even_odd: false,
            show_background: true,
            tile_data: 0,
            palette_data: crate::cartridge::zero_bytes(32),
        }
    }

    /// The high half of the fetched tile data.
    pub fn fetch_tile_data(&self) -> (r: u32)
        ensures
            r == (self.tile_data >> 32) as u32,
    {
        (self.tile_data >> 32) as u32
    }

    /// The palette code of the background at the current dot.
    pub fn background_pixel(&mut self) -> (r: u8)
        ensures
            *final(self) == *old(self),
            r == spec_background_pixel(*old(self)),
    {
        if self.show_background {
            let data = self.fetch_tile_data();
            (data & 0x0F) as u8
        } else {
            0
        }
    }

    /// Read a palette entry, mirroring every fourth entry of the sprite
    /// half onto the background half.
    pub fn read_palette(&self, address: u16) -> (r: u8)
        requires
            self.wf(),
            address < 32,
        ensures
            r == spec_read_palette(*self, address),
    {
        let address = if address >= 16 && address % 4 == 0 {
            address - 16
        } else {
            address
        };
        self.palette_data[address as usize]
    }

    /// Render the background pixel of the current dot into the frame
    /// buffer.
    pub fn render_pixel(&mut self, bus: &mut Bus)
        requires
            old(self).wf(),
            old(bus).wf(),
            1 <= old(self).cycle <= 256,
            old(self).scan_line < 240,
        ensures
            *final(self) == *old(self),
            final(bus).wf(),
            final(bus)@ == spec_render_pixel(*old(self), old(bus)@),
    {
        let x = self.cycle - 1;
        let y = self.scan_line;
        let background = self.background_pixel();
        let color = background;
        proof {
            assert(forall|d: u32| #[trigger] (d & 0x0F) < 16) by (bit_vector);
        }
        let c = palette_color(self.read_palette(color as u16 % 64));
        self.set_pixel(bus, y as usize * 256 + x as usize, c);
    }

    /// Store one pixel of the frame buffer.
    fn set_pixel(&self, bus: &mut Bus, index: usize, color: u32)
        requires
            old(bus).wf(),
            index < old(bus)@.ppu_pixels.len(),
        ensures
            final(bus).wf(),
            final(bus)@ == (BusView {
                ppu_pixels: old(bus)@.ppu_pixels.update(index as int, color),
                ..old(bus)@
            }),
    {
        bus.ppu_pixels.set(index, color);
        proof {
            assert(bus@ =~= (BusView {
                ppu_pixels: old(bus)@.ppu_pixels.update(index as int, color),
                ..old(bus)@
            }));
        }
    }

    /// One tick of the unit's clock.
    pub fn tick(&mut self)
        requires
            old(self).wf(),
            old(self).frame < u64::MAX,
        ensures
            final(self).wf(),
            *final(self) == spec_tick(*old(self)),
    {
        self.cycle = self.cycle + 1;
        if self.cycle > 340 {
            self.cycle = 0;
            self.scan_line = self.scan_line + 1;
            if self.scan_line > 261 {
                self.scan_line = 0;
                self.frame = self.frame + 1;
                self.even_odd = !self.even_odd;
            }
        }
    }

    /// One step of the pixel unit: tick, then render on the visible dots
    /// of a visible scanline.
    pub fn step(&mut self, bus: &mut Bus)
        requires
            old(self).wf(),
            old(bus).wf(),
            old(self).frame < u64::MAX,
        ensures
            final(self).wf(),
            final(bus).wf(),
            (*final(self), final(bus)@) == spec_ppu_step(*old(self), old(bus)@),
    {
        self.tick();
        let visible_line = self.scan_line < 240;
        if visible_line && 1 <= self.cycle && self.cycle <= 256 {
            self.render_pixel(bus);
        }
    }
}

} // verus!
