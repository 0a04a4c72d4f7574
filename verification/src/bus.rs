//! The memory-mapped bus: owns RAM and the peripheral register windows,
//! exposes the single 16-bit address space, and dispatches every read and
//! write to RAM (mirrored), a peripheral window, or cartridge-backed
//! storage by address range. The interpreter reads and writes only through
//! it; the two composite 16-bit reads live here too, one of them carrying
//! the documented page-wrap defect of the indirect-addressing circuitry.
//! An address outside the 16-bit space would be a contract violation of
//! the interpreter; the address type makes one unrepresentable, so every
//! dispatch below is total.

use vstd::prelude::*;

use crate::cartridge::{Cartridge, CartridgeView, SRAM_SIZE};

verus! {

pub const BUFFER_WIDTH: usize = 256;

pub const BUFFER_HEIGHT: usize = 240;

/// Bytes of physical RAM; mirrored across the 8KB logical window.
pub const RAM_SIZE: usize = 2048;

/// Registers in the audio unit's window (0x4000-0x4013 and 0x4015).
pub const APU_REGISTER_COUNT: usize = 22;

/// The memory-mapped bus. Owned by the console assembly; the processor
/// core receives it as a mutable collaborator per step, never owns it.
pub struct Bus {
    pub cartridge: Cartridge,
    pub ram: Vec<u8>,
    pub apu_registers: Vec<u8>,
    pub dma_register: u8,
    pub ppu_name_table: Vec<u8>,
    pub ppu_palette: Vec<u8>,
    pub ppu_oam: Vec<u8>,
    pub ppu_pixels: Vec<u32>,
    pub apu_buffer: Vec<i16>,
}

/// The mathematical model of the bus: every storage as a sequence.
#[verifier::ext_equal]
pub struct BusView {
    pub cartridge: CartridgeView,
    pub ram: Seq<u8>,
    pub apu_registers: Seq<u8>,
    pub dma_register: u8,
    pub ppu_name_table: Seq<u8>,
    pub ppu_palette: Seq<u8>,
    pub ppu_oam: Seq<u8>,
    pub ppu_pixels: Seq<u32>,
    pub apu_buffer: Seq<i16>,
}

impl View for Bus {
    type V = BusView;

    open spec fn view(&self) -> BusView {
        BusView {
            cartridge: self.cartridge@,
            ram: self.ram@,
            apu_registers: self.apu_registers@,
            dma_register: self.dma_register,
            ppu_name_table: self.ppu_name_table@,
            ppu_palette: self.ppu_palette@,
            ppu_oam: self.ppu_oam@,
            ppu_pixels: self.ppu_pixels@,
            apu_buffer: self.apu_buffer@,
        }
    }
}

/// The storages have their fixed sizes, and the cartridge holds at least
/// one full bank of each kind.
pub open spec fn view_wf(b: BusView) -> bool {
    &&& b.ram.len() == RAM_SIZE
    &&& b.apu_registers.len() == APU_REGISTER_COUNT
    &&& b.ppu_name_table.len() == 2048
    &&& b.ppu_palette.len() == 32
    &&& b.ppu_oam.len() == 256
    &&& b.ppu_pixels.len() == BUFFER_WIDTH * BUFFER_HEIGHT
    &&& b.cartridge.prg.len() >= 0x4000
    &&& b.cartridge.chr.len() >= 0x2000
    &&& b.cartridge.sram.len() == SRAM_SIZE
}

/// What a read of cartridge-backed storage returns: pattern storage below
/// 0x2000, save storage at 0x6000-0x7FFF, and program storage above
/// 0x8000 under the fixed two-bank mapping (lower half the first 16KB
/// bank, upper half the last). Addresses between the windows have no
/// defined dispatch.
pub open spec fn view_mapper_read(b: BusView, addr: u16) -> u8 {
    if addr < 0x2000 {
        b.cartridge.chr[addr as int]
    } else if 0x6000 <= addr && addr < 0x8000 {
        b.cartridge.sram[addr - 0x6000]
    } else if 0x8000 <= addr && addr < 0xC000 {
        b.cartridge.prg[addr - 0x8000]
    } else if 0xC000 <= addr {
        b.cartridge.prg[b.cartridge.prg.len() - 0x4000 + (addr - 0xC000)]
    } else {
        0
    }
}

/// What a read of the bus returns, by address range: mirrored RAM,
/// placeholder values from the peripheral windows that are not wired in,
/// and cartridge-backed storage from 0x6000 up.
pub open spec fn view_read(b: BusView, addr: u16) -> u8 {
    if addr < 0x2000 {
        b.ram[(addr % 0x800) as int]
    } else if addr < 0x4000 {
        0xCC
    } else if addr <= 0x4013 {
        0xFF
    } else if addr == 0x4014 {
        0xCC
    } else if addr <= 0x4017 {
        0xFF
    } else if addr < 0x6000 {
        0xFF
    } else {
        view_mapper_read(b, addr)
    }
}

/// What a write to the bus leaves behind: RAM writes land in the mirrored
/// cell, audio-window writes in the register bank, a DMA-trigger write is
/// recorded, save-storage writes persist, and every other address ignores
/// the write.
pub open spec fn view_write(b: BusView, addr: u16, value: u8) -> BusView {
    if addr < 0x2000 {
        BusView { ram: b.ram.update((addr % 0x800) as int, value), ..b }
    } else if (0x4000 <= addr && addr <= 0x4013) || addr == 0x4015 {
        BusView { apu_registers: b.apu_registers.update(addr - 0x4000, value), ..b }
    } else if addr == 0x4014 {
        BusView { dma_register: value, ..b }
    } else if 0x6000 <= addr && addr < 0x8000 {
        BusView {
            cartridge: CartridgeView {
                sram: b.cartridge.sram.update(addr - 0x6000, value),
                ..b.cartridge
            },
            ..b
        }
    } else {
        b
    }
}

/// The little-endian 16-bit value at `addr`: low byte there, high byte at
/// the following address (wrapping at the end of the address space, with
/// no special page handling).
pub open spec fn view_read16(b: BusView, addr: u16) -> u16 {
    (view_read(b, addr) as u16) | ((view_read(b, (((addr as int) + 1) % 0x10000) as u16) as u16)
        << 8)
}

/// The address one past `addr` under the indirect-addressing circuitry's
/// defect: only the low byte increments, so from xxFF it wraps to xx00 on
/// the same page.
pub open spec fn spec_pagewrap_next(addr: u16) -> u16 {
    (addr & 0xFF00) | (((addr as u8) as int + 1) % 256) as u16
}

/// The little-endian 16-bit value at `addr` as the indirect-addressing
/// circuitry fetches it: the high byte comes from the same memory page as
/// the low byte, reproducing the documented hardware defect.
pub open spec fn view_read16_pagewrap(b: BusView, addr: u16) -> u16 {
    (view_read(b, addr) as u16) | ((view_read(b, spec_pagewrap_next(addr)) as u16) << 8)
}

/// A vector of `len` zeroed 32-bit words.
fn zero_words(len: usize) -> (r: Vec<u32>)
    ensures
        r@ == Seq::new(len as nat, |i: int| 0u32),
{
    let mut out: Vec<u32> = Vec::new();
    let mut i: usize = 0;
    while i < len
        invariant
            i <= len,
            out@ == Seq::new(i as nat, |j: int| 0u32),
        decreases len - i,
    {
        out.push(0u32);
        proof {
            assert(out@ =~= Seq::new((i + 1) as nat, |j: int| 0u32));
        }
        i = i + 1;
    }
    out
}

impl Bus {
    pub open spec fn wf(&self) -> bool {
        view_wf(self@)
    }

    /// A bus over the given cartridge and RAM, peripheral windows zeroed.
    pub fn new(cartridge: Cartridge, ram: Vec<u8>) -> (r: Bus)
        requires
            cartridge.wf(),
            ram@.len() == RAM_SIZE,
        ensures
            r.wf(),
            r@.cartridge == cartridge@,
            r@.ram == ram@,
            r@.apu_registers == Seq::new(APU_REGISTER_COUNT as nat, |i: int| 0u8),
            r@.dma_register == 0,
            r@.ppu_name_table == Seq::new(2048, |i: int| 0u8),
            r@.ppu_palette == Seq::new(32, |i: int| 0u8),
            r@.ppu_oam == Seq::new(256, |i: int| 0u8),
            r@.ppu_pixels == Seq::new((BUFFER_WIDTH * BUFFER_HEIGHT) as nat, |i: int| 0u32),
            r@.apu_buffer == Seq::<i16>::empty(),
    {
        Bus {
            cartridge,
            ram,
            apu_registers: crate::cartridge::zero_bytes(APU_REGISTER_COUNT),
            dma_register: 0,
            ppu_name_table: crate::cartridge::zero_bytes(2048),
            ppu_palette: crate::cartridge::zero_bytes(32),
            ppu_oam: crate::cartridge::zero_bytes(256),
            ppu_pixels: zero_words(BUFFER_WIDTH * BUFFER_HEIGHT),
            apu_buffer: Vec::new(),
        }
    }

    /// Read one byte of cartridge-backed storage. Addresses between the
    /// pattern window and the save window have no defined dispatch and are
    /// a contract violation, so they are excluded here.
    pub fn mapper_read(&self, address: u16) -> (r: u8)
        requires
            self.wf(),
            address < 0x2000 || address >= 0x6000,
        ensures
            r == view_mapper_read(self@, address),
    {
        if address < 0x2000 {
            self.cartridge.chr[address as usize]
        } else if address < 0x8000 {
            self.cartridge.sram[(address - 0x6000) as usize]
        } else if address < 0xC000 {
            self.cartridge.prg[(address - 0x8000) as usize]
        } else {
            self.cartridge.prg[self.cartridge.prg.len() - 0x4000 + (address - 0xC000) as usize]
        }
    }

    /// Read one byte from the single address space, dispatched by range.
    pub fn read(&self, address: u16) -> (r: u8)
        requires
            self.wf(),
        ensures
            r == view_read(self@, address),
    {
        if address < 0x2000 {
            self.ram[(address % 0x800) as usize]
        } else if address < 0x4000 {
            0xCC
        } else if address <= 0x4013 {
            0xFF
        } else if address == 0x4014 {
            0xCC
        } else if address <= 0x4017 {
            0xFF
        } else if address < 0x6000 {
            0xFF
        } else {
            self.mapper_read(address)
        }
    }

    /// Read a little-endian 16-bit value, low byte first, with no page
    /// handling (the following address wraps only at the end of the
    /// address space).
    pub fn read_16(&self, address: u16) -> (r: u16)
        requires
            self.wf(),
        ensures
            r == view_read16(self@, address),
    {
        let lo = self.read(address);
        let hi = self.read(address.wrapping_add(1));
        (lo as u16) | ((hi as u16) << 8)
    }

    /// Read a little-endian 16-bit value the way the indirect-addressing
    /// circuitry does: when the low byte sits at an address ending in
    /// 0xFF, the high byte is fetched from the start of the same page,
    /// not the next one.
    pub fn read_16_bug(&self, address: u16) -> (r: u16)
        requires
            self.wf(),
        ensures
            r == view_read16_pagewrap(self@, address),
    {
        let address_plus_one = (address & 0xFF00) | ((address as u8).wrapping_add(1) as u16);
        let lo = self.read(address);
        let hi = self.read(address_plus_one);
        (lo as u16) | ((hi as u16) << 8)
    }

    /// Write one byte into the single address space, dispatched by range;
    /// writes outside the writable windows are accepted and ignored.
    pub fn write(&mut self, address: u16, value: u8)
        requires
            old(self).wf(),
        ensures
            final(self).wf(),
            final(self)@ == view_write(old(self)@, address, value),
    {
        if address < 0x2000 {
            self.ram.set((address % 0x800) as usize, value);
        } else if (0x4000 <= address && address <= 0x4013) || address == 0x4015 {
            self.apu_registers.set((address - 0x4000) as usize, value);
        } else if address == 0x4014 {
            self.dma_register = value;
        } else if 0x6000 <= address && address < 0x8000 {
            self.cartridge.sram.set((address - 0x6000) as usize, value);
        }
        proof {
            assert(self@ =~= view_write(old(self)@, address, value));
        }
    }
}

/// What a read of the pixel unit's own address space returns: pattern
/// storage below 0x2000, the mirrored name table up to the palette
/// window, and the palette entries above 0x3F00; the 16KB space repeats
/// across the full 16-bit range.
pub open spec fn view_ppu_read(b: BusView, address: u16) -> u8 {
    let addr = address % 0x4000;
    if addr < 0x2000 {
        view_mapper_read(b, addr)
    } else if addr <= 0x3F00 {
        b.ppu_name_table[(addr - 0x2000) % 0x800]
    } else {
        b.ppu_palette[(addr % 32) as int]
    }
}

impl Bus {
    /// Read one byte of the pixel unit's own address space.
    pub fn ppu_read(&self, address: u16) -> (r: u8)
        requires
            self.wf(),
        ensures
            r == view_ppu_read(self@, address),
    {
        let address = address % 0x4000;
        if address < 0x2000 {
            self.mapper_read(address)
        } else if address <= 0x3F00 {
            self.ppu_name_table[((address - 0x2000) % 0x800) as usize]
        } else {
            self.ppu_palette[(address % 32) as usize]
        }
    }
}

/// The page-wrap defect, stated on its own: when the low byte of a
/// 16-bit read sits at the last address of a page, the high byte is read
/// from the first address of that same page, never from the next page.
pub proof fn lemma_read16_pagewrap_same_page(b: BusView, addr: u16)
    requires
        addr & 0xFF == 0xFF,
    ensures
        view_read16_pagewrap(b, addr) == (view_read(b, addr) as u16) | ((view_read(
            b,
            addr & 0xFF00,
        ) as u16) << 8),
{
    assert(addr as u8 == 0xFF && (addr & 0xFF00) | 0 == addr & 0xFF00) by (bit_vector)
        requires
            addr & 0xFF == 0xFF,
    ;
}

} // verus!
