//! The cartridge image: program storage, pattern/graphics storage and
//! persistent save storage, plus the mapper-type and mirroring-mode tags,
//! and the parser that builds one from the bytes of an external ROM image
//! (fixed 16-byte header: 4-byte magic, program-bank count, pattern-bank
//! count, two flag bytes, save-RAM-bank count, 7 bytes of padding).

use vstd::prelude::*;

verus! {

/// The 4-byte big-endian magic number that opens a well-formed ROM image.
pub const ROM_MAGIC: u32 = 0x4E45531A;

/// Size in bytes of one program-storage bank.
pub const PRG_BANK_SIZE: usize = 16384;

/// Size in bytes of one pattern-storage bank.
pub const CHR_BANK_SIZE: usize = 8192;

/// Size in bytes of the save storage.
pub const SRAM_SIZE: usize = 8192;

/// Size in bytes of the optional trainer block between header and program
/// storage, skipped when header flag bit 2 announces it.
pub const TRAINER_SIZE: usize = 512;

/// A cartridge: three byte arrays plus the mapper and mirroring tags.
/// Immutable after load except for the save storage.
pub struct Cartridge {
    pub prg: Vec<u8>,
    pub chr: Vec<u8>,
    pub sram: Vec<u8>,
    pub mapper_type: u8,
    pub mirror_mode: u8,
    pub battery_present: bool,
}

/// The mathematical model of a cartridge: its storages as sequences.
pub struct CartridgeView {
    pub prg: Seq<u8>,
    pub chr: Seq<u8>,
    pub sram: Seq<u8>,
    pub mapper_type: u8,
    pub mirror_mode: u8,
    pub battery_present: bool,
}

impl View for Cartridge {
    type V = CartridgeView;

    open spec fn view(&self) -> CartridgeView {
        CartridgeView {
            prg: self.prg@,
            chr: self.chr@,
            sram: self.sram@,
            mapper_type: self.mapper_type,
            mirror_mode: self.mirror_mode,
            battery_present: self.battery_present,
        }
    }
}

impl Cartridge {
    /// A cartridge the bus can dispatch into: at least one full program
    /// bank, one full pattern bank, and the fixed-size save storage.
    pub open spec fn wf(&self) -> bool {
        self.prg@.len() >= PRG_BANK_SIZE && self.chr@.len() >= CHR_BANK_SIZE && self.sram@.len()
            == SRAM_SIZE
    }
}

/// The fixed 16-byte header of an external ROM image.
pub struct RomHeader {
    pub magic: u32,
    pub prg_count: u8,
    pub chr_count: u8,
    pub control1: u8,
    pub control2: u8,
    pub ram_count: u8,
}

/// Why an external ROM image was rejected at load time. A malformed image
/// is a fatal load error, reported before any core state is constructed.
#[derive(Clone, Copy, PartialEq, Eq, Structural, Debug)]
pub enum RomError {
    /// The image is shorter than its header and the banks it announces.
    Truncated,
    /// The magic number does not open the image.
    BadMagic,
    /// The image announces no program bank, so the bus would have no
    /// program storage to dispatch into.
    NoProgram,
}

/// The 4-byte big-endian magic number at the head of `bytes`.
pub open spec fn spec_rom_magic(bytes: Seq<u8>) -> u32 {
    ((bytes[0] as u32) << 24) | ((bytes[1] as u32) << 16) | ((bytes[2] as u32) << 8) | (
    bytes[3] as u32)
}

/// Offset of the program storage in an image with header flags `control1`:
/// the header, then the trainer block when flag bit 2 announces one.
pub open spec fn spec_rom_data_start(control1: u8) -> int {
    16 + if control1 & 4 == 4 {
        TRAINER_SIZE as int
    } else {
        0
    }
}

/// The mapper-type tag encoded in the two header flag bytes: low nibble
/// from the high nibble of the first, high nibble from the second.
pub open spec fn spec_mapper_type(control1: u8, control2: u8) -> u8 {
    (control1 >> 4) | ((control2 >> 4) << 4)
}

/// The mirroring-mode tag encoded in the first header flag byte.
pub open spec fn spec_mirror_mode(control1: u8) -> u8 {
    (control1 & 1) | (((control1 >> 3) & 1) << 1)
}

/// What parsing the bytes of an external ROM image yields: the cartridge,
/// or the reason the image is rejected. Pattern storage falls back to one
/// bank of zeroes when the image announces none; save storage always
/// starts zeroed.
pub open spec fn spec_parse_rom(bytes: Seq<u8>) -> Result<CartridgeView, RomError> {
    if bytes.len() < 4 {
        Err(RomError::Truncated)
    } else if spec_rom_magic(bytes) != ROM_MAGIC {
        Err(RomError::BadMagic)
    } else if bytes.len() < 16 {
        Err(RomError::Truncated)
    } else if bytes[4] == 0 {
        Err(RomError::NoProgram)
    } else {
        let start = spec_rom_data_start(bytes[6]);
        let prg_len = bytes[4] * PRG_BANK_SIZE;
        let chr_len = bytes[5] * CHR_BANK_SIZE;
        if bytes.len() < start + prg_len + chr_len {
            Err(RomError::Truncated)
        } else {
            Ok(
                CartridgeView {
                    prg: bytes.subrange(start, start + prg_len),
                    chr: if bytes[5] == 0 {
                        Seq::new(CHR_BANK_SIZE as nat, |i: int| 0u8)
                    } else {
                        bytes.subrange(start + prg_len, start + prg_len + chr_len)
                    },
                    sram: Seq::new(SRAM_SIZE as nat, |i: int| 0u8),
                    mapper_type: spec_mapper_type(bytes[6], bytes[7]),
                    mirror_mode: spec_mirror_mode(bytes[6]),
                    battery_present: (bytes[6] >> 1) & 1 == 1,
                },
            )
        }
    }
}

/// Read the fixed 16-byte header from the front of an image, rejecting a
/// short image or a bad magic number.
pub fn parse_header(bytes: &Vec<u8>) -> (r: Result<RomHeader, RomError>)
    ensures
        match r {
            Ok(h) => bytes@.len() >= 16 && h.magic == spec_rom_magic(bytes@) && h.magic
                == ROM_MAGIC && h.prg_count == bytes@[4] && h.chr_count == bytes@[5] && h.control1
                == bytes@[6] && h.control2 == bytes@[7] && h.ram_count == bytes@[8],
            Err(RomError::Truncated) => bytes@.len() < 4 || (spec_rom_magic(bytes@) == ROM_MAGIC
                && bytes@.len() < 16),
            Err(RomError::BadMagic) => bytes@.len() >= 4 && spec_rom_magic(bytes@) != ROM_MAGIC,
            Err(_) => false,
        },
{
    if bytes.len() < 4 {
        return Err(RomError::Truncated);
    }
    let magic: u32 = ((bytes[0] as u32) << 24) | ((bytes[1] as u32) << 16) | ((bytes[2] as u32)
        << 8) | (bytes[3] as u32);
    if magic != ROM_MAGIC {
        return Err(RomError::BadMagic);
    }
    if bytes.len() < 16 {
        return Err(RomError::Truncated);
    }
    Ok(
        RomHeader {
            magic,
            prg_count: bytes[4],
            chr_count: bytes[5],
            control1: bytes[6],
            control2: bytes[7],
            ram_count: bytes[8],
        },
    )
}

/// Copy `len` bytes of `bytes` starting at `start` into a fresh vector.
fn copy_range(bytes: &Vec<u8>, start: usize, len: usize) -> (r: Vec<u8>)
    requires
        start + len <= bytes@.len(),
    ensures
        r@ == bytes@.subrange(start as int, start + len),
{
    let total = bytes.len();
    let mut out: Vec<u8> = Vec::new();
    let mut i: usize = 0;
    while i < len
        invariant
            i <= len,
            start + len <= total == bytes@.len(),
            out@ == bytes@.subrange(start as int, start + i),
        decreases len - i,
    {
        out.push(bytes[start + i]);
        proof {
            assert(out@ =~= bytes@.subrange(start as int, start + i + 1));
        }
        i = i + 1;
    }
    out
}

/// A vector of `len` zero bytes.
pub(crate) fn zero_bytes(len: usize) -> (r: Vec<u8>)
    ensures
        r@ == Seq::new(len as nat, |i: int| 0u8),
{
    let mut out: Vec<u8> = Vec::new();
    let mut i: usize = 0;
    while i < len
        invariant
            i <= len,
            out@ == Seq::new(i as nat, |j: int| 0u8),
        decreases len - i,
    {
        out.push(0u8);
        proof {
            assert(out@ =~= Seq::new((i + 1) as nat, |j: int| 0u8));
        }
        i = i + 1;
    }
    out
}

/// Build the cartridge entity from the bytes of an external ROM image.
/// A malformed image (short, bad magic, or announcing no program bank) is
/// rejected; the core never observes a partially loaded cartridge.
pub fn parse_rom(bytes: &Vec<u8>) -> (r: Result<Cartridge, RomError>)
    ensures
        match r {
            Ok(c) => spec_parse_rom(bytes@) == Ok::<CartridgeView, RomError>(c@) && c.wf(),
            Err(e) => spec_parse_rom(bytes@) == Err::<CartridgeView, RomError>(e),
        },
{
    let header = match parse_header(bytes) {
        Ok(h) => h,
        Err(e) => {
            return Err(e);
        },
    };
    if header.prg_count == 0 {
        return Err(RomError::NoProgram);
    }
    let start: usize = if header.control1 & 4 == 4 {
        16 + TRAINER_SIZE
    } else {
        16
    };
    let prg_len: usize = (header.prg_count as usize) * PRG_BANK_SIZE;
    let chr_len: usize = (header.chr_count as usize) * CHR_BANK_SIZE;
    if bytes.len() < start + prg_len + chr_len {
        return Err(RomError::Truncated);
    }
    let prg = copy_range(bytes, start, prg_len);
    let chr = if header.chr_count == 0 {
        zero_bytes(CHR_BANK_SIZE)
    } else {
        copy_range(bytes, start + prg_len, chr_len)
    };
    let sram = zero_bytes(SRAM_SIZE);
    let mapper_type = (header.control1 >> 4) | ((header.control2 >> 4) << 4);
    let mirror_mode = (header.control1 & 1) | (((header.control1 >> 3) & 1) << 1);
    let battery_present = (header.control1 >> 1) & 1 == 1;
    let cart = Cartridge { prg, chr, sram, mapper_type, mirror_mode, battery_present };
    proof {
        assert(spec_parse_rom(bytes@) =~= Ok::<CartridgeView, RomError>(cart@));
    }
    Ok(cart)
}

} // verus!
