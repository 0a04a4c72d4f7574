//! The instruction descriptor table: immutable per-opcode metadata giving
//! the addressing mode, the encoded instruction length in bytes (0 for the
//! opcode values with no defined advance), the base cycle cost, the extra
//! cycle charged when addressing crosses a memory page, and the mnemonic
//! used by the diagnostic trace. The table is total over all 256 opcode
//! values, the formally undocumented ones included.

use vstd::prelude::*;

verus! {

/// The rule by which an opcode's operand bytes become an effective memory
/// address (or a sentinel, for the modes without a memory operand).
#[derive(Clone, Copy, PartialEq, Eq, Structural, Debug)]
pub enum AddressMode {
    Absolute,
    AbsoluteX,
    AbsoluteY,
    Accumulator,
    Immediate,
    Implied,
    IndexedIndirect,
    Indirect,
    IndirectIndexed,
    Relative,
    ZeroPage,
    ZeroPageX,
    ZeroPageY,
}

/// The addressing mode of opcode `op`.
pub open spec fn spec_instruction_mode(op: u8) -> AddressMode {
    match op {
        0x01 | 0x03 | 0x21 | 0x23 | 0x41 | 0x43 | 0x61 | 0x63 | 0x81 | 0x83 | 0xA1 | 0xA3 | 0xC1 | 0xC3 | 0xE1 | 0xE3 => AddressMode::IndexedIndirect,
        0x04 | 0x05 | 0x06 | 0x07 | 0x24 | 0x25 | 0x26 | 0x27 | 0x44 | 0x45 | 0x46 | 0x47 | 0x64 | 0x65 | 0x66 | 0x67 | 0x84 | 0x85 | 0x86 | 0x87 | 0xA4 | 0xA5 | 0xA6 | 0xA7 | 0xC4 | 0xC5 | 0xC6 | 0xC7 | 0xE4 | 0xE5 | 0xE6 | 0xE7 => AddressMode::ZeroPage,
        0x09 | 0x0B | 0x29 | 0x2B | 0x49 | 0x4B | 0x69 | 0x6B | 0x80 | 0x82 | 0x89 | 0x8B | 0xA0 | 0xA2 | 0xA9 | 0xAB | 0xC0 | 0xC2 | 0xC9 | 0xCB | 0xE0 | 0xE2 | 0xE9 | 0xEB => AddressMode::Immediate,
        0x0A | 0x2A | 0x4A | 0x6A => AddressMode::Accumulator,
        0x0C | 0x0D | 0x0E | 0x0F | 0x20 | 0x2C | 0x2D | 0x2E | 0x2F | 0x4C | 0x4D | 0x4E | 0x4F | 0x6D | 0x6E | 0x6F | 0x8C | 0x8D | 0x8E | 0x8F | 0xAC | 0xAD | 0xAE | 0xAF | 0xCC | 0xCD | 0xCE | 0xCF | 0xEC | 0xED | 0xEE | 0xEF => AddressMode::Absolute,
        0x10 | 0x30 | 0x50 | 0x70 | 0x90 | 0xB0 | 0xD0 | 0xF0 => AddressMode::Relative,
        0x11 | 0x13 | 0x31 | 0x33 | 0x51 | 0x53 | 0x71 | 0x73 | 0x91 | 0x93 | 0xB1 | 0xB3 | 0xD1 | 0xD3 | 0xF1 | 0xF3 => AddressMode::IndirectIndexed,
        0x14 | 0x15 | 0x16 | 0x17 | 0x34 | 0x35 | 0x36 | 0x37 | 0x54 | 0x55 | 0x56 | 0x57 | 0x74 | 0x75 | 0x76 | 0x77 | 0x94 | 0x95 | 0xB4 | 0xB5 | 0xD4 | 0xD5 | 0xD6 | 0xD7 | 0xF4 | 0xF5 | 0xF6 | 0xF7 => AddressMode::ZeroPageX,
        0x19 | 0x1B | 0x39 | 0x3B | 0x59 | 0x5B | 0x79 | 0x7B | 0x99 | 0x9B | 0x9E | 0x9F | 0xB9 | 0xBB | 0xBE | 0xBF | 0xD9 | 0xDB | 0xF9 | 0xFB => AddressMode::AbsoluteY,
        0x1C | 0x1D | 0x1E | 0x1F | 0x3C | 0x3D | 0x3E | 0x3F | 0x5C | 0x5D | 0x5E | 0x5F | 0x7C | 0x7D | 0x7E | 0x7F | 0x9C | 0x9D | 0xBC | 0xBD | 0xDC | 0xDD | 0xDE | 0xDF | 0xFC | 0xFD | 0xFE | 0xFF => AddressMode::AbsoluteX,
        0x6C => AddressMode::Indirect,
        0x96 | 0x97 | 0xB6 | 0xB7 => AddressMode::ZeroPageY,
        _ => AddressMode::Implied,
    }
}

/// The addressing mode of opcode `op`.
pub fn instruction_mode(op: u8) -> (r: AddressMode)
    ensures
        r == spec_instruction_mode(op),
{
    match op {
        0x01 | 0x03 | 0x21 | 0x23 | 0x41 | 0x43 | 0x61 | 0x63 | 0x81 | 0x83 | 0xA1 | 0xA3 | 0xC1 | 0xC3 | 0xE1 | 0xE3 => AddressMode::IndexedIndirect,
        0x04 | 0x05 | 0x06 | 0x07 | 0x24 | 0x25 | 0x26 | 0x27 | 0x44 | 0x45 | 0x46 | 0x47 | 0x64 | 0x65 | 0x66 | 0x67 | 0x84 | 0x85 | 0x86 | 0x87 | 0xA4 | 0xA5 | 0xA6 | 0xA7 | 0xC4 | 0xC5 | 0xC6 | 0xC7 | 0xE4 | 0xE5 | 0xE6 | 0xE7 => AddressMode::ZeroPage,
        0x09 | 0x0B | 0x29 | 0x2B | 0x49 | 0x4B | 0x69 | 0x6B | 0x80 | 0x82 | 0x89 | 0x8B | 0xA0 | 0xA2 | 0xA9 | 0xAB | 0xC0 | 0xC2 | 0xC9 | 0xCB | 0xE0 | 0xE2 | 0xE9 | 0xEB => AddressMode::Immediate,
        0x0A | 0x2A | 0x4A | 0x6A => AddressMode::Accumulator,
        0x0C | 0x0D | 0x0E | 0x0F | 0x20 | 0x2C | 0x2D | 0x2E | 0x2F | 0x4C | 0x4D | 0x4E | 0x4F | 0x6D | 0x6E | 0x6F | 0x8C | 0x8D | 0x8E | 0x8F | 0xAC | 0xAD | 0xAE | 0xAF | 0xCC | 0xCD | 0xCE | 0xCF | 0xEC | 0xED | 0xEE | 0xEF => AddressMode::Absolute,
        0x10 | 0x30 | 0x50 | 0x70 | 0x90 | 0xB0 | 0xD0 | 0xF0 => AddressMode::Relative,
        0x11 | 0x13 | 0x31 | 0x33 | 0x51 | 0x53 | 0x71 | 0x73 | 0x91 | 0x93 | 0xB1 | 0xB3 | 0xD1 | 0xD3 | 0xF1 | 0xF3 => AddressMode::IndirectIndexed,
        0x14 | 0x15 | 0x16 | 0x17 | 0x34 | 0x35 | 0x36 | 0x37 | 0x54 | 0x55 | 0x56 | 0x57 | 0x74 | 0x75 | 0x76 | 0x77 | 0x94 | 0x95 | 0xB4 | 0xB5 | 0xD4 | 0xD5 | 0xD6 | 0xD7 | 0xF4 | 0xF5 | 0xF6 | 0xF7 => AddressMode::ZeroPageX,
        0x19 | 0x1B | 0x39 | 0x3B | 0x59 | 0x5B | 0x79 | 0x7B | 0x99 | 0x9B | 0x9E | 0x9F | 0xB9 | 0xBB | 0xBE | 0xBF | 0xD9 | 0xDB | 0xF9 | 0xFB => AddressMode::AbsoluteY,
        0x1C | 0x1D | 0x1E | 0x1F | 0x3C | 0x3D | 0x3E | 0x3F | 0x5C | 0x5D | 0x5E | 0x5F | 0x7C | 0x7D | 0x7E | 0x7F | 0x9C | 0x9D | 0xBC | 0xBD | 0xDC | 0xDD | 0xDE | 0xDF | 0xFC | 0xFD | 0xFE | 0xFF => AddressMode::AbsoluteX,
        0x6C => AddressMode::Indirect,
        0x96 | 0x97 | 0xB6 | 0xB7 => AddressMode::ZeroPageY,
        _ => AddressMode::Implied,
    }
}

/// The encoded length in bytes of opcode `op`; 0 where the
/// program counter does not advance.
pub open spec fn spec_instruction_size(op: u8) -> u8 {
    match op {
        0x00 | 0x08 | 0x0A | 0x18 | 0x1A | 0x28 | 0x2A | 0x38 | 0x3A | 0x40 | 0x48 | 0x4A | 0x58 | 0x5A | 0x60 | 0x68 | 0x6A | 0x78 | 0x7A | 0x88 | 0x8A | 0x98 | 0x9A | 0xA8 | 0xAA | 0xB8 | 0xBA | 0xC8 | 0xCA | 0xD8 | 0xDA | 0xE8 | 0xEA | 0xF8 | 0xFA => 1,
        0x02 | 0x0B | 0x12 | 0x22 | 0x2B | 0x32 | 0x42 | 0x4B | 0x52 | 0x62 | 0x6B | 0x72 | 0x89 | 0x8B | 0x92 | 0x93 | 0x9B | 0x9C | 0x9E | 0x9F | 0xB2 | 0xBB | 0xC2 | 0xCB | 0xD2 | 0xE2 | 0xF2 => 0,
        0x0C | 0x0D | 0x0E | 0x0F | 0x19 | 0x1B | 0x1C | 0x1D | 0x1E | 0x1F | 0x20 | 0x2C | 0x2D | 0x2E | 0x2F | 0x39 | 0x3B | 0x3C | 0x3D | 0x3E | 0x3F | 0x4C | 0x4D | 0x4E | 0x4F | 0x59 | 0x5B | 0x5C | 0x5D | 0x5E | 0x5F | 0x6C | 0x6D | 0x6E | 0x6F | 0x79 | 0x7B | 0x7C | 0x7D | 0x7E | 0x7F | 0x8C | 0x8D | 0x8E | 0x8F | 0x99 | 0x9D | 0xAC | 0xAD | 0xAE | 0xAF | 0xB9 | 0xBC | 0xBD | 0xBE | 0xBF | 0xCC | 0xCD | 0xCE | 0xCF | 0xD9 | 0xDB | 0xDC | 0xDD | 0xDE | 0xDF | 0xEC | 0xED | 0xEE | 0xEF | 0xF9 | 0xFB | 0xFC | 0xFD | 0xFE | 0xFF => 3,
        _ => 2,
    }
}

/// The encoded length in bytes of opcode `op`; 0 where the
/// program counter does not advance.
pub fn instruction_size(op: u8) -> (r: u8)
    ensures
        r == spec_instruction_size(op),
{
    match op {
        0x00 | 0x08 | 0x0A | 0x18 | 0x1A | 0x28 | 0x2A | 0x38 | 0x3A | 0x40 | 0x48 | 0x4A | 0x58 | 0x5A | 0x60 | 0x68 | 0x6A | 0x78 | 0x7A | 0x88 | 0x8A | 0x98 | 0x9A | 0xA8 | 0xAA | 0xB8 | 0xBA | 0xC8 | 0xCA | 0xD8 | 0xDA | 0xE8 | 0xEA | 0xF8 | 0xFA => 1,
        0x02 | 0x0B | 0x12 | 0x22 | 0x2B | 0x32 | 0x42 | 0x4B | 0x52 | 0x62 | 0x6B | 0x72 | 0x89 | 0x8B | 0x92 | 0x93 | 0x9B | 0x9C | 0x9E | 0x9F | 0xB2 | 0xBB | 0xC2 | 0xCB | 0xD2 | 0xE2 | 0xF2 => 0,
        0x0C | 0x0D | 0x0E | 0x0F | 0x19 | 0x1B | 0x1C | 0x1D | 0x1E | 0x1F | 0x20 | 0x2C | 0x2D | 0x2E | 0x2F | 0x39 | 0x3B | 0x3C | 0x3D | 0x3E | 0x3F | 0x4C | 0x4D | 0x4E | 0x4F | 0x59 | 0x5B | 0x5C | 0x5D | 0x5E | 0x5F | 0x6C | 0x6D | 0x6E | 0x6F | 0x79 | 0x7B | 0x7C | 0x7D | 0x7E | 0x7F | 0x8C | 0x8D | 0x8E | 0x8F | 0x99 | 0x9D | 0xAC | 0xAD | 0xAE | 0xAF | 0xB9 | 0xBC | 0xBD | 0xBE | 0xBF | 0xCC | 0xCD | 0xCE | 0xCF | 0xD9 | 0xDB | 0xDC | 0xDD | 0xDE | 0xDF | 0xEC | 0xED | 0xEE | 0xEF | 0xF9 | 0xFB | 0xFC | 0xFD | 0xFE | 0xFF => 3,
        _ => 2,
    }
}

/// The base cycle cost of opcode `op`.
pub open spec fn spec_instruction_cycles(op: u8) -> u8 {
    match op {
        0x00 | 0x1B | 0x1E | 0x1F | 0x3B | 0x3E | 0x3F | 0x5B | 0x5E | 0x5F | 0x7B | 0x7E | 0x7F | 0xDB | 0xDE | 0xDF | 0xFB | 0xFE | 0xFF => 7,
        0x01 | 0x0E | 0x0F | 0x16 | 0x17 | 0x20 | 0x21 | 0x2E | 0x2F | 0x36 | 0x37 | 0x40 | 0x41 | 0x4E | 0x4F | 0x56 | 0x57 | 0x60 | 0x61 | 0x6E | 0x6F | 0x76 | 0x77 | 0x81 | 0x83 | 0x91 | 0x93 | 0xA1 | 0xA3 | 0xC1 | 0xCE | 0xCF | 0xD6 | 0xD7 | 0xE1 | 0xEE | 0xEF | 0xF6 | 0xF7 => 6,
        0x03 | 0x13 | 0x23 | 0x33 | 0x43 | 0x53 | 0x63 | 0x73 | 0xC3 | 0xD3 | 0xE3 | 0xF3 => 8,
        0x04 | 0x05 | 0x08 | 0x24 | 0x25 | 0x44 | 0x45 | 0x48 | 0x4C | 0x64 | 0x65 | 0x84 | 0x85 | 0x86 | 0x87 | 0xA4 | 0xA5 | 0xA6 | 0xA7 | 0xC4 | 0xC5 | 0xE4 | 0xE5 => 3,
        0x06 | 0x07 | 0x11 | 0x26 | 0x27 | 0x31 | 0x46 | 0x47 | 0x51 | 0x66 | 0x67 | 0x6C | 0x71 | 0x99 | 0x9B | 0x9C | 0x9D | 0x9E | 0x9F | 0xB1 | 0xB3 | 0xC6 | 0xC7 | 0xD1 | 0xE6 | 0xE7 | 0xF1 => 5,
        0x0C | 0x0D | 0x14 | 0x15 | 0x19 | 0x1C | 0x1D | 0x28 | 0x2C | 0x2D | 0x34 | 0x35 | 0x39 | 0x3C | 0x3D | 0x4D | 0x54 | 0x55 | 0x59 | 0x5C | 0x5D | 0x68 | 0x6D | 0x74 | 0x75 | 0x79 | 0x7C | 0x7D | 0x8C | 0x8D | 0x8E | 0x8F | 0x94 | 0x95 | 0x96 | 0x97 | 0xAC | 0xAD | 0xAE | 0xAF | 0xB4 | 0xB5 | 0xB6 | 0xB7 | 0xB9 | 0xBB | 0xBC | 0xBD | 0xBE | 0xBF | 0xCC | 0xCD | 0xD4 | 0xD5 | 0xD9 | 0xDC | 0xDD | 0xEC | 0xED | 0xF4 | 0xF5 | 0xF9 | 0xFC | 0xFD => 4,
        _ => 2,
    }
}

/// The base cycle cost of opcode `op`.
pub fn instruction_cycles(op: u8) -> (r: u8)
    ensures
        r == spec_instruction_cycles(op),
{
    match op {
        0x00 | 0x1B | 0x1E | 0x1F | 0x3B | 0x3E | 0x3F | 0x5B | 0x5E | 0x5F | 0x7B | 0x7E | 0x7F | 0xDB | 0xDE | 0xDF | 0xFB | 0xFE | 0xFF => 7,
        0x01 | 0x0E | 0x0F | 0x16 | 0x17 | 0x20 | 0x21 | 0x2E | 0x2F | 0x36 | 0x37 | 0x40 | 0x41 | 0x4E | 0x4F | 0x56 | 0x57 | 0x60 | 0x61 | 0x6E | 0x6F | 0x76 | 0x77 | 0x81 | 0x83 | 0x91 | 0x93 | 0xA1 | 0xA3 | 0xC1 | 0xCE | 0xCF | 0xD6 | 0xD7 | 0xE1 | 0xEE | 0xEF | 0xF6 | 0xF7 => 6,
        0x03 | 0x13 | 0x23 | 0x33 | 0x43 | 0x53 | 0x63 | 0x73 | 0xC3 | 0xD3 | 0xE3 | 0xF3 => 8,
        0x04 | 0x05 | 0x08 | 0x24 | 0x25 | 0x44 | 0x45 | 0x48 | 0x4C | 0x64 | 0x65 | 0x84 | 0x85 | 0x86 | 0x87 | 0xA4 | 0xA5 | 0xA6 | 0xA7 | 0xC4 | 0xC5 | 0xE4 | 0xE5 => 3,
        0x06 | 0x07 | 0x11 | 0x26 | 0x27 | 0x31 | 0x46 | 0x47 | 0x51 | 0x66 | 0x67 | 0x6C | 0x71 | 0x99 | 0x9B | 0x9C | 0x9D | 0x9E | 0x9F | 0xB1 | 0xB3 | 0xC6 | 0xC7 | 0xD1 | 0xE6 | 0xE7 | 0xF1 => 5,
        0x0C | 0x0D | 0x14 | 0x15 | 0x19 | 0x1C | 0x1D | 0x28 | 0x2C | 0x2D | 0x34 | 0x35 | 0x39 | 0x3C | 0x3D | 0x4D | 0x54 | 0x55 | 0x59 | 0x5C | 0x5D | 0x68 | 0x6D | 0x74 | 0x75 | 0x79 | 0x7C | 0x7D | 0x8C | 0x8D | 0x8E | 0x8F | 0x94 | 0x95 | 0x96 | 0x97 | 0xAC | 0xAD | 0xAE | 0xAF | 0xB4 | 0xB5 | 0xB6 | 0xB7 | 0xB9 | 0xBB | 0xBC | 0xBD | 0xBE | 0xBF | 0xCC | 0xCD | 0xD4 | 0xD5 | 0xD9 | 0xDC | 0xDD | 0xEC | 0xED | 0xF4 | 0xF5 | 0xF9 | 0xFC | 0xFD => 4,
        _ => 2,
    }
}

/// The extra cycles charged when resolving the address of opcode `op`
/// crosses a memory page.
pub open spec fn spec_instruction_page_cycles(op: u8) -> u8 {
    match op {
        0x10 | 0x11 | 0x19 | 0x1C | 0x1D | 0x30 | 0x31 | 0x39 | 0x3C | 0x3D | 0x50 | 0x51 | 0x59 | 0x5C | 0x5D | 0x70 | 0x71 | 0x79 | 0x7C | 0x7D | 0x90 | 0xB0 | 0xB1 | 0xB3 | 0xB9 | 0xBB | 0xBC | 0xBD | 0xBE | 0xBF | 0xD0 | 0xD1 | 0xD9 | 0xDC | 0xDD | 0xF0 | 0xF1 | 0xF9 | 0xFC | 0xFD => 1,
        _ => 0,
    }
}

/// The extra cycles charged when resolving the address of opcode `op`
/// crosses a memory page.
pub fn instruction_page_cycles(op: u8) -> (r: u8)
    ensures
        r == spec_instruction_page_cycles(op),
{
    match op {
        0x10 | 0x11 | 0x19 | 0x1C | 0x1D | 0x30 | 0x31 | 0x39 | 0x3C | 0x3D | 0x50 | 0x51 | 0x59 | 0x5C | 0x5D | 0x70 | 0x71 | 0x79 | 0x7C | 0x7D | 0x90 | 0xB0 | 0xB1 | 0xB3 | 0xB9 | 0xBB | 0xBC | 0xBD | 0xBE | 0xBF | 0xD0 | 0xD1 | 0xD9 | 0xDC | 0xDD | 0xF0 | 0xF1 | 0xF9 | 0xFC | 0xFD => 1,
        _ => 0,
    }
}

/// The mnemonic of opcode `op` as it appears in a diagnostic trace
/// line: four characters, a `*` marking the undocumented opcodes.
pub open spec fn spec_instruction_name(op: u8) -> Seq<char> {
    match op {
        0x00 => " BRK"@,
        0x01 | 0x05 | 0x09 | 0x0D | 0x11 | 0x15 | 0x19 | 0x1D => " ORA"@,
        0x02 | 0x12 | 0x22 | 0x32 | 0x42 | 0x52 | 0x62 | 0x72 | 0x92 | 0xB2 | 0xD2 | 0xF2 => "*HLT"@,
        0x03 | 0x07 | 0x0F | 0x13 | 0x17 | 0x1B | 0x1F => "*SLO"@,
        0x06 | 0x0A | 0x0E | 0x16 | 0x1E => " ASL"@,
        0x08 => " PHP"@,
        0x0B | 0x2B => "*AAC"@,
        0x10 => " BPL"@,
        0x18 => " CLC"@,
        0x20 => " JSR"@,
        0x21 | 0x25 | 0x29 | 0x2D | 0x31 | 0x35 | 0x39 | 0x3D => " AND"@,
        0x23 | 0x27 | 0x2F | 0x33 | 0x37 | 0x3B | 0x3F => "*RLA"@,
        0x24 | 0x2C => " BIT"@,
        0x26 | 0x2A | 0x2E | 0x36 | 0x3E => " ROL"@,
        0x28 => " PLP"@,
        0x30 => " BMI"@,
        0x38 => " SEC"@,
        0x40 => " RTI"@,
        0x41 | 0x45 | 0x49 | 0x4D | 0x51 | 0x55 | 0x59 | 0x5D => " EOR"@,
        0x43 | 0x47 | 0x4F | 0x53 | 0x57 | 0x5B | 0x5F => "*SRE"@,
        0x46 | 0x4A | 0x4E | 0x56 | 0x5E => " LSR"@,
        0x48 => " PHA"@,
        0x4B => "*ASR"@,
        0x4C | 0x6C => " JMP"@,
        0x50 => " BVC"@,
        0x58 => " CLI"@,
        0x60 => " RTS"@,
        0x61 | 0x65 | 0x69 | 0x6D | 0x71 | 0x75 | 0x79 | 0x7D => " ADC"@,
        0x63 | 0x67 | 0x6F | 0x73 | 0x77 | 0x7B | 0x7F => "*RRA"@,
        0x66 | 0x6A | 0x6E | 0x76 | 0x7E => " ROR"@,
        0x68 => " PLA"@,
        0x6B => "*ARR"@,
        0x70 => " BVS"@,
        0x78 => " SEI"@,
        0x81 | 0x85 | 0x8D | 0x91 | 0x95 | 0x99 | 0x9D => " STA"@,
        0x83 | 0x87 | 0x8F | 0x97 => "*SAX"@,
        0x84 | 0x8C | 0x94 => " STY"@,
        0x86 | 0x8E | 0x96 => " STX"@,
        0x88 => " DEY"@,
        0x8A => " TXA"@,
        0x8B | 0x93 | 0x9B | 0x9C | 0x9E | 0x9F | 0xBB => " ???"@,
        0x90 => " BCC"@,
        0x98 => " TYA"@,
        0x9A => " TXS"@,
        0xA0 | 0xA4 | 0xAC | 0xB4 | 0xBC => " LDY"@,
        0xA1 | 0xA5 | 0xA9 | 0xAD | 0xB1 | 0xB5 | 0xB9 | 0xBD => " LDA"@,
        0xA2 | 0xA6 | 0xAE | 0xB6 | 0xBE => " LDX"@,
        0xA3 | 0xA7 | 0xAF | 0xB3 | 0xB7 | 0xBF => "*LAX"@,
        0xA8 => " TAY"@,
        0xAA => " TAX"@,
        0xAB => "*ATX"@,
        0xB0 => " BCS"@,
        0xB8 => " CLV"@,
        0xBA => " TSX"@,
        0xC0 | 0xC4 | 0xCC => " CPY"@,
        0xC1 | 0xC5 | 0xC9 | 0xCD | 0xD1 | 0xD5 | 0xD9 | 0xDD => " CMP"@,
        0xC3 | 0xC7 | 0xCF | 0xD3 | 0xD7 | 0xDB | 0xDF => "*DCP"@,
        0xC6 | 0xCE | 0xD6 | 0xDE => " DEC"@,
        0xC8 => " INY"@,
        0xCA => " DEX"@,
        0xCB => "*AXS"@,
        0xD0 => " BNE"@,
        0xD8 => " CLD"@,
        0xE0 | 0xE4 | 0xEC => " CPX"@,
        0xE1 | 0xE5 | 0xE9 | 0xED | 0xF1 | 0xF5 | 0xF9 | 0xFD => " SBC"@,
        0xE3 | 0xE7 | 0xEF | 0xF3 | 0xF7 | 0xFB | 0xFF => "*ISB"@,
        0xE6 | 0xEE | 0xF6 | 0xFE => " INC"@,
        0xE8 => " INX"@,
        0xEA => " NOP"@,
        0xEB => "*SBC"@,
        0xF0 => " BEQ"@,
        0xF8 => " SED"@,
        _ => "*NOP"@,
    }
}

/// The mnemonic of opcode `op` as it appears in a diagnostic trace
/// line: four characters, a `*` marking the undocumented opcodes.
pub fn instruction_name(op: u8) -> (r: &'static str)
    ensures
        r@ == spec_instruction_name(op),
{
    match op {
        0x00 => " BRK",
        0x01 | 0x05 | 0x09 | 0x0D | 0x11 | 0x15 | 0x19 | 0x1D => " ORA",
        0x02 | 0x12 | 0x22 | 0x32 | 0x42 | 0x52 | 0x62 | 0x72 | 0x92 | 0xB2 | 0xD2 | 0xF2 => "*HLT",
        0x03 | 0x07 | 0x0F | 0x13 | 0x17 | 0x1B | 0x1F => "*SLO",
        0x06 | 0x0A | 0x0E | 0x16 | 0x1E => " ASL",
        0x08 => " PHP",
        0x0B | 0x2B => "*AAC",
        0x10 => " BPL",
        0x18 => " CLC",
        0x20 => " JSR",
        0x21 | 0x25 | 0x29 | 0x2D | 0x31 | 0x35 | 0x39 | 0x3D => " AND",
        0x23 | 0x27 | 0x2F | 0x33 | 0x37 | 0x3B | 0x3F => "*RLA",
        0x24 | 0x2C => " BIT",
        0x26 | 0x2A | 0x2E | 0x36 | 0x3E => " ROL",
        0x28 => " PLP",
        0x30 => " BMI",
        0x38 => " SEC",
        0x40 => " RTI",
        0x41 | 0x45 | 0x49 | 0x4D | 0x51 | 0x55 | 0x59 | 0x5D => " EOR",
        0x43 | 0x47 | 0x4F | 0x53 | 0x57 | 0x5B | 0x5F => "*SRE",
        0x46 | 0x4A | 0x4E | 0x56 | 0x5E => " LSR",
        0x48 => " PHA",
        0x4B => "*ASR",
        0x4C | 0x6C => " JMP",
        0x50 => " BVC",
        0x58 => " CLI",
        0x60 => " RTS",
        0x61 | 0x65 | 0x69 | 0x6D | 0x71 | 0x75 | 0x79 | 0x7D => " ADC",
        0x63 | 0x67 | 0x6F | 0x73 | 0x77 | 0x7B | 0x7F => "*RRA",
        0x66 | 0x6A | 0x6E | 0x76 | 0x7E => " ROR",
        0x68 => " PLA",
        0x6B => "*ARR",
        0x70 => " BVS",
        0x78 => " SEI",
        0x81 | 0x85 | 0x8D | 0x91 | 0x95 | 0x99 | 0x9D => " STA",
        0x83 | 0x87 | 0x8F | 0x97 => "*SAX",
        0x84 | 0x8C | 0x94 => " STY",
        0x86 | 0x8E | 0x96 => " STX",
        0x88 => " DEY",
        0x8A => " TXA",
        0x8B | 0x93 | 0x9B | 0x9C | 0x9E | 0x9F | 0xBB => " ???",
        0x90 => " BCC",
        0x98 => " TYA",
        0x9A => " TXS",
        0xA0 | 0xA4 | 0xAC | 0xB4 | 0xBC => " LDY",
        0xA1 | 0xA5 | 0xA9 | 0xAD | 0xB1 | 0xB5 | 0xB9 | 0xBD => " LDA",
        0xA2 | 0xA6 | 0xAE | 0xB6 | 0xBE => " LDX",
        0xA3 | 0xA7 | 0xAF | 0xB3 | 0xB7 | 0xBF => "*LAX",
        0xA8 => " TAY",
        0xAA => " TAX",
        0xAB => "*ATX",
        0xB0 => " BCS",
        0xB8 => " CLV",
        0xBA => " TSX",
        0xC0 | 0xC4 | 0xCC => " CPY",
        0xC1 | 0xC5 | 0xC9 | 0xCD | 0xD1 | 0xD5 | 0xD9 | 0xDD => " CMP",
        0xC3 | 0xC7 | 0xCF | 0xD3 | 0xD7 | 0xDB | 0xDF => "*DCP",
        0xC6 | 0xCE | 0xD6 | 0xDE => " DEC",
        0xC8 => " INY",
        0xCA => " DEX",
        0xCB => "*AXS",
        0xD0 => " BNE",
        0xD8 => " CLD",
        0xE0 | 0xE4 | 0xEC => " CPX",
        0xE1 | 0xE5 | 0xE9 | 0xED | 0xF1 | 0xF5 | 0xF9 | 0xFD => " SBC",
        0xE3 | 0xE7 | 0xEF | 0xF3 | 0xF7 | 0xFB | 0xFF => "*ISB",
        0xE6 | 0xEE | 0xF6 | 0xFE => " INC",
        0xE8 => " INX",
        0xEA => " NOP",
        0xEB => "*SBC",
        0xF0 => " BEQ",
        0xF8 => " SED",
        _ => "*NOP",
    }
}

/// Bounds read off the descriptor table: base cycle costs lie between 2
/// and 8, the page-cross penalty is at most 1, and no instruction is
/// longer than 3 bytes.
pub proof fn lemma_descriptor_bounds(op: u8)
    ensures
        2 <= spec_instruction_cycles(op) <= 8,
        spec_instruction_page_cycles(op) <= 1,
        spec_instruction_size(op) <= 3,
{
}

} // verus!
