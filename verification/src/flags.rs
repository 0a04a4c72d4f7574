//! The processor's flag set: a fixed 8-bit bitmask of eight independent
//! status flags. Bit 5 ("unused") mirrors a physical pin that always reads 1
//! after any whole-set overwrite; the interpreter enforces that at the two
//! places the hardware does (status pulls and reset).

use vstd::prelude::*;

verus! {

pub const FLAG_CARRY: u8 = 0x01;
pub const FLAG_ZERO: u8 = 0x02;
pub const FLAG_INTERRUPT_DISABLE: u8 = 0x04;
pub const FLAG_DECIMAL_MODE: u8 = 0x08;
pub const FLAG_BREAK: u8 = 0x10;
pub const FLAG_UNUSED: u8 = 0x20;
pub const FLAG_OVERFLOW: u8 = 0x40;
pub const FLAG_NEGATIVE: u8 = 0x80;

/// One byte holding the eight processor status flags.
#[derive(Clone, Copy, PartialEq, Eq, Structural, Debug)]
pub struct Flags {
    pub bits: u8,
}

/// The flag byte `bits` with the flags selected by `mask` set when `value`
/// is true and cleared when it is false.
pub open spec fn spec_set_flag(bits: u8, mask: u8, value: bool) -> u8 {
    if value {
        bits | mask
    } else {
        bits & !mask
    }
}

impl Flags {
    /// True iff at least one of the flags selected by `mask` is set.
    pub open spec fn spec_intersects(self, mask: u8) -> bool {
        self.bits & mask != 0
    }

    pub fn empty() -> (r: Flags)
        ensures
            r.bits == 0,
    {
        Flags { bits: 0 }
    }

    pub fn from_bits(bits: u8) -> (r: Flags)
        ensures
            r.bits == bits,
    {
        Flags { bits }
    }

    pub fn bits(&self) -> (r: u8)
        ensures
            r == self.bits,
    {
        self.bits
    }

    /// Set the flags selected by `mask` when `value` is true, clear them
    /// when it is false; all other flags keep their state.
    pub fn set(&mut self, mask: u8, value: bool)
        ensures
            final(self).bits == spec_set_flag(old(self).bits, mask, value),
    {
        if value {
            self.bits = self.bits | mask;
        } else {
            self.bits = self.bits & !mask;
        }
    }

    /// Set the flags selected by `mask`.
    pub fn insert(&mut self, mask: u8)
        ensures
            final(self).bits == (old(self).bits | mask),
    {
        self.bits = self.bits | mask;
    }

    /// Clear the flags selected by `mask`.
    pub fn remove(&mut self, mask: u8)
        ensures
            final(self).bits == (old(self).bits & !mask),
    {
        self.bits = self.bits & !mask;
    }

    /// True iff at least one of the flags selected by `mask` is set.
    pub fn intersects(&self, mask: u8) -> (r: bool)
        ensures
            r == self.spec_intersects(mask),
    {
        self.bits & mask != 0
    }
}

impl Default for Flags {
    fn default() -> (r: Flags)
        ensures
            r.bits == 0,
    {
        Flags { bits: 0 }
    }
}

} // verus!
