//! The processor core: owns the register and flag state; on each step it
//! fetches the opcode at the program counter, resolves the effective
//! address for the opcode's addressing mode, advances the program counter,
//! charges the base cycle cost (plus the page-cross penalty where the
//! opcode is sensitive to it), executes the semantic action, and reports
//! whether execution continues. Every transition is pinned down by the
//! spec-level interpreter `spec_step`.

use vstd::prelude::*;

use crate::bus::{Bus, BusView, view_read, view_read16, view_read16_pagewrap, view_write};
use crate::flags::{
    spec_set_flag, Flags, FLAG_CARRY, FLAG_DECIMAL_MODE, FLAG_INTERRUPT_DISABLE, FLAG_NEGATIVE,
    FLAG_OVERFLOW, FLAG_UNUSED, FLAG_ZERO,
};
use crate::optable::{
    instruction_cycles, instruction_mode, instruction_page_cycles, instruction_size,
    lemma_descriptor_bounds, spec_instruction_cycles, spec_instruction_mode,
    spec_instruction_page_cycles, spec_instruction_size, AddressMode,
};
use vstd::wrapping::{u16_specs, u8_specs};

verus! {

/// The core clock rate in cycles per second, used by the driver to turn a
/// wall-clock budget into a cycle budget.
pub const CPU_FREQUENCY: u32 = 1789773;

/// The register file: program counter, stack pointer, accumulator, the two
/// index registers, the flag set, the monotonically increasing cycle
/// counter, and the count of opcode values that had no defined action
/// (recorded as a non-fatal diagnostic, per the error-handling contract).
pub struct CPU {
    pub cycles: u64,
    pub pc: u16,
    pub sp: u8,
    pub a: u8,
    pub x: u8,
    pub y: u8,
    pub flags: Flags,
    pub unhandled_opcodes: u64,
}

/// True iff the two addresses lie on different 256-byte memory pages.
pub open spec fn spec_pages_differ(a: u16, b: u16) -> bool {
    a & 0xFF00 != b & 0xFF00
}

/// True iff the two addresses lie on different 256-byte memory pages.
pub fn pages_differ(a: u16, b: u16) -> (r: bool)
    ensures
        r == spec_pages_differ(a, b),
{
    a & 0xFF00 != b & 0xFF00
}

/// The flag byte after recomputing the zero and negative flags from a
/// result byte: zero iff the byte is 0, negative iff its bit 7 is set.
pub open spec fn spec_zn_bits(bits: u8, v: u8) -> u8 {
    spec_set_flag(spec_set_flag(bits, FLAG_ZERO, v == 0), FLAG_NEGATIVE, (v & 0x80) != 0)
}

/// The flag set after recomputing the zero and negative flags from `v`.
pub open spec fn spec_zn(f: Flags, v: u8) -> Flags {
    Flags { bits: spec_zn_bits(f.bits, v) }
}

/// The carry flag as the 0-or-1 summand it contributes to an addition.
pub open spec fn spec_carry_bit(f: Flags) -> u8 {
    if f.spec_intersects(FLAG_CARRY) {
        1u8
    } else {
        0u8
    }
}

/// State after pushing one byte: it lands in the fixed 256-byte stack
/// window at 0x0100 plus the stack pointer, which then decrements with
/// unchecked 8-bit wraparound.
pub open spec fn spec_push(c: CPU, b: BusView, v: u8) -> (CPU, BusView) {
    (
        CPU { sp: u8_specs::wrapping_sub(c.sp, 1), ..c },
        view_write(b, (0x100 + c.sp) as u16, v),
    )
}

/// State after pulling one byte: the stack pointer increments with
/// unchecked 8-bit wraparound, then the byte is read from the window.
pub open spec fn spec_pull(c: CPU, b: BusView) -> (CPU, u8) {
    let sp2 = u8_specs::wrapping_add(c.sp, 1);
    (CPU { sp: sp2, ..c }, view_read(b, (0x100 + sp2) as u16))
}

/// State after pushing a 16-bit value: high byte first, then low byte.
pub open spec fn spec_push16(c: CPU, b: BusView, v: u16) -> (CPU, BusView) {
    let hi = (v >> 8) as u8;
    let lo = (v & 0xFF) as u8;
    let (c1, b1) = spec_push(c, b, hi);
    spec_push(c1, b1, lo)
}

/// State after pulling a 16-bit value: low byte first, then high byte.
pub open spec fn spec_pull16(c: CPU, b: BusView) -> (CPU, u16) {
    let (c1, lo) = spec_pull(c, b);
    let (c2, hi) = spec_pull(c1, b);
    (c2, ((hi as u16) << 8) | (lo as u16))
}

/// State after a taken branch: the program counter moves to the target;
/// taking the branch costs one extra cycle, and one more when the target
/// lies on a different memory page than the instruction that follows the
/// branch (whose address the program counter already holds here).
pub open spec fn spec_branch(c: CPU, address: u16) -> CPU {
    CPU {
        pc: address,
        cycles: (c.cycles + 1 + if spec_pages_differ(c.pc, address) {
            1int
        } else {
            0int
        }) as u64,
        ..c
    }
}

/// The flag set after a non-storing subtract: zero and negative from the
/// wrapped difference, carry iff the register is at least the operand
/// (unsigned).
pub open spec fn spec_compare(f: Flags, a: u8, b: u8) -> Flags {
    Flags {
        bits: spec_set_flag(
            spec_zn_bits(f.bits, u8_specs::wrapping_sub(a, b)),
            FLAG_CARRY,
            a >= b,
        ),
    }
}

/// Registers after add-with-carry: the 8-bit wrapped sum of accumulator,
/// operand and carry-in; carry-out iff the unsigned 9-bit sum exceeds
/// 255; overflow iff the sign bits of the two summands agree and the sign
/// bit of the result differs from them; zero and negative from the result.
pub open spec fn spec_adc(c: CPU, v: u8) -> CPU {
    let a = c.a;
    let carry = spec_carry_bit(c.flags);
    let r = u8_specs::wrapping_add(u8_specs::wrapping_add(a, v), carry);
    let bits1 = spec_zn_bits(c.flags.bits, r);
    let bits2 = spec_set_flag(bits1, FLAG_CARRY, a + v + carry > 0xFF);
    let bits3 = spec_set_flag(
        bits2,
        FLAG_OVERFLOW,
        ((a ^ v) & 0x80) == 0 && ((a ^ r) & 0x80) != 0,
    );
    CPU { a: r, flags: Flags { bits: bits3 }, ..c }
}

/// Registers after subtract-with-carry: borrow is the complement of the
/// carry flag; the result is the 8-bit wrapped difference; carry-out iff
/// no borrow out of the full difference; overflow by the two's-complement
/// test applied to the accumulator, the operand and the result.
pub open spec fn spec_sbc(c: CPU, v: u8) -> CPU {
    let a = c.a;
    let carry = spec_carry_bit(c.flags);
    let borrow: u8 = (1 - carry) as u8;
    let r = u8_specs::wrapping_sub(u8_specs::wrapping_sub(a, v), borrow);
    let bits1 = spec_zn_bits(c.flags.bits, r);
    let bits2 = spec_set_flag(bits1, FLAG_CARRY, a - v - borrow >= 0);
    let bits3 = spec_set_flag(
        bits2,
        FLAG_OVERFLOW,
        ((a ^ v) & 0x80) != 0 && ((a ^ r) & 0x80) != 0,
    );
    CPU { a: r, flags: Flags { bits: bits3 }, ..c }
}

/// Shift left: carry receives the bit shifted out of bit 7; zero and
/// negative from the shifted value. Returns the shifted value and the
/// new flag byte.
pub open spec fn spec_asl(bits: u8, v: u8) -> (u8, u8) {
    let bits1 = spec_set_flag(bits, FLAG_CARRY, ((v >> 7) & 1) > 0);
    let v2 = v << 1;
    (v2, spec_zn_bits(bits1, v2))
}

/// Rotate left: the old carry feeds bit 0; carry receives the bit shifted
/// out of bit 7.
pub open spec fn spec_rol(bits: u8, v: u8, carry_in: u8) -> (u8, u8) {
    let bits1 = spec_set_flag(bits, FLAG_CARRY, ((v >> 7) & 1) > 0);
    let v2 = (v << 1) | carry_in;
    (v2, spec_zn_bits(bits1, v2))
}

/// Shift right: carry receives the bit shifted out of bit 0.
pub open spec fn spec_lsr(bits: u8, v: u8) -> (u8, u8) {
    let bits1 = spec_set_flag(bits, FLAG_CARRY, (v & 1) > 0);
    let v2 = v >> 1;
    (v2, spec_zn_bits(bits1, v2))
}

/// Rotate right: the old carry feeds bit 7; carry receives the bit
/// shifted out of bit 0.
pub open spec fn spec_ror(bits: u8, v: u8, carry_in: u8) -> (u8, u8) {
    let bits1 = spec_set_flag(bits, FLAG_CARRY, (v & 1) > 0);
    let v2 = (v >> 1) | (carry_in << 7);
    (v2, spec_zn_bits(bits1, v2))
}

impl CPU {
    /// A core at power-on, before the reset transition: everything zeroed.
    pub fn new() -> (r: CPU)
        ensures
            r == (CPU {
                cycles: 0,
                pc: 0,
                sp: 0,
                a: 0,
                x: 0,
                y: 0,
                flags: Flags { bits: 0 },
                unhandled_opcodes: 0,
            }),
    {
        CPU {
            cycles: 0,
            pc: 0,
            sp: 0,
            a: 0,
            x: 0,
            y: 0,
            flags: Flags::empty(),
            unhandled_opcodes: 0,
        }
    }

    /// The reset transition: the program counter is loaded from the
    /// little-endian 16-bit reset vector at 0xFFFC, the stack pointer
    /// takes its fixed post-reset value, and the interrupt-disable and
    /// always-set flags are asserted; all other registers keep their
    /// power-on state.
    pub fn reset(&mut self, bus: &mut Bus)
        requires
            old(bus).wf(),
        ensures
            *final(bus) == *old(bus),
            *final(self) == (CPU {
                pc: view_read16(old(bus)@, 0xFFFC),
                sp: 0xFD,
                flags: Flags { bits: FLAG_UNUSED | FLAG_INTERRUPT_DISABLE },
                ..*old(self)
            }),
    {
        self.pc = bus.read_16(0xFFFC);
        self.sp = 0xFD;
        self.flags = Flags::from_bits(FLAG_UNUSED | FLAG_INTERRUPT_DISABLE);
    }

    /// Set the zero flag iff the value is 0.
    pub fn set_z_flag(&mut self, v: u8)
        ensures
            *final(self) == (CPU {
                flags: Flags { bits: spec_set_flag(old(self).flags.bits, FLAG_ZERO, v == 0) },
                ..*old(self)
            }),
    {
        self.flags.set(FLAG_ZERO, v == 0);
    }

    /// Set the negative flag iff the value's bit 7 is set.
    pub fn set_n_flag(&mut self, v: u8)
        ensures
            *final(self) == (CPU {
                flags: Flags {
                    bits: spec_set_flag(old(self).flags.bits, FLAG_NEGATIVE, (v & 0x80) != 0),
                },
                ..*old(self)
            }),
    {
        self.flags.set(FLAG_NEGATIVE, (v & 0x80) != 0);
    }

    /// Recompute the zero and the negative flag from a result byte.
    pub fn set_zn_flag(&mut self, v: u8)
        ensures
            *final(self) == (CPU {
                flags: Flags { bits: spec_zn_bits(old(self).flags.bits, v) },
                ..*old(self)
            }),
    {
        self.set_z_flag(v);
        self.set_n_flag(v);
    }

    /// Push one byte onto the stack window; the stack pointer wraps
    /// modulo 256 without signaling.
    pub fn push(&mut self, bus: &mut Bus, v: u8)
        requires
            old(bus).wf(),
        ensures
            final(bus).wf(),
            (*final(self), final(bus)@) == spec_push(*old(self), old(bus)@, v),
    {
        let sp = self.sp as u16;
        bus.write(0x100 + sp, v);
        self.sp = self.sp.wrapping_sub(1);
    }

    /// Pull one byte from the stack window; the stack pointer wraps
    /// modulo 256 without signaling.
    pub fn pull(&mut self, bus: &Bus) -> (r: u8)
        requires
            bus.wf(),
        ensures
            (*final(self), r) == spec_pull(*old(self), bus@),
    {
        self.sp = self.sp.wrapping_add(1);
        let sp = self.sp as u16;
        bus.read(0x100 + sp)
    }

    /// Push a 16-bit value: high byte, then low byte.
    pub fn push_16(&mut self, bus: &mut Bus, v: u16)
        requires
            old(bus).wf(),
        ensures
            final(bus).wf(),
            (*final(self), final(bus)@) == spec_push16(*old(self), old(bus)@, v),
    {
        let hi = (v >> 8) as u8;
        let lo = (v & 0xFF) as u8;
        self.push(bus, hi);
        self.push(bus, lo);
    }

    /// Pull a 16-bit value: low byte, then high byte.
    pub fn pull_16(&mut self, bus: &Bus) -> (r: u16)
        requires
            bus.wf(),
        ensures
            (*final(self), r) == spec_pull16(*old(self), bus@),
    {
        let lo = self.pull(bus);
        let hi = self.pull(bus);
        ((hi as u16) << 8) | (lo as u16)
    }

    /// Take a branch to `address`: one extra cycle, and a second when the
    /// target lies on a different page than the following instruction.
    pub fn branch_to(&mut self, address: u16)
        requires
            old(self).cycles + 2 <= u64::MAX,
        ensures
            *final(self) == spec_branch(*old(self), address),
    {
        let prev_pc = self.pc;
        self.pc = address;
        self.cycles = self.cycles + 1;
        if pages_differ(prev_pc, address) {
            self.cycles = self.cycles + 1;
        }
    }

    /// The non-storing subtract behind the compare family: zero and
    /// negative from the difference, carry iff `a >= b` unsigned.
    pub fn compare(&mut self, a: u8, b: u8)
        ensures
            *final(self) == (CPU { flags: spec_compare(old(self).flags, a, b), ..*old(self) }),
    {
        self.set_zn_flag(a.wrapping_sub(b));
        self.flags.set(FLAG_CARRY, a >= b);
    }

    /// Resolve the effective address of `opcode` per its addressing mode,
    /// reading operand bytes through the bus; address arithmetic wraps
    /// within the 16-bit address space (and within the zero page for the
    /// zero-page indexed modes). With `side_effects` the page-cross
    /// penalty, where the resolution crossed a page and the opcode is
    /// sensitive to it, is charged to the cycle counter; without, the
    /// core is left untouched (the trace renderer resolves addresses
    /// without charging for them).
    pub fn get_address(&mut self, bus: &Bus, opcode: u8, side_effects: bool) -> (r: u16)
        requires
            bus.wf(),
            side_effects ==> old(self).cycles + 1 <= u64::MAX,
        ensures
            r == spec_get_address(*old(self), bus@, opcode).0,
            *final(self) == (if side_effects && spec_get_address(*old(self), bus@, opcode).1 {
                CPU {
                    cycles: (old(self).cycles + spec_instruction_page_cycles(opcode)) as u64,
                    ..*old(self)
                }
            } else {
                *old(self)
            }),
    {
        proof {
            lemma_descriptor_bounds(opcode);
        }
        let address_mode = instruction_mode(opcode);
        let mut page_crossed = false;
        let address: u16 = match address_mode {
            AddressMode::Absolute => bus.read_16(self.pc.wrapping_add(1)),
            AddressMode::AbsoluteX => {
                let address = bus.read_16(self.pc.wrapping_add(1)).wrapping_add(self.x as u16);
                page_crossed = pages_differ(address.wrapping_sub(self.x as u16), address);
                address
            },
            AddressMode::AbsoluteY => {
                let address = bus.read_16(self.pc.wrapping_add(1)).wrapping_add(self.y as u16);
                page_crossed = pages_differ(address.wrapping_sub(self.y as u16), address);
                address
            },
            AddressMode::Accumulator => 0,
            AddressMode::Immediate => self.pc.wrapping_add(1),
            AddressMode::Implied => 0,
            AddressMode::IndexedIndirect => bus.read_16_bug(
                bus.read(self.pc.wrapping_add(1)).wrapping_add(self.x) as u16,
            ),
            AddressMode::Indirect => bus.read_16_bug(bus.read_16(self.pc.wrapping_add(1))),
            AddressMode::IndirectIndexed => {
                let address = bus.read_16_bug(
                    bus.read(self.pc.wrapping_add(1)) as u16,
                ).wrapping_add(self.y as u16);
                page_crossed = pages_differ(address.wrapping_sub(self.y as u16), address);
                address
            },
            AddressMode::Relative => {
                let offset = bus.read(self.pc.wrapping_add(1)) as u16;
                if offset < 0x80 {
                    self.pc.wrapping_add(2).wrapping_add(offset)
                } else {
                    self.pc.wrapping_add(2).wrapping_add(offset).wrapping_sub(0x100)
                }
            },
            AddressMode::ZeroPage => bus.read(self.pc.wrapping_add(1)) as u16,
            AddressMode::ZeroPageX => (bus.read(self.pc.wrapping_add(1)) as u16).wrapping_add(
                self.x as u16,
            ) & 0xFF,
            AddressMode::ZeroPageY => (bus.read(self.pc.wrapping_add(1)) as u16).wrapping_add(
                self.y as u16,
            ) & 0xFF,
        };
        if side_effects && page_crossed {
            self.cycles = self.cycles + instruction_page_cycles(opcode) as u64;
        }
        address
    }
}

/// The effective address of `op` at the current core state, and whether
/// resolving it crossed a memory page (detected, for the indexed modes,
/// by comparing the address before and after adding the index register).
/// The modes without a memory operand resolve to the sentinel 0; the
/// immediate mode resolves to the operand byte's own address.
pub open spec fn spec_get_address(c: CPU, b: BusView, op: u8) -> (u16, bool) {
    match spec_instruction_mode(op) {
        AddressMode::Absolute => (view_read16(b, u16_specs::wrapping_add(c.pc, 1)), false),
        AddressMode::AbsoluteX => {
            let address = u16_specs::wrapping_add(
                view_read16(b, u16_specs::wrapping_add(c.pc, 1)),
                c.x as u16,
            );
            (address, spec_pages_differ(u16_specs::wrapping_sub(address, c.x as u16), address))
        },
        AddressMode::AbsoluteY => {
            let address = u16_specs::wrapping_add(
                view_read16(b, u16_specs::wrapping_add(c.pc, 1)),
                c.y as u16,
            );
            (address, spec_pages_differ(u16_specs::wrapping_sub(address, c.y as u16), address))
        },
        AddressMode::Accumulator => (0, false),
        AddressMode::Immediate => (u16_specs::wrapping_add(c.pc, 1), false),
        AddressMode::Implied => (0, false),
        AddressMode::IndexedIndirect => (
            view_read16_pagewrap(
                b,
                u8_specs::wrapping_add(
                    view_read(b, u16_specs::wrapping_add(c.pc, 1)),
                    c.x,
                ) as u16,
            ),
            false,
        ),
        AddressMode::Indirect => (
            view_read16_pagewrap(b, view_read16(b, u16_specs::wrapping_add(c.pc, 1))),
            false,
        ),
        AddressMode::IndirectIndexed => {
            let address = u16_specs::wrapping_add(
                view_read16_pagewrap(b, view_read(b, u16_specs::wrapping_add(c.pc, 1)) as u16),
                c.y as u16,
            );
            (address, spec_pages_differ(u16_specs::wrapping_sub(address, c.y as u16), address))
        },
        AddressMode::Relative => {
            let offset = view_read(b, u16_specs::wrapping_add(c.pc, 1)) as u16;
            if offset < 0x80 {
                (
                    u16_specs::wrapping_add(u16_specs::wrapping_add(c.pc, 2), offset),
                    false,
                )
            } else {
                (
                    u16_specs::wrapping_sub(
                        u16_specs::wrapping_add(u16_specs::wrapping_add(c.pc, 2), offset),
                        0x100,
                    ),
                    false,
                )
            }
        },
        AddressMode::ZeroPage => (view_read(b, u16_specs::wrapping_add(c.pc, 1)) as u16, false),
        AddressMode::ZeroPageX => (
            u16_specs::wrapping_add(
                view_read(b, u16_specs::wrapping_add(c.pc, 1)) as u16,
                c.x as u16,
            ) & 0xFF,
            false,
        ),
        AddressMode::ZeroPageY => (
            u16_specs::wrapping_add(
                view_read(b, u16_specs::wrapping_add(c.pc, 1)) as u16,
                c.y as u16,
            ) & 0xFF,
            false,
        ),
    }
}

/// The outcome of one step: the core state, the bus contents, and whether
/// execution continues (false only for the return that hits the test
/// harnesses' sentinel address).
#[verifier::ext_equal]
pub struct StepOut {
    pub cpu: CPU,
    pub bus: BusView,
    pub running: bool,
}

/// An outcome that leaves execution running.
pub open spec fn continuing(c: CPU, b: BusView) -> StepOut {
    StepOut { cpu: c, bus: b, running: true }
}

/// The semantic action of opcode `op` at effective address `addr`, taken
/// after the program counter has advanced and the cycle cost has been
/// charged. Opcode values with no defined action leave registers, flags
/// and bus untouched and are tallied as a diagnostic event.
pub open spec fn spec_exec_op(c: CPU, b: BusView, op: u8, addr: u16) -> StepOut {
    match op {
        // PHP: push processor status, break bit forced on the pushed copy
        0x08 => {
            let (c1, b1) = spec_push(c, b, c.flags.bits | 0x10);
            continuing(c1, b1)
        },
        // BPL
        0x10 => if !c.flags.spec_intersects(FLAG_NEGATIVE) {
            continuing(spec_branch(c, addr), b)
        } else {
            continuing(c, b)
        },
        // CLC
        0x18 => continuing(CPU { flags: Flags { bits: c.flags.bits & !FLAG_CARRY }, ..c }, b),
        // JSR
        0x20 => {
            let (c1, b1) = spec_push16(c, b, u16_specs::wrapping_sub(c.pc, 1));
            continuing(CPU { pc: addr, ..c1 }, b1)
        },
        // BIT
        0x24 | 0x2C => {
            let v = view_read(b, addr);
            let bits1 = spec_set_flag(c.flags.bits, FLAG_OVERFLOW, ((v >> 6) & 1) > 0);
            let bits2 = spec_set_flag(bits1, FLAG_ZERO, (v & c.a) == 0);
            let bits3 = spec_set_flag(bits2, FLAG_NEGATIVE, (v & 0x80) != 0);
            continuing(CPU { flags: Flags { bits: bits3 }, ..c }, b)
        },
        // PLP: pull processor status, unused bit forced, break bit cleared
        0x28 => {
            let (c1, v) = spec_pull(c, b);
            continuing(CPU { flags: Flags { bits: (v & 0xEF) | 0x20 }, ..c1 }, b)
        },
        // BMI
        0x30 => if c.flags.spec_intersects(FLAG_NEGATIVE) {
            continuing(spec_branch(c, addr), b)
        } else {
            continuing(c, b)
        },
        // SEC
        0x38 => continuing(CPU { flags: Flags { bits: c.flags.bits | FLAG_CARRY }, ..c }, b),
        // RTI
        0x40 => {
            let (c1, v) = spec_pull(c, b);
            let c2 = CPU { flags: Flags { bits: (v & 0xEF) | 0x20 }, ..c1 };
            let (c3, pc2) = spec_pull16(c2, b);
            continuing(CPU { pc: pc2, ..c3 }, b)
        },
        // PHA
        0x48 => {
            let (c1, b1) = spec_push(c, b, c.a);
            continuing(c1, b1)
        },
        // JMP
        0x4C | 0x6C => continuing(CPU { pc: addr, ..c }, b),
        // BVC
        0x50 => if !c.flags.spec_intersects(FLAG_OVERFLOW) {
            continuing(spec_branch(c, addr), b)
        } else {
            continuing(c, b)
        },
        // CLI
        0x58 => continuing(
            CPU { flags: Flags { bits: c.flags.bits & !FLAG_INTERRUPT_DISABLE }, ..c },
            b,
        ),
        // RTS; returning to the sentinel address halts a test harness run
        0x60 => {
            let (c1, v) = spec_pull16(c, b);
            let pc2 = u16_specs::wrapping_add(v, 1);
            StepOut { cpu: CPU { pc: pc2, ..c1 }, bus: b, running: pc2 != 0x0001 }
        },
        // PLA
        0x68 => {
            let (c1, v) = spec_pull(c, b);
            continuing(CPU { a: v, flags: spec_zn(c1.flags, v), ..c1 }, b)
        },
        // BVS
        0x70 => if c.flags.spec_intersects(FLAG_OVERFLOW) {
            continuing(spec_branch(c, addr), b)
        } else {
            continuing(c, b)
        },
        // SEI
        0x78 => continuing(
            CPU { flags: Flags { bits: c.flags.bits | FLAG_INTERRUPT_DISABLE }, ..c },
            b,
        ),
        // STY
        0x84 | 0x8C | 0x94 => continuing(c, view_write(b, addr, c.y)),
        // DEY
        0x88 => {
            let y2 = u8_specs::wrapping_sub(c.y, 1);
            continuing(CPU { y: y2, flags: spec_zn(c.flags, y2), ..c }, b)
        },
        // BCC
        0x90 => if !c.flags.spec_intersects(FLAG_CARRY) {
            continuing(spec_branch(c, addr), b)
        } else {
            continuing(c, b)
        },
        // TYA
        0x98 => continuing(CPU { a: c.y, flags: spec_zn(c.flags, c.y), ..c }, b),
        // LDY
        0xA0 | 0xA4 | 0xAC | 0xB4 | 0xBC => {
            let v = view_read(b, addr);
            continuing(CPU { y: v, flags: spec_zn(c.flags, v), ..c }, b)
        },
        // TAY
        0xA8 => continuing(CPU { y: c.a, flags: spec_zn(c.flags, c.a), ..c }, b),
        // BCS
        0xB0 => if c.flags.spec_intersects(FLAG_CARRY) {
            continuing(spec_branch(c, addr), b)
        } else {
            continuing(c, b)
        },
        // CLV
        0xB8 => continuing(CPU { flags: Flags { bits: c.flags.bits & !FLAG_OVERFLOW }, ..c }, b),
        // CPY
        0xC0 | 0xC4 | 0xCC => {
            let v = view_read(b, addr);
            continuing(CPU { flags: spec_compare(c.flags, c.y, v), ..c }, b)
        },
        // INY
        0xC8 => {
            let y2 = u8_specs::wrapping_add(c.y, 1);
            continuing(CPU { y: y2, flags: spec_zn(c.flags, y2), ..c }, b)
        },
        // BNE
        0xD0 => if !c.flags.spec_intersects(FLAG_ZERO) {
            continuing(spec_branch(c, addr), b)
        } else {
            continuing(c, b)
        },
        // CLD
        0xD8 => continuing(
            CPU { flags: Flags { bits: c.flags.bits & !FLAG_DECIMAL_MODE }, ..c },
            b,
        ),
        // CPX
        0xE0 | 0xE4 | 0xEC => {
            let v = view_read(b, addr);
            continuing(CPU { flags: spec_compare(c.flags, c.x, v), ..c }, b)
        },
        // INX
        0xE8 => {
            let x2 = u8_specs::wrapping_add(c.x, 1);
            continuing(CPU { x: x2, flags: spec_zn(c.flags, x2), ..c }, b)
        },
        // BEQ
        0xF0 => if c.flags.spec_intersects(FLAG_ZERO) {
            continuing(spec_branch(c, addr), b)
        } else {
            continuing(c, b)
        },
        // SED
        0xF8 => continuing(
            CPU { flags: Flags { bits: c.flags.bits | FLAG_DECIMAL_MODE }, ..c },
            b,
        ),
        // ORA
        0x01 | 0x05 | 0x09 | 0x0D | 0x11 | 0x15 | 0x19 | 0x1D => {
            let a2 = c.a | view_read(b, addr);
            continuing(CPU { a: a2, flags: spec_zn(c.flags, a2), ..c }, b)
        },
        // AND
        0x21 | 0x25 | 0x29 | 0x2D | 0x31 | 0x35 | 0x39 | 0x3D => {
            let a2 = c.a & view_read(b, addr);
            continuing(CPU { a: a2, flags: spec_zn(c.flags, a2), ..c }, b)
        },
        // EOR
        0x41 | 0x45 | 0x49 | 0x4D | 0x51 | 0x55 | 0x59 | 0x5D => {
            let a2 = c.a ^ view_read(b, addr);
            continuing(CPU { a: a2, flags: spec_zn(c.flags, a2), ..c }, b)
        },
        // ADC
        0x61 | 0x65 | 0x69 | 0x6D | 0x71 | 0x75 | 0x79 | 0x7D => continuing(
            spec_adc(c, view_read(b, addr)),
            b,
        ),
        // STA
        0x81 | 0x85 | 0x8D | 0x91 | 0x95 | 0x99 | 0x9D => continuing(c, view_write(b, addr, c.a)),
        // LDA
        0xA1 | 0xA5 | 0xA9 | 0xAD | 0xB1 | 0xB5 | 0xB9 | 0xBD => {
            let v = view_read(b, addr);
            continuing(CPU { a: v, flags: spec_zn(c.flags, v), ..c }, b)
        },
        // CMP
        0xC1 | 0xC5 | 0xC9 | 0xCD | 0xD1 | 0xD5 | 0xD9 | 0xDD => {
            let v = view_read(b, addr);
            continuing(CPU { flags: spec_compare(c.flags, c.a, v), ..c }, b)
        },
        // SBC (0xEB is its undocumented twin)
        0xE1 | 0xE5 | 0xE9 | 0xED | 0xF1 | 0xF5 | 0xF9 | 0xFD | 0xEB => continuing(
            spec_sbc(c, view_read(b, addr)),
            b,
        ),
        // ASL
        0x06 | 0x0A | 0x0E | 0x16 | 0x1E => if spec_instruction_mode(op)
            == AddressMode::Accumulator {
            let (v2, bits2) = spec_asl(c.flags.bits, c.a);
            continuing(CPU { a: v2, flags: Flags { bits: bits2 }, ..c }, b)
        } else {
            let (v2, bits2) = spec_asl(c.flags.bits, view_read(b, addr));
            continuing(CPU { flags: Flags { bits: bits2 }, ..c }, view_write(b, addr, v2))
        },
        // ROL
        0x26 | 0x2A | 0x2E | 0x36 | 0x3E => {
            let carry_in = spec_carry_bit(c.flags);
            if spec_instruction_mode(op) == AddressMode::Accumulator {
                let (v2, bits2) = spec_rol(c.flags.bits, c.a, carry_in);
                continuing(CPU { a: v2, flags: Flags { bits: bits2 }, ..c }, b)
            } else {
                let (v2, bits2) = spec_rol(c.flags.bits, view_read(b, addr), carry_in);
                continuing(CPU { flags: Flags { bits: bits2 }, ..c }, view_write(b, addr, v2))
            }
        },
        // LSR
        0x46 | 0x4A | 0x4E | 0x56 | 0x5E => if spec_instruction_mode(op)
            == AddressMode::Accumulator {
            let (v2, bits2) = spec_lsr(c.flags.bits, c.a);
            continuing(CPU { a: v2, flags: Flags { bits: bits2 }, ..c }, b)
        } else {
            let (v2, bits2) = spec_lsr(c.flags.bits, view_read(b, addr));
            continuing(CPU { flags: Flags { bits: bits2 }, ..c }, view_write(b, addr, v2))
        },
        // ROR
        0x66 | 0x6A | 0x6E | 0x76 | 0x7E => {
            let carry_in = spec_carry_bit(c.flags);
            if spec_instruction_mode(op) == AddressMode::Accumulator {
                let (v2, bits2) = spec_ror(c.flags.bits, c.a, carry_in);
                continuing(CPU { a: v2, flags: Flags { bits: bits2 }, ..c }, b)
            } else {
                let (v2, bits2) = spec_ror(c.flags.bits, view_read(b, addr), carry_in);
                continuing(CPU { flags: Flags { bits: bits2 }, ..c }, view_write(b, addr, v2))
            }
        },
        // STX
        0x86 | 0x8E | 0x96 => continuing(c, view_write(b, addr, c.x)),
        // TXA
        0x8A => continuing(CPU { a: c.x, flags: spec_zn(c.flags, c.x), ..c }, b),
        // TXS (no flags recomputed)
        0x9A => continuing(CPU { sp: c.x, ..c }, b),
        // LDX
        0xA2 | 0xA6 | 0xAE | 0xB6 | 0xBE => {
            let v = view_read(b, addr);
            continuing(CPU { x: v, flags: spec_zn(c.flags, v), ..c }, b)
        },
        // TAX
        0xAA => continuing(CPU { x: c.a, flags: spec_zn(c.flags, c.a), ..c }, b),
        // TSX
        0xBA => continuing(CPU { x: c.sp, flags: spec_zn(c.flags, c.sp), ..c }, b),
        // DEC
        0xC6 | 0xCE | 0xD6 | 0xDE => {
            let v2 = u8_specs::wrapping_sub(view_read(b, addr), 1);
            continuing(CPU { flags: spec_zn(c.flags, v2), ..c }, view_write(b, addr, v2))
        },
        // DEX
        0xCA => {
            let x2 = u8_specs::wrapping_sub(c.x, 1);
            continuing(CPU { x: x2, flags: spec_zn(c.flags, x2), ..c }, b)
        },
        // INC
        0xE6 | 0xEE | 0xF6 | 0xFE => {
            let v2 = u8_specs::wrapping_add(view_read(b, addr), 1);
            continuing(CPU { flags: spec_zn(c.flags, v2), ..c }, view_write(b, addr, v2))
        },
        // SLO: shift left, then OR into the accumulator
        0x03 | 0x07 | 0x0F | 0x13 | 0x17 | 0x1B | 0x1F => {
            let v = view_read(b, addr);
            let bits1 = spec_set_flag(c.flags.bits, FLAG_CARRY, ((v >> 7) & 1) > 0);
            let v2 = v << 1;
            let a2 = c.a | v2;
            continuing(
                CPU { a: a2, flags: Flags { bits: spec_zn_bits(bits1, a2) }, ..c },
                view_write(b, addr, v2),
            )
        },
        // RLA: rotate left, then AND into the accumulator
        0x23 | 0x27 | 0x2F | 0x33 | 0x37 | 0x3B | 0x3F => {
            let v = view_read(b, addr);
            let carry_in = spec_carry_bit(c.flags);
            let bits1 = spec_set_flag(c.flags.bits, FLAG_CARRY, ((v >> 7) & 1) > 0);
            let v2 = (v << 1) | carry_in;
            let a2 = c.a & v2;
            continuing(
                CPU { a: a2, flags: Flags { bits: spec_zn_bits(bits1, a2) }, ..c },
                view_write(b, addr, v2),
            )
        },
        // SRE: shift right, then XOR into the accumulator
        0x43 | 0x47 | 0x4F | 0x53 | 0x57 | 0x5B | 0x5F => {
            let v = view_read(b, addr);
            let bits1 = spec_set_flag(c.flags.bits, FLAG_CARRY, (v & 1) > 0);
            let v2 = v >> 1;
            let a2 = c.a ^ v2;
            continuing(
                CPU { a: a2, flags: Flags { bits: spec_zn_bits(bits1, a2) }, ..c },
                view_write(b, addr, v2),
            )
        },
        // RRA: rotate right, then add-with-carry
        0x63 | 0x67 | 0x6F | 0x73 | 0x77 | 0x7B | 0x7F => {
            let a = c.a;
            let v = view_read(b, addr);
            let carry_in = spec_carry_bit(c.flags);
            let bits1 = spec_set_flag(c.flags.bits, FLAG_CARRY, (v & 1) > 0);
            let v2 = (v >> 1) | (carry_in << 7);
            let carry2: u8 = if bits1 & FLAG_CARRY != 0 {
                1u8
            } else {
                0u8
            };
            let sum: u16 = (a + v2 + carry2) as u16;
            let r = (sum & 0xFF) as u8;
            let bits2 = spec_set_flag(
                bits1,
                FLAG_OVERFLOW,
                ((a ^ v2) & 0x80) == 0 && ((a ^ r) & 0x80) != 0,
            );
            let bits3 = spec_set_flag(bits2, FLAG_CARRY, sum > 0xFF);
            continuing(
                CPU { a: r, flags: Flags { bits: spec_zn_bits(bits3, r) }, ..c },
                view_write(b, addr, v2),
            )
        },
        // SAX: store the AND of accumulator and X
        0x83 | 0x87 | 0x8F | 0x97 => continuing(c, view_write(b, addr, c.a & c.x)),
        // LAX: load into both accumulator and X
        0xA3 | 0xA7 | 0xAB | 0xAF | 0xB3 | 0xB7 | 0xBB | 0xBF => {
            let v = view_read(b, addr);
            continuing(CPU { a: v, x: v, flags: spec_zn(c.flags, v), ..c }, b)
        },
        // DCP: decrement, then compare
        0xC3 | 0xC7 | 0xCF | 0xD3 | 0xD7 | 0xDB | 0xDF => {
            let v2 = u8_specs::wrapping_sub(view_read(b, addr), 1);
            continuing(
                CPU { flags: spec_compare(c.flags, c.a, v2), ..c },
                view_write(b, addr, v2),
            )
        },
        // ISB: increment, then subtract-with-carry
        0xE3 | 0xE7 | 0xEF | 0xF3 | 0xF7 | 0xFB | 0xFF => {
            let v2 = u8_specs::wrapping_add(view_read(b, addr), 1);
            continuing(spec_sbc(c, v2), view_write(b, addr, v2))
        },
        // The timing-padding no-ops: the addressing mode was resolved (for
        // the cycle accounting), nothing else changes.
        0x04 | 0x0C | 0x14 | 0x1A | 0x1C | 0x34 | 0x3A | 0x3C | 0x44 | 0x54 | 0x5A | 0x5C | 0x64
            | 0x74 | 0x7A | 0x7C | 0x80 | 0x82 | 0x89 | 0xC2 | 0xD4 | 0xDA | 0xDC | 0xE2 | 0xEA
            | 0xF4 | 0xFA | 0xFC => continuing(c, b),
        // No defined action: tally the diagnostic event and continue.
        _ => continuing(
            CPU {
                unhandled_opcodes: if c.unhandled_opcodes < u64::MAX {
                    (c.unhandled_opcodes + 1) as u64
                } else {
                    u64::MAX
                },
                ..c
            },
            b,
        ),
    }
}

/// One whole step of the interpreter: fetch the opcode at the program
/// counter, resolve its effective address (charging the page-cross
/// penalty where the opcode is sensitive to it), advance the program
/// counter by the encoded length, charge the base cycle cost, and perform
/// the semantic action (which may charge branch cycles on top).
pub open spec fn spec_step(c: CPU, b: BusView) -> StepOut {
    let op = view_read(b, c.pc);
    let resolved = spec_get_address(c, b, op);
    let penalty: int = if resolved.1 {
        spec_instruction_page_cycles(op) as int
    } else {
        0
    };
    let c1 = CPU {
        pc: u16_specs::wrapping_add(c.pc, spec_instruction_size(op) as u16),
        cycles: (c.cycles + penalty + spec_instruction_cycles(op)) as u64,
        ..c
    };
    spec_exec_op(c1, b, op, resolved.0)
}

impl CPU {
    /// Perform the semantic action of `opcode` at effective address
    /// `address`, after the program counter and cycle counter already
    /// advanced for it.
    #[verifier::rlimit(100)]
    #[verifier::spinoff_prover]
    fn execute(&mut self, bus: &mut Bus, opcode: u8, address: u16) -> (running: bool)
        requires
            old(bus).wf(),
            old(self).cycles + 2 <= u64::MAX,
        ensures
            final(bus).wf(),
            *final(self) == spec_exec_op(*old(self), old(bus)@, opcode, address).cpu,
            final(bus)@ == spec_exec_op(*old(self), old(bus)@, opcode, address).bus,
            running == spec_exec_op(*old(self), old(bus)@, opcode, address).running,
            old(self).cycles <= final(self).cycles <= old(self).cycles + 2,
    {
        let address_mode = instruction_mode(opcode);
        match opcode {
            // PHP - Push Processor Status
            0x08 => {
                let flags = self.flags.bits();
                self.push(bus, flags | 0x10);
            },
            // BPL - Branch If Positive
            0x10 => {
                if !self.flags.intersects(FLAG_NEGATIVE) {
                    self.branch_to(address);
                }
            },
            // CLC - Clear Carry Flag
            0x18 => {
                self.flags.remove(FLAG_CARRY);
            },
            // JSR - Jump to Subroutine
            0x20 => {
                let pc = self.pc;
                self.push_16(bus, pc.wrapping_sub(1));
                self.pc = address;
            },
            // BIT - Bit Test
            0x24 | 0x2C => {
                let v = bus.read(address);
                let a = self.a;
                self.flags.set(FLAG_OVERFLOW, ((v >> 6) & 1) > 0);
                self.set_z_flag(v & a);
                self.set_n_flag(v);
            },
            // PLP - Pull Processor Status
            0x28 => {
                let flags = self.pull(bus) & 0xEF | 0x20;
                self.flags = Flags::from_bits(flags);
            },
            // BMI - Branch on Minus
            0x30 => {
                if self.flags.intersects(FLAG_NEGATIVE) {
                    self.branch_to(address);
                }
            },
            // SEC - Set Carry Flag
            0x38 => {
                self.flags.insert(FLAG_CARRY);
            },
            // RTI - Return from Interrupt
            0x40 => {
                let flags = self.pull(bus) & 0xEF | 0x20;
                self.flags = Flags::from_bits(flags);
                self.pc = self.pull_16(bus);
            },
            // PHA - Push Accumulator
            0x48 => {
                let a = self.a;
                self.push(bus, a);
            },
            // JMP - Jump
            0x4C | 0x6C => {
                self.pc = address;
            },
            // BVC - Branch on Overflow Clear
            0x50 => {
                if !self.flags.intersects(FLAG_OVERFLOW) {
                    self.branch_to(address);
                }
            },
            // CLI - Clear Interrupt
            0x58 => {
                self.flags.remove(FLAG_INTERRUPT_DISABLE);
            },
            // RTS - Return from Subroutine
            0x60 => {
                self.pc = self.pull_16(bus).wrapping_add(1);
                if self.pc == 0x0001 {
                    return false;
                }
            },
            // PLA - Pull Accumulator
            0x68 => {
                self.a = self.pull(bus);
                let a = self.a;
                self.set_zn_flag(a);
            },
            // BVS - Branch on Overflow Set
            0x70 => {
                if self.flags.intersects(FLAG_OVERFLOW) {
                    self.branch_to(address);
                }
            },
            // SEI - Set Interrupt
            0x78 => {
                self.flags.insert(FLAG_INTERRUPT_DISABLE);
            },
            // STY - Store Y Register
            0x84 | 0x8C | 0x94 => {
                bus.write(address, self.y);
            },
            // DEY - Decrement Y Register
            0x88 => {
                self.y = self.y.wrapping_sub(1);
                let y = self.y;
                self.set_zn_flag(y);
            },
            // BCC - Branch on Carry Clear
            0x90 => {
                if !self.flags.intersects(FLAG_CARRY) {
                    self.branch_to(address);
                }
            },
            // TYA - Transfer Y to A
            0x98 => {
                self.a = self.y;
                let a = self.a;
                self.set_zn_flag(a);
            },
            // LDY - Load Y Register
            0xA0 | 0xA4 | 0xAC | 0xB4 | 0xBC => {
                self.y = bus.read(address);
                let y = self.y;
                self.set_zn_flag(y);
            },
            // TAY - Transfer A to Y
            0xA8 => {
                self.y = self.a;
                let y = self.y;
                self.set_zn_flag(y);
            },
            // BCS - Branch on Carry Set
            0xB0 => {
                if self.flags.intersects(FLAG_CARRY) {
                    self.branch_to(address);
                }
            },
            // CLV - Clear Overflow Flag
            0xB8 => {
                self.flags.remove(FLAG_OVERFLOW);
            },
            // CPY - Compare Y Register
            0xC0 | 0xC4 | 0xCC => {
                let v = bus.read(address);
                let y = self.y;
                self.compare(y, v);
            },
            // INY - Increment Y Register
            0xC8 => {
                self.y = self.y.wrapping_add(1);
                let y = self.y;
                self.set_zn_flag(y);
            },
            // BNE - Branch on Not Equal
            0xD0 => {
                if !self.flags.intersects(FLAG_ZERO) {
                    self.branch_to(address);
                }
            },
            // CLD - Clear Decimal Flag
            0xD8 => {
                self.flags.remove(FLAG_DECIMAL_MODE);
            },
            // CPX - Compare X Register
            0xE0 | 0xE4 | 0xEC => {
                let v = bus.read(address);
                let x = self.x;
                self.compare(x, v);
            },
            // INX - Increment X Register
            0xE8 => {
                self.x = self.x.wrapping_add(1);
                let x = self.x;
                self.set_zn_flag(x);
            },
            // BEQ - Branch on Equal
            0xF0 => {
                if self.flags.intersects(FLAG_ZERO) {
                    self.branch_to(address);
                }
            },
            // SED - Set Decimal Flag
            0xF8 => {
                self.flags.insert(FLAG_DECIMAL_MODE);
            },
            // ORA - Bitwise OR with Accumulator
            0x01 | 0x05 | 0x09 | 0x0D | 0x11 | 0x15 | 0x19 | 0x1D => {
                self.a = self.a | bus.read(address);
                let a = self.a;
                self.set_zn_flag(a);
            },
            // AND - Bitwise AND with Accumulator
            0x21 | 0x25 | 0x29 | 0x2D | 0x31 | 0x35 | 0x39 | 0x3D => {
                self.a = self.a & bus.read(address);
                let a = self.a;
                self.set_zn_flag(a);
            },
            // EOR - Bitwise Exclusive OR
            0x41 | 0x45 | 0x49 | 0x4D | 0x51 | 0x55 | 0x59 | 0x5D => {
                self.a = self.a ^ bus.read(address);
                let a = self.a;
                self.set_zn_flag(a);
            },
            // ADC - Add with Carry
            0x61 | 0x65 | 0x69 | 0x6D | 0x71 | 0x75 | 0x79 | 0x7D => {
                let a = self.a;
                let v: u8 = bus.read(address);
                let carry: u8 = if self.flags.intersects(FLAG_CARRY) {
                    1
                } else {
                    0
                };
                self.a = a.wrapping_add(v).wrapping_add(carry);
                let r = self.a;
                self.set_zn_flag(r);
                self.flags.set(FLAG_CARRY, a as i32 + v as i32 + carry as i32 > 0xFF);
                self.flags.set(FLAG_OVERFLOW, (a ^ v) & 0x80 == 0 && (a ^ r) & 0x80 != 0);
            },
            // STA - Store Accumulator
            0x81 | 0x85 | 0x8D | 0x91 | 0x95 | 0x99 | 0x9D => {
                bus.write(address, self.a);
            },
            // LDA - Load Accumulator
            0xA1 | 0xA5 | 0xA9 | 0xAD | 0xB1 | 0xB5 | 0xB9 | 0xBD => {
                self.a = bus.read(address);
                let a = self.a;
                self.set_zn_flag(a);
            },
            // CMP - Compare Accumulator
            0xC1 | 0xC5 | 0xC9 | 0xCD | 0xD1 | 0xD5 | 0xD9 | 0xDD => {
                let v = bus.read(address);
                let a = self.a;
                self.compare(a, v);
            },
            // SBC - Subtract with Carry
            0xE1 | 0xE5 | 0xE9 | 0xED | 0xF1 | 0xF5 | 0xF9 | 0xFD | 0xEB => {
                let a = self.a;
                let v: u8 = bus.read(address);
                let carry: u8 = if self.flags.intersects(FLAG_CARRY) {
                    1
                } else {
                    0
                };
                self.a = a.wrapping_sub(v).wrapping_sub(1 - carry);
                let r = self.a;
                self.set_zn_flag(r);
                self.flags.set(
                    FLAG_CARRY,
                    (a as i32) - (v as i32) - ((1 - carry) as i32) >= 0,
                );
                self.flags.set(FLAG_OVERFLOW, (a ^ v) & 0x80 != 0 && (a ^ r) & 0x80 != 0);
            },
            // ASL - Arithmetic Shift Left
            0x06 | 0x0A | 0x0E | 0x16 | 0x1E => {
                if address_mode == AddressMode::Accumulator {
                    self.flags.set(FLAG_CARRY, ((self.a >> 7) & 1) > 0);
                    self.a = self.a << 1;
                    let a = self.a;
                    self.set_zn_flag(a);
                } else {
                    let mut v = bus.read(address);
                    self.flags.set(FLAG_CARRY, ((v >> 7) & 1) > 0);
                    v = v << 1;
                    bus.write(address, v);
                    self.set_zn_flag(v);
                }
            },
            // ROL - Rotate Left
            0x26 | 0x2A | 0x2E | 0x36 | 0x3E => {
                let carry_in: u8 = if self.flags.intersects(FLAG_CARRY) {
                    1
                } else {
                    0
                };
                if address_mode == AddressMode::Accumulator {
                    self.flags.set(FLAG_CARRY, ((self.a >> 7) & 1) > 0);
                    self.a = (self.a << 1) | carry_in;
                    let a = self.a;
                    self.set_zn_flag(a);
                } else {
                    let mut v = bus.read(address);
                    self.flags.set(FLAG_CARRY, ((v >> 7) & 1) > 0);
                    v = (v << 1) | carry_in;
                    bus.write(address, v);
                    self.set_zn_flag(v);
                }
            },
            // LSR - Logical Shift Right
            0x46 | 0x4A | 0x4E | 0x56 | 0x5E => {
                if address_mode == AddressMode::Accumulator {
                    self.flags.set(FLAG_CARRY, (self.a & 1) > 0);
                    self.a = self.a >> 1;
                    let a = self.a;
                    self.set_zn_flag(a);
                } else {
                    let mut v = bus.read(address);
                    self.flags.set(FLAG_CARRY, (v & 1) > 0);
                    v = v >> 1;
                    bus.write(address, v);
                    self.set_zn_flag(v);
                }
            },
            // ROR - Rotate Right
            0x66 | 0x6A | 0x6E | 0x76 | 0x7E => {
                let carry_in: u8 = if self.flags.intersects(FLAG_CARRY) {
                    1
                } else {
                    0
                };
                if address_mode == AddressMode::Accumulator {
                    self.flags.set(FLAG_CARRY, (self.a & 1) > 0);
                    self.a = (self.a >> 1) | (carry_in << 7);
                    let a = self.a;
                    self.set_zn_flag(a);
                } else {
                    let mut v = bus.read(address);
                    self.flags.set(FLAG_CARRY, (v & 1) > 0);
                    v = (v >> 1) | (carry_in << 7);
                    bus.write(address, v);
                    self.set_zn_flag(v);
                }
            },
            // STX - Store X Register
            0x86 | 0x8E | 0x96 => {
                bus.write(address, self.x);
            },
            // TXA - Transfer X to A
            0x8A => {
                self.a = self.x;
                let a = self.a;
                self.set_zn_flag(a);
            },
            // TXS - Transfer X to Stack Pointer
            0x9A => {
                self.sp = self.x;
            },
            // LDX - Load X Register
            0xA2 | 0xA6 | 0xAE | 0xB6 | 0xBE => {
                self.x = bus.read(address);
                let x = self.x;
                self.set_zn_flag(x);
            },
            // TAX - Transfer A to X
            0xAA => {
                self.x = self.a;
                let x = self.x;
                self.set_zn_flag(x);
            },
            // TSX - Transfer Stack Pointer to X
            0xBA => {
                self.x = self.sp;
                let x = self.x;
                self.set_zn_flag(x);
            },
            // DEC - Decrement Memory
            0xC6 | 0xCE | 0xD6 | 0xDE => {
                let v = bus.read(address).wrapping_sub(1);
                bus.write(address, v);
                self.set_zn_flag(v);
            },
            // DEX - Decrement X Register
            0xCA => {
                self.x = self.x.wrapping_sub(1);
                let x = self.x;
                self.set_zn_flag(x);
            },
            // INC - Increment Memory
            0xE6 | 0xEE | 0xF6 | 0xFE => {
                let v = bus.read(address).wrapping_add(1);
                bus.write(address, v);
                self.set_zn_flag(v);
            },
            // SLO - ASL + ORA
            0x03 | 0x07 | 0x0F | 0x13 | 0x17 | 0x1B | 0x1F => {
                let mut v: u8 = bus.read(address);
                self.flags.set(FLAG_CARRY, ((v >> 7) & 1) > 0);
                v = v << 1;
                self.a = self.a | v;
                let a = self.a;
                self.set_zn_flag(a);
                bus.write(address, v);
            },
            // RLA - ROL + AND
            0x23 | 0x27 | 0x2F | 0x33 | 0x37 | 0x3B | 0x3F => {
                let mut v: u8 = bus.read(address);
                let carry_in: u8 = if self.flags.intersects(FLAG_CARRY) {
                    1
                } else {
                    0
                };
                self.flags.set(FLAG_CARRY, ((v >> 7) & 1) > 0);
                v = (v << 1) | carry_in;
                self.a = self.a & v;
                let a = self.a;
                self.set_zn_flag(a);
                bus.write(address, v);
            },
            // SRE - LSR + EOR
            0x43 | 0x47 | 0x4F | 0x53 | 0x57 | 0x5B | 0x5F => {
                let mut v: u8 = bus.read(address);
                self.flags.set(FLAG_CARRY, (v & 1) > 0);
                v = v >> 1;
                self.a = self.a ^ v;
                let a = self.a;
                self.set_zn_flag(a);
                bus.write(address, v);
            },
            // RRA - ROR + ADC
            0x63 | 0x67 | 0x6F | 0x73 | 0x77 | 0x7B | 0x7F => {
                let a = self.a;
                let mut v: u8 = bus.read(address);
                let carry_in: u8 = if self.flags.intersects(FLAG_CARRY) {
                    1
                } else {
                    0
                };
                self.flags.set(FLAG_CARRY, (v & 1) > 0);
                v = (v >> 1) | (carry_in << 7);
                let carry2: u8 = if self.flags.intersects(FLAG_CARRY) {
                    1
                } else {
                    0
                };
                let sum: u16 = a as u16 + v as u16 + carry2 as u16;
                self.a = (sum & 0xFF) as u8;
                let r = self.a;
                self.flags.set(FLAG_OVERFLOW, (a ^ v) & 0x80 == 0 && (a ^ r) & 0x80 != 0);
                self.flags.set(FLAG_CARRY, sum > 0xFF);
                self.set_zn_flag(r);
                bus.write(address, v);
            },
            // SAX - STA + STX
            0x83 | 0x87 | 0x8F | 0x97 => {
                bus.write(address, self.a & self.x);
            },
            // LAX - LDA + LDX
            0xA3 | 0xA7 | 0xAB | 0xAF | 0xB3 | 0xB7 | 0xBB | 0xBF => {
                let v = bus.read(address);
                self.a = v;
                self.x = v;
                self.set_zn_flag(v);
            },
            // DCP - DEC + CMP
            0xC3 | 0xC7 | 0xCF | 0xD3 | 0xD7 | 0xDB | 0xDF => {
                let v = bus.read(address).wrapping_sub(1);
                let a = self.a;
                self.compare(a, v);
                bus.write(address, v);
            },
            // ISB - INC + SBC
            0xE3 | 0xE7 | 0xEF | 0xF3 | 0xF7 | 0xFB | 0xFF => {
                let a = self.a;
                let v: u8 = bus.read(address).wrapping_add(1);
                let carry: u8 = if self.flags.intersects(FLAG_CARRY) {
                    1
                } else {
                    0
                };
                self.a = a.wrapping_sub(v).wrapping_sub(1 - carry);
                let r = self.a;
                self.set_zn_flag(r);
                self.flags.set(
                    FLAG_CARRY,
                    (a as i32) - (v as i32) - ((1 - carry) as i32) >= 0,
                );
                self.flags.set(FLAG_OVERFLOW, (a ^ v) & 0x80 != 0 && (a ^ r) & 0x80 != 0);
                bus.write(address, v);
            },
            // NOP - No Operation (timing padding in all its addressings)
            0x04 | 0x0C | 0x14 | 0x1A | 0x1C | 0x34 | 0x3A | 0x3C | 0x44 | 0x54 | 0x5A | 0x5C
                | 0x64 | 0x74 | 0x7A | 0x7C | 0x80 | 0x82 | 0x89 | 0xC2 | 0xD4 | 0xDA | 0xDC
                | 0xE2 | 0xEA | 0xF4 | 0xFA | 0xFC => {
            },
            // No defined action: record the diagnostic event and continue.
            _ => {
                if self.unhandled_opcodes < u64::MAX {
                    self.unhandled_opcodes = self.unhandled_opcodes + 1;
                }
            },
        }
        true
    }

    /// One externally visible transition of the core: fetch, resolve,
    /// advance, charge cycles, execute. Atomic from the caller's view.
    /// Returns false only when a subroutine return lands on the test
    /// harnesses' sentinel address; every step consumes at least one
    /// cycle and the cycle counter never decreases.
    pub fn step(&mut self, bus: &mut Bus) -> (running: bool)
        requires
            old(bus).wf(),
            old(self).cycles + 16 <= u64::MAX,
        ensures
            final(bus).wf(),
            *final(self) == spec_step(*old(self), old(bus)@).cpu,
            final(bus)@ == spec_step(*old(self), old(bus)@).bus,
            running == spec_step(*old(self), old(bus)@).running,
            old(self).cycles < final(self).cycles <= old(self).cycles + 11,
    {
        let opcode = bus.read(self.pc);
        proof {
            lemma_descriptor_bounds(opcode);
        }
        let address = self.get_address(bus, opcode, true);
        self.pc = self.pc.wrapping_add(instruction_size(opcode) as u16);
        self.cycles = self.cycles + instruction_cycles(opcode) as u64;
        self.execute(bus, opcode, address)
    }
}

/// The eight conditional branches.
pub open spec fn is_branch_opcode(op: u8) -> bool {
    op == 0x10 || op == 0x30 || op == 0x50 || op == 0x70 || op == 0x90 || op == 0xB0 || op == 0xD0
        || op == 0xF0
}

/// Whether a branch opcode's condition holds of the given flag set.
pub open spec fn spec_branch_taken(f: Flags, op: u8) -> bool {
    if op == 0x10 {
        !f.spec_intersects(FLAG_NEGATIVE)
    } else if op == 0x30 {
        f.spec_intersects(FLAG_NEGATIVE)
    } else if op == 0x50 {
        !f.spec_intersects(FLAG_OVERFLOW)
    } else if op == 0x70 {
        f.spec_intersects(FLAG_OVERFLOW)
    } else if op == 0x90 {
        !f.spec_intersects(FLAG_CARRY)
    } else if op == 0xB0 {
        f.spec_intersects(FLAG_CARRY)
    } else if op == 0xD0 {
        !f.spec_intersects(FLAG_ZERO)
    } else {
        f.spec_intersects(FLAG_ZERO)
    }
}

/// Branch timing. A step whose opcode is a branch costs exactly its base
/// cycles when the branch is not taken; one extra cycle when it is taken
/// to a target on the same memory page as the instruction that follows
/// the branch; and two extra cycles when the taken branch crosses onto a
/// different page.
pub proof fn lemma_branch_timing(c: CPU, b: BusView)
    requires
        c.cycles + 16 <= u64::MAX,
        is_branch_opcode(view_read(b, c.pc)),
    ensures
        ({
            let op = view_read(b, c.pc);
            let taken = spec_branch_taken(c.flags, op);
            let target = spec_get_address(c, b, op).0;
            let next_pc = u16_specs::wrapping_add(c.pc, 2);
            let base = spec_instruction_cycles(op);
            let so = spec_step(c, b);
            &&& (!taken ==> so.cpu.cycles == c.cycles + base)
            &&& (taken && !spec_pages_differ(next_pc, target) ==> so.cpu.cycles == c.cycles + base
                + 1)
            &&& (taken && spec_pages_differ(next_pc, target) ==> so.cpu.cycles == c.cycles + base
                + 2)
        }),
{
    let op = view_read(b, c.pc);
    lemma_descriptor_bounds(op);
    assert(spec_instruction_mode(op) == AddressMode::Relative);
    assert(spec_instruction_size(op) == 2);
    assert(!spec_get_address(c, b, op).1);
}

/// The add-with-carry result byte is the 9-bit sum reduced modulo 256,
/// and the subtract-with-carry result byte is the full difference (with
/// the borrow as the carry's complement) reduced modulo 256.
pub proof fn lemma_arith_results_wrap(c: CPU, v: u8)
    ensures
        spec_adc(c, v).a == ((c.a + v + spec_carry_bit(c.flags)) % 256) as u8,
        spec_sbc(c, v).a == ((c.a - v - (1 - spec_carry_bit(c.flags))) % 256) as u8,
{
}

/// Subtract-with-carry is add-with-carry of the operand's bitwise
/// complement: for every accumulator value, operand and carry-in, the
/// result byte, the carry-out, the overflow-out and the zero and negative
/// flags all agree.
pub proof fn lemma_sbc_is_adc_complement(c: CPU, v: u8)
    ensures
        spec_sbc(c, v) == spec_adc(c, !v),
{
    let a = c.a;
    let carry = spec_carry_bit(c.flags);
    assert(!v == 255 - v) by (bit_vector);
    assert(forall|x: u8, y: u8| ((x ^ !y) & 0x80 == 0) <==> ((x ^ y) & 0x80 != 0))
        by (bit_vector);
}

/// The stack pointer after `n` pushes in sequence, each decrementing it
/// with unchecked 8-bit wraparound (`spec_push` moves it by exactly one
/// such step per byte pushed).
pub open spec fn spec_sp_after_pushes(sp: u8, n: nat) -> u8
    decreases n,
{
    if n == 0 {
        sp
    } else {
        u8_specs::wrapping_sub(spec_sp_after_pushes(sp, (n - 1) as nat), 1)
    }
}

/// One push moves the stack pointer by one wraparound step, whatever is
/// pushed and whatever the bus holds.
pub proof fn lemma_push_moves_sp(c: CPU, b: BusView, v: u8)
    ensures
        spec_push(c, b, v).0.sp == spec_sp_after_pushes(c.sp, 1),
{
    assert(spec_sp_after_pushes(c.sp, 0) == c.sp);
    assert(spec_sp_after_pushes(c.sp, 1) == u8_specs::wrapping_sub(
        spec_sp_after_pushes(c.sp, 0),
        1,
    ));
}

/// Pushing wraps the stack pointer modulo 256 with no fault: after `n`
/// pushes in sequence it sits at the starting value minus `n`, modulo
/// 256. In particular 256 pushes return it to its starting value, and a
/// 257th lands one below it.
pub proof fn lemma_stack_wraparound(sp: u8, n: nat)
    ensures
        spec_sp_after_pushes(sp, n) == ((sp - n) % 256) as u8,
    decreases n,
{
    if n > 0 {
        lemma_stack_wraparound(sp, (n - 1) as nat);
    }
}

/// The full-cycle corollary: 256 pushes in sequence return the stack
/// pointer to its starting value; the 257th push moves it one below.
pub proof fn lemma_stack_wraparound_full_cycle(sp: u8)
    ensures
        spec_sp_after_pushes(sp, 256) == sp,
        spec_sp_after_pushes(sp, 257) == u8_specs::wrapping_sub(sp, 1),
{
    lemma_stack_wraparound(sp, 256);
    lemma_stack_wraparound(sp, 257);
}

} // verus!
