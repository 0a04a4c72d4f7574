//! The diagnostic trace format: a fixed single-line text record rendered
//! before a step executes, for comparison against golden execution logs.
//! It shows the program counter, the raw instruction bytes, the mnemonic,
//! the disassembled operand annotation (its shape varies by addressing
//! mode), the register dump, and a cycle counter field derived from the
//! pixel unit's 3:1 clock. The rendering is a pure read-only projection
//! over register and bus state, byte for byte.

use vstd::prelude::*;

use vstd::arithmetic::div_mod::lemma_mul_mod_noop_left;
use vstd::string::StringExecFns;
use vstd::wrapping::{u16_specs, u8_specs};

use crate::bus::{Bus, BusView, view_read, view_read16_pagewrap};
use crate::cpu::{spec_get_address, CPU};
use crate::optable::{
    instruction_mode, instruction_name, instruction_size, lemma_descriptor_bounds,
    spec_instruction_mode, spec_instruction_name, spec_instruction_size, AddressMode,
};

verus! {

/// The upper-case hexadecimal digit for a value below 16.
pub open spec fn spec_hex_digit(d: u8) -> Seq<char> {
    if d == 0 {
        "0"@
    } else if d == 1 {
        "1"@
    } else if d == 2 {
        "2"@
    } else if d == 3 {
        "3"@
    } else if d == 4 {
        "4"@
    } else if d == 5 {
        "5"@
    } else if d == 6 {
        "6"@
    } else if d == 7 {
        "7"@
    } else if d == 8 {
        "8"@
    } else if d == 9 {
        "9"@
    } else if d == 10 {
        "A"@
    } else if d == 11 {
        "B"@
    } else if d == 12 {
        "C"@
    } else if d == 13 {
        "D"@
    } else if d == 14 {
        "E"@
    } else if d == 15 {
        "F"@
    } else {
        "?"@
    }
}

/// A byte as two upper-case hexadecimal digits.
pub open spec fn spec_hex2(v: u8) -> Seq<char> {
    spec_hex_digit(v >> 4) + spec_hex_digit(v & 0xF)
}

/// A 16-bit value as four upper-case hexadecimal digits.
pub open spec fn spec_hex4(v: u16) -> Seq<char> {
    spec_hex2((v >> 8) as u8) + spec_hex2((v & 0xFF) as u8)
}

/// The decimal digit for a value below 10.
pub open spec fn spec_dec_digit(d: int) -> Seq<char> {
    if d == 0 {
        "0"@
    } else if d == 1 {
        "1"@
    } else if d == 2 {
        "2"@
    } else if d == 3 {
        "3"@
    } else if d == 4 {
        "4"@
    } else if d == 5 {
        "5"@
    } else if d == 6 {
        "6"@
    } else if d == 7 {
        "7"@
    } else if d == 8 {
        "8"@
    } else if d == 9 {
        "9"@
    } else {
        "?"@
    }
}

/// A value below 1000 in decimal, right-aligned in three columns.
pub open spec fn spec_dec3(v: int) -> Seq<char> {
    if v >= 100 {
        spec_dec_digit(v / 100) + spec_dec_digit((v / 10) % 10) + spec_dec_digit(v % 10)
    } else if v >= 10 {
        " "@ + spec_dec_digit(v / 10) + spec_dec_digit(v % 10)
    } else {
        "  "@ + spec_dec_digit(v)
    }
}

/// `n` spaces (none when `n` is negative).
pub open spec fn spec_spaces(n: int) -> Seq<char> {
    Seq::new(
        if n >= 0 {
            n as nat
        } else {
            0
        },
        |i: int| ' ',
    )
}

/// `s` left-aligned in a field of `width` columns: padded on the right
/// with spaces when shorter, untouched when not.
pub open spec fn spec_pad_right(s: Seq<char>, width: int) -> Seq<char> {
    if s.len() >= width {
        s
    } else {
        s + spec_spaces(width - s.len())
    }
}

/// The raw instruction bytes, space-padded to eight columns (one, two or
/// three bytes per the opcode's encoded length).
pub open spec fn spec_opcode_bytes(op: u8, arg1: u8, arg2: u8) -> Seq<char> {
    if spec_instruction_size(op) == 1 {
        spec_hex2(op) + "      "@
    } else if spec_instruction_size(op) == 2 {
        spec_hex2(op) + " "@ + spec_hex2(arg1) + "   "@
    } else {
        spec_hex2(op) + " "@ + spec_hex2(arg1) + " "@ + spec_hex2(arg2)
    }
}

/// The disassembled operand annotation, whose shape varies by addressing
/// mode; the two absolute-mode jumps show the bare target, every other
/// absolute-mode opcode also shows the value at the effective address.
pub open spec fn spec_annotation(c: CPU, b: BusView, op: u8) -> Seq<char> {
    let arg1 = view_read(b, u16_specs::wrapping_add(c.pc, 1));
    let arg2 = view_read(b, u16_specs::wrapping_add(c.pc, 2));
    let addr = spec_get_address(c, b, op).0;
    let value = view_read(b, addr);
    match spec_instruction_mode(op) {
        AddressMode::Absolute => if op == 0x20 || op == 0x4C {
            "$"@ + spec_hex4(addr)
        } else {
            "$"@ + spec_hex4(addr) + " = "@ + spec_hex2(value)
        },
        AddressMode::AbsoluteX => "$"@ + spec_hex2(arg2) + spec_hex2(arg1) + ",X @ "@ + spec_hex4(
            addr,
        ) + " = "@ + spec_hex2(value),
        AddressMode::AbsoluteY => "$"@ + spec_hex2(arg2) + spec_hex2(arg1) + ",Y @ "@ + spec_hex4(
            addr,
        ) + " = "@ + spec_hex2(value),
        AddressMode::Accumulator => "A"@,
        AddressMode::Relative => "$"@ + spec_hex4(addr),
        AddressMode::Immediate => "#$"@ + spec_hex2(arg1),
        AddressMode::IndexedIndirect => "($"@ + spec_hex2(arg1) + ",X) @ "@ + spec_hex2(
            u8_specs::wrapping_add(arg1, c.x),
        ) + " = "@ + spec_hex4(addr) + " = "@ + spec_hex2(value),
        AddressMode::Indirect => "($"@ + spec_hex2(arg2) + spec_hex2(arg1) + ") = "@ + spec_hex4(
            addr,
        ),
        AddressMode::IndirectIndexed => "($"@ + spec_hex2(arg1) + "),Y = "@ + spec_hex4(
            view_read16_pagewrap(b, arg1 as u16),
        ) + " @ "@ + spec_hex4(addr) + " = "@ + spec_hex2(value),
        AddressMode::Implied => Seq::empty(),
        AddressMode::ZeroPage => "$"@ + spec_hex2(arg1) + " = "@ + spec_hex2(value),
        AddressMode::ZeroPageX => "$"@ + spec_hex2(arg1) + ",X @ "@ + spec_hex2(
            (addr & 0xFF) as u8,
        ) + " = "@ + spec_hex2(value),
        AddressMode::ZeroPageY => "$"@ + spec_hex2(arg1) + ",Y @ "@ + spec_hex2(
            (addr & 0xFF) as u8,
        ) + " = "@ + spec_hex2(value),
    }
}

/// The register dump that closes a trace line: accumulator, the index
/// registers, the flag byte and the stack pointer in hexadecimal, then
/// the cycle counter scaled to the pixel unit's 3:1 clock modulo its
/// 341-cycle scanline, right-aligned in three columns.
pub open spec fn spec_register_dump(c: CPU) -> Seq<char> {
    " A:"@ + spec_hex2(c.a) + " X:"@ + spec_hex2(c.x) + " Y:"@ + spec_hex2(c.y) + " P:"@
        + spec_hex2(c.flags.bits) + " SP:"@ + spec_hex2(c.sp) + " CYC:"@ + spec_dec3(
        (c.cycles * 3) % 341,
    )
}

/// The whole trace line: program counter, raw bytes, mnemonic, operand
/// annotation left-aligned in 27 columns, and the register dump.
pub open spec fn spec_log_line(c: CPU, b: BusView) -> Seq<char> {
    let op = view_read(b, c.pc);
    let arg1 = view_read(b, u16_specs::wrapping_add(c.pc, 1));
    let arg2 = view_read(b, u16_specs::wrapping_add(c.pc, 2));
    spec_hex4(c.pc) + "  "@ + spec_opcode_bytes(op, arg1, arg2) + " "@ + spec_instruction_name(op)
        + " "@ + spec_pad_right(spec_annotation(c, b, op), 27) + spec_register_dump(c)
}

/// The upper-case hexadecimal digit for a value below 16.
pub fn hex_digit_str(d: u8) -> (r: &'static str)
    ensures
        r@ == spec_hex_digit(d),
{
    match d {
        0 => "0",
        1 => "1",
        2 => "2",
        3 => "3",
        4 => "4",
        5 => "5",
        6 => "6",
        7 => "7",
        8 => "8",
        9 => "9",
        10 => "A",
        11 => "B",
        12 => "C",
        13 => "D",
        14 => "E",
        15 => "F",
        _ => "?",
    }
}

/// The decimal digit for a value below 10.
pub fn dec_digit_str(d: u64) -> (r: &'static str)
    ensures
        r@ == spec_dec_digit(d as int),
{
    match d {
        0 => "0",
        1 => "1",
        2 => "2",
        3 => "3",
        4 => "4",
        5 => "5",
        6 => "6",
        7 => "7",
        8 => "8",
        9 => "9",
        _ => "?",
    }
}

/// Every hexadecimal digit is one character wide.
proof fn lemma_hex_digit_len(d: u8)
    ensures
        spec_hex_digit(d).len() == 1,
{
    reveal_strlit("0");
    reveal_strlit("1");
    reveal_strlit("2");
    reveal_strlit("3");
    reveal_strlit("4");
    reveal_strlit("5");
    reveal_strlit("6");
    reveal_strlit("7");
    reveal_strlit("8");
    reveal_strlit("9");
    reveal_strlit("A");
    reveal_strlit("B");
    reveal_strlit("C");
    reveal_strlit("D");
    reveal_strlit("E");
    reveal_strlit("F");
    reveal_strlit("?");
}

/// A byte renders as two characters, a 16-bit value as four.
proof fn lemma_hex_len(v8: u8, v16: u16)
    ensures
        spec_hex2(v8).len() == 2,
        spec_hex4(v16).len() == 4,
{
    lemma_hex_digit_len(v8 >> 4);
    lemma_hex_digit_len(v8 & 0xF);
    lemma_hex_digit_len((v16 >> 8) as u8 >> 4);
    lemma_hex_digit_len((v16 >> 8) as u8 & 0xF);
    lemma_hex_digit_len((v16 & 0xFF) as u8 >> 4);
    lemma_hex_digit_len((v16 & 0xFF) as u8 & 0xF);
}

/// Append a byte as two upper-case hexadecimal digits.
fn push_hex2(s: &mut String, v: u8)
    ensures
        final(s)@ == old(s)@ + spec_hex2(v),
{
    s.append(hex_digit_str(v >> 4));
    s.append(hex_digit_str(v & 0xF));
    proof {
        assert(s@ =~= old(s)@ + spec_hex2(v));
    }
}

/// Append a 16-bit value as four upper-case hexadecimal digits.
fn push_hex4(s: &mut String, v: u16)
    ensures
        final(s)@ == old(s)@ + spec_hex4(v),
{
    push_hex2(s, (v >> 8) as u8);
    push_hex2(s, (v & 0xFF) as u8);
    proof {
        assert(s@ =~= old(s)@ + spec_hex4(v));
    }
}

/// Append spaces until the tail that began at `start` fills `width`
/// columns; `start_len` is how many columns it holds already.
fn pad_tail(s: &mut String, start_len: usize, width: usize)
    requires
        old(s)@.len() >= start_len,
    ensures
        final(s)@ == old(s)@ + spec_spaces(width - start_len),
{
    let mut i: usize = start_len;
    proof {
        assert(s@ =~= old(s)@ + spec_spaces(0));
    }
    while i < width
        invariant
            start_len <= i,
            i <= width || i == start_len,
            s@ == old(s)@ + spec_spaces(i - start_len),
        decreases width - i,
    {
        s.append(" ");
        proof {
            reveal_strlit(" ");
            assert(s@ =~= old(s)@ + spec_spaces(i + 1 - start_len));
        }
        i = i + 1;
    }
    proof {
        assert(s@ =~= old(s)@ + spec_spaces(width - start_len));
    }
}

/// Render the operand annotation for `opcode` and return it with its
/// width in columns.
#[verifier::rlimit(100)]
#[verifier::spinoff_prover]
fn render_annotation(cpu: &CPU, bus: &Bus, opcode: u8, address: u16) -> (r: (String, usize))
    requires
        bus.wf(),
        address == spec_get_address(*cpu, bus@, opcode).0,
    ensures
        r.0@ == spec_annotation(*cpu, bus@, opcode),
        r.1 == r.0@.len(),
{
    let arg1 = bus.read(cpu.pc.wrapping_add(1));
    let arg2 = bus.read(cpu.pc.wrapping_add(2));
    let value = bus.read(address);
    let address_mode = instruction_mode(opcode);
    let mut annotation = String::new();
    let mut annotation_len: usize = 0;
    match address_mode {
        AddressMode::Absolute => {
            // the two absolute-mode jumps show no value at the target
            if opcode == 0x20 || opcode == 0x4C {
                annotation.append("$");
                push_hex4(&mut annotation, address);
                annotation_len = 5;
            } else {
                annotation.append("$");
                push_hex4(&mut annotation, address);
                annotation.append(" = ");
                push_hex2(&mut annotation, value);
                annotation_len = 10;
            }
            proof {
                reveal_strlit("$");
                reveal_strlit(" = ");
                lemma_hex_len(value, address);
            }
        },
        AddressMode::AbsoluteX => {
            annotation.append("$");
            push_hex2(&mut annotation, arg2);
            push_hex2(&mut annotation, arg1);
            annotation.append(",X @ ");
            push_hex4(&mut annotation, address);
            annotation.append(" = ");
            push_hex2(&mut annotation, value);
            annotation_len = 19;
            proof {
                reveal_strlit("$");
                reveal_strlit(",X @ ");
                reveal_strlit(" = ");
                lemma_hex_len(arg1, address);
                lemma_hex_len(arg2, address);
                lemma_hex_len(value, address);
            }
        },
        AddressMode::AbsoluteY => {
            annotation.append("$");
            push_hex2(&mut annotation, arg2);
            push_hex2(&mut annotation, arg1);
            annotation.append(",Y @ ");
            push_hex4(&mut annotation, address);
            annotation.append(" = ");
            push_hex2(&mut annotation, value);
            annotation_len = 19;
            proof {
                reveal_strlit("$");
                reveal_strlit(",Y @ ");
                reveal_strlit(" = ");
                lemma_hex_len(arg1, address);
                lemma_hex_len(arg2, address);
                lemma_hex_len(value, address);
            }
        },
        AddressMode::Accumulator => {
            annotation.append("A");
            annotation_len = 1;
            proof {
                reveal_strlit("A");
                assert(annotation@ =~= "A"@);
            }
        },
        AddressMode::Relative => {
            annotation.append("$");
            push_hex4(&mut annotation, address);
            annotation_len = 5;
            proof {
                reveal_strlit("$");
                lemma_hex_len(0, address);
            }
        },
        AddressMode::Immediate => {
            annotation.append("#$");
            push_hex2(&mut annotation, arg1);
            annotation_len = 4;
            proof {
                reveal_strlit("#$");
                lemma_hex_len(arg1, 0);
            }
        },
        AddressMode::IndexedIndirect => {
            annotation.append("($");
            push_hex2(&mut annotation, arg1);
            annotation.append(",X) @ ");
            push_hex2(&mut annotation, arg1.wrapping_add(cpu.x));
            annotation.append(" = ");
            push_hex4(&mut annotation, address);
            annotation.append(" = ");
            push_hex2(&mut annotation, value);
            annotation_len = 24;
            proof {
                reveal_strlit("($");
                reveal_strlit(",X) @ ");
                reveal_strlit(" = ");
                lemma_hex_len(arg1, address);
                lemma_hex_len(u8_specs::wrapping_add(arg1, cpu.x), address);
                lemma_hex_len(value, address);
            }
        },
        AddressMode::Indirect => {
            annotation.append("($");
            push_hex2(&mut annotation, arg2);
            push_hex2(&mut annotation, arg1);
            annotation.append(") = ");
            push_hex4(&mut annotation, address);
            annotation_len = 14;
            proof {
                reveal_strlit("($");
                reveal_strlit(") = ");
                lemma_hex_len(arg1, address);
                lemma_hex_len(arg2, address);
            }
        },
        AddressMode::IndirectIndexed => {
            annotation.append("($");
            push_hex2(&mut annotation, arg1);
            annotation.append("),Y = ");
            push_hex4(&mut annotation, bus.read_16_bug(arg1 as u16));
            annotation.append(" @ ");
            push_hex4(&mut annotation, address);
            annotation.append(" = ");
            push_hex2(&mut annotation, value);
            annotation_len = 26;
            proof {
                reveal_strlit("($");
                reveal_strlit("),Y = ");
                reveal_strlit(" @ ");
                reveal_strlit(" = ");
                lemma_hex_len(arg1, address);
                lemma_hex_len(value, view_read16_pagewrap(bus@, arg1 as u16));
            }
        },
        AddressMode::Implied => {
            annotation_len = 0;
        },
        AddressMode::ZeroPage => {
            annotation.append("$");
            push_hex2(&mut annotation, arg1);
            annotation.append(" = ");
            push_hex2(&mut annotation, value);
            annotation_len = 8;
            proof {
                reveal_strlit("$");
                reveal_strlit(" = ");
                lemma_hex_len(arg1, 0);
                lemma_hex_len(value, 0);
            }
        },
        AddressMode::ZeroPageX => {
            annotation.append("$");
            push_hex2(&mut annotation, arg1);
            annotation.append(",X @ ");
            push_hex2(&mut annotation, (address & 0xFF) as u8);
            annotation.append(" = ");
            push_hex2(&mut annotation, value);
            annotation_len = 15;
            proof {
                reveal_strlit("$");
                reveal_strlit(",X @ ");
                reveal_strlit(" = ");
                lemma_hex_len(arg1, 0);
                lemma_hex_len((address & 0xFF) as u8, 0);
                lemma_hex_len(value, 0);
            }
        },
        AddressMode::ZeroPageY => {
            annotation.append("$");
            push_hex2(&mut annotation, arg1);
            annotation.append(",Y @ ");
            push_hex2(&mut annotation, (address & 0xFF) as u8);
            annotation.append(" = ");
            push_hex2(&mut annotation, value);
            annotation_len = 15;
            proof {
                reveal_strlit("$");
                reveal_strlit(",Y @ ");
                reveal_strlit(" = ");
                lemma_hex_len(arg1, 0);
                lemma_hex_len((address & 0xFF) as u8, 0);
                lemma_hex_len(value, 0);
            }
        },
    }
    proof {
        assert(annotation@ =~= spec_annotation(*cpu, bus@, opcode));
    }
    (annotation, annotation_len)
}

/// Append the register dump that closes a trace line.
#[verifier::rlimit(100)]
#[verifier::spinoff_prover]
fn append_register_dump(line: &mut String, cpu: &CPU)
    ensures
        final(line)@ == old(line)@ + spec_register_dump(*cpu),
{
    line.append(" A:");
    push_hex2(line, cpu.a);
    line.append(" X:");
    push_hex2(line, cpu.x);
    line.append(" Y:");
    push_hex2(line, cpu.y);
    line.append(" P:");
    push_hex2(line, cpu.flags.bits);
    line.append(" SP:");
    push_hex2(line, cpu.sp);
    line.append(" CYC:");
    let cyc = cpu.cycles % 341 * 3 % 341;
    proof {
        lemma_mul_mod_noop_left(cpu.cycles as int, 3, 341);
    }
    if cyc >= 100 {
        line.append(dec_digit_str(cyc / 100));
        line.append(dec_digit_str(cyc / 10 % 10));
        line.append(dec_digit_str(cyc % 10));
    } else if cyc >= 10 {
        line.append(" ");
        line.append(dec_digit_str(cyc / 10));
        line.append(dec_digit_str(cyc % 10));
    } else {
        line.append("  ");
        line.append(dec_digit_str(cyc));
    }
    proof {
        assert(line@ =~= old(line)@ + spec_register_dump(*cpu));
    }
}

impl CPU {
    /// Render the diagnostic trace line for the instruction the program
    /// counter points at, without executing it and without touching any
    /// state; byte-for-byte as the golden logs show it. Opcode values
    /// whose descriptor gives no length have no rendering.
    #[verifier::rlimit(100)]
    #[verifier::spinoff_prover]
    pub fn log_string(&mut self, bus: &Bus) -> (r: String)
        requires
            bus.wf(),
            spec_instruction_size(view_read(bus@, old(self).pc)) != 0,
        ensures
            *final(self) == *old(self),
            r@ == spec_log_line(*old(self), bus@),
    {
        let opcode = bus.read(self.pc);
        let arg1 = bus.read(self.pc.wrapping_add(1));
        let arg2 = bus.read(self.pc.wrapping_add(2));
        proof {
            lemma_descriptor_bounds(opcode);
        }
        let opcode_size = instruction_size(opcode);
        let address = self.get_address(bus, opcode, false);

        let mut line = String::new();
        push_hex4(&mut line, self.pc);
        line.append("  ");
        push_hex2(&mut line, opcode);
        if opcode_size == 1 {
            line.append("      ");
        } else if opcode_size == 2 {
            line.append(" ");
            push_hex2(&mut line, arg1);
            line.append("   ");
        } else {
            line.append(" ");
            push_hex2(&mut line, arg1);
            line.append(" ");
            push_hex2(&mut line, arg2);
        }
        proof {
            assert(line@ =~= spec_hex4(old(self).pc) + "  "@ + spec_opcode_bytes(
                opcode,
                arg1,
                arg2,
            ));
        }
        line.append(" ");
        line.append(instruction_name(opcode));
        line.append(" ");

        let (annotation, annotation_len) = render_annotation(self, bus, opcode, address);
        let ghost line_mid = line@;
        line.append(annotation.as_str());
        pad_tail(&mut line, annotation_len, 27);
        proof {
            assert(line@ =~= line_mid + spec_pad_right(
                spec_annotation(*old(self), bus@, opcode),
                27,
            ));
        }
        append_register_dump(&mut line, self);
        proof {
            assert(line@ =~= spec_log_line(*old(self), bus@));
        }
        line
    }
}

} // verus!
