use emunes::bus::Bus;
use emunes::cartridge::Cartridge;
use emunes::cpu::CPU;
use emunes::flags::{FLAG_CARRY, FLAG_NEGATIVE, FLAG_OVERFLOW, FLAG_ZERO};

fn make_bus() -> Bus {
    let cart = Cartridge {
        prg: vec![0u8; 16384],
        chr: vec![0u8; 8192],
        sram: vec![0u8; 8192],
        mapper_type: 0,
        mirror_mode: 0,
        battery_present: false,
    };
    Bus::new(cart, vec![0u8; 2048])
}

/// Run one two-byte immediate instruction with the given accumulator and
/// carry-in and return (a, carry, overflow, zero, negative) afterwards.
fn run_immediate(bus: &mut Bus, opcode: u8, a: u8, operand: u8, carry_in: bool) -> (
    u8,
    bool,
    bool,
    bool,
    bool,
) {
    bus.cartridge.prg[0] = opcode;
    bus.cartridge.prg[1] = operand;
    let mut cpu = CPU::new();
    cpu.pc = 0x8000;
    cpu.a = a;
    cpu.flags.set(FLAG_CARRY, carry_in);
    let running = cpu.step(bus);
    assert!(running);
    assert_eq!(cpu.pc, 0x8002);
    (
        cpu.a,
        cpu.flags.intersects(FLAG_CARRY),
        cpu.flags.intersects(FLAG_OVERFLOW),
        cpu.flags.intersects(FLAG_ZERO),
        cpu.flags.intersects(FLAG_NEGATIVE),
    )
}

#[test]
fn adc_matches_reference_formulas_over_the_full_space() {
    let mut bus = make_bus();
    for a in 0u32..256 {
        for b in 0u32..256 {
            for cin in 0u32..2 {
                let a8 = a as u8;
                let b8 = b as u8;
                let sum: i32 = a as i32 + b as i32 + cin as i32;
                let expected: u8 = (sum & 0xFF) as u8;
                let carry_out: bool = sum > 0xFF;
                let overflow: bool = (a8 ^ b8) & 0x80 == 0 && (a8 ^ expected) & 0x80 != 0;
                let (r, c, v, z, n) = run_immediate(&mut bus, 0x69, a8, b8, cin == 1);
                assert_eq!(r, expected);
                assert_eq!(c, carry_out);
                assert_eq!(v, overflow);
                assert_eq!(z, expected == 0);
                assert_eq!(n, expected & 0x80 != 0);
            }
        }
    }
}

#[test]
fn sbc_matches_reference_formulas_over_the_full_space() {
    let mut bus = make_bus();
    for a in 0u32..256 {
        for b in 0u32..256 {
            for cin in 0u32..2 {
                let a8 = a as u8;
                let b8 = b as u8;
                let diff: i32 = a as i32 - b as i32 - (1 - cin as i32);
                let expected: u8 = (diff & 0xFF) as u8;
                let carry_out: bool = diff >= 0;
                let overflow: bool = (a8 ^ b8) & 0x80 != 0 && (a8 ^ expected) & 0x80 != 0;
                let (r, c, v, z, n) = run_immediate(&mut bus, 0xE9, a8, b8, cin == 1);
                assert_eq!(r, expected);
                assert_eq!(c, carry_out);
                assert_eq!(v, overflow);
                assert_eq!(z, expected == 0);
                assert_eq!(n, expected & 0x80 != 0);
            }
        }
    }
}

#[test]
fn sbc_is_adc_of_the_complement_over_the_full_space() {
    let mut bus = make_bus();
    for a in 0u32..256 {
        for b in 0u32..256 {
            for cin in 0u32..2 {
                let a8 = a as u8;
                let b8 = b as u8;
                let sbc = run_immediate(&mut bus, 0xE9, a8, b8, cin == 1);
                let adc = run_immediate(&mut bus, 0x69, a8, !b8, cin == 1);
                assert_eq!(sbc, adc);
            }
        }
    }
}

#[test]
fn adc_examples() {
    let mut bus = make_bus();
    // 0x50 + 0x50 overflows the signed range and sets the overflow flag
    let (r, c, v, _, n) = run_immediate(&mut bus, 0x69, 0x50, 0x50, false);
    assert_eq!(r, 0xA0);
    assert!(!c);
    assert!(v);
    assert!(n);
    // 0xFF + 0x01 wraps to zero with carry out
    let (r2, c2, v2, z2, _) = run_immediate(&mut bus, 0x69, 0xFF, 0x01, false);
    assert_eq!(r2, 0x00);
    assert!(c2);
    assert!(!v2);
    assert!(z2);
}

#[test]
fn compare_sets_carry_zero_negative() {
    let mut bus = make_bus();
    // CMP immediate
    bus.cartridge.prg[0] = 0xC9;
    bus.cartridge.prg[1] = 0x30;
    let mut cpu = CPU::new();
    cpu.pc = 0x8000;
    cpu.a = 0x40;
    cpu.step(&mut bus);
    assert!(cpu.flags.intersects(FLAG_CARRY));
    assert!(!cpu.flags.intersects(FLAG_ZERO));
    assert!(!cpu.flags.intersects(FLAG_NEGATIVE));

    cpu.pc = 0x8000;
    cpu.a = 0x30;
    cpu.step(&mut bus);
    assert!(cpu.flags.intersects(FLAG_CARRY));
    assert!(cpu.flags.intersects(FLAG_ZERO));

    cpu.pc = 0x8000;
    cpu.a = 0x20;
    cpu.step(&mut bus);
    assert!(!cpu.flags.intersects(FLAG_CARRY));
    assert!(cpu.flags.intersects(FLAG_NEGATIVE));
}
