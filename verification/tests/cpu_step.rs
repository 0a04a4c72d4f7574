use emunes::bus::Bus;
use emunes::cartridge::Cartridge;
use emunes::cpu::CPU;
use emunes::flags::{FLAG_CARRY, FLAG_NEGATIVE, FLAG_OVERFLOW, FLAG_ZERO};

fn make_bus() -> Bus {
    let cart = Cartridge {
        prg: vec![0u8; 16384],
        chr: vec![0u8; 8192],
        sram: vec![0u8; 8192],
        mapper_type: 0,
        mirror_mode: 0,
        battery_present: false,
    };
    Bus::new(cart, vec![0u8; 2048])
}

fn cpu_at(pc: u16) -> CPU {
    let mut cpu = CPU::new();
    cpu.pc = pc;
    cpu
}

#[test]
fn lda_immediate_sets_zero_and_negative() {
    let mut bus = make_bus();
    bus.cartridge.prg[0] = 0xA9;
    bus.cartridge.prg[1] = 0x00;
    let mut cpu = cpu_at(0x8000);
    cpu.a = 0x55;
    cpu.step(&mut bus);
    assert_eq!(cpu.a, 0x00);
    assert!(cpu.flags.intersects(FLAG_ZERO));
    assert!(!cpu.flags.intersects(FLAG_NEGATIVE));

    bus.cartridge.prg[1] = 0x80;
    cpu.pc = 0x8000;
    cpu.step(&mut bus);
    assert_eq!(cpu.a, 0x80);
    assert!(!cpu.flags.intersects(FLAG_ZERO));
    assert!(cpu.flags.intersects(FLAG_NEGATIVE));
}

#[test]
fn sta_zero_page_writes_memory() {
    let mut bus = make_bus();
    bus.cartridge.prg[0] = 0x85;
    bus.cartridge.prg[1] = 0x10;
    let mut cpu = cpu_at(0x8000);
    cpu.a = 0x42;
    cpu.step(&mut bus);
    assert_eq!(bus.read(0x0010), 0x42);
    assert_eq!(cpu.cycles, 3);
}

#[test]
fn zero_page_x_wraps_within_the_page() {
    let mut bus = make_bus();
    // STA $FF,X with X = 2 stores at $01, not $101
    bus.cartridge.prg[0] = 0x95;
    bus.cartridge.prg[1] = 0xFF;
    let mut cpu = cpu_at(0x8000);
    cpu.a = 0x77;
    cpu.x = 0x02;
    cpu.step(&mut bus);
    assert_eq!(bus.read(0x0001), 0x77);
    assert_eq!(bus.read(0x0101), 0x00);
}

#[test]
fn indexed_indirect_and_indirect_indexed() {
    let mut bus = make_bus();
    // LDA ($20,X) with X = 4: pointer at $24 -> $0300
    bus.write(0x0024, 0x00);
    bus.write(0x0025, 0x03);
    bus.write(0x0300, 0x5A);
    bus.cartridge.prg[0] = 0xA1;
    bus.cartridge.prg[1] = 0x20;
    let mut cpu = cpu_at(0x8000);
    cpu.x = 0x04;
    cpu.step(&mut bus);
    assert_eq!(cpu.a, 0x5A);

    // LDA ($40),Y with Y = 3: pointer at $40 -> $0300, plus Y -> $0303
    bus.write(0x0040, 0x00);
    bus.write(0x0041, 0x03);
    bus.write(0x0303, 0xA5);
    bus.cartridge.prg[0] = 0xB1;
    bus.cartridge.prg[1] = 0x40;
    let mut cpu2 = cpu_at(0x8000);
    cpu2.y = 0x03;
    cpu2.step(&mut bus);
    assert_eq!(cpu2.a, 0xA5);
}

#[test]
fn indirect_jump_uses_the_page_wrap_defect() {
    let mut bus = make_bus();
    // JMP ($02FF): low byte from $02FF, high byte from $0200
    bus.write(0x02FF, 0x34);
    bus.write(0x0200, 0x12);
    bus.write(0x0300, 0x99);
    bus.cartridge.prg[0] = 0x6C;
    bus.cartridge.prg[1] = 0xFF;
    bus.cartridge.prg[2] = 0x02;
    let mut cpu = cpu_at(0x8000);
    cpu.step(&mut bus);
    assert_eq!(cpu.pc, 0x1234);
}

#[test]
fn jsr_and_rts_round_trip() {
    let mut bus = make_bus();
    // JSR $9000 at $8000; RTS at $9000
    bus.cartridge.prg[0x0000] = 0x20;
    bus.cartridge.prg[0x0001] = 0x00;
    bus.cartridge.prg[0x0002] = 0x90;
    bus.cartridge.prg[0x1000] = 0x60;
    let mut cpu = cpu_at(0x8000);
    cpu.sp = 0xFD;
    let running = cpu.step(&mut bus);
    assert!(running);
    assert_eq!(cpu.pc, 0x9000);
    assert_eq!(cpu.sp, 0xFB);
    // the pushed return address is the byte before the next instruction
    assert_eq!(bus.read_16(0x01FC), 0x8002);
    let running2 = cpu.step(&mut bus);
    assert!(running2);
    assert_eq!(cpu.pc, 0x8003);
    assert_eq!(cpu.sp, 0xFD);
}

#[test]
fn rts_to_the_sentinel_address_halts() {
    let mut bus = make_bus();
    bus.cartridge.prg[0] = 0x60;
    // a return address of 0x0000 pulls back as 0x0001, the sentinel
    bus.write(0x01FE, 0x00);
    bus.write(0x01FF, 0x00);
    let mut cpu = cpu_at(0x8000);
    cpu.sp = 0xFD;
    let running = cpu.step(&mut bus);
    assert!(!running);
    assert_eq!(cpu.pc, 0x0001);
}

#[test]
fn php_plp_force_the_fixed_bits() {
    let mut bus = make_bus();
    // PHP pushes with the break bit forced
    bus.cartridge.prg[0] = 0x08;
    let mut cpu = cpu_at(0x8000);
    cpu.sp = 0xFD;
    cpu.flags.set(FLAG_CARRY, true);
    cpu.step(&mut bus);
    assert_eq!(bus.read(0x01FD), 0x11);
    // PLP pulls with the break bit cleared and the unused bit forced
    bus.cartridge.prg[1] = 0x28;
    cpu.step(&mut bus);
    assert_eq!(cpu.flags.bits(), 0x21);
}

#[test]
fn shifts_and_rotates_on_the_accumulator() {
    let mut bus = make_bus();
    // ASL A
    bus.cartridge.prg[0] = 0x0A;
    let mut cpu = cpu_at(0x8000);
    cpu.a = 0xC1;
    cpu.step(&mut bus);
    assert_eq!(cpu.a, 0x82);
    assert!(cpu.flags.intersects(FLAG_CARRY));
    assert!(cpu.flags.intersects(FLAG_NEGATIVE));

    // ROR A feeds the old carry into bit 7
    bus.cartridge.prg[1] = 0x6A;
    cpu.step(&mut bus);
    assert_eq!(cpu.a, 0x41 | 0x80);
    assert!(!cpu.flags.intersects(FLAG_CARRY));

    // LSR A
    bus.cartridge.prg[2] = 0x4A;
    cpu.step(&mut bus);
    assert_eq!(cpu.a, 0x60);
    assert!(cpu.flags.intersects(FLAG_CARRY));

    // ROL A feeds the old carry into bit 0
    bus.cartridge.prg[3] = 0x2A;
    cpu.step(&mut bus);
    assert_eq!(cpu.a, 0xC1);
    assert!(!cpu.flags.intersects(FLAG_CARRY));
}

#[test]
fn read_modify_write_through_memory() {
    let mut bus = make_bus();
    // INC $10 then DEC $10
    bus.write(0x0010, 0x7F);
    bus.cartridge.prg[0] = 0xE6;
    bus.cartridge.prg[1] = 0x10;
    bus.cartridge.prg[2] = 0xC6;
    bus.cartridge.prg[3] = 0x10;
    let mut cpu = cpu_at(0x8000);
    cpu.step(&mut bus);
    assert_eq!(bus.read(0x0010), 0x80);
    assert!(cpu.flags.intersects(FLAG_NEGATIVE));
    cpu.step(&mut bus);
    assert_eq!(bus.read(0x0010), 0x7F);
    assert!(!cpu.flags.intersects(FLAG_NEGATIVE));
}

#[test]
fn bit_test_reads_overflow_from_bit_six() {
    let mut bus = make_bus();
    bus.write(0x0010, 0xC0);
    bus.cartridge.prg[0] = 0x24;
    bus.cartridge.prg[1] = 0x10;
    let mut cpu = cpu_at(0x8000);
    cpu.a = 0x3F;
    cpu.step(&mut bus);
    assert!(cpu.flags.intersects(FLAG_OVERFLOW));
    assert!(cpu.flags.intersects(FLAG_NEGATIVE));
    assert!(cpu.flags.intersects(FLAG_ZERO));
}

#[test]
fn undocumented_lax_loads_both_registers() {
    let mut bus = make_bus();
    bus.write(0x0010, 0x80);
    bus.cartridge.prg[0] = 0xA7;
    bus.cartridge.prg[1] = 0x10;
    let mut cpu = cpu_at(0x8000);
    cpu.step(&mut bus);
    assert_eq!(cpu.a, 0x80);
    assert_eq!(cpu.x, 0x80);
    assert!(cpu.flags.intersects(FLAG_NEGATIVE));
}

#[test]
fn undocumented_sax_stores_the_and() {
    let mut bus = make_bus();
    bus.cartridge.prg[0] = 0x87;
    bus.cartridge.prg[1] = 0x10;
    let mut cpu = cpu_at(0x8000);
    cpu.a = 0xF0;
    cpu.x = 0x3C;
    cpu.step(&mut bus);
    assert_eq!(bus.read(0x0010), 0x30);
}

#[test]
fn undocumented_dcp_decrements_then_compares() {
    let mut bus = make_bus();
    bus.write(0x0010, 0x41);
    bus.cartridge.prg[0] = 0xC7;
    bus.cartridge.prg[1] = 0x10;
    let mut cpu = cpu_at(0x8000);
    cpu.a = 0x40;
    cpu.step(&mut bus);
    assert_eq!(bus.read(0x0010), 0x40);
    assert!(cpu.flags.intersects(FLAG_ZERO));
    assert!(cpu.flags.intersects(FLAG_CARRY));
}

#[test]
fn undocumented_isb_increments_then_subtracts() {
    let mut bus = make_bus();
    bus.write(0x0010, 0x0F);
    bus.cartridge.prg[0] = 0xE7;
    bus.cartridge.prg[1] = 0x10;
    let mut cpu = cpu_at(0x8000);
    cpu.a = 0x20;
    cpu.flags.set(FLAG_CARRY, true);
    cpu.step(&mut bus);
    assert_eq!(bus.read(0x0010), 0x10);
    assert_eq!(cpu.a, 0x10);
    assert!(cpu.flags.intersects(FLAG_CARRY));
}

#[test]
fn undocumented_slo_shifts_then_ors() {
    let mut bus = make_bus();
    bus.write(0x0010, 0x81);
    bus.cartridge.prg[0] = 0x07;
    bus.cartridge.prg[1] = 0x10;
    let mut cpu = cpu_at(0x8000);
    cpu.a = 0x01;
    cpu.step(&mut bus);
    assert_eq!(bus.read(0x0010), 0x02);
    assert_eq!(cpu.a, 0x03);
    assert!(cpu.flags.intersects(FLAG_CARRY));
}

#[test]
fn transfers_and_index_arithmetic() {
    let mut bus = make_bus();
    // TXS does not touch flags; TSX does
    bus.cartridge.prg[0] = 0x9A;
    bus.cartridge.prg[1] = 0xBA;
    bus.cartridge.prg[2] = 0xE8;
    bus.cartridge.prg[3] = 0x88;
    let mut cpu = cpu_at(0x8000);
    cpu.x = 0x80;
    cpu.step(&mut bus);
    assert_eq!(cpu.sp, 0x80);
    assert!(!cpu.flags.intersects(FLAG_NEGATIVE));
    cpu.step(&mut bus);
    assert_eq!(cpu.x, 0x80);
    assert!(cpu.flags.intersects(FLAG_NEGATIVE));
    // INX wraps 0xFF to 0x00
    cpu.x = 0xFF;
    cpu.step(&mut bus);
    assert_eq!(cpu.x, 0x00);
    assert!(cpu.flags.intersects(FLAG_ZERO));
    // DEY wraps 0x00 to 0xFF
    cpu.y = 0x00;
    cpu.step(&mut bus);
    assert_eq!(cpu.y, 0xFF);
    assert!(cpu.flags.intersects(FLAG_NEGATIVE));
}

#[test]
fn an_undefined_opcode_is_tallied_and_skipped() {
    let mut bus = make_bus();
    // 0x02 has no defined action and a zero length: the program counter
    // holds still and the diagnostic counter grows
    bus.cartridge.prg[0] = 0x02;
    let mut cpu = cpu_at(0x8000);
    let running = cpu.step(&mut bus);
    assert!(running);
    assert_eq!(cpu.pc, 0x8000);
    assert_eq!(cpu.unhandled_opcodes, 1);
    // 0x80 is a two-byte no-op, not a diagnostic event
    bus.cartridge.prg[0] = 0x80;
    let mut cpu2 = cpu_at(0x8000);
    cpu2.step(&mut bus);
    assert_eq!(cpu2.pc, 0x8002);
    assert_eq!(cpu2.unhandled_opcodes, 0);
}

#[test]
fn reset_loads_the_vector_and_the_fixed_state() {
    let mut bus = make_bus();
    // reset vector at 0xFFFC, little-endian
    bus.cartridge.prg[0x3FFC] = 0x00;
    bus.cartridge.prg[0x3FFD] = 0xC0;
    let mut cpu = CPU::new();
    cpu.reset(&mut bus);
    assert_eq!(cpu.pc, 0xC000);
    assert_eq!(cpu.sp, 0xFD);
    assert_eq!(cpu.flags.bits(), 0x24);
}
