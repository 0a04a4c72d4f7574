use emunes::bus::Bus;
use emunes::cartridge::Cartridge;
use emunes::cpu::CPU;
use emunes::flags::FLAG_ZERO;

fn make_bus() -> Bus {
    let cart = Cartridge {
        prg: vec![0u8; 16384],
        chr: vec![0u8; 8192],
        sram: vec![0u8; 8192],
        mapper_type: 0,
        mirror_mode: 0,
        battery_present: false,
    };
    Bus::new(cart, vec![0u8; 2048])
}

#[test]
fn branch_not_taken_costs_base_cycles() {
    let mut bus = make_bus();
    // BNE with the zero flag set: not taken, 2 cycles
    bus.cartridge.prg[0] = 0xD0;
    bus.cartridge.prg[1] = 0x10;
    let mut cpu = CPU::new();
    cpu.pc = 0x8000;
    cpu.flags.set(FLAG_ZERO, true);
    cpu.step(&mut bus);
    assert_eq!(cpu.cycles, 2);
    assert_eq!(cpu.pc, 0x8002);
}

#[test]
fn branch_taken_same_page_costs_base_plus_one() {
    let mut bus = make_bus();
    // BNE +0x10 from 0x8000: target 0x8012 is on the page of 0x8002
    bus.cartridge.prg[0] = 0xD0;
    bus.cartridge.prg[1] = 0x10;
    let mut cpu = CPU::new();
    cpu.pc = 0x8000;
    cpu.step(&mut bus);
    assert_eq!(cpu.cycles, 3);
    assert_eq!(cpu.pc, 0x8012);
}

#[test]
fn branch_taken_across_a_page_costs_base_plus_two() {
    let mut bus = make_bus();
    // BNE +0x7E from 0x8080: target 0x8100 crosses off the page of 0x8082
    bus.cartridge.prg[0x80] = 0xD0;
    bus.cartridge.prg[0x81] = 0x7E;
    let mut cpu = CPU::new();
    cpu.pc = 0x8080;
    cpu.step(&mut bus);
    assert_eq!(cpu.cycles, 4);
    assert_eq!(cpu.pc, 0x8100);
}

#[test]
fn backward_branch_takes_a_negative_offset() {
    let mut bus = make_bus();
    // BNE -2 from 0x8010 loops back onto the branch itself
    bus.cartridge.prg[0x10] = 0xD0;
    bus.cartridge.prg[0x11] = 0xFE;
    let mut cpu = CPU::new();
    cpu.pc = 0x8010;
    cpu.step(&mut bus);
    assert_eq!(cpu.pc, 0x8010);
    assert_eq!(cpu.cycles, 3);
}

#[test]
fn page_cross_penalty_on_absolute_indexed_loads() {
    let mut bus = make_bus();
    // LDA $80F0,X with X = 0x20 crosses into page 0x81: 4 + 1 cycles
    bus.cartridge.prg[0] = 0xBD;
    bus.cartridge.prg[1] = 0xF0;
    bus.cartridge.prg[2] = 0x80;
    let mut cpu = CPU::new();
    cpu.pc = 0x8000;
    cpu.x = 0x20;
    cpu.step(&mut bus);
    assert_eq!(cpu.cycles, 5);
    // without the cross it is the base 4 cycles
    let mut cpu2 = CPU::new();
    cpu2.pc = 0x8000;
    cpu2.x = 0x01;
    cpu2.step(&mut bus);
    assert_eq!(cpu2.cycles, 4);
    // a store is not sensitive to the page cross: always 5
    bus.cartridge.prg[0] = 0x9D;
    let mut cpu3 = CPU::new();
    cpu3.pc = 0x8000;
    cpu3.x = 0x20;
    cpu3.step(&mut bus);
    assert_eq!(cpu3.cycles, 5);
}

#[test]
fn every_step_consumes_at_least_one_cycle() {
    let mut bus = make_bus();
    for op in 0u32..256 {
        bus.cartridge.prg[0] = op as u8;
        let mut cpu = CPU::new();
        cpu.pc = 0x8000;
        cpu.sp = 0xFD;
        cpu.step(&mut bus);
        assert!(cpu.cycles >= 2, "opcode {:02X} consumed {} cycles", op, cpu.cycles);
        assert!(cpu.cycles <= 11);
    }
}

#[test]
fn stack_wraps_across_256_pushes() {
    let mut bus = make_bus();
    let mut cpu = CPU::new();
    cpu.sp = 0xFD;
    for i in 0u32..256 {
        cpu.push(&mut bus, i as u8);
    }
    assert_eq!(cpu.sp, 0xFD);
}

#[test]
fn the_257th_push_lands_one_below_the_start() {
    let mut bus = make_bus();
    let mut cpu = CPU::new();
    cpu.sp = 0xFD;
    for i in 0u32..257 {
        cpu.push(&mut bus, i as u8);
    }
    assert_eq!(cpu.sp, 0xFC);
}

#[test]
fn push_pull_round_trip() {
    let mut bus = make_bus();
    let mut cpu = CPU::new();
    cpu.sp = 0xFD;
    cpu.push(&mut bus, 0x42);
    assert_eq!(cpu.sp, 0xFC);
    assert_eq!(bus.read(0x01FD), 0x42);
    let v = cpu.pull(&bus);
    assert_eq!(v, 0x42);
    assert_eq!(cpu.sp, 0xFD);

    cpu.push_16(&mut bus, 0xBEEF);
    assert_eq!(cpu.pull_16(&bus), 0xBEEF);
    assert_eq!(cpu.sp, 0xFD);
}

#[test]
fn pushing_from_a_zero_pointer_wraps_without_fault() {
    let mut bus = make_bus();
    let mut cpu = CPU::new();
    cpu.sp = 0x00;
    cpu.push(&mut bus, 0x99);
    assert_eq!(cpu.sp, 0xFF);
    assert_eq!(bus.read(0x0100), 0x99);
}
