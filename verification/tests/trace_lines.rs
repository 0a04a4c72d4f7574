use emunes::bus::Bus;
use emunes::cartridge::Cartridge;
use emunes::cpu::CPU;

fn make_bus() -> Bus {
    let cart = Cartridge {
        prg: vec![0u8; 16384],
        chr: vec![0u8; 8192],
        sram: vec![0u8; 8192],
        mapper_type: 0,
        mirror_mode: 0,
        battery_present: false,
    };
    Bus::new(cart, vec![0u8; 2048])
}

fn traced_cpu(pc: u16) -> CPU {
    let mut cpu = CPU::new();
    cpu.pc = pc;
    cpu.sp = 0xFD;
    cpu.flags = emunes::flags::Flags::from_bits(0x24);
    cpu
}

#[test]
fn trace_line_for_an_absolute_jump() {
    let mut bus = make_bus();
    bus.cartridge.prg[0] = 0x4C;
    bus.cartridge.prg[1] = 0xF5;
    bus.cartridge.prg[2] = 0xC5;
    let mut cpu = traced_cpu(0xC000);
    let line = cpu.log_string(&bus);
    assert_eq!(
        line,
        "C000  4C F5 C5  JMP $C5F5                       A:00 X:00 Y:00 P:24 SP:FD CYC:  0"
    );
}

#[test]
fn trace_line_for_an_immediate_load() {
    let mut bus = make_bus();
    bus.cartridge.prg[0] = 0xA9;
    bus.cartridge.prg[1] = 0x42;
    let mut cpu = traced_cpu(0xC000);
    cpu.x = 0x0F;
    let line = cpu.log_string(&bus);
    assert_eq!(
        line,
        "C000  A9 42     LDA #$42                        A:00 X:0F Y:00 P:24 SP:FD CYC:  0"
    );
}

#[test]
fn trace_line_for_a_zero_page_store() {
    let mut bus = make_bus();
    bus.write(0x0010, 0x55);
    bus.cartridge.prg[0] = 0x85;
    bus.cartridge.prg[1] = 0x10;
    let mut cpu = traced_cpu(0xC000);
    cpu.a = 0x99;
    let line = cpu.log_string(&bus);
    assert_eq!(
        line,
        "C000  85 10     STA $10 = 55                    A:99 X:00 Y:00 P:24 SP:FD CYC:  0"
    );
}

#[test]
fn trace_line_for_an_implied_instruction() {
    let mut bus = make_bus();
    bus.cartridge.prg[0] = 0xEA;
    let mut cpu = traced_cpu(0xC000);
    let line = cpu.log_string(&bus);
    assert_eq!(
        line,
        "C000  EA        NOP                             A:00 X:00 Y:00 P:24 SP:FD CYC:  0"
    );
}

#[test]
fn trace_line_marks_undocumented_opcodes() {
    let mut bus = make_bus();
    bus.write(0x0010, 0x01);
    bus.cartridge.prg[0] = 0xA7;
    bus.cartridge.prg[1] = 0x10;
    let mut cpu = traced_cpu(0xC000);
    let line = cpu.log_string(&bus);
    assert_eq!(
        line,
        "C000  A7 10    *LAX $10 = 01                    A:00 X:00 Y:00 P:24 SP:FD CYC:  0"
    );
}

#[test]
fn trace_cycle_field_scales_by_three_modulo_a_scanline() {
    let mut bus = make_bus();
    bus.cartridge.prg[0] = 0xEA;
    let mut cpu = traced_cpu(0xC000);
    cpu.cycles = 40;
    let line = cpu.log_string(&bus);
    assert!(line.ends_with("CYC:120"), "line was: {}", line);
    cpu.cycles = 114;
    let line2 = cpu.log_string(&bus);
    // 342 modulo 341 is 1, right-aligned in three columns
    assert!(line2.ends_with("CYC:  1"), "line was: {}", line2);
    cpu.cycles = 10;
    let line3 = cpu.log_string(&bus);
    assert!(line3.ends_with("CYC: 30"), "line was: {}", line3);
}

#[test]
fn trace_does_not_disturb_the_machine() {
    let mut bus = make_bus();
    bus.cartridge.prg[0] = 0xBD;
    bus.cartridge.prg[1] = 0xF0;
    bus.cartridge.prg[2] = 0x80;
    let mut cpu = traced_cpu(0xC000);
    cpu.x = 0x20;
    let _ = cpu.log_string(&bus);
    // rendering resolved an indexed address but charged nothing
    assert_eq!(cpu.cycles, 0);
    assert_eq!(cpu.pc, 0xC000);
}

#[test]
fn a_short_program_traces_line_by_line() {
    let mut bus = make_bus();
    let program: [u8; 10] = [
        0xA2, 0x10,        // LDX #$10
        0x8E, 0x00, 0x02,  // STX $0200
        0xE8,              // INX
        0xEA,              // NOP
        0x4C, 0x00, 0xC0,  // JMP $C000
    ];
    for (i, b) in program.iter().enumerate() {
        bus.cartridge.prg[i] = *b;
    }
    let expected: [&str; 5] = [
        "C000  A2 10     LDX #$10                        A:00 X:00 Y:00 P:24 SP:FD CYC:  0",
        "C002  8E 00 02  STX $0200 = 00                  A:00 X:10 Y:00 P:24 SP:FD CYC:  6",
        "C005  E8        INX                             A:00 X:10 Y:00 P:24 SP:FD CYC: 18",
        "C006  EA        NOP                             A:00 X:11 Y:00 P:24 SP:FD CYC: 24",
        "C007  4C 00 C0  JMP $C000                       A:00 X:11 Y:00 P:24 SP:FD CYC: 30",
    ];
    let mut cpu = traced_cpu(0xC000);
    for want in expected.iter() {
        let line = cpu.log_string(&bus);
        assert_eq!(&line, want);
        cpu.step(&mut bus);
    }
    // the jump brought the program counter back to the start
    assert_eq!(cpu.pc, 0xC000);
}
