use emunes::bus::Bus;
use emunes::cartridge::Cartridge;
use emunes::flags::{
    Flags, FLAG_BREAK, FLAG_CARRY, FLAG_INTERRUPT_DISABLE, FLAG_NEGATIVE, FLAG_UNUSED, FLAG_ZERO,
};

fn make_cartridge() -> Cartridge {
    Cartridge {
        prg: vec![0u8; 16384],
        chr: vec![0u8; 8192],
        sram: vec![0u8; 8192],
        mapper_type: 0,
        mirror_mode: 0,
        battery_present: false,
    }
}

fn make_bus() -> Bus {
    Bus::new(make_cartridge(), vec![0u8; 2048])
}

#[test]
fn flag_set_and_clear() {
    let mut f = Flags::empty();
    assert_eq!(f.bits(), 0);
    f.set(FLAG_CARRY, true);
    assert_eq!(f.bits(), 0x01);
    f.insert(FLAG_ZERO);
    assert_eq!(f.bits(), 0x03);
    assert!(f.intersects(FLAG_CARRY));
    assert!(f.intersects(FLAG_ZERO));
    assert!(!f.intersects(FLAG_NEGATIVE));
    f.set(FLAG_CARRY, false);
    assert_eq!(f.bits(), 0x02);
    f.remove(FLAG_ZERO);
    assert_eq!(f.bits(), 0x00);
    let g = Flags::from_bits(FLAG_UNUSED | FLAG_INTERRUPT_DISABLE);
    assert_eq!(g.bits(), 0x24);
    let d: Flags = Default::default();
    assert_eq!(d.bits(), 0);
    assert_eq!(FLAG_BREAK, 0x10);
}

#[test]
fn ram_is_mirrored_every_0x800() {
    let mut bus = make_bus();
    bus.write(0x0000, 0xAB);
    assert_eq!(bus.read(0x0000), 0xAB);
    assert_eq!(bus.read(0x0800), 0xAB);
    assert_eq!(bus.read(0x1000), 0xAB);
    assert_eq!(bus.read(0x1800), 0xAB);
    bus.write(0x1801, 0xCD);
    assert_eq!(bus.read(0x0001), 0xCD);
}

#[test]
fn peripheral_windows_read_placeholders() {
    let bus = make_bus();
    assert_eq!(bus.read(0x2000), 0xCC);
    assert_eq!(bus.read(0x3FFF), 0xCC);
    assert_eq!(bus.read(0x4000), 0xFF);
    assert_eq!(bus.read(0x4013), 0xFF);
    assert_eq!(bus.read(0x4014), 0xCC);
    assert_eq!(bus.read(0x4015), 0xFF);
    assert_eq!(bus.read(0x4016), 0xFF);
    assert_eq!(bus.read(0x4017), 0xFF);
    assert_eq!(bus.read(0x4018), 0xFF);
    assert_eq!(bus.read(0x5FFF), 0xFF);
}

#[test]
fn audio_register_writes_land_in_the_bank() {
    let mut bus = make_bus();
    bus.write(0x4000, 0x11);
    bus.write(0x4013, 0x22);
    bus.write(0x4015, 0x33);
    assert_eq!(bus.apu_registers[0x00], 0x11);
    assert_eq!(bus.apu_registers[0x13], 0x22);
    assert_eq!(bus.apu_registers[0x15], 0x33);
}

#[test]
fn dma_trigger_write_is_recorded() {
    let mut bus = make_bus();
    bus.write(0x4014, 0x77);
    assert_eq!(bus.dma_register, 0x77);
}

#[test]
fn save_storage_reads_and_writes() {
    let mut bus = make_bus();
    bus.write(0x6000, 0x5A);
    bus.write(0x7FFF, 0xA5);
    assert_eq!(bus.read(0x6000), 0x5A);
    assert_eq!(bus.read(0x7FFF), 0xA5);
    assert_eq!(bus.cartridge.sram[0], 0x5A);
    assert_eq!(bus.cartridge.sram[0x1FFF], 0xA5);
}

#[test]
fn program_storage_two_bank_mapping() {
    let mut cart = make_cartridge();
    cart.prg[0x0000] = 0x11;
    cart.prg[0x3FFF] = 0x22;
    let bus = Bus::new(cart, vec![0u8; 2048]);
    // one 16KB bank is both the first and the last bank
    assert_eq!(bus.read(0x8000), 0x11);
    assert_eq!(bus.read(0xBFFF), 0x22);
    assert_eq!(bus.read(0xC000), 0x11);
    assert_eq!(bus.read(0xFFFF), 0x22);

    let mut big = make_cartridge();
    big.prg = vec![0u8; 32768];
    big.prg[0x0000] = 0x33;
    big.prg[0x4000] = 0x44;
    big.prg[0x7FFF] = 0x55;
    let bus2 = Bus::new(big, vec![0u8; 2048]);
    // lower half shows the first bank, upper half the last
    assert_eq!(bus2.read(0x8000), 0x33);
    assert_eq!(bus2.read(0xC000), 0x44);
    assert_eq!(bus2.read(0xFFFF), 0x55);
}

#[test]
fn rom_writes_are_ignored() {
    let mut bus = make_bus();
    bus.write(0x8000, 0x99);
    assert_eq!(bus.read(0x8000), 0x00);
    bus.write(0x2001, 0x99);
    assert_eq!(bus.read(0x2001), 0xCC);
}

#[test]
fn read_16_is_little_endian() {
    let mut bus = make_bus();
    bus.write(0x0010, 0x34);
    bus.write(0x0011, 0x12);
    assert_eq!(bus.read_16(0x0010), 0x1234);
}

#[test]
fn read_16_bug_wraps_within_the_page() {
    let mut bus = make_bus();
    bus.write(0x02FF, 0x34);
    bus.write(0x0300, 0xFF);
    bus.write(0x0200, 0x12);
    // the high byte comes from 0x0200, not 0x0300
    assert_eq!(bus.read_16_bug(0x02FF), 0x1234);
    // away from a page edge it reads the following byte as usual
    bus.write(0x0250, 0x78);
    bus.write(0x0251, 0x56);
    assert_eq!(bus.read_16_bug(0x0250), 0x5678);
}

#[test]
fn ppu_read_dispatch() {
    let mut cart = make_cartridge();
    cart.chr[0x0123] = 0xEE;
    let mut bus = Bus::new(cart, vec![0u8; 2048]);
    assert_eq!(bus.ppu_read(0x0123), 0xEE);
    bus.ppu_name_table[0x0005] = 0x42;
    assert_eq!(bus.ppu_read(0x2005), 0x42);
    assert_eq!(bus.ppu_read(0x2805), 0x42);
    bus.ppu_palette[3] = 0x21;
    assert_eq!(bus.ppu_read(0x3F03), 0x21);
    assert_eq!(bus.ppu_read(0x3F23), 0x21);
}
