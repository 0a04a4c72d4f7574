use emunes::cartridge::{parse_header, parse_rom, RomError};

/// A minimal well-formed image: header, `prg_banks` 16KB program banks
/// and `chr_banks` 8KB pattern banks.
fn image(prg_banks: u8, chr_banks: u8, control1: u8, control2: u8) -> Vec<u8> {
    let mut bytes: Vec<u8> = vec![0x4E, 0x45, 0x53, 0x1A];
    bytes.push(prg_banks);
    bytes.push(chr_banks);
    bytes.push(control1);
    bytes.push(control2);
    bytes.push(0);
    for _ in 0..7 {
        bytes.push(0);
    }
    if control1 & 4 == 4 {
        for _ in 0..512 {
            bytes.push(0xEE);
        }
    }
    for i in 0..(prg_banks as usize * 16384) {
        bytes.push((i % 251) as u8);
    }
    for i in 0..(chr_banks as usize * 8192) {
        bytes.push((i % 241) as u8);
    }
    bytes
}

#[test]
fn a_well_formed_image_parses() {
    let bytes = image(1, 1, 0, 0);
    let cart = parse_rom(&bytes).unwrap();
    assert_eq!(cart.prg.len(), 16384);
    assert_eq!(cart.chr.len(), 8192);
    assert_eq!(cart.sram.len(), 8192);
    assert_eq!(cart.prg[0], 0);
    assert_eq!(cart.prg[500], (500 % 251) as u8);
    assert_eq!(cart.chr[77], (77 % 241) as u8);
    assert_eq!(cart.mapper_type, 0);
    assert_eq!(cart.mirror_mode, 0);
    assert!(!cart.battery_present);
    assert!(cart.sram.iter().all(|b| *b == 0));
}

#[test]
fn the_header_decodes_its_fields() {
    let bytes = image(2, 1, 0x53, 0x40);
    let header = parse_header(&bytes).unwrap();
    assert_eq!(header.magic, 0x4E45531A);
    assert_eq!(header.prg_count, 2);
    assert_eq!(header.chr_count, 1);
    assert_eq!(header.control1, 0x53);
    assert_eq!(header.control2, 0x40);
    assert_eq!(header.ram_count, 0);
}

#[test]
fn mapper_mirroring_and_battery_decode_from_the_flag_bytes() {
    // control1 = 0x53: mirroring low bit set, battery set, mapper low nibble 5
    // control2 = 0x40: mapper high nibble 4
    let bytes = image(1, 1, 0x53, 0x40);
    let cart = parse_rom(&bytes).unwrap();
    assert_eq!(cart.mapper_type, 0x45);
    assert_eq!(cart.mirror_mode, 0x01);
    assert!(cart.battery_present);

    // mirroring bit 3 of control1 contributes the second mirror bit
    let bytes2 = image(1, 1, 0x08, 0x00);
    let cart2 = parse_rom(&bytes2).unwrap();
    assert_eq!(cart2.mirror_mode, 0x02);
}

#[test]
fn a_bad_magic_number_is_fatal() {
    let mut bytes = image(1, 1, 0, 0);
    bytes[0] = 0x4D;
    assert!(matches!(parse_rom(&bytes), Err(RomError::BadMagic)));
}

#[test]
fn a_truncated_image_is_fatal() {
    assert!(matches!(parse_rom(&vec![]), Err(RomError::Truncated)));
    assert!(matches!(parse_rom(&vec![0x4E, 0x45]), Err(RomError::Truncated)));
    let mut bytes = image(1, 1, 0, 0);
    bytes.truncate(15);
    assert!(matches!(parse_rom(&bytes), Err(RomError::Truncated)));
    let mut short = image(1, 1, 0, 0);
    short.truncate(16 + 16384 + 8191);
    assert!(matches!(parse_rom(&short), Err(RomError::Truncated)));
}

#[test]
fn an_image_with_no_program_bank_is_rejected() {
    let bytes = image(0, 1, 0, 0);
    assert!(matches!(parse_rom(&bytes), Err(RomError::NoProgram)));
}

#[test]
fn missing_pattern_storage_falls_back_to_a_zeroed_bank() {
    let bytes = image(1, 0, 0, 0);
    let cart = parse_rom(&bytes).unwrap();
    assert_eq!(cart.chr.len(), 8192);
    assert!(cart.chr.iter().all(|b| *b == 0));
}

#[test]
fn a_trainer_block_is_skipped() {
    let bytes = image(1, 1, 0x04, 0);
    let cart = parse_rom(&bytes).unwrap();
    // program storage starts after the 512-byte trainer, not inside it
    assert_eq!(cart.prg[500], (500 % 251) as u8);
    assert_eq!(cart.prg.len(), 16384);
}
