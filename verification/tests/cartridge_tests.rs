//! Loader and cartridge-level behaviour.

use nestadia::Mirroring;
use nestadia::RomParserError;
use nestadia::cartridge::Cartridge;

/// Builds an iNES image: header, then each 16 KiB PRG bank filled with its
/// bank index, then each 8 KiB CHR bank filled with `0x40 + index`.
fn build_rom(mapper_id: u8, prg_banks: u8, chr_banks: u8, flags6_extra: u8) -> Vec<u8> {
    let mut rom = vec![
        0x4E,
        0x45,
        0x53,
        0x1A,
        prg_banks,
        chr_banks,
        ((mapper_id & 0x0F) << 4) | flags6_extra,
        mapper_id & 0xF0,
        0,
        0,
        0,
        0,
        0,
        0,
        0,
        0,
    ];
    for bank in 0..prg_banks {
        rom.extend(std::iter::repeat(bank).take(16384));
    }
    for bank in 0..chr_banks {
        rom.extend(std::iter::repeat(0x40 + bank).take(8192));
    }
    rom
}

#[test]
fn load_rejects_short_header() {
    let rom = vec![0x4E, 0x45, 0x53, 0x1A, 1, 1];
    assert!(matches!(
        Cartridge::load(&rom, None),
        Err(RomParserError::TooShort)
    ));
}

#[test]
fn load_rejects_bad_magic() {
    let mut rom = build_rom(0, 1, 1, 0);
    rom[3] = 0x00;
    assert!(matches!(
        Cartridge::load(&rom, None),
        Err(RomParserError::InvalidMagicBytes)
    ));
}

#[test]
fn load_rejects_unknown_mapper() {
    let rom = build_rom(7, 1, 1, 0);
    assert!(matches!(
        Cartridge::load(&rom, None),
        Err(RomParserError::MapperNotImplemented)
    ));
}

#[test]
fn load_rejects_truncated_body() {
    let mut rom = build_rom(0, 1, 1, 0);
    rom.truncate(16 + 16384 + 8191);
    assert!(matches!(
        Cartridge::load(&rom, None),
        Err(RomParserError::TooShort)
    ));
}

#[test]
fn load_rejects_every_shorter_prefix_boundary() {
    // The declared sizes demand 16 + 16384 + 8192 bytes; one byte less
    // must fail, the exact length must pass.
    let rom = build_rom(0, 1, 1, 0);
    assert_eq!(rom.len(), 16 + 16384 + 8192);
    let mut short = rom.clone();
    short.pop();
    assert!(matches!(
        Cartridge::load(&short, None),
        Err(RomParserError::TooShort)
    ));
    assert!(Cartridge::load(&rom, None).is_ok());
}

#[test]
fn load_rejects_zero_prg_banks() {
    let rom = build_rom(0, 0, 1, 0);
    assert!(matches!(
        Cartridge::load(&rom, None),
        Err(RomParserError::TooShort)
    ));
}

#[test]
fn load_skips_trainer() {
    let mut rom = build_rom(0, 1, 1, 0x04);
    // Insert the 512-byte trainer after the header; PRG must start after
    // it.
    let trainer = vec![0xAA; 512];
    rom.splice(16..16, trainer);
    rom[16 + 512] = 0x77;
    let cart = Cartridge::load(&rom, None).unwrap();
    assert_eq!(cart.read_prg_mem(0x8000), 0x77);
}

#[test]
fn load_trainer_lengthens_expected_size() {
    let rom = build_rom(0, 1, 1, 0x04);
    // Without the 512 extra bytes the trainer flag makes this image short.
    assert!(matches!(
        Cartridge::load(&rom, None),
        Err(RomParserError::TooShort)
    ));
}

#[test]
fn mirroring_follows_flags() {
    let horizontal = Cartridge::load(&build_rom(0, 1, 1, 0), None).unwrap();
    assert!(matches!(horizontal.mirroring(), Mirroring::Horizontal));
    let vertical = Cartridge::load(&build_rom(0, 1, 1, 0x01), None).unwrap();
    assert!(matches!(vertical.mirroring(), Mirroring::Vertical));
    let four_screen = Cartridge::load(&build_rom(0, 1, 1, 0x09), None).unwrap();
    assert!(matches!(four_screen.mirroring(), Mirroring::FourScreen));
}

#[test]
fn nrom_single_bank_mirrors_prg() {
    let mut rom = build_rom(0, 1, 1, 0);
    rom[16 + 0x123] = 0x5A;
    let cart = Cartridge::load(&rom, None).unwrap();
    assert_eq!(cart.read_prg_mem(0x8123), 0x5A);
    assert_eq!(cart.read_prg_mem(0xC123), 0x5A);
}

#[test]
fn chr_ram_round_trip() {
    // CHR count zero allocates writable 8 KiB CHR-RAM.
    let rom = build_rom(0, 1, 0, 0);
    let mut cart = Cartridge::load(&rom, None).unwrap();
    assert_eq!(cart.read_chr_mem(0x0155), 0);
    cart.write_chr_mem(0x0155, 0x99);
    assert_eq!(cart.read_chr_mem(0x0155), 0x99);
}

#[test]
fn chr_rom_write_is_dropped() {
    let rom = build_rom(0, 1, 1, 0);
    let mut cart = Cartridge::load(&rom, None).unwrap();
    let before = cart.read_chr_mem(0x0155);
    cart.write_chr_mem(0x0155, before.wrapping_add(1));
    assert_eq!(cart.read_chr_mem(0x0155), before);
}

#[test]
fn save_data_restores_prg_ram() {
    let rom = build_rom(1, 1, 1, 0x02);
    let save = vec![0xC3; 8192];
    let cart = Cartridge::load(&rom, Some(&save)).unwrap();
    assert_eq!(cart.read_prg_mem(0x6000), 0xC3);
    assert_eq!(cart.get_save_data().unwrap(), &save[..]);
}

#[test]
fn save_data_with_wrong_length_is_ignored() {
    let rom = build_rom(1, 1, 1, 0x02);
    let save = vec![0xC3; 100];
    let cart = Cartridge::load(&rom, Some(&save)).unwrap();
    assert_eq!(cart.read_prg_mem(0x6000), 0);
}

#[test]
fn nrom_has_no_save_data() {
    let cart = Cartridge::load(&build_rom(0, 1, 1, 0), None).unwrap();
    assert!(cart.get_save_data().is_none());
}

#[test]
fn irq_state_starts_low() {
    let mut cart = Cartridge::load(&build_rom(0, 1, 1, 0), None).unwrap();
    assert!(!cart.take_irq_set_state());
}

#[test]
fn get_prg_bank_reports_fixed_nrom_window() {
    let cart = Cartridge::load(&build_rom(0, 2, 1, 0), None).unwrap();
    assert_eq!(cart.get_prg_bank(0x8000), Some(0));
    assert_eq!(cart.get_prg_bank(0xC000), Some(1));
    assert_eq!(cart.get_prg_bank(0x4000), None);
}
