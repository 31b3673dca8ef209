//! Bank-switching behaviour of each supported mapper, driven through the
//! cartridge interface.

use nestadia::Mirroring;
use nestadia::cartridge::Cartridge;

/// Builds an iNES image: header, then each 16 KiB PRG bank filled with its
/// bank index, then each 8 KiB CHR bank filled with `0x40 + index`.
fn build_rom(mapper_id: u8, prg_banks: u8, chr_banks: u8, flags6_extra: u8) -> Vec<u8> {
    let mut rom = vec![
        0x4E,
        0x45,
        0x53,
        0x1A,
        prg_banks,
        chr_banks,
        ((mapper_id & 0x0F) << 4) | flags6_extra,
        mapper_id & 0xF0,
        0,
        0,
        0,
        0,
        0,
        0,
        0,
        0,
    ];
    for bank in 0..prg_banks {
        rom.extend(std::iter::repeat(bank).take(16384));
    }
    for bank in 0..chr_banks {
        rom.extend(std::iter::repeat(0x40 + bank).take(8192));
    }
    rom
}

/// Serially loads a five-bit value into an MMC1 register, low bit first.
fn mmc1_serial_write(cart: &mut Cartridge, addr: u16, value: u8) {
    for i in 0..5 {
        cart.write_prg_mem(addr, (value >> i) & 1);
    }
}

#[test]
fn uxrom_bank_select_switches_low_window() {
    let mut cart = Cartridge::load(&build_rom(2, 4, 1, 0), None).unwrap();
    // Power-on: bank 0 low, last bank fixed high.
    assert_eq!(cart.read_prg_mem(0x8000), 0);
    assert_eq!(cart.read_prg_mem(0xC000), 3);
    cart.write_prg_mem(0x9123, 2);
    assert_eq!(cart.read_prg_mem(0x8000), 2);
    assert_eq!(cart.read_prg_mem(0xBFFF), 2);
    // The high window stays on the last bank.
    assert_eq!(cart.read_prg_mem(0xC000), 3);
    assert_eq!(cart.get_prg_bank(0x8000), Some(2));
    assert_eq!(cart.get_prg_bank(0xC000), Some(3));
}

#[test]
fn cnrom_bank_select_switches_chr() {
    let mut cart = Cartridge::load(&build_rom(3, 1, 4, 0), None).unwrap();
    assert_eq!(cart.read_chr_mem(0x0000), 0x40);
    cart.write_prg_mem(0x8000, 3);
    assert_eq!(cart.read_chr_mem(0x0000), 0x43);
    assert_eq!(cart.read_chr_mem(0x1FFF), 0x43);
    // PRG stays fixed.
    assert_eq!(cart.read_prg_mem(0x8000), 0);
}

#[test]
fn gxrom_bank_select_switches_both() {
    // Two 32 KiB PRG banks (four 16 KiB units) and two CHR banks.
    let mut cart = Cartridge::load(&build_rom(66, 4, 2, 0), None).unwrap();
    assert_eq!(cart.read_prg_mem(0x8000), 0);
    assert_eq!(cart.read_chr_mem(0x0000), 0x40);
    // PRG bank 1 in bits 4-5, CHR bank 1 in bits 0-1.
    cart.write_prg_mem(0x8000, 0x11);
    assert_eq!(cart.read_prg_mem(0x8000), 2);
    assert_eq!(cart.read_prg_mem(0xC000), 3);
    assert_eq!(cart.read_chr_mem(0x0000), 0x41);
}

#[test]
fn mmc1_serial_load_commits_control() {
    // Five writes of 0x01 to 0x8000 shift in 0b11111 and commit it to
    // control register 0: mirroring bits 0b11 select horizontal.
    let mut cart = Cartridge::load(&build_rom(1, 2, 1, 0x01), None).unwrap();
    assert!(matches!(cart.mirroring(), Mirroring::Vertical));
    for _ in 0..5 {
        cart.write_prg_mem(0x8000, 0x01);
    }
    assert!(matches!(cart.mirroring(), Mirroring::Horizontal));
}

#[test]
fn mmc1_reset_bit_discards_partial_load() {
    let mut cart = Cartridge::load(&build_rom(1, 2, 1, 0x01), None).unwrap();
    for _ in 0..5 {
        cart.write_prg_mem(0x8000, 0x01);
    }
    assert!(matches!(cart.mirroring(), Mirroring::Horizontal));
    // A write with bit 7 set resets the shift state without committing:
    // the next four writes must not commit anything yet.
    cart.write_prg_mem(0x8000, 0x80);
    for _ in 0..4 {
        cart.write_prg_mem(0x8000, 0x00);
    }
    assert!(matches!(cart.mirroring(), Mirroring::Horizontal));
    // The fifth write commits 0b00000: one-screen lower.
    cart.write_prg_mem(0x8000, 0x00);
    assert!(matches!(cart.mirroring(), Mirroring::OneScreenLower));
}

#[test]
fn mmc1_prg_bank_select() {
    // Power-on control (0x0C) switches the low window and fixes the last
    // bank high.
    let mut cart = Cartridge::load(&build_rom(1, 4, 1, 0), None).unwrap();
    assert_eq!(cart.read_prg_mem(0x8000), 0);
    assert_eq!(cart.read_prg_mem(0xC000), 3);
    // Serially load PRG bank register (address bits 13-14 = 3) with 2.
    mmc1_serial_write(&mut cart, 0xE000, 2);
    assert_eq!(cart.read_prg_mem(0x8000), 2);
    assert_eq!(cart.read_prg_mem(0xC000), 3);
}

#[test]
fn mmc1_prg_ram_round_trip() {
    let mut cart = Cartridge::load(&build_rom(1, 1, 1, 0x02), None).unwrap();
    cart.write_prg_mem(0x6123, 0x5C);
    assert_eq!(cart.read_prg_mem(0x6123), 0x5C);
    assert_eq!(cart.get_save_data().unwrap()[0x123], 0x5C);
}

#[test]
fn mmc3_bank_select_switches_prg_window() {
    // Two 16 KiB PRG banks give four 8 KiB banks: bytes 0,0,1,1.
    let mut cart = Cartridge::load(&build_rom(4, 2, 1, 0), None).unwrap();
    // Select bank register 6 and load it with 2 (third 8 KiB bank).
    cart.write_prg_mem(0x8000, 6);
    cart.write_prg_mem(0x8001, 2);
    assert_eq!(cart.read_prg_mem(0x8000), 1);
    // The top window is always the last 8 KiB bank.
    assert_eq!(cart.read_prg_mem(0xE000), 1);
    // Load register 6 with 0.
    cart.write_prg_mem(0x8001, 0);
    assert_eq!(cart.read_prg_mem(0x8000), 0);
}

#[test]
fn mmc3_mirroring_select() {
    let mut cart = Cartridge::load(&build_rom(4, 1, 1, 0), None).unwrap();
    cart.write_prg_mem(0xA000, 0);
    assert!(matches!(cart.mirroring(), Mirroring::Vertical));
    cart.write_prg_mem(0xA000, 1);
    assert!(matches!(cart.mirroring(), Mirroring::Horizontal));
}

#[test]
fn mmc3_scanline_counter_raises_irq() {
    let mut cart = Cartridge::load(&build_rom(4, 1, 1, 0), None).unwrap();
    // Reload value 1, force a reload, enable the IRQ.
    cart.write_prg_mem(0xC000, 1);
    cart.write_prg_mem(0xC001, 0);
    cart.write_prg_mem(0xE001, 0);
    // First rising edge of PPU address line 12 reloads the counter to 1.
    cart.read_chr_mem(0x1000);
    assert!(!cart.take_irq_set_state());
    // Drop line 12, then raise it again: the counter reaches zero and the
    // latch goes up.
    cart.read_chr_mem(0x0000);
    cart.read_chr_mem(0x1000);
    assert!(cart.take_irq_set_state());
    // Reading the latch cleared it.
    assert!(!cart.take_irq_set_state());
}

#[test]
fn mmc1_chr_4k_mode_banks_separately() {
    let mut cart = Cartridge::load(&build_rom(1, 1, 2, 0), None).unwrap();
    // Power-on control selects 8 KiB CHR mode: both halves come from
    // CHR bank 0.
    assert_eq!(cart.read_chr_mem(0x0000), 0x40);
    assert_eq!(cart.read_chr_mem(0x1000), 0x40);
    // Switch to 4 KiB CHR mode, then point the high window at the second
    // image bank (4 KiB units: bank 2).
    mmc1_serial_write(&mut cart, 0x8000, 0x10);
    mmc1_serial_write(&mut cart, 0xC000, 2);
    assert_eq!(cart.read_chr_mem(0x0000), 0x40);
    assert_eq!(cart.read_chr_mem(0x1000), 0x41);
}

#[test]
fn mmc3_prg_ram_round_trip() {
    let mut cart = Cartridge::load(&build_rom(4, 1, 1, 0x02), None).unwrap();
    cart.write_prg_mem(0x7FFF, 0x21);
    assert_eq!(cart.read_prg_mem(0x7FFF), 0x21);
    assert_eq!(cart.get_save_data().unwrap()[8191], 0x21);
}
