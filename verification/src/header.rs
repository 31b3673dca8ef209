//! The 16-byte iNES preamble: magic check and field extraction.

use vstd::prelude::*;

use crate::RomParserError;

verus! {

/// Bit 0 of flag byte 6: vertical mirroring when set, horizontal when clear.
pub const FLAGS6_MIRRORING: u8 = 0x01;
/// Bit 1 of flag byte 6: battery-backed PRG-RAM present.
pub const FLAGS6_BATTERY: u8 = 0x02;
/// Bit 2 of flag byte 6: a 512-byte trainer precedes the PRG data.
pub const FLAGS6_TRAINER: u8 = 0x04;
/// Bit 3 of flag byte 6: four-screen mirroring; dominates bit 0.
pub const FLAGS6_FOUR_SCREEN: u8 = 0x08;

/// The parsed 16-byte ROM preamble.
#[derive(Clone, Copy, Debug, PartialEq, Eq, Structural)]
pub struct INesHeader {
    /// PRG ROM size in 16 KiB units.
    pub prg_size: u8,
    /// CHR ROM size in 8 KiB units; 0 means the cartridge uses CHR-RAM.
    pub chr_size: u8,
    /// Bank-switching scheme identifier.
    pub mapper_id: u8,
    /// Flag byte 6 (mirroring, battery, trainer, four-screen, mapper low nibble).
    pub flags6: u8,
    /// Flag byte 7 (mapper high nibble).
    pub flags7: u8,
}

/// Whether the first four bytes are the required magic `N E S 0x1A`.
pub open spec fn magic_ok(rom: Seq<u8>) -> bool {
    rom.len() >= 4 && rom[0] == 0x4E && rom[1] == 0x45 && rom[2] == 0x53 && rom[3] == 0x1A
}

/// The mapper identifier: high nibble of flag byte 7 joined with the high
/// nibble of flag byte 6.
pub open spec fn mapper_id_of(flags6: u8, flags7: u8) -> u8 {
    (flags7 & 0xF0) | (flags6 >> 4)
}

/// The header a well-formed preamble parses to.
pub open spec fn header_of(rom: Seq<u8>) -> INesHeader
    recommends
        rom.len() >= 16,
{
    INesHeader {
        prg_size: rom[4],
        chr_size: rom[5],
        mapper_id: mapper_id_of(rom[6], rom[7]),
        flags6: rom[6],
        flags7: rom[7],
    }
}

impl INesHeader {
    /// Validates the preamble of `rom` and extracts its fields.
    ///
    /// Fails with `TooShort` when fewer than 16 bytes are given, and with
    /// `InvalidMagicBytes` when the magic does not match; succeeds otherwise.
    pub fn parse(rom: &[u8]) -> (r: Result<INesHeader, RomParserError>)
        ensures
            rom@.len() < 16 ==> r == Err::<INesHeader, RomParserError>(RomParserError::TooShort),
            rom@.len() >= 16 && !magic_ok(rom@) ==> r == Err::<INesHeader, RomParserError>(
                RomParserError::InvalidMagicBytes,
            ),
            rom@.len() >= 16 && magic_ok(rom@) ==> r == Ok::<INesHeader, RomParserError>(
                header_of(rom@),
            ),
    {
        if rom.len() < 16 {
            return Err(RomParserError::TooShort);
        }
        if !(rom[0] == 0x4E && rom[1] == 0x45 && rom[2] == 0x53 && rom[3] == 0x1A) {
            return Err(RomParserError::InvalidMagicBytes);
        }
        let flags6 = rom[6];
        let flags7 = rom[7];
        Ok(
            INesHeader {
                prg_size: rom[4],
                chr_size: rom[5],
                mapper_id: (flags7 & 0xF0) | (flags6 >> 4),
                flags6,
                flags7,
            },
        )
    }

    /// Whether flag byte 6 has the given bit set.
    pub fn flags6_contains(&self, mask: u8) -> (r: bool)
        ensures
            r == (self.flags6 & mask != 0),
    {
        self.flags6 & mask != 0
    }
}

} // verus!
