//! CNROM (mapper 3): fixed PRG as on NROM, with a switchable 8 KiB CHR
//! bank selected by writes to 0x8000-0xFFFF.

use vstd::prelude::*;

use crate::Mirroring;
use crate::mapper::CartridgeReadTarget;

verus! {

pub struct Mapper003 {
    /// Number of 16 KiB PRG banks on the cartridge.
    pub prg_banks: u8,
    /// CHR bank currently mapped at the PPU window.
    pub chr_bank: u8,
    pub mirroring: Mirroring,
}

impl Mapper003 {
    pub open spec fn wf(self) -> bool {
        self.prg_banks >= 1 && self.chr_bank <= 0x03
    }

    pub open spec fn prg_mask(self) -> u16 {
        if self.prg_banks > 1 {
            0x7FFF
        } else {
            0x3FFF
        }
    }

    pub open spec fn read_target(self, addr: u16) -> CartridgeReadTarget {
        CartridgeReadTarget::PrgRom((addr & self.prg_mask()) as usize)
    }

    /// Any write in 0x8000-0xFFFF selects the CHR bank from the low two
    /// data bits; writes below that range are ignored.
    pub open spec fn after_cpu_write(self, addr: u16, data: u8) -> Mapper003 {
        if addr >= 0x8000 {
            Mapper003 { chr_bank: data & 0x03, ..self }
        } else {
            self
        }
    }

    pub open spec fn chr_offset(self, addr: u16) -> usize {
        (self.chr_bank * 0x2000 + (addr & 0x1FFF)) as usize
    }

    /// CNROM carries CHR ROM only; PPU-side writes are never supported.
    pub open spec fn chr_write_offset(self, addr: u16) -> Option<usize> {
        None
    }

    pub open spec fn prg_bank_at(self, addr: u16) -> Option<u8> {
        if addr >= 0x8000 {
            Some(((addr & self.prg_mask()) >> 14) as u8)
        } else {
            None
        }
    }

    pub fn new(prg_banks: u8, mirroring: Mirroring) -> (m: Mapper003)
        requires
            prg_banks >= 1,
        ensures
            m.wf(),
            m == (Mapper003 { prg_banks, chr_bank: 0, mirroring }),
    {
        Mapper003 { prg_banks, chr_bank: 0, mirroring }
    }

    pub fn cpu_map_read(&self, addr: u16) -> (r: CartridgeReadTarget)
        ensures
            r == self.read_target(addr),
    {
        let mask: u16 = if self.prg_banks > 1 {
            0x7FFF
        } else {
            0x3FFF
        };
        CartridgeReadTarget::PrgRom((addr & mask) as usize)
    }

    pub fn cpu_map_write(&mut self, addr: u16, data: u8)
        requires
            old(self).wf(),
        ensures
            final(self).wf(),
            *final(self) == old(self).after_cpu_write(addr, data),
    {
        if addr >= 0x8000 {
            self.chr_bank = data & 0x03;
            proof {
                crate::bits::lemma_u8_and_le(data, 0x03);
            }
        }
    }

    pub fn ppu_map_read(&mut self, addr: u16) -> (off: usize)
        requires
            old(self).wf(),
        ensures
            final(self).wf(),
            *final(self) == *old(self),
            off == old(self).chr_offset(addr),
    {
        self.chr_bank as usize * 0x2000 + (addr & 0x1FFF) as usize
    }

    pub fn ppu_map_write(&self, addr: u16) -> (r: Option<usize>)
        ensures
            r == self.chr_write_offset(addr),
    {
        None
    }

    pub fn get_prg_bank(&self, addr: u16) -> (r: Option<u8>)
        ensures
            r == self.prg_bank_at(addr),
    {
        if addr >= 0x8000 {
            let mask: u16 = if self.prg_banks > 1 {
                0x7FFF
            } else {
                0x3FFF
            };
            Some(((addr & mask) >> 14) as u8)
        } else {
            None
        }
    }
}

} // verus!
