//! NROM (mapper 0): no banking. A 16 or 32 KiB PRG window is fixed in
//! place and the 8 KiB CHR window maps straight through.

use vstd::prelude::*;

use crate::Mirroring;
use crate::mapper::CartridgeReadTarget;

verus! {

pub struct Mapper000 {
    /// Number of 16 KiB PRG banks on the cartridge.
    pub prg_banks: u8,
    pub mirroring: Mirroring,
}

impl Mapper000 {
    pub open spec fn wf(self) -> bool {
        self.prg_banks >= 1
    }

    /// The address mask of the fixed PRG window: 32 KiB with two or more
    /// banks, 16 KiB (mirrored) with one.
    pub open spec fn prg_mask(self) -> u16 {
        if self.prg_banks > 1 {
            0x7FFF
        } else {
            0x3FFF
        }
    }

    pub open spec fn read_target(self, addr: u16) -> CartridgeReadTarget {
        CartridgeReadTarget::PrgRom((addr & self.prg_mask()) as usize)
    }

    /// NROM has no registers; every write is ignored.
    pub open spec fn after_cpu_write(self, addr: u16, data: u8) -> Mapper000 {
        self
    }

    pub open spec fn chr_offset(self, addr: u16) -> usize {
        addr as usize
    }

    pub open spec fn chr_write_offset(self, addr: u16) -> Option<usize> {
        if addr <= 0x1FFF {
            Some(addr as usize)
        } else {
            None
        }
    }

    pub open spec fn prg_bank_at(self, addr: u16) -> Option<u8> {
        if addr >= 0x8000 {
            Some(((addr & self.prg_mask()) >> 14) as u8)
        } else {
            None
        }
    }

    pub fn new(prg_banks: u8, mirroring: Mirroring) -> (m: Mapper000)
        requires
            prg_banks >= 1,
        ensures
            m.wf(),
            m == (Mapper000 { prg_banks, mirroring }),
    {
        Mapper000 { prg_banks, mirroring }
    }

    pub fn cpu_map_read(&self, addr: u16) -> (r: CartridgeReadTarget)
        ensures
            r == self.read_target(addr),
    {
        let mask: u16 = if self.prg_banks > 1 {
            0x7FFF
        } else {
            0x3FFF
        };
        CartridgeReadTarget::PrgRom((addr & mask) as usize)
    }

    pub fn cpu_map_write(&mut self, addr: u16, data: u8)
        requires
            old(self).wf(),
        ensures
            final(self).wf(),
            *final(self) == old(self).after_cpu_write(addr, data),
    {
    }

    pub fn ppu_map_read(&mut self, addr: u16) -> (off: usize)
        requires
            old(self).wf(),
        ensures
            final(self).wf(),
            *final(self) == *old(self),
            off == old(self).chr_offset(addr),
    {
        addr as usize
    }

    pub fn ppu_map_write(&self, addr: u16) -> (r: Option<usize>)
        ensures
            r == self.chr_write_offset(addr),
    {
        if addr <= 0x1FFF {
            Some(addr as usize)
        } else {
            None
        }
    }

    pub fn get_prg_bank(&self, addr: u16) -> (r: Option<u8>)
        ensures
            r == self.prg_bank_at(addr),
    {
        if addr >= 0x8000 {
            let mask: u16 = if self.prg_banks > 1 {
                0x7FFF
            } else {
                0x3FFF
            };
            Some(((addr & mask) >> 14) as u8)
        } else {
            None
        }
    }
}

} // verus!
