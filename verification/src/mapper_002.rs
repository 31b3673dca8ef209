//! UxROM (mapper 2): a switchable 16 KiB PRG bank at the low window,
//! selected by writes anywhere in 0x8000-0xFFFF; the last bank is fixed at
//! the high window.

use vstd::prelude::*;

use crate::Mirroring;
use crate::mapper::CartridgeReadTarget;

verus! {

pub struct Mapper002 {
    /// Number of 16 KiB PRG banks on the cartridge.
    pub prg_banks: u8,
    /// Bank currently selected for the 0x8000-0xBFFF window.
    pub prg_bank: u8,
    pub mirroring: Mirroring,
}

impl Mapper002 {
    pub open spec fn wf(self) -> bool {
        self.prg_banks >= 1 && self.prg_bank <= 0x0F
    }

    pub open spec fn read_target(self, addr: u16) -> CartridgeReadTarget {
        if addr >= 0xC000 {
            CartridgeReadTarget::PrgRom(
                ((self.prg_banks - 1) * 0x4000 + (addr & 0x3FFF)) as usize,
            )
        } else if addr >= 0x8000 {
            CartridgeReadTarget::PrgRom((self.prg_bank * 0x4000 + (addr & 0x3FFF)) as usize)
        } else {
            CartridgeReadTarget::PrgRam(0)
        }
    }

    /// Any write in 0x8000-0xFFFF selects the low PRG bank from the low
    /// four data bits; writes below that range are ignored.
    pub open spec fn after_cpu_write(self, addr: u16, data: u8) -> Mapper002 {
        if addr >= 0x8000 {
            Mapper002 { prg_bank: data & 0x0F, ..self }
        } else {
            self
        }
    }

    pub open spec fn chr_offset(self, addr: u16) -> usize {
        (addr & 0x1FFF) as usize
    }

    pub open spec fn chr_write_offset(self, addr: u16) -> Option<usize> {
        if addr <= 0x1FFF {
            Some(addr as usize)
        } else {
            None
        }
    }

    pub open spec fn prg_bank_at(self, addr: u16) -> Option<u8> {
        if addr >= 0xC000 {
            Some((self.prg_banks - 1) as u8)
        } else if addr >= 0x8000 {
            Some(self.prg_bank)
        } else {
            None
        }
    }

    pub fn new(prg_banks: u8, mirroring: Mirroring) -> (m: Mapper002)
        requires
            prg_banks >= 1,
        ensures
            m.wf(),
            m == (Mapper002 { prg_banks, prg_bank: 0, mirroring }),
    {
        Mapper002 { prg_banks, prg_bank: 0, mirroring }
    }

    pub fn cpu_map_read(&self, addr: u16) -> (r: CartridgeReadTarget)
        requires
            self.wf(),
        ensures
            r == self.read_target(addr),
    {
        if addr >= 0xC000 {
            CartridgeReadTarget::PrgRom(
                (self.prg_banks - 1) as usize * 0x4000 + (addr & 0x3FFF) as usize,
            )
        } else if addr >= 0x8000 {
            CartridgeReadTarget::PrgRom(self.prg_bank as usize * 0x4000 + (addr & 0x3FFF) as usize)
        } else {
            CartridgeReadTarget::PrgRam(0)
        }
    }

    pub fn cpu_map_write(&mut self, addr: u16, data: u8)
        requires
            old(self).wf(),
        ensures
            final(self).wf(),
            *final(self) == old(self).after_cpu_write(addr, data),
    {
        if addr >= 0x8000 {
            self.prg_bank = data & 0x0F;
            proof {
                crate::bits::lemma_u8_and_le(data, 0x0F);
            }
        }
    }

    pub fn ppu_map_read(&mut self, addr: u16) -> (off: usize)
        requires
            old(self).wf(),
        ensures
            final(self).wf(),
            *final(self) == *old(self),
            off == old(self).chr_offset(addr),
    {
        (addr & 0x1FFF) as usize
    }

    pub fn ppu_map_write(&self, addr: u16) -> (r: Option<usize>)
        ensures
            r == self.chr_write_offset(addr),
    {
        if addr <= 0x1FFF {
            Some(addr as usize)
        } else {
            None
        }
    }

    pub fn get_prg_bank(&self, addr: u16) -> (r: Option<u8>)
        requires
            self.wf(),
        ensures
            r == self.prg_bank_at(addr),
    {
        if addr >= 0xC000 {
            Some(self.prg_banks - 1)
        } else if addr >= 0x8000 {
            Some(self.prg_bank)
        } else {
            None
        }
    }
}

} // verus!
