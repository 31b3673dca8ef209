//! GxROM (mapper 66): one register holding both a switchable 32 KiB PRG
//! bank and a switchable 8 KiB CHR bank.

use vstd::prelude::*;

use crate::Mirroring;
use crate::mapper::CartridgeReadTarget;

verus! {

pub struct Mapper066 {
    /// 32 KiB PRG bank mapped at 0x8000.
    pub prg_bank: u8,
    /// 8 KiB CHR bank mapped at the PPU window.
    pub chr_bank: u8,
    pub mirroring: Mirroring,
}

impl Mapper066 {
    pub open spec fn wf(self) -> bool {
        self.prg_bank <= 0x03 && self.chr_bank <= 0x03
    }

    pub open spec fn read_target(self, addr: u16) -> CartridgeReadTarget {
        if addr >= 0x8000 {
            CartridgeReadTarget::PrgRom((self.prg_bank * 0x8000 + (addr & 0x7FFF)) as usize)
        } else {
            CartridgeReadTarget::PrgRam(0)
        }
    }

    /// Any write in 0x8000-0xFFFF loads both banks from one byte: CHR from
    /// bits 0-1, PRG from bits 4-5.
    pub open spec fn after_cpu_write(self, addr: u16, data: u8) -> Mapper066 {
        if addr >= 0x8000 {
            Mapper066 { prg_bank: (data & 0x30) >> 4, chr_bank: data & 0x03, ..self }
        } else {
            self
        }
    }

    pub open spec fn chr_offset(self, addr: u16) -> usize {
        (self.chr_bank * 0x2000 + (addr & 0x1FFF)) as usize
    }

    /// GxROM carries CHR ROM only; PPU-side writes are never supported.
    pub open spec fn chr_write_offset(self, addr: u16) -> Option<usize> {
        None
    }

    pub open spec fn prg_bank_at(self, addr: u16) -> Option<u8> {
        if addr >= 0x8000 {
            Some((self.prg_bank * 2 + ((addr >> 14) & 1)) as u8)
        } else {
            None
        }
    }

    pub fn new(mirroring: Mirroring) -> (m: Mapper066)
        ensures
            m.wf(),
            m == (Mapper066 { prg_bank: 0, chr_bank: 0, mirroring }),
    {
        Mapper066 { prg_bank: 0, chr_bank: 0, mirroring }
    }

    pub fn cpu_map_read(&self, addr: u16) -> (r: CartridgeReadTarget)
        requires
            self.wf(),
        ensures
            r == self.read_target(addr),
    {
        if addr >= 0x8000 {
            CartridgeReadTarget::PrgRom(self.prg_bank as usize * 0x8000 + (addr & 0x7FFF) as usize)
        } else {
            CartridgeReadTarget::PrgRam(0)
        }
    }

    pub fn cpu_map_write(&mut self, addr: u16, data: u8)
        requires
            old(self).wf(),
        ensures
            final(self).wf(),
            *final(self) == old(self).after_cpu_write(addr, data),
    {
        if addr >= 0x8000 {
            self.prg_bank = (data & 0x30) >> 4;
            self.chr_bank = data & 0x03;
            proof {
                assert((data & 0x30) >> 4 <= 0x03 && data & 0x03 <= 0x03) by (bit_vector);
            }
        }
    }

    pub fn ppu_map_read(&mut self, addr: u16) -> (off: usize)
        requires
            old(self).wf(),
        ensures
            final(self).wf(),
            *final(self) == *old(self),
            off == old(self).chr_offset(addr),
    {
        self.chr_bank as usize * 0x2000 + (addr & 0x1FFF) as usize
    }

    pub fn ppu_map_write(&self, addr: u16) -> (r: Option<usize>)
        ensures
            r == self.chr_write_offset(addr),
    {
        None
    }

    pub fn get_prg_bank(&self, addr: u16) -> (r: Option<u8>)
        requires
            self.wf(),
        ensures
            r == self.prg_bank_at(addr),
    {
        if addr >= 0x8000 {
            proof {
                crate::bits::lemma_u16_and_le(addr >> 14, 1);
            }
            Some(self.prg_bank * 2 + ((addr >> 14) & 1) as u8)
        } else {
            None
        }
    }
}

} // verus!
