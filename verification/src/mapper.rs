//! The mapper contract: a tagged dispatcher over the supported
//! bank-switching schemes.

use vstd::prelude::*;

use crate::Mirroring;
use crate::mapper_000::Mapper000;
use crate::mapper_001::{Mapper001, Mapper001V};
use crate::mapper_002::Mapper002;
use crate::mapper_003::Mapper003;
use crate::mapper_004::{Mapper004, Mapper004V};
use crate::mapper_066::Mapper066;

verus! {

/// What a CPU-side read in cartridge space resolves to: either an offset
/// into the PRG ROM array (still to be reduced modulo its length), or a byte
/// answered directly from mapper-local PRG-RAM.
#[derive(Clone, Copy, Debug, PartialEq, Eq, Structural)]
pub enum CartridgeReadTarget {
    PrgRam(u8),
    PrgRom(usize),
}

/// One bank-switching scheme per supported cartridge board, dispatched by
/// exhaustive matching.
pub enum Mapper {
    Nrom(Mapper000),
    Mmc1(Mapper001),
    Uxrom(Mapper002),
    Cnrom(Mapper003),
    Mmc3(Mapper004),
    Gxrom(Mapper066),
}

/// Mathematical model of [`Mapper`]: the active scheme's model.
pub ghost enum MapperV {
    Nrom(Mapper000),
    Mmc1(Mapper001V),
    Uxrom(Mapper002),
    Cnrom(Mapper003),
    Mmc3(Mapper004V),
    Gxrom(Mapper066),
}

impl View for Mapper {
    type V = MapperV;

    open spec fn view(&self) -> MapperV {
        match self {
            Mapper::Nrom(m) => MapperV::Nrom(*m),
            Mapper::Mmc1(m) => MapperV::Mmc1(m@),
            Mapper::Uxrom(m) => MapperV::Uxrom(*m),
            Mapper::Cnrom(m) => MapperV::Cnrom(*m),
            Mapper::Mmc3(m) => MapperV::Mmc3(m@),
            Mapper::Gxrom(m) => MapperV::Gxrom(*m),
        }
    }
}

impl MapperV {
    /// Structural invariant of the active scheme.
    pub open spec fn wf(self) -> bool {
        match self {
            MapperV::Nrom(m) => m.wf(),
            MapperV::Mmc1(m) => m.wf(),
            MapperV::Uxrom(m) => m.wf(),
            MapperV::Cnrom(m) => m.wf(),
            MapperV::Mmc3(m) => m.wf(),
            MapperV::Gxrom(m) => m.wf(),
        }
    }

    /// Where a CPU read in cartridge space resolves to.
    pub open spec fn read_target(self, addr: u16) -> CartridgeReadTarget {
        match self {
            MapperV::Nrom(m) => m.read_target(addr),
            MapperV::Mmc1(m) => m.read_target(addr),
            MapperV::Uxrom(m) => m.read_target(addr),
            MapperV::Cnrom(m) => m.read_target(addr),
            MapperV::Mmc3(m) => m.read_target(addr),
            MapperV::Gxrom(m) => m.read_target(addr),
        }
    }

    /// The mapper state after a CPU write in cartridge space.
    pub open spec fn after_cpu_write(self, addr: u16, data: u8) -> MapperV {
        match self {
            MapperV::Nrom(m) => MapperV::Nrom(m.after_cpu_write(addr, data)),
            MapperV::Mmc1(m) => MapperV::Mmc1(m.after_cpu_write(addr, data)),
            MapperV::Uxrom(m) => MapperV::Uxrom(m.after_cpu_write(addr, data)),
            MapperV::Cnrom(m) => MapperV::Cnrom(m.after_cpu_write(addr, data)),
            MapperV::Mmc3(m) => MapperV::Mmc3(m.after_cpu_write(addr, data)),
            MapperV::Gxrom(m) => MapperV::Gxrom(m.after_cpu_write(addr, data)),
        }
    }

    /// The CHR offset a PPU-side read maps to.
    pub open spec fn chr_offset(self, addr: u16) -> usize {
        match self {
            MapperV::Nrom(m) => m.chr_offset(addr),
            MapperV::Mmc1(m) => m.chr_offset(addr),
            MapperV::Uxrom(m) => m.chr_offset(addr),
            MapperV::Cnrom(m) => m.chr_offset(addr),
            MapperV::Mmc3(m) => m.chr_offset(addr),
            MapperV::Gxrom(m) => m.chr_offset(addr),
        }
    }

    /// The mapper state after a PPU-side read; only the scanline-counting
    /// scheme has side effects here.
    pub open spec fn after_ppu_read(self, addr: u16) -> MapperV {
        match self {
            MapperV::Mmc3(m) => MapperV::Mmc3(m.after_ppu_read(addr)),
            _ => self,
        }
    }

    /// The CHR offset a PPU-side write may go to, when the scheme supports
    /// writable CHR at that address.
    pub open spec fn chr_write_offset(self, addr: u16) -> Option<usize> {
        match self {
            MapperV::Nrom(m) => m.chr_write_offset(addr),
            MapperV::Mmc1(m) => m.chr_write_offset(addr),
            MapperV::Uxrom(m) => m.chr_write_offset(addr),
            MapperV::Cnrom(m) => m.chr_write_offset(addr),
            MapperV::Mmc3(m) => m.chr_write_offset(addr),
            MapperV::Gxrom(m) => m.chr_write_offset(addr),
        }
    }

    /// Current nametable mirroring.
    pub open spec fn mirroring_of(self) -> Mirroring {
        match self {
            MapperV::Nrom(m) => m.mirroring,
            MapperV::Mmc1(m) => m.mirroring,
            MapperV::Uxrom(m) => m.mirroring,
            MapperV::Cnrom(m) => m.mirroring,
            MapperV::Mmc3(m) => m.mirroring,
            MapperV::Gxrom(m) => m.mirroring,
        }
    }

    /// The battery-backed RAM bytes, for the schemes that carry some.
    pub open spec fn sram_view(self) -> Option<Seq<u8>> {
        match self {
            MapperV::Mmc1(m) => Some(m.prg_ram),
            MapperV::Mmc3(m) => Some(m.prg_ram),
            _ => None,
        }
    }

    /// Whether the IRQ latch is raised.
    pub open spec fn irq_state_of(self) -> bool {
        match self {
            MapperV::Mmc3(m) => m.irq_active,
            _ => false,
        }
    }

    /// The mapper state after clearing the IRQ latch.
    pub open spec fn after_irq_clear(self) -> MapperV {
        match self {
            MapperV::Mmc3(m) => MapperV::Mmc3(m.after_irq_clear()),
            _ => self,
        }
    }

    /// The 16 KiB PRG bank index currently mapped at `addr`, for inspection.
    pub open spec fn prg_bank_at(self, addr: u16) -> Option<u8> {
        match self {
            MapperV::Nrom(m) => m.prg_bank_at(addr),
            MapperV::Mmc1(m) => m.prg_bank_at(addr),
            MapperV::Uxrom(m) => m.prg_bank_at(addr),
            MapperV::Cnrom(m) => m.prg_bank_at(addr),
            MapperV::Mmc3(m) => m.prg_bank_at(addr),
            MapperV::Gxrom(m) => m.prg_bank_at(addr),
        }
    }
}

impl Mapper {
    /// Dispatches a CPU-side read in cartridge space.
    pub fn cpu_map_read(&self, addr: u16) -> (r: CartridgeReadTarget)
        requires
            self@.wf(),
        ensures
            r == self@.read_target(addr),
    {
        match self {
            Mapper::Nrom(m) => m.cpu_map_read(addr),
            Mapper::Mmc1(m) => m.cpu_map_read(addr),
            Mapper::Uxrom(m) => m.cpu_map_read(addr),
            Mapper::Cnrom(m) => m.cpu_map_read(addr),
            Mapper::Mmc3(m) => m.cpu_map_read(addr),
            Mapper::Gxrom(m) => m.cpu_map_read(addr),
        }
    }

    /// Dispatches a CPU-side write in cartridge space. Every scheme accepts
    /// every write; unsupported ones are ignored.
    pub fn cpu_map_write(&mut self, addr: u16, data: u8)
        requires
            old(self)@.wf(),
        ensures
            final(self)@.wf(),
            final(self)@ == old(self)@.after_cpu_write(addr, data),
    {
        match self {
            Mapper::Nrom(m) => m.cpu_map_write(addr, data),
            Mapper::Mmc1(m) => m.cpu_map_write(addr, data),
            Mapper::Uxrom(m) => m.cpu_map_write(addr, data),
            Mapper::Cnrom(m) => m.cpu_map_write(addr, data),
            Mapper::Mmc3(m) => m.cpu_map_write(addr, data),
            Mapper::Gxrom(m) => m.cpu_map_write(addr, data),
        }
    }

    /// Dispatches a PPU-side read; mutable because the scanline-counting
    /// scheme arms its IRQ counter on specific address transitions.
    pub fn ppu_map_read(&mut self, addr: u16) -> (off: usize)
        requires
            old(self)@.wf(),
        ensures
            final(self)@.wf(),
            off == old(self)@.chr_offset(addr),
            final(self)@ == old(self)@.after_ppu_read(addr),
    {
        match self {
            Mapper::Nrom(m) => m.ppu_map_read(addr),
            Mapper::Mmc1(m) => m.ppu_map_read(addr),
            Mapper::Uxrom(m) => m.ppu_map_read(addr),
            Mapper::Cnrom(m) => m.ppu_map_read(addr),
            Mapper::Mmc3(m) => m.ppu_map_read(addr),
            Mapper::Gxrom(m) => m.ppu_map_read(addr),
        }
    }

    /// Dispatches a PPU-side write probe.
    pub fn ppu_map_write(&self, addr: u16) -> (r: Option<usize>)
        requires
            self@.wf(),
        ensures
            r == self@.chr_write_offset(addr),
    {
        match self {
            Mapper::Nrom(m) => m.ppu_map_write(addr),
            Mapper::Mmc1(m) => m.ppu_map_write(addr),
            Mapper::Uxrom(m) => m.ppu_map_write(addr),
            Mapper::Cnrom(m) => m.ppu_map_write(addr),
            Mapper::Mmc3(m) => m.ppu_map_write(addr),
            Mapper::Gxrom(m) => m.ppu_map_write(addr),
        }
    }

    /// Current nametable mirroring.
    pub fn mirroring(&self) -> (r: Mirroring)
        ensures
            r == self@.mirroring_of(),
    {
        match self {
            Mapper::Nrom(m) => m.mirroring,
            Mapper::Mmc1(m) => m.mirroring,
            Mapper::Uxrom(m) => m.mirroring,
            Mapper::Cnrom(m) => m.mirroring,
            Mapper::Mmc3(m) => m.mirroring,
            Mapper::Gxrom(m) => m.mirroring,
        }
    }

    /// Read-only view of the battery-backed RAM, when present.
    pub fn get_sram(&self) -> (r: Option<&[u8]>)
        ensures
            match r {
                Some(s) => self@.sram_view() == Some(s@),
                None => self@.sram_view() is None,
            },
    {
        match self {
            Mapper::Mmc1(m) => Some(m.prg_ram.as_slice()),
            Mapper::Mmc3(m) => Some(m.prg_ram.as_slice()),
            _ => None,
        }
    }

    /// Whether the IRQ latch is raised.
    pub fn irq_state(&self) -> (r: bool)
        ensures
            r == self@.irq_state_of(),
    {
        match self {
            Mapper::Mmc3(m) => m.irq_active,
            _ => false,
        }
    }

    /// Lowers the IRQ latch.
    pub fn irq_clear(&mut self)
        requires
            old(self)@.wf(),
        ensures
            final(self)@.wf(),
            final(self)@ == old(self)@.after_irq_clear(),
    {
        match self {
            Mapper::Mmc3(m) => m.irq_clear(),
            _ => (),
        }
    }

    /// The 16 KiB PRG bank index currently mapped at `addr`, for inspection.
    pub fn get_prg_bank(&self, addr: u16) -> (r: Option<u8>)
        requires
            self@.wf(),
        ensures
            r == self@.prg_bank_at(addr),
    {
        match self {
            Mapper::Nrom(m) => m.get_prg_bank(addr),
            Mapper::Mmc1(m) => m.get_prg_bank(addr),
            Mapper::Uxrom(m) => m.get_prg_bank(addr),
            Mapper::Cnrom(m) => m.get_prg_bank(addr),
            Mapper::Mmc3(m) => m.get_prg_bank(addr),
            Mapper::Gxrom(m) => m.get_prg_bank(addr),
        }
    }
}

} // verus!
