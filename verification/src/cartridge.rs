//! The cartridge: owner of the PRG and CHR byte arrays and of one mapper,
//! presenting a uniform read/write interface to the CPU and PPU buses.

use vstd::prelude::*;

use crate::header::{FLAGS6_FOUR_SCREEN, FLAGS6_MIRRORING, FLAGS6_TRAINER, INesHeader, header_of,
    magic_ok};
use crate::mapper::{CartridgeReadTarget, Mapper, MapperV};
use crate::mapper_000::Mapper000;
use crate::mapper_001::{Mapper001, Mapper001V};
use crate::mapper_002::Mapper002;
use crate::mapper_003::Mapper003;
use crate::mapper_004::{Mapper004, Mapper004V};
use crate::mapper_066::Mapper066;
use crate::{Mirroring, RomParserError};

verus! {

pub struct Cartridge {
    /// Whether the CHR array is RAM (writable) rather than parsed CHR-ROM.
    pub chr_ram: bool,
    /// Program ROM, read by the CPU through the mapper.
    pub prg_memory: Vec<u8>,
    /// Character ROM or RAM, read by the PPU through the mapper.
    pub chr_memory: Vec<u8>,
    pub mapper: Mapper,
}

/// Mathematical model of [`Cartridge`].
pub ghost struct CartridgeV {
    pub chr_ram: bool,
    pub prg: Seq<u8>,
    pub chr: Seq<u8>,
    pub mapper: MapperV,
}

impl View for Cartridge {
    type V = CartridgeV;

    open spec fn view(&self) -> CartridgeV {
        CartridgeV {
            chr_ram: self.chr_ram,
            prg: self.prg_memory@,
            chr: self.chr_memory@,
            mapper: self.mapper@,
        }
    }
}

/// Which mapper identifiers this crate implements.
pub open spec fn mapper_supported(id: u8) -> bool {
    id == 0 || id == 1 || id == 2 || id == 3 || id == 4 || id == 66
}

/// The byte length a ROM image must reach: header, optional trainer, PRG
/// banks, CHR banks.
pub open spec fn expected_rom_size(h: INesHeader) -> int {
    16 + (if h.flags6 & FLAGS6_TRAINER != 0 {
        512int
    } else {
        0int
    }) + 16384 * h.prg_size + 8192 * h.chr_size
}

/// The nametable mirroring named by flag byte 6; the four-screen bit
/// dominates the mirroring bit.
pub open spec fn initial_mirroring(flags6: u8) -> Mirroring {
    if flags6 & FLAGS6_FOUR_SCREEN != 0 {
        Mirroring::FourScreen
    } else if flags6 & FLAGS6_MIRRORING != 0 {
        Mirroring::Vertical
    } else {
        Mirroring::Horizontal
    }
}

/// The PRG-RAM image an MMC1 board starts with: the save blob when its
/// length matches the 8 KiB array, a zeroed array otherwise.
pub open spec fn initial_prg_ram(save: Option<Seq<u8>>) -> Seq<u8> {
    match save {
        Some(s) => if s.len() == 8192 {
            s
        } else {
            Seq::new(8192nat, |i: int| 0u8)
        },
        None => Seq::new(8192nat, |i: int| 0u8),
    }
}

/// The power-on mapper state selected by a supported mapper identifier.
pub open spec fn initial_mapper(id: u8, prg_banks: u8, mirroring: Mirroring, save: Option<Seq<u8>>) -> MapperV
    recommends
        mapper_supported(id),
{
    if id == 0 {
        MapperV::Nrom(Mapper000 { prg_banks, mirroring })
    } else if id == 1 {
        MapperV::Mmc1(
            Mapper001V {
                shift_register: 0,
                shift_count: 0,
                control: 0x0C,
                chr_bank_0: 0,
                chr_bank_1: 0,
                prg_bank: 0,
                prg_banks,
                prg_ram: initial_prg_ram(save),
                mirroring,
            },
        )
    } else if id == 2 {
        MapperV::Uxrom(Mapper002 { prg_banks, prg_bank: 0, mirroring })
    } else if id == 3 {
        MapperV::Cnrom(Mapper003 { prg_banks, chr_bank: 0, mirroring })
    } else if id == 4 {
        MapperV::Mmc3(
            Mapper004V {
                prg_banks,
                bank_select: 0,
                bank_registers: Seq::new(8nat, |i: int| 0u8),
                prg_ram: Seq::new(8192nat, |i: int| 0u8),
                irq_reload: 0,
                irq_counter: 0,
                irq_enable: false,
                irq_reload_pending: false,
                irq_active: false,
                last_a12: false,
                mirroring,
            },
        )
    } else {
        MapperV::Gxrom(Mapper066 { prg_bank: 0, chr_bank: 0, mirroring })
    }
}

/// Whether `load` accepts this image: a full header with the right magic, a
/// supported mapper, at least one PRG bank, and a body long enough for the
/// declared sizes.
pub open spec fn load_ok(rom: Seq<u8>) -> bool {
    &&& rom.len() >= 16
    &&& magic_ok(rom)
    &&& mapper_supported(header_of(rom).mapper_id)
    &&& header_of(rom).prg_size >= 1
    &&& rom.len() >= expected_rom_size(header_of(rom))
}

/// Where the PRG bytes start in the image: after the header and, when flag
/// byte 6 announces one, a 512-byte trainer.
pub open spec fn prg_start_of(h: INesHeader) -> int {
    if h.flags6 & FLAGS6_TRAINER != 0 {
        528int
    } else {
        16int
    }
}

impl CartridgeV {
    pub open spec fn wf(self) -> bool {
        &&& self.prg.len() > 0
        &&& self.chr.len() > 0
        &&& self.mapper.wf()
    }

    /// The byte a CPU read in cartridge space returns: a PRG-RAM byte as
    /// the mapper hands it out, or the PRG-ROM byte at the mapped offset
    /// reduced modulo the array length.
    pub open spec fn prg_read(self, addr: u16) -> u8
        recommends
            self.wf(),
    {
        match self.mapper.read_target(addr) {
            CartridgeReadTarget::PrgRom(off) => self.prg[off as int % self.prg.len() as int],
            CartridgeReadTarget::PrgRam(b) => b,
        }
    }

    /// The cartridge after a CPU write: only mapper state can change; the
    /// PRG ROM bytes never do.
    pub open spec fn after_prg_write(self, addr: u16, data: u8) -> CartridgeV {
        CartridgeV { mapper: self.mapper.after_cpu_write(addr, data), ..self }
    }

    /// The byte a PPU read returns: the CHR byte at the mapped offset
    /// reduced modulo the array length.
    pub open spec fn chr_read(self, addr: u16) -> u8
        recommends
            self.wf(),
    {
        self.chr[self.mapper.chr_offset(addr) as int % self.chr.len() as int]
    }

    /// The cartridge after a PPU read; the scanline-counting mapper may
    /// advance its IRQ state.
    pub open spec fn after_chr_read(self, addr: u16) -> CartridgeV {
        CartridgeV { mapper: self.mapper.after_ppu_read(addr), ..self }
    }

    /// The cartridge after a PPU write: the CHR byte at the mapped offset
    /// changes only when the array is RAM and the mapper supports the
    /// address; the write is dropped otherwise.
    pub open spec fn after_chr_write(self, addr: u16, data: u8) -> CartridgeV
        recommends
            self.wf(),
    {
        if self.chr_ram {
            match self.mapper.chr_write_offset(addr) {
                Some(off) => CartridgeV {
                    chr: self.chr.update(off as int % self.chr.len() as int, data),
                    ..self
                },
                None => self,
            }
        } else {
            self
        }
    }

    /// The cartridge after reading and clearing the mapper's IRQ latch.
    pub open spec fn after_take_irq(self) -> CartridgeV {
        CartridgeV { mapper: self.mapper.after_irq_clear(), ..self }
    }
}

impl Cartridge {
    /// Parses an iNES image and builds the cartridge it describes.
    ///
    /// Succeeds exactly on the images [`load_ok`] accepts; fails with
    /// `TooShort` when the header or the declared body does not fit (or the
    /// image declares no PRG bank at all), with `InvalidMagicBytes` on a
    /// wrong magic, and with `MapperNotImplemented` on an unsupported
    /// mapper identifier. A `save_data` blob is loaded verbatim into the
    /// mapper's PRG-RAM when its length matches; it is ignored otherwise.
    pub fn load(rom: &[u8], save_data: Option<&[u8]>) -> (r: Result<Cartridge, RomParserError>)
        ensures
            r is Ok <==> load_ok(rom@),
            rom@.len() < 16 ==> r == Err::<Cartridge, RomParserError>(RomParserError::TooShort),
            rom@.len() >= 16 && !magic_ok(rom@) ==> r == Err::<Cartridge, RomParserError>(
                RomParserError::InvalidMagicBytes,
            ),
            rom@.len() >= 16 && magic_ok(rom@) && !mapper_supported(header_of(rom@).mapper_id)
                ==> r == Err::<Cartridge, RomParserError>(RomParserError::MapperNotImplemented),
            rom@.len() >= 16 && magic_ok(rom@) && mapper_supported(header_of(rom@).mapper_id)
                && !load_ok(rom@) ==> r == Err::<Cartridge, RomParserError>(
                RomParserError::TooShort,
            ),
            r matches Ok(cart) ==> {
                let h = header_of(rom@);
                let prg_start = prg_start_of(h);
                &&& cart@.wf()
                &&& cart.chr_ram == (h.chr_size == 0)
                &&& cart@.prg == rom@.subrange(prg_start, prg_start + 16384 * h.prg_size)
                &&& cart@.chr == if h.chr_size > 0 {
                    rom@.subrange(
                        prg_start + 16384 * h.prg_size,
                        prg_start + 16384 * h.prg_size + 8192 * h.chr_size,
                    )
                } else {
                    Seq::new(8192nat, |i: int| 0u8)
                }
                &&& cart@.mapper == initial_mapper(
                    h.mapper_id,
                    h.prg_size,
                    initial_mirroring(h.flags6),
                    match save_data {
                        Some(s) => Some(s@),
                        None => None,
                    },
                )
            },
    {
        let header = match INesHeader::parse(rom) {
            Ok(h) => h,
            Err(e) => {
                return Err(e);
            },
        };

        let mirroring = if header.flags6_contains(FLAGS6_FOUR_SCREEN) {
            Mirroring::FourScreen
        } else if header.flags6_contains(FLAGS6_MIRRORING) {
            Mirroring::Vertical
        } else {
            Mirroring::Horizontal
        };

        match header.mapper_id {
            0 | 1 | 2 | 3 | 4 | 66 => (),
            _ => {
                return Err(RomParserError::MapperNotImplemented);
            },
        }

        // A bankless image would leave the PRG array empty and every read
        // of it meaningless; treat it as a truncated image. Checked after
        // the mapper dispatch so an unsupported identifier keeps its own
        // error.
        if header.prg_size == 0 {
            return Err(RomParserError::TooShort);
        }

        let mapper: Mapper = match header.mapper_id {
            0 => Mapper::Nrom(Mapper000::new(header.prg_size, mirroring)),
            1 => Mapper::Mmc1(Mapper001::new(header.prg_size, mirroring, save_data)),
            2 => Mapper::Uxrom(Mapper002::new(header.prg_size, mirroring)),
            3 => Mapper::Cnrom(Mapper003::new(header.prg_size, mirroring)),
            4 => Mapper::Mmc3(Mapper004::new(header.prg_size, mirroring)),
            _ => Mapper::Gxrom(Mapper066::new(mirroring)),
        };

        let prg_memory_len: usize = 16384 * header.prg_size as usize;
        let chr_memory_len: usize = 8192 * header.chr_size as usize;
        let prg_start: usize = if header.flags6_contains(FLAGS6_TRAINER) {
            528
        } else {
            16
        };

        let expected_rom_len: usize = prg_start + prg_memory_len + chr_memory_len;
        if rom.len() < expected_rom_len {
            return Err(RomParserError::TooShort);
        }

        let prg_end: usize = prg_start + prg_memory_len;
        let prg_memory: Vec<u8> = vstd::slice::slice_to_vec(&rom[prg_start..prg_end]);

        let chr_ram = header.chr_size == 0;
        let chr_memory: Vec<u8> = if !chr_ram {
            vstd::slice::slice_to_vec(&rom[prg_end..prg_end + chr_memory_len])
        } else {
            let blank: Vec<u8> = vec![0u8; 8192];
            proof {
                assert(blank@ =~= Seq::new(8192nat, |i: int| 0u8));
            }
            blank
        };

        Ok(Cartridge { chr_ram, prg_memory, chr_memory, mapper })
    }

    /// Current nametable mirroring, as the mapper reports it.
    pub fn mirroring(&self) -> (r: Mirroring)
        ensures
            r == self@.mapper.mirroring_of(),
    {
        self.mapper.mirroring()
    }

    /// A CPU read in cartridge space.
    pub fn read_prg_mem(&self, addr: u16) -> (r: u8)
        requires
            self@.wf(),
        ensures
            r == self@.prg_read(addr),
    {
        match self.mapper.cpu_map_read(addr) {
            CartridgeReadTarget::PrgRom(rom_addr) => self.prg_memory[rom_addr
                % self.prg_memory.len()],
            CartridgeReadTarget::PrgRam(data) => data,
        }
    }

    /// A CPU write in cartridge space; it only ever moves mapper state.
    pub fn write_prg_mem(&mut self, addr: u16, data: u8)
        requires
            old(self)@.wf(),
        ensures
            final(self)@.wf(),
            final(self)@ == old(self)@.after_prg_write(addr, data),
    {
        self.mapper.cpu_map_write(addr, data);
    }

    /// A PPU read; mutable because the scanline-counting mapper advances
    /// its IRQ state on specific address transitions.
    pub fn read_chr_mem(&mut self, addr: u16) -> (r: u8)
        requires
            old(self)@.wf(),
        ensures
            final(self)@.wf(),
            r == old(self)@.chr_read(addr),
            final(self)@ == old(self)@.after_chr_read(addr),
    {
        let chr_addr = self.mapper.ppu_map_read(addr);
        self.chr_memory[chr_addr % self.chr_memory.len()]
    }

    /// A PPU write: stored when the CHR array is RAM and the mapper maps
    /// the address, dropped otherwise.
    pub fn write_chr_mem(&mut self, addr: u16, data: u8)
        requires
            old(self)@.wf(),
        ensures
            final(self)@.wf(),
            final(self)@ == old(self)@.after_chr_write(addr, data),
    {
        if self.chr_ram {
            match self.mapper.ppu_map_write(addr) {
                Some(chr_addr) => {
                    let idx = chr_addr % self.chr_memory.len();
                    self.chr_memory[idx] = data;
                },
                None => (),
            }
        }
    }

    /// Read-only snapshot of the battery-backed RAM, when the mapper
    /// carries some.
    pub fn get_save_data(&self) -> (r: Option<&[u8]>)
        ensures
            match r {
                Some(s) => self@.mapper.sram_view() == Some(s@),
                None => self@.mapper.sram_view() is None,
            },
    {
        self.mapper.get_sram()
    }

    /// Reads the mapper's IRQ latch and clears it, returning the pre-clear
    /// state.
    pub fn take_irq_set_state(&mut self) -> (r: bool)
        requires
            old(self)@.wf(),
        ensures
            final(self)@.wf(),
            r == old(self)@.mapper.irq_state_of(),
            final(self)@ == old(self)@.after_take_irq(),
    {
        let state = self.mapper.irq_state();
        self.mapper.irq_clear();
        state
    }

    /// The 16 KiB PRG bank index the mapper currently maps at `addr`, for
    /// inspection.
    pub fn get_prg_bank(&self, addr: u16) -> (r: Option<u8>)
        requires
            self@.wf(),
        ensures
            r == self@.mapper.prg_bank_at(addr),
    {
        self.mapper.get_prg_bank(addr)
    }
}

} // verus!
