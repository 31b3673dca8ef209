//! MMC3 (mapper 4): eight switchable windows (two 8 KiB PRG, two 2 KiB and
//! four 1 KiB CHR), runtime mirroring select, an 8 KiB PRG-RAM, and a
//! scanline IRQ counter clocked by rising edges of PPU address line 12.

use vstd::prelude::*;

use crate::Mirroring;
use crate::bits::lemma_u8_and_le;
use crate::mapper::CartridgeReadTarget;

verus! {

pub struct Mapper004 {
    /// Number of 16 KiB PRG banks on the cartridge.
    pub prg_banks: u8,
    /// Which bank register the next odd write loads, plus the PRG mode in
    /// bit 6 and the CHR mode in bit 7.
    pub bank_select: u8,
    /// The eight bank registers R0-R7.
    pub bank_registers: Vec<u8>,
    /// 8 KiB battery-backed PRG-RAM.
    pub prg_ram: Vec<u8>,
    /// Value reloaded into the scanline counter.
    pub irq_reload: u8,
    /// The scanline counter itself.
    pub irq_counter: u8,
    /// Whether the counter reaching zero raises the IRQ latch.
    pub irq_enable: bool,
    /// Whether the next counter clock reloads instead of decrementing.
    pub irq_reload_pending: bool,
    /// The IRQ latch, read and cleared by the cartridge.
    pub irq_active: bool,
    /// Level of PPU address line 12 at the previous PPU access, for edge
    /// detection.
    pub last_a12: bool,
    pub mirroring: Mirroring,
}

/// Mathematical model of [`Mapper004`]: the same registers with the two
/// byte arrays as sequences.
pub ghost struct Mapper004V {
    pub prg_banks: u8,
    pub bank_select: u8,
    pub bank_registers: Seq<u8>,
    pub prg_ram: Seq<u8>,
    pub irq_reload: u8,
    pub irq_counter: u8,
    pub irq_enable: bool,
    pub irq_reload_pending: bool,
    pub irq_active: bool,
    pub last_a12: bool,
    pub mirroring: Mirroring,
}

impl View for Mapper004 {
    type V = Mapper004V;

    open spec fn view(&self) -> Mapper004V {
        Mapper004V {
            prg_banks: self.prg_banks,
            bank_select: self.bank_select,
            bank_registers: self.bank_registers@,
            prg_ram: self.prg_ram@,
            irq_reload: self.irq_reload,
            irq_counter: self.irq_counter,
            irq_enable: self.irq_enable,
            irq_reload_pending: self.irq_reload_pending,
            irq_active: self.irq_active,
            last_a12: self.last_a12,
            mirroring: self.mirroring,
        }
    }
}

impl Mapper004V {
    pub open spec fn wf(self) -> bool {
        &&& self.prg_banks >= 1
        &&& self.bank_registers.len() == 8
        &&& self.prg_ram.len() == 8192
    }

    pub open spec fn prg_mode(self) -> u8 {
        (self.bank_select >> 6) & 0x01
    }

    pub open spec fn chr_mode(self) -> u8 {
        (self.bank_select >> 7) & 0x01
    }

    /// The 8 KiB PRG bank index mapped at `addr` (0x8000-0xFFFF).
    pub open spec fn prg_bank8(self, addr: u16) -> int {
        if addr < 0xA000 {
            if self.prg_mode() == 0 {
                (self.bank_registers[6] & 0x3F) as int
            } else {
                2 * self.prg_banks - 2
            }
        } else if addr < 0xC000 {
            (self.bank_registers[7] & 0x3F) as int
        } else if addr < 0xE000 {
            if self.prg_mode() == 0 {
                2 * self.prg_banks - 2
            } else {
                (self.bank_registers[6] & 0x3F) as int
            }
        } else {
            2 * self.prg_banks - 1
        }
    }

    pub open spec fn read_target(self, addr: u16) -> CartridgeReadTarget {
        if addr >= 0x8000 {
            CartridgeReadTarget::PrgRom(
                (self.prg_bank8(addr) * 0x2000 + (addr & 0x1FFF)) as usize,
            )
        } else if addr >= 0x6000 {
            CartridgeReadTarget::PrgRam(self.prg_ram[(addr - 0x6000) as int])
        } else {
            CartridgeReadTarget::PrgRam(0)
        }
    }

    /// The state after a CPU write, by register pair: bank select and bank
    /// data at 0x8000, mirroring and RAM protect at 0xA000, IRQ reload
    /// latch and counter clear at 0xC000, IRQ disable and enable at 0xE000.
    pub open spec fn after_cpu_write(self, addr: u16, data: u8) -> Mapper004V {
        if addr >= 0xE000 {
            if addr & 1 == 0 {
                Mapper004V { irq_enable: false, irq_active: false, ..self }
            } else {
                Mapper004V { irq_enable: true, ..self }
            }
        } else if addr >= 0xC000 {
            if addr & 1 == 0 {
                Mapper004V { irq_reload: data, ..self }
            } else {
                Mapper004V { irq_counter: 0, irq_reload_pending: true, ..self }
            }
        } else if addr >= 0xA000 {
            if addr & 1 == 0 {
                if self.mirroring is FourScreen {
                    self
                } else {
                    Mapper004V {
                        mirroring: if data & 1 == 0 {
                            Mirroring::Vertical
                        } else {
                            Mirroring::Horizontal
                        },
                        ..self
                    }
                }
            } else {
                self
            }
        } else if addr >= 0x8000 {
            if addr & 1 == 0 {
                Mapper004V { bank_select: data, ..self }
            } else {
                Mapper004V {
                    bank_registers: self.bank_registers.update(
                        (self.bank_select & 0x07) as int,
                        data,
                    ),
                    ..self
                }
            }
        } else if addr >= 0x6000 {
            Mapper004V { prg_ram: self.prg_ram.update((addr - 0x6000) as int, data), ..self }
        } else {
            self
        }
    }

    /// The CHR offset of a PPU address, through the two 2 KiB and four
    /// 1 KiB windows; CHR mode 1 swaps the low and high halves.
    pub open spec fn chr_offset(self, addr: u16) -> usize {
        let a = if self.chr_mode() == 1 {
            (addr & 0x1FFF) ^ 0x1000
        } else {
            (addr & 0x1FFF)
        };
        if a < 0x0800 {
            (((self.bank_registers[0] & 0xFE) * 0x400) + (a & 0x07FF)) as usize
        } else if a < 0x1000 {
            (((self.bank_registers[1] & 0xFE) * 0x400) + (a & 0x07FF)) as usize
        } else if a < 0x1400 {
            ((self.bank_registers[2] * 0x400) + (a & 0x03FF)) as usize
        } else if a < 0x1800 {
            ((self.bank_registers[3] * 0x400) + (a & 0x03FF)) as usize
        } else if a < 0x1C00 {
            ((self.bank_registers[4] * 0x400) + (a & 0x03FF)) as usize
        } else {
            ((self.bank_registers[5] * 0x400) + (a & 0x03FF)) as usize
        }
    }

    /// One clock of the scanline counter: reload when exhausted or armed,
    /// decrement otherwise, and raise the latch on reaching zero while
    /// enabled.
    pub open spec fn counter_clocked(self) -> Mapper004V {
        let stepped = if self.irq_counter == 0 || self.irq_reload_pending {
            Mapper004V { irq_counter: self.irq_reload, irq_reload_pending: false, ..self }
        } else {
            Mapper004V { irq_counter: (self.irq_counter - 1) as u8, ..self }
        };
        if stepped.irq_counter == 0 && stepped.irq_enable {
            Mapper004V { irq_active: true, ..stepped }
        } else {
            stepped
        }
    }

    /// The state after a PPU access: the counter is clocked on each rising
    /// edge of address line 12.
    pub open spec fn after_ppu_read(self, addr: u16) -> Mapper004V {
        let a12 = addr & 0x1000 != 0;
        let clocked = if a12 && !self.last_a12 {
            self.counter_clocked()
        } else {
            self
        };
        Mapper004V { last_a12: a12, ..clocked }
    }

    /// CHR on this board is ROM; PPU-side writes are never supported.
    pub open spec fn chr_write_offset(self, addr: u16) -> Option<usize> {
        None
    }

    pub open spec fn after_irq_clear(self) -> Mapper004V {
        Mapper004V { irq_active: false, ..self }
    }

    pub open spec fn prg_bank_at(self, addr: u16) -> Option<u8> {
        if addr >= 0x8000 {
            Some((self.prg_bank8(addr) / 2) as u8)
        } else {
            None
        }
    }
}

impl Mapper004 {
    /// Builds the power-on state: all bank registers zero, counter idle,
    /// latch down, PRG-RAM zeroed.
    pub fn new(prg_banks: u8, mirroring: Mirroring) -> (m: Mapper004)
        requires
            prg_banks >= 1,
        ensures
            m@.wf(),
            m@.prg_banks == prg_banks,
            m@.bank_select == 0,
            m@.bank_registers == Seq::new(8nat, |i: int| 0u8),
            m@.prg_ram == Seq::new(8192nat, |i: int| 0u8),
            m@.irq_reload == 0 && m@.irq_counter == 0,
            !m@.irq_enable && !m@.irq_reload_pending && !m@.irq_active && !m@.last_a12,
            m@.mirroring == mirroring,
    {
        let bank_registers: Vec<u8> = vec![0u8; 8];
        let prg_ram: Vec<u8> = vec![0u8; 8192];
        proof {
            assert(bank_registers@ =~= Seq::new(8nat, |i: int| 0u8));
            assert(prg_ram@ =~= Seq::new(8192nat, |i: int| 0u8));
        }
        Mapper004 {
            prg_banks,
            bank_select: 0,
            bank_registers,
            prg_ram,
            irq_reload: 0,
            irq_counter: 0,
            irq_enable: false,
            irq_reload_pending: false,
            irq_active: false,
            last_a12: false,
            mirroring,
        }
    }

    pub fn cpu_map_read(&self, addr: u16) -> (r: CartridgeReadTarget)
        requires
            self@.wf(),
        ensures
            r == self@.read_target(addr),
    {
        if addr >= 0x8000 {
            let mode = (self.bank_select >> 6) & 0x01;
            let bank8: usize = if addr < 0xA000 {
                if mode == 0 {
                    (self.bank_registers[6] & 0x3F) as usize
                } else {
                    2 * self.prg_banks as usize - 2
                }
            } else if addr < 0xC000 {
                (self.bank_registers[7] & 0x3F) as usize
            } else if addr < 0xE000 {
                if mode == 0 {
                    2 * self.prg_banks as usize - 2
                } else {
                    (self.bank_registers[6] & 0x3F) as usize
                }
            } else {
                2 * self.prg_banks as usize - 1
            };
            CartridgeReadTarget::PrgRom(bank8 * 0x2000 + (addr & 0x1FFF) as usize)
        } else if addr >= 0x6000 {
            CartridgeReadTarget::PrgRam(self.prg_ram[(addr - 0x6000) as usize])
        } else {
            CartridgeReadTarget::PrgRam(0)
        }
    }

    pub fn cpu_map_write(&mut self, addr: u16, data: u8)
        requires
            old(self)@.wf(),
        ensures
            final(self)@.wf(),
            final(self)@ == old(self)@.after_cpu_write(addr, data),
    {
        if addr >= 0xE000 {
            if addr & 1 == 0 {
                self.irq_enable = false;
                self.irq_active = false;
            } else {
                self.irq_enable = true;
            }
        } else if addr >= 0xC000 {
            if addr & 1 == 0 {
                self.irq_reload = data;
            } else {
                self.irq_counter = 0;
                self.irq_reload_pending = true;
            }
        } else if addr >= 0xA000 {
            if addr & 1 == 0 {
                match self.mirroring {
                    Mirroring::FourScreen => (),
                    _ => {
                        self.mirroring = if data & 1 == 0 {
                            Mirroring::Vertical
                        } else {
                            Mirroring::Horizontal
                        };
                    },
                }
            }
        } else if addr >= 0x8000 {
            if addr & 1 == 0 {
                self.bank_select = data;
            } else {
                let idx = (self.bank_select & 0x07) as usize;
                proof {
                    lemma_u8_and_le(old(self).bank_select, 0x07);
                }
                self.bank_registers[idx] = data;
            }
        } else if addr >= 0x6000 {
            self.prg_ram[(addr - 0x6000) as usize] = data;
        }
    }

    pub fn ppu_map_read(&mut self, addr: u16) -> (off: usize)
        requires
            old(self)@.wf(),
        ensures
            final(self)@.wf(),
            final(self)@ == old(self)@.after_ppu_read(addr),
            off == old(self)@.chr_offset(addr),
    {
        let a = if (self.bank_select >> 7) & 0x01 == 1 {
            (addr & 0x1FFF) ^ 0x1000
        } else {
            addr & 0x1FFF
        };
        let off: usize = if a < 0x0800 {
            (self.bank_registers[0] & 0xFE) as usize * 0x400 + (a & 0x07FF) as usize
        } else if a < 0x1000 {
            (self.bank_registers[1] & 0xFE) as usize * 0x400 + (a & 0x07FF) as usize
        } else if a < 0x1400 {
            self.bank_registers[2] as usize * 0x400 + (a & 0x03FF) as usize
        } else if a < 0x1800 {
            self.bank_registers[3] as usize * 0x400 + (a & 0x03FF) as usize
        } else if a < 0x1C00 {
            self.bank_registers[4] as usize * 0x400 + (a & 0x03FF) as usize
        } else {
            self.bank_registers[5] as usize * 0x400 + (a & 0x03FF) as usize
        };
        let a12 = addr & 0x1000 != 0;
        if a12 && !self.last_a12 {
            if self.irq_counter == 0 || self.irq_reload_pending {
                self.irq_counter = self.irq_reload;
                self.irq_reload_pending = false;
            } else {
                self.irq_counter = self.irq_counter - 1;
            }
            if self.irq_counter == 0 && self.irq_enable {
                self.irq_active = true;
            }
        }
        self.last_a12 = a12;
        off
    }

    pub fn ppu_map_write(&self, addr: u16) -> (r: Option<usize>)
        ensures
            r == self@.chr_write_offset(addr),
    {
        None
    }

    pub fn irq_clear(&mut self)
        requires
            old(self)@.wf(),
        ensures
            final(self)@.wf(),
            final(self)@ == old(self)@.after_irq_clear(),
    {
        self.irq_active = false;
    }

    pub fn get_prg_bank(&self, addr: u16) -> (r: Option<u8>)
        requires
            self@.wf(),
        ensures
            r == self@.prg_bank_at(addr),
    {
        if addr >= 0x8000 {
            let mode = (self.bank_select >> 6) & 0x01;
            let bank8: usize = if addr < 0xA000 {
                if mode == 0 {
                    (self.bank_registers[6] & 0x3F) as usize
                } else {
                    2 * self.prg_banks as usize - 2
                }
            } else if addr < 0xC000 {
                (self.bank_registers[7] & 0x3F) as usize
            } else if addr < 0xE000 {
                if mode == 0 {
                    2 * self.prg_banks as usize - 2
                } else {
                    (self.bank_registers[6] & 0x3F) as usize
                }
            } else {
                2 * self.prg_banks as usize - 1
            };
            Some((bank8 / 2) as u8)
        } else {
            None
        }
    }
}

} // verus!
