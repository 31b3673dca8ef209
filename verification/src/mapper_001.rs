//! MMC1 (mapper 1): a serial 5-bit shift register loaded by consecutive
//! CPU writes to 0x8000-0xFFFF. Bit 7 of a written byte resets the shift
//! state; otherwise bit 0 is shifted in, and the fifth write commits the
//! accumulated value to one of four internal registers selected by address
//! bits 13-14. Controls PRG bank mode, CHR bank mode, mirroring, and an
//! 8 KiB battery-backed PRG-RAM at 0x6000-0x7FFF.

use vstd::prelude::*;

use crate::Mirroring;
use crate::mapper::CartridgeReadTarget;

verus! {

pub struct Mapper001 {
    /// Bits accumulated by the serial port, low bit first.
    pub shift_register: u8,
    /// How many bits the serial port holds, always below five.
    pub shift_count: u8,
    /// Control register: mirroring in bits 0-1, PRG mode in bits 2-3, CHR
    /// mode in bit 4.
    pub control: u8,
    /// CHR bank register 0 (low window, or the whole window in 8 KiB mode).
    pub chr_bank_0: u8,
    /// CHR bank register 1 (high window in 4 KiB mode).
    pub chr_bank_1: u8,
    /// PRG bank register; only its low four bits select a bank.
    pub prg_bank: u8,
    /// Number of 16 KiB PRG banks on the cartridge.
    pub prg_banks: u8,
    /// 8 KiB battery-backed PRG-RAM.
    pub prg_ram: Vec<u8>,
    pub mirroring: Mirroring,
}

/// Mathematical model of [`Mapper001`]: the same registers with the PRG-RAM
/// bytes as a sequence.
pub ghost struct Mapper001V {
    pub shift_register: u8,
    pub shift_count: u8,
    pub control: u8,
    pub chr_bank_0: u8,
    pub chr_bank_1: u8,
    pub prg_bank: u8,
    pub prg_banks: u8,
    pub prg_ram: Seq<u8>,
    pub mirroring: Mirroring,
}

impl View for Mapper001 {
    type V = Mapper001V;

    open spec fn view(&self) -> Mapper001V {
        Mapper001V {
            shift_register: self.shift_register,
            shift_count: self.shift_count,
            control: self.control,
            chr_bank_0: self.chr_bank_0,
            chr_bank_1: self.chr_bank_1,
            prg_bank: self.prg_bank,
            prg_banks: self.prg_banks,
            prg_ram: self.prg_ram@,
            mirroring: self.mirroring,
        }
    }
}

impl Mapper001V {
    pub open spec fn wf(self) -> bool {
        &&& self.prg_banks >= 1
        &&& self.prg_ram.len() == 8192
        &&& self.shift_count <= 4
        &&& self.shift_register <= 0x1F
        &&& self.control <= 0x1F
        &&& self.chr_bank_0 <= 0x1F
        &&& self.chr_bank_1 <= 0x1F
        &&& self.prg_bank <= 0x1F
    }

    /// The mirroring mode named by the low two control bits.
    pub open spec fn mirroring_of_control(v: u8) -> Mirroring {
        if v & 0x03 == 0 {
            Mirroring::OneScreenLower
        } else if v & 0x03 == 1 {
            Mirroring::OneScreenUpper
        } else if v & 0x03 == 2 {
            Mirroring::Vertical
        } else {
            Mirroring::Horizontal
        }
    }

    /// The state after the fifth serial write commits value `v` to the
    /// internal register selected by address bits 13-14.
    pub open spec fn committed(self, addr: u16, v: u8) -> Mapper001V {
        let sel = (addr >> 13) & 0x03;
        if sel == 0 {
            Mapper001V { control: v, mirroring: Self::mirroring_of_control(v), ..self }
        } else if sel == 1 {
            Mapper001V { chr_bank_0: v, ..self }
        } else if sel == 2 {
            Mapper001V { chr_bank_1: v, ..self }
        } else {
            Mapper001V { prg_bank: v, ..self }
        }
    }

    /// The state after a CPU write: a PRG-RAM store at 0x6000-0x7FFF, a
    /// serial-port step at 0x8000-0xFFFF, and no effect below 0x6000.
    pub open spec fn after_cpu_write(self, addr: u16, data: u8) -> Mapper001V {
        if addr >= 0x8000 {
            if data & 0x80 != 0 {
                Mapper001V { shift_register: 0, shift_count: 0, control: self.control | 0x0C, ..self }
            } else {
                let loaded = self.shift_register | ((data & 1) << self.shift_count);
                if self.shift_count == 4 {
                    Mapper001V { shift_register: 0, shift_count: 0, ..self.committed(addr, loaded) }
                } else {
                    Mapper001V {
                        shift_register: loaded,
                        shift_count: (self.shift_count + 1) as u8,
                        ..self
                    }
                }
            }
        } else if addr >= 0x6000 {
            Mapper001V { prg_ram: self.prg_ram.update((addr - 0x6000) as int, data), ..self }
        } else {
            self
        }
    }

    pub open spec fn prg_mode(self) -> u8 {
        (self.control >> 2) & 0x03
    }

    pub open spec fn read_target(self, addr: u16) -> CartridgeReadTarget {
        if addr >= 0x8000 {
            if self.prg_mode() == 0 || self.prg_mode() == 1 {
                CartridgeReadTarget::PrgRom(
                    ((((self.prg_bank & 0x0E) >> 1) * 0x8000) + (addr & 0x7FFF)) as usize,
                )
            } else if self.prg_mode() == 2 {
                if addr < 0xC000 {
                    CartridgeReadTarget::PrgRom((addr & 0x3FFF) as usize)
                } else {
                    CartridgeReadTarget::PrgRom(
                        (((self.prg_bank & 0x0F) * 0x4000) + (addr & 0x3FFF)) as usize,
                    )
                }
            } else {
                if addr < 0xC000 {
                    CartridgeReadTarget::PrgRom(
                        (((self.prg_bank & 0x0F) * 0x4000) + (addr & 0x3FFF)) as usize,
                    )
                } else {
                    CartridgeReadTarget::PrgRom(
                        (((self.prg_banks - 1) * 0x4000) + (addr & 0x3FFF)) as usize,
                    )
                }
            }
        } else if addr >= 0x6000 {
            CartridgeReadTarget::PrgRam(self.prg_ram[(addr - 0x6000) as int])
        } else {
            CartridgeReadTarget::PrgRam(0)
        }
    }

    pub open spec fn chr_mode(self) -> u8 {
        (self.control >> 4) & 0x01
    }

    pub open spec fn chr_offset(self, addr: u16) -> usize {
        if self.chr_mode() == 0 {
            ((((self.chr_bank_0 & 0x1E) >> 1) * 0x2000) + (addr & 0x1FFF)) as usize
        } else {
            if (addr & 0x1FFF) < 0x1000 {
                ((self.chr_bank_0 * 0x1000) + (addr & 0x0FFF)) as usize
            } else {
                ((self.chr_bank_1 * 0x1000) + (addr & 0x0FFF)) as usize
            }
        }
    }

    pub open spec fn chr_write_offset(self, addr: u16) -> Option<usize> {
        if addr <= 0x1FFF {
            Some(addr as usize)
        } else {
            None
        }
    }

    pub open spec fn prg_bank_at(self, addr: u16) -> Option<u8> {
        if addr >= 0x8000 {
            if self.prg_mode() == 0 || self.prg_mode() == 1 {
                Some(((self.prg_bank & 0x0E) + ((addr >> 14) & 1)) as u8)
            } else if self.prg_mode() == 2 {
                if addr < 0xC000 {
                    Some(0)
                } else {
                    Some(self.prg_bank & 0x0F)
                }
            } else {
                if addr < 0xC000 {
                    Some(self.prg_bank & 0x0F)
                } else {
                    Some((self.prg_banks - 1) as u8)
                }
            }
        } else {
            None
        }
    }
}

impl Mapper001 {
    /// Builds the power-on state: serial port empty, control fixing the
    /// last PRG bank, and PRG-RAM loaded verbatim from `save_data` when its
    /// length matches, zeroed otherwise.
    pub fn new(prg_banks: u8, mirroring: Mirroring, save_data: Option<&[u8]>) -> (m: Mapper001)
        requires
            prg_banks >= 1,
        ensures
            m@.wf(),
            m@.shift_register == 0 && m@.shift_count == 0 && m@.control == 0x0C,
            m@.chr_bank_0 == 0 && m@.chr_bank_1 == 0 && m@.prg_bank == 0,
            m@.prg_banks == prg_banks,
            m@.mirroring == mirroring,
            match save_data {
                Some(s) => if s@.len() == 8192 {
                    m@.prg_ram == s@
                } else {
                    m@.prg_ram == Seq::new(8192nat, |i: int| 0u8)
                },
                None => m@.prg_ram == Seq::new(8192nat, |i: int| 0u8),
            },
    {
        let prg_ram: Vec<u8> = match save_data {
            Some(s) => {
                if s.len() == 8192 {
                    vstd::slice::slice_to_vec(s)
                } else {
                    Mapper001::blank_ram()
                }
            },
            None => Mapper001::blank_ram(),
        };
        Mapper001 {
            shift_register: 0,
            shift_count: 0,
            control: 0x0C,
            chr_bank_0: 0,
            chr_bank_1: 0,
            prg_bank: 0,
            prg_banks,
            prg_ram,
            mirroring,
        }
    }

    /// A zeroed 8 KiB PRG-RAM image.
    fn blank_ram() -> (v: Vec<u8>)
        ensures
            v@ == Seq::new(8192nat, |i: int| 0u8),
    {
        let v: Vec<u8> = vec![0u8; 8192];
        proof {
            assert(v@ =~= Seq::new(8192nat, |i: int| 0u8));
        }
        v
    }

    pub fn cpu_map_read(&self, addr: u16) -> (r: CartridgeReadTarget)
        requires
            self@.wf(),
        ensures
            r == self@.read_target(addr),
    {
        if addr >= 0x8000 {
            let mode = (self.control >> 2) & 0x03;
            if mode == 0 || mode == 1 {
                let bank = ((self.prg_bank & 0x0E) >> 1) as usize;
                CartridgeReadTarget::PrgRom(bank * 0x8000 + (addr & 0x7FFF) as usize)
            } else if mode == 2 {
                if addr < 0xC000 {
                    CartridgeReadTarget::PrgRom((addr & 0x3FFF) as usize)
                } else {
                    let bank = (self.prg_bank & 0x0F) as usize;
                    CartridgeReadTarget::PrgRom(bank * 0x4000 + (addr & 0x3FFF) as usize)
                }
            } else {
                if addr < 0xC000 {
                    let bank = (self.prg_bank & 0x0F) as usize;
                    CartridgeReadTarget::PrgRom(bank * 0x4000 + (addr & 0x3FFF) as usize)
                } else {
                    let bank = (self.prg_banks - 1) as usize;
                    CartridgeReadTarget::PrgRom(bank * 0x4000 + (addr & 0x3FFF) as usize)
                }
            }
        } else if addr >= 0x6000 {
            CartridgeReadTarget::PrgRam(self.prg_ram[(addr - 0x6000) as usize])
        } else {
            CartridgeReadTarget::PrgRam(0)
        }
    }

    pub fn cpu_map_write(&mut self, addr: u16, data: u8)
        requires
            old(self)@.wf(),
        ensures
            final(self)@.wf(),
            final(self)@ == old(self)@.after_cpu_write(addr, data),
    {
        if addr >= 0x8000 {
            if data & 0x80 != 0 {
                self.shift_register = 0;
                self.shift_count = 0;
                self.control = self.control | 0x0C;
                proof {
                    let c = old(self).control;
                    assert(c <= 0x1F ==> (c | 0x0C) <= 0x1F) by (bit_vector);
                }
            } else {
                let loaded = self.shift_register | ((data & 1) << self.shift_count);
                proof {
                    let sr = old(self).shift_register;
                    let c = old(self).shift_count;
                    assert(sr <= 0x1F && c <= 4 ==> (sr | ((data & 1) << c)) <= 0x1F)
                        by (bit_vector);
                }
                if self.shift_count == 4 {
                    self.commit(addr, loaded);
                    self.shift_register = 0;
                    self.shift_count = 0;
                } else {
                    self.shift_register = loaded;
                    self.shift_count = self.shift_count + 1;
                }
            }
        } else if addr >= 0x6000 {
            self.prg_ram[(addr - 0x6000) as usize] = data;
        }
    }

    /// Commits a full 5-bit serial value to the register that address bits
    /// 13-14 select, updating the mirroring mode on a control commit.
    fn commit(&mut self, addr: u16, v: u8)
        requires
            old(self)@.wf(),
            v <= 0x1F,
        ensures
            final(self)@.wf(),
            final(self)@ == old(self)@.committed(addr, v),
    {
        let sel = (addr >> 13) & 0x03;
        if sel == 0 {
            self.control = v;
            self.mirroring = if v & 0x03 == 0 {
                Mirroring::OneScreenLower
            } else if v & 0x03 == 1 {
                Mirroring::OneScreenUpper
            } else if v & 0x03 == 2 {
                Mirroring::Vertical
            } else {
                Mirroring::Horizontal
            };
        } else if sel == 1 {
            self.chr_bank_0 = v;
        } else if sel == 2 {
            self.chr_bank_1 = v;
        } else {
            self.prg_bank = v;
        }
    }

    pub fn ppu_map_read(&mut self, addr: u16) -> (off: usize)
        requires
            old(self)@.wf(),
        ensures
            final(self)@.wf(),
            *final(self) == *old(self),
            off == old(self)@.chr_offset(addr),
    {
        if (self.control >> 4) & 0x01 == 0 {
            let bank = ((self.chr_bank_0 & 0x1E) >> 1) as usize;
            bank * 0x2000 + (addr & 0x1FFF) as usize
        } else {
            if (addr & 0x1FFF) < 0x1000 {
                self.chr_bank_0 as usize * 0x1000 + (addr & 0x0FFF) as usize
            } else {
                self.chr_bank_1 as usize * 0x1000 + (addr & 0x0FFF) as usize
            }
        }
    }

    pub fn ppu_map_write(&self, addr: u16) -> (r: Option<usize>)
        ensures
            r == self@.chr_write_offset(addr),
    {
        if addr <= 0x1FFF {
            Some(addr as usize)
        } else {
            None
        }
    }

    pub fn get_prg_bank(&self, addr: u16) -> (r: Option<u8>)
        requires
            self@.wf(),
        ensures
            r == self@.prg_bank_at(addr),
    {
        if addr >= 0x8000 {
            let mode = (self.control >> 2) & 0x03;
            if mode == 0 || mode == 1 {
                proof {
                    crate::bits::lemma_u8_and_le(self.prg_bank, 0x0E);
                    crate::bits::lemma_u16_and_le(addr >> 14, 1);
                }
                Some((self.prg_bank & 0x0E) + ((addr >> 14) & 1) as u8)
            } else if mode == 2 {
                if addr < 0xC000 {
                    Some(0)
                } else {
                    Some(self.prg_bank & 0x0F)
                }
            } else {
                if addr < 0xC000 {
                    Some(self.prg_bank & 0x0F)
                } else {
                    Some(self.prg_banks - 1)
                }
            }
        } else {
            None
        }
    }
}

} // verus!
