//! The CPU-side bus adapter: routes every read and write by address range
//! into internal RAM, the PPU-register and controller latches, the APU
//! stubs, or cartridge PRG space.
//!
//! The PPU, APU and controllers themselves are external collaborators and
//! out of scope here; the bus holds one plain latch byte per externally
//! owned register in their place. A written PPU register byte is read
//! back; a controller strobe copies the host-set button state into the
//! matching snapshot latch; APU ranges read as zero and drop writes. A
//! host wires real collaborators around these latches between clock calls.

use vstd::prelude::*;

use crate::bits::lemma_u16_and_le;
use crate::cartridge::{Cartridge, CartridgeV};

verus! {

pub struct CpuBus {
    /// 2 KiB internal RAM, mirrored across 0x0000-0x1FFF.
    pub ram: Vec<u8>,
    /// Latches for the eight PPU registers mirrored across 0x2000-0x3FFF.
    pub ppu_registers: Vec<u8>,
    /// Button state of controller 1, set by the host.
    pub controller1_state: u8,
    /// Button state of controller 2, set by the host.
    pub controller2_state: u8,
    /// Snapshot latch of controller 1, loaded by a strobe write.
    pub controller1_snapshot: u8,
    /// Snapshot latch of controller 2, loaded by a strobe write.
    pub controller2_snapshot: u8,
    pub cartridge: Cartridge,
}

/// Mathematical model of [`CpuBus`].
pub ghost struct CpuBusV {
    pub ram: Seq<u8>,
    pub ppu_registers: Seq<u8>,
    pub controller1_state: u8,
    pub controller2_state: u8,
    pub controller1_snapshot: u8,
    pub controller2_snapshot: u8,
    pub cartridge: CartridgeV,
}

impl View for CpuBus {
    type V = CpuBusV;

    open spec fn view(&self) -> CpuBusV {
        CpuBusV {
            ram: self.ram@,
            ppu_registers: self.ppu_registers@,
            controller1_state: self.controller1_state,
            controller2_state: self.controller2_state,
            controller1_snapshot: self.controller1_snapshot,
            controller2_snapshot: self.controller2_snapshot,
            cartridge: self.cartridge@,
        }
    }
}

impl CpuBusV {
    pub open spec fn wf(self) -> bool {
        &&& self.ram.len() == 2048
        &&& self.ppu_registers.len() == 8
        &&& self.cartridge.wf()
    }

    /// The byte a CPU read returns, by address range: RAM under its mirror
    /// mask, a PPU-register latch under its mirror mask, zero from the APU
    /// stubs, a controller snapshot latch, or cartridge PRG space.
    pub open spec fn read_val(self, addr: u16) -> u8
        recommends
            self.wf(),
    {
        if addr < 0x2000 {
            self.ram[(addr & 0x07FF) as int]
        } else if addr < 0x4000 {
            self.ppu_registers[(addr & 0x0007) as int]
        } else if addr <= 0x4015 {
            0
        } else if addr == 0x4016 {
            self.controller1_snapshot
        } else if addr == 0x4017 {
            self.controller2_snapshot
        } else if addr <= 0x401F {
            0
        } else {
            self.cartridge.prg_read(addr)
        }
    }

    /// The bus after a CPU write, by the same routing; APU-range writes
    /// are dropped, a controller strobe loads the snapshot latch.
    pub open spec fn after_write(self, addr: u16, data: u8) -> CpuBusV
        recommends
            self.wf(),
    {
        if addr < 0x2000 {
            CpuBusV { ram: self.ram.update((addr & 0x07FF) as int, data), ..self }
        } else if addr < 0x4000 {
            CpuBusV {
                ppu_registers: self.ppu_registers.update((addr & 0x0007) as int, data),
                ..self
            }
        } else if addr == 0x4016 {
            CpuBusV { controller1_snapshot: self.controller1_state, ..self }
        } else if addr == 0x4017 {
            CpuBusV { controller2_snapshot: self.controller2_state, ..self }
        } else if addr <= 0x401F {
            self
        } else {
            CpuBusV { cartridge: self.cartridge.after_prg_write(addr, data), ..self }
        }
    }
}

impl CpuBus {
    /// Builds a bus around a cartridge, with zeroed RAM and latches.
    pub fn new(cartridge: Cartridge) -> (bus: CpuBus)
        requires
            cartridge@.wf(),
        ensures
            bus@.wf(),
            bus@.ram == Seq::new(2048nat, |i: int| 0u8),
            bus@.ppu_registers == Seq::new(8nat, |i: int| 0u8),
            bus@.controller1_state == 0 && bus@.controller2_state == 0,
            bus@.controller1_snapshot == 0 && bus@.controller2_snapshot == 0,
            bus@.cartridge == cartridge@,
    {
        let ram: Vec<u8> = vec![0u8; 2048];
        let ppu_registers: Vec<u8> = vec![0u8; 8];
        proof {
            assert(ram@ =~= Seq::new(2048nat, |i: int| 0u8));
            assert(ppu_registers@ =~= Seq::new(8nat, |i: int| 0u8));
        }
        CpuBus {
            ram,
            ppu_registers,
            controller1_state: 0,
            controller2_state: 0,
            controller1_snapshot: 0,
            controller2_snapshot: 0,
            cartridge,
        }
    }

    /// A RAM read; the address is reduced by the 2 KiB mirror mask.
    pub fn read_ram(&self, addr: u16) -> (r: u8)
        requires
            self@.wf(),
        ensures
            r == self@.ram[(addr & 0x07FF) as int],
    {
        proof {
            lemma_u16_and_le(addr, 0x07FF);
        }
        self.ram[(addr & 0x07FF) as usize]
    }

    /// A RAM write; the address is reduced by the 2 KiB mirror mask.
    pub fn write_ram(&mut self, addr: u16, data: u8)
        requires
            old(self)@.wf(),
        ensures
            final(self)@.wf(),
            final(self)@ == (CpuBusV {
                ram: old(self)@.ram.update((addr & 0x07FF) as int, data),
                ..old(self)@
            }),
    {
        proof {
            lemma_u16_and_le(addr, 0x07FF);
        }
        self.ram[(addr & 0x07FF) as usize] = data;
    }

    /// A PPU-register latch read; the address is reduced by the 8-byte
    /// mirror mask.
    pub fn read_ppu_register(&self, addr: u16) -> (r: u8)
        requires
            self@.wf(),
        ensures
            r == self@.ppu_registers[(addr & 0x0007) as int],
    {
        proof {
            lemma_u16_and_le(addr, 0x0007);
        }
        self.ppu_registers[(addr & 0x0007) as usize]
    }

    /// A PPU-register latch write; the address is reduced by the 8-byte
    /// mirror mask.
    pub fn write_ppu_register(&mut self, addr: u16, data: u8)
        requires
            old(self)@.wf(),
        ensures
            final(self)@.wf(),
            final(self)@ == (CpuBusV {
                ppu_registers: old(self)@.ppu_registers.update((addr & 0x0007) as int, data),
                ..old(self)@
            }),
    {
        proof {
            lemma_u16_and_le(addr, 0x0007);
        }
        self.ppu_registers[(addr & 0x0007) as usize] = data;
    }

    /// Strobes controller 1: the snapshot latch takes the current state.
    pub fn controller1_take_snapshot(&mut self)
        ensures
            final(self)@ == (CpuBusV {
                controller1_snapshot: old(self)@.controller1_state,
                ..old(self)@
            }),
    {
        self.controller1_snapshot = self.controller1_state;
    }

    /// Strobes controller 2: the snapshot latch takes the current state.
    pub fn controller2_take_snapshot(&mut self)
        ensures
            final(self)@ == (CpuBusV {
                controller2_snapshot: old(self)@.controller2_state,
                ..old(self)@
            }),
    {
        self.controller2_snapshot = self.controller2_state;
    }

    /// Reads the controller 1 snapshot latch.
    pub fn read_controller1_snapshot(&self) -> (r: u8)
        ensures
            r == self@.controller1_snapshot,
    {
        self.controller1_snapshot
    }

    /// Reads the controller 2 snapshot latch.
    pub fn read_controller2_snapshot(&self) -> (r: u8)
        ensures
            r == self@.controller2_snapshot,
    {
        self.controller2_snapshot
    }

    /// A cartridge PRG read, delegated to the mapper.
    pub fn read_prg_mem(&self, addr: u16) -> (r: u8)
        requires
            self@.wf(),
        ensures
            r == self@.cartridge.prg_read(addr),
    {
        self.cartridge.read_prg_mem(addr)
    }

    /// A cartridge PRG write, delegated to the mapper.
    pub fn write_prg_mem(&mut self, addr: u16, data: u8)
        requires
            old(self)@.wf(),
        ensures
            final(self)@.wf(),
            final(self)@ == (CpuBusV {
                cartridge: old(self)@.cartridge.after_prg_write(addr, data),
                ..old(self)@
            }),
    {
        self.cartridge.write_prg_mem(addr, data);
    }

    /// A CPU read, routed by address range.
    pub fn read(&self, addr: u16) -> (r: u8)
        requires
            self@.wf(),
        ensures
            r == self@.read_val(addr),
    {
        if addr < 0x2000 {
            self.read_ram(addr)
        } else if addr < 0x4000 {
            self.read_ppu_register(addr)
        } else if addr <= 0x4015 {
            0
        } else if addr == 0x4016 {
            self.read_controller1_snapshot()
        } else if addr == 0x4017 {
            self.read_controller2_snapshot()
        } else if addr <= 0x401F {
            0
        } else {
            self.read_prg_mem(addr)
        }
    }

    /// A CPU write, routed by address range.
    pub fn write(&mut self, addr: u16, data: u8)
        requires
            old(self)@.wf(),
        ensures
            final(self)@.wf(),
            final(self)@ == old(self)@.after_write(addr, data),
    {
        if addr < 0x2000 {
            self.write_ram(addr, data);
        } else if addr < 0x4000 {
            self.write_ppu_register(addr, data);
        } else if addr == 0x4016 {
            self.controller1_take_snapshot();
        } else if addr == 0x4017 {
            self.controller2_take_snapshot();
        } else if addr <= 0x401F {
        } else {
            self.write_prg_mem(addr, data);
        }
    }
}

} // verus!
