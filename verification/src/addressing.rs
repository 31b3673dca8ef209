//! The addressing modes: each fetches its operand bytes at the program
//! counter, advances it, and resolves the effective address. The indexed
//! absolute and indirect-indexed modes also report whether the index
//! carried across a page, which costs read instructions an extra cycle.

use vstd::prelude::*;

use crate::bus::{CpuBus, CpuBusV};
use crate::cpu::{Cpu, CpuV};

verus! {

/// The little-endian 16-bit operand at `pc`.
pub open spec fn abs_operand(bus: CpuBusV, pc: u16) -> u16
    recommends
        bus.wf(),
{
    (bus.read_val(pc) as u16) | ((bus.read_val(pc.wrapping_add(1)) as u16) << 8)
}

/// Whether two addresses lie in different 256-byte pages.
pub open spec fn page_crossed(a: u16, b: u16) -> bool {
    a & 0xFF00 != b & 0xFF00
}

/// Where a JMP-indirect pointer leads, with the documented page-wrap bug:
/// when the pointer's low byte is 0xFF the high byte of the target is
/// fetched from the start of the same page, not the next one.
pub open spec fn ind_target(bus: CpuBusV, ptr: u16) -> u16
    recommends
        bus.wf(),
{
    if ptr & 0x00FF == 0x00FF {
        (bus.read_val(ptr) as u16) | ((bus.read_val(ptr & 0xFF00) as u16) << 8)
    } else {
        (bus.read_val(ptr) as u16) | ((bus.read_val(ptr.wrapping_add(1)) as u16) << 8)
    }
}

/// The 16-bit pointer a zero-page location holds, with both its bytes
/// fetched from page zero (the high fetch wraps within it).
pub open spec fn zp_pointer(bus: CpuBusV, zp_addr: u16) -> u16
    recommends
        bus.wf(),
{
    (bus.read_val(zp_addr) as u16) | ((bus.read_val(zp_addr.wrapping_add(1) & 0x00FF) as u16)
        << 8)
}

impl Cpu {
    /// Immediate: the operand is the next instruction byte itself.
    pub fn am_imm(&mut self, bus: &CpuBus) -> (r: u8)
        requires
            bus@.wf(),
        ensures
            final(self)@ == (CpuV { pc: old(self)@.pc.wrapping_add(1), ..old(self)@ }),
            r == bus@.read_val(old(self)@.pc),
    {
        self.pc = self.pc.wrapping_add(1);
        bus.read(self.pc.wrapping_sub(1))
    }

    /// Zero page: the operand byte, zero-extended.
    pub fn am_zp(&mut self, bus: &CpuBus) -> (r: u16)
        requires
            bus@.wf(),
        ensures
            final(self)@ == (CpuV { pc: old(self)@.pc.wrapping_add(1), ..old(self)@ }),
            r == bus@.read_val(old(self)@.pc) as u16,
    {
        self.pc = self.pc.wrapping_add(1);
        bus.read(self.pc.wrapping_sub(1)) as u16
    }

    /// Zero page indexed by X, wrapping within page zero.
    pub fn am_zpx(&mut self, bus: &CpuBus) -> (r: u16)
        requires
            bus@.wf(),
        ensures
            final(self)@ == (CpuV { pc: old(self)@.pc.wrapping_add(1), ..old(self)@ }),
            r == bus@.read_val(old(self)@.pc).wrapping_add(old(self)@.x) as u16,
    {
        self.pc = self.pc.wrapping_add(1);
        bus.read(self.pc.wrapping_sub(1)).wrapping_add(self.x) as u16
    }

    /// Zero page indexed by Y, wrapping within page zero.
    pub fn am_zpy(&mut self, bus: &CpuBus) -> (r: u16)
        requires
            bus@.wf(),
        ensures
            final(self)@ == (CpuV { pc: old(self)@.pc.wrapping_add(1), ..old(self)@ }),
            r == bus@.read_val(old(self)@.pc).wrapping_add(old(self)@.y) as u16,
    {
        self.pc = self.pc.wrapping_add(1);
        bus.read(self.pc.wrapping_sub(1)).wrapping_add(self.y) as u16
    }

    /// Absolute: a little-endian 16-bit operand.
    pub fn am_abs(&mut self, bus: &CpuBus) -> (r: u16)
        requires
            bus@.wf(),
        ensures
            final(self)@ == (CpuV { pc: old(self)@.pc.wrapping_add(2), ..old(self)@ }),
            r == abs_operand(bus@, old(self)@.pc),
    {
        self.pc = self.pc.wrapping_add(2);
        (bus.read(self.pc.wrapping_sub(2)) as u16) | ((bus.read(self.pc.wrapping_sub(1)) as u16)
            << 8)
    }

    /// Absolute indexed by X; reports a page crossing.
    pub fn am_abx(&mut self, bus: &CpuBus) -> (r: (u16, bool))
        requires
            bus@.wf(),
        ensures
            final(self)@ == (CpuV { pc: old(self)@.pc.wrapping_add(2), ..old(self)@ }),
            r.0 == abs_operand(bus@, old(self)@.pc).wrapping_add(old(self)@.x as u16),
            r.1 == page_crossed(abs_operand(bus@, old(self)@.pc), r.0),
    {
        self.pc = self.pc.wrapping_add(2);
        let address_no_offset = (bus.read(self.pc.wrapping_sub(2)) as u16) | ((bus.read(
            self.pc.wrapping_sub(1),
        ) as u16) << 8);
        let address_with_offset = address_no_offset.wrapping_add(self.x as u16);

        // A page change costs read instructions an additional cycle.
        let need_additional_cycle = address_no_offset & 0xFF00 != address_with_offset & 0xFF00;

        (address_with_offset, need_additional_cycle)
    }

    /// Absolute indexed by Y; reports a page crossing.
    pub fn am_aby(&mut self, bus: &CpuBus) -> (r: (u16, bool))
        requires
            bus@.wf(),
        ensures
            final(self)@ == (CpuV { pc: old(self)@.pc.wrapping_add(2), ..old(self)@ }),
            r.0 == abs_operand(bus@, old(self)@.pc).wrapping_add(old(self)@.y as u16),
            r.1 == page_crossed(abs_operand(bus@, old(self)@.pc), r.0),
    {
        self.pc = self.pc.wrapping_add(2);
        let address_no_offset = (bus.read(self.pc.wrapping_sub(2)) as u16) | ((bus.read(
            self.pc.wrapping_sub(1),
        ) as u16) << 8);
        let address_with_offset = address_no_offset.wrapping_add(self.y as u16);

        // A page change costs read instructions an additional cycle.
        let need_additional_cycle = address_no_offset & 0xFF00 != address_with_offset & 0xFF00;

        (address_with_offset, need_additional_cycle)
    }

    /// Indirect (JMP only), with the documented page-wrap bug.
    pub fn am_ind(&mut self, bus: &CpuBus) -> (r: u16)
        requires
            bus@.wf(),
        ensures
            final(self)@ == (CpuV { pc: old(self)@.pc.wrapping_add(2), ..old(self)@ }),
            r == ind_target(bus@, abs_operand(bus@, old(self)@.pc)),
    {
        self.pc = self.pc.wrapping_add(2);

        let ptr = (bus.read(self.pc.wrapping_sub(2)) as u16) | ((bus.read(self.pc.wrapping_sub(1))
            as u16) << 8);

        if ptr & 0x00FF == 0x00FF {
            // The hardware never carries into the high pointer byte: the
            // second fetch stays on the same page.
            (bus.read(ptr) as u16) | ((bus.read(ptr & 0xFF00) as u16) << 8)
        } else {
            (bus.read(ptr) as u16) | ((bus.read(ptr.wrapping_add(1)) as u16) << 8)
        }
    }

    /// Indexed indirect: the operand plus X names a zero-page pointer,
    /// both of whose bytes are fetched from page zero.
    pub fn am_izx(&mut self, bus: &CpuBus) -> (r: u16)
        requires
            bus@.wf(),
        ensures
            final(self)@ == (CpuV { pc: old(self)@.pc.wrapping_add(1), ..old(self)@ }),
            r == zp_pointer(
                bus@,
                bus@.read_val(old(self)@.pc).wrapping_add(old(self)@.x) as u16,
            ),
    {
        self.pc = self.pc.wrapping_add(1);
        let ptr = bus.read(self.pc.wrapping_sub(1)).wrapping_add(self.x) as u16;

        (bus.read(ptr) as u16) | ((bus.read(ptr.wrapping_add(1) & 0x00FF) as u16) << 8)
    }

    /// Indirect indexed: a zero-page pointer plus Y, both pointer bytes
    /// fetched from page zero; reports a page crossing.
    pub fn am_izy(&mut self, bus: &CpuBus) -> (r: (u16, bool))
        requires
            bus@.wf(),
        ensures
            final(self)@ == (CpuV { pc: old(self)@.pc.wrapping_add(1), ..old(self)@ }),
            r.0 == zp_pointer(bus@, bus@.read_val(old(self)@.pc) as u16).wrapping_add(
                old(self)@.y as u16,
            ),
            r.1 == page_crossed(zp_pointer(bus@, bus@.read_val(old(self)@.pc) as u16), r.0),
    {
        self.pc = self.pc.wrapping_add(1);
        let ptr = bus.read(self.pc.wrapping_sub(1)) as u16;

        let address_no_offset = (bus.read(ptr) as u16) | ((bus.read(ptr.wrapping_add(1) & 0x00FF)
            as u16) << 8);

        let address_with_offset = address_no_offset.wrapping_add(self.y as u16);

        // A page change costs read instructions an additional cycle.
        let need_additional_cycle = address_no_offset & 0xFF00 != address_with_offset & 0xFF00;

        (address_with_offset, need_additional_cycle)
    }

    /// Relative: a sign-extended 8-bit branch offset.
    pub fn am_rel(&mut self, bus: &CpuBus) -> (r: u16)
        requires
            bus@.wf(),
        ensures
            final(self)@ == (CpuV { pc: old(self)@.pc.wrapping_add(1), ..old(self)@ }),
            r == rel_offset(bus@.read_val(old(self)@.pc)),
    {
        self.pc = self.pc.wrapping_add(1);

        let address = bus.read(self.pc.wrapping_sub(1));

        // Sign extension.
        if address & 0x80 == 0x80 {
            (address as u16) | 0xFF00
        } else {
            address as u16
        }
    }
}

/// An 8-bit branch offset, sign-extended to sixteen bits.
pub open spec fn rel_offset(b: u8) -> u16 {
    if b & 0x80 == 0x80 {
        (b as u16) | 0xFF00
    } else {
        b as u16
    }
}

/// What `am_imm` does: register file after the fetch, and the operand.
pub open spec fn am_imm_spec(cpu: CpuV, bus: CpuBusV) -> (CpuV, u8) {
    (CpuV { pc: cpu.pc.wrapping_add(1), ..cpu }, bus.read_val(cpu.pc))
}

/// What `am_zp` does.
pub open spec fn am_zp_spec(cpu: CpuV, bus: CpuBusV) -> (CpuV, u16) {
    (CpuV { pc: cpu.pc.wrapping_add(1), ..cpu }, bus.read_val(cpu.pc) as u16)
}

/// What `am_zpx` does.
pub open spec fn am_zpx_spec(cpu: CpuV, bus: CpuBusV) -> (CpuV, u16) {
    (
        CpuV { pc: cpu.pc.wrapping_add(1), ..cpu },
        bus.read_val(cpu.pc).wrapping_add(cpu.x) as u16,
    )
}

/// What `am_zpy` does.
pub open spec fn am_zpy_spec(cpu: CpuV, bus: CpuBusV) -> (CpuV, u16) {
    (
        CpuV { pc: cpu.pc.wrapping_add(1), ..cpu },
        bus.read_val(cpu.pc).wrapping_add(cpu.y) as u16,
    )
}

/// What `am_abs` does.
pub open spec fn am_abs_spec(cpu: CpuV, bus: CpuBusV) -> (CpuV, u16) {
    (CpuV { pc: cpu.pc.wrapping_add(2), ..cpu }, abs_operand(bus, cpu.pc))
}

/// What `am_abx` does: the effective address and the page-cross report.
pub open spec fn am_abx_spec(cpu: CpuV, bus: CpuBusV) -> (CpuV, u16, bool) {
    let base = abs_operand(bus, cpu.pc);
    let addr = base.wrapping_add(cpu.x as u16);
    (CpuV { pc: cpu.pc.wrapping_add(2), ..cpu }, addr, page_crossed(base, addr))
}

/// What `am_aby` does.
pub open spec fn am_aby_spec(cpu: CpuV, bus: CpuBusV) -> (CpuV, u16, bool) {
    let base = abs_operand(bus, cpu.pc);
    let addr = base.wrapping_add(cpu.y as u16);
    (CpuV { pc: cpu.pc.wrapping_add(2), ..cpu }, addr, page_crossed(base, addr))
}

/// What `am_ind` does.
pub open spec fn am_ind_spec(cpu: CpuV, bus: CpuBusV) -> (CpuV, u16) {
    (CpuV { pc: cpu.pc.wrapping_add(2), ..cpu }, ind_target(bus, abs_operand(bus, cpu.pc)))
}

/// What `am_izx` does.
pub open spec fn am_izx_spec(cpu: CpuV, bus: CpuBusV) -> (CpuV, u16) {
    (
        CpuV { pc: cpu.pc.wrapping_add(1), ..cpu },
        zp_pointer(bus, bus.read_val(cpu.pc).wrapping_add(cpu.x) as u16),
    )
}

/// What `am_izy` does.
pub open spec fn am_izy_spec(cpu: CpuV, bus: CpuBusV) -> (CpuV, u16, bool) {
    let base = zp_pointer(bus, bus.read_val(cpu.pc) as u16);
    let addr = base.wrapping_add(cpu.y as u16);
    (CpuV { pc: cpu.pc.wrapping_add(1), ..cpu }, addr, page_crossed(base, addr))
}

/// What `am_rel` does.
pub open spec fn am_rel_spec(cpu: CpuV, bus: CpuBusV) -> (CpuV, u16) {
    (CpuV { pc: cpu.pc.wrapping_add(1), ..cpu }, rel_offset(bus.read_val(cpu.pc)))
}

} // verus!
