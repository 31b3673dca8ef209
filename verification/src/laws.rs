//! Cross-cutting properties of the core, each proved over the models the
//! executable contracts speak of. The per-call facts live on the functions
//! themselves: `Cartridge::load` states exactly when an image is rejected,
//! `Cpu::reset` that the program counter comes from the reset vector, and
//! `Cpu::clock` that the cycle debt after an instruction stays between its
//! base cycle count minus one and plus one.

use vstd::prelude::*;

use crate::bus::CpuBusV;
use crate::cpu::{CpuV, spec_pop_st, spec_push};
use crate::instructions::{spec_pha, spec_php, spec_pla, spec_plp};
use crate::mapper::CartridgeReadTarget;
use crate::mapper_000::Mapper000;
use crate::mapper_001::Mapper001V;
use crate::mapper_002::Mapper002;
use crate::mapper_003::Mapper003;
use crate::mapper_004::Mapper004V;
use crate::mapper_066::Mapper066;
use crate::status::{FLAG_B, FLAG_C, FLAG_U, FLAG_Z, flag_set, with_flag, with_zn};

verus! {

/// A write to the RAM range keeps the bus well formed, and reading the
/// written address back gives the written byte.
pub proof fn lemma_ram_write_read(bus: CpuBusV, addr: u16, data: u8)
    requires
        bus.wf(),
        addr < 0x2000,
    ensures
        bus.after_write(addr, data).wf(),
        bus.after_write(addr, data).read_val(addr) == data,
{
    crate::bits::lemma_u16_and_le(addr, 0x07FF);
}

/// The state after pushing every byte of `vs` in order.
pub open spec fn push_all(cpu: CpuV, bus: CpuBusV, vs: Seq<u8>) -> (CpuV, CpuBusV)
    decreases vs.len(),
{
    if vs.len() == 0 {
        (cpu, bus)
    } else {
        let r = spec_push(cpu, bus, vs[0]);
        push_all(r.0, r.1, vs.drop_first())
    }
}

/// The register file after `n` pops. A pop reads the bus but never writes
/// it, so no bus result is needed: the bus after any number of pops is the
/// bus before them.
pub open spec fn pop_all(cpu: CpuV, n: nat) -> CpuV
    decreases n,
{
    if n == 0 {
        cpu
    } else {
        spec_pop_st(pop_all(cpu, (n - 1) as nat))
    }
}

/// Pushing any number of bytes and popping as many restores the register
/// file exactly — the stack pointer in particular, however often it
/// wrapped around the page; with 257 bytes it wraps the full page once.
pub proof fn lemma_stack_push_pop_round_trip(cpu: CpuV, bus: CpuBusV, vs: Seq<u8>)
    ensures
        pop_all(push_all(cpu, bus, vs).0, vs.len()) == cpu,
    decreases vs.len(),
{
    if vs.len() > 0 {
        let r = spec_push(cpu, bus, vs[0]);
        lemma_stack_push_pop_round_trip(r.0, r.1, vs.drop_first());
        assert(spec_pop_st(r.0) == cpu);
    }
}

/// After at least one push, the slot just above the final stack pointer —
/// the one the next pop would read — holds the byte pushed last.
pub proof fn lemma_push_all_top(cpu: CpuV, bus: CpuBusV, vs: Seq<u8>)
    requires
        vs.len() >= 1,
        bus.wf(),
    ensures
        push_all(cpu, bus, vs).1.wf(),
        push_all(cpu, bus, vs).1.read_val(
            (0x0100 + push_all(cpu, bus, vs).0.st.wrapping_add(1)) as u16,
        ) == vs[vs.len() - 1],
    decreases vs.len(),
{
    let r = spec_push(cpu, bus, vs[0]);
    lemma_ram_write_read(bus, (0x0100 + cpu.st) as u16, vs[0]);
    if vs.len() == 1 {
        assert(r.0.st.wrapping_add(1) == cpu.st);
    } else {
        lemma_push_all_top(r.0, r.1, vs.drop_first());
    }
}

/// PHA then PLA restores the accumulator and the stack pointer, and sets
/// Z and N from the restored value.
pub proof fn lemma_pha_pla_round_trip(cpu: CpuV, bus: CpuBusV)
    requires
        bus.wf(),
    ensures
        ({
            let pushed = spec_pha(cpu, bus);
            let after = spec_pla(pushed.0, pushed.1);
            after == (CpuV {
                a: cpu.a,
                st: cpu.st,
                status_register: with_zn(cpu.status_register, cpu.a),
                ..cpu
            })
        }),
{
    let pushed = spec_pha(cpu, bus);
    assert(pushed.0.st.wrapping_add(1) == cpu.st);
    lemma_ram_write_read(bus, (0x0100 + cpu.st) as u16, cpu.a);
}

/// PHP then PLP restores every status bit except B and U, which come back
/// cleared.
pub proof fn lemma_php_plp_round_trip(cpu: CpuV, bus: CpuBusV)
    requires
        bus.wf(),
    ensures
        ({
            let pushed = spec_php(cpu, bus);
            let after = spec_plp(pushed.0, pushed.1);
            after == (CpuV {
                st: cpu.st,
                status_register: with_flag(
                    with_flag(cpu.status_register, FLAG_B, false),
                    FLAG_U,
                    false,
                ),
                ..cpu
            })
        }),
{
    let pushed = spec_php(cpu, bus);
    assert(pushed.0.st.wrapping_add(1) == cpu.st);
    let s = cpu.status_register;
    lemma_ram_write_read(bus, (0x0100 + cpu.st) as u16, (s | FLAG_B) | FLAG_U);
    assert((((s | 0x10u8) | 0x20u8) & !0x10u8) & !0x20u8 == (s & !0x10u8) & !0x20u8)
        by (bit_vector);
}

/// Clearing the carry is idempotent and leaves it clear; setting it is
/// idempotent and leaves it set.
pub proof fn lemma_carry_ops_idempotent(st: u8)
    by (bit_vector)
    ensures
        with_flag(with_flag(st, FLAG_C, false), FLAG_C, false) == with_flag(st, FLAG_C, false),
        !flag_set(with_flag(with_flag(st, FLAG_C, false), FLAG_C, false), FLAG_C),
        with_flag(with_flag(st, FLAG_C, true), FLAG_C, true) == with_flag(st, FLAG_C, true),
        flag_set(with_flag(with_flag(st, FLAG_C, true), FLAG_C, true), FLAG_C),
{
}

/// NROM never banks: every CPU read in ROM space comes from the one fixed
/// window, whatever was written before.
pub proof fn lemma_nrom_fixed_window(m: Mapper000, waddr: u16, wdata: u8, addr: u16)
    requires
        m.wf(),
    ensures
        m.after_cpu_write(waddr, wdata) == m,
        m.read_target(addr) == CartridgeReadTarget::PrgRom((addr & m.prg_mask()) as usize),
{
}

/// UxROM: a bank-select write anywhere in ROM space routes every
/// following low-window read into the bank named by the written value's
/// low four bits.
pub proof fn lemma_uxrom_bank_select(m: Mapper002, waddr: u16, n: u8, addr: u16)
    requires
        m.wf(),
        waddr >= 0x8000,
        0x8000 <= addr < 0xC000,
    ensures
        m.after_cpu_write(waddr, n).read_target(addr) == CartridgeReadTarget::PrgRom(
            (((n & 0x0F) * 0x4000) + (addr & 0x3FFF)) as usize,
        ),
{
}

/// CNROM: a bank-select write routes every following PPU read into the
/// 8 KiB CHR bank named by the written value's low two bits.
pub proof fn lemma_cnrom_bank_select(m: Mapper003, waddr: u16, n: u8, addr: u16)
    requires
        m.wf(),
        waddr >= 0x8000,
    ensures
        m.after_cpu_write(waddr, n).chr_offset(addr) == (((n & 0x03) * 0x2000) + (addr & 0x1FFF))
            as usize,
{
}

/// GxROM: one write selects both banks; following CPU reads come from the
/// 32 KiB PRG bank in bits 4-5, following PPU reads from the 8 KiB CHR
/// bank in bits 0-1.
pub proof fn lemma_gxrom_bank_select(m: Mapper066, waddr: u16, n: u8, addr: u16)
    requires
        m.wf(),
        waddr >= 0x8000,
    ensures
        addr >= 0x8000 ==> m.after_cpu_write(waddr, n).read_target(addr)
            == CartridgeReadTarget::PrgRom(
            ((((n & 0x30) >> 4) * 0x8000) + (addr & 0x7FFF)) as usize,
        ),
        m.after_cpu_write(waddr, n).chr_offset(addr) == (((n & 0x03) * 0x2000) + (addr & 0x1FFF))
            as usize,
{
}

/// The value five serial writes accumulate, low bit first.
pub open spec fn mmc1_serial_value(d0: u8, d1: u8, d2: u8, d3: u8, d4: u8) -> u8 {
    ((((0u8 | ((d0 & 1) << 0u8)) | ((d1 & 1) << 1u8)) | ((d2 & 1) << 2u8)) | ((d3 & 1) << 3u8))
        | ((d4 & 1) << 4u8)
}

/// MMC1: from an empty shift register, five writes to ROM space with bit
/// 7 clear commit the accumulated five-bit value to the register selected
/// by the fifth write's address, and leave the serial port empty again.
pub proof fn lemma_mmc1_serial_commit(
    m: Mapper001V,
    a0: u16,
    d0: u8,
    a1: u16,
    d1: u8,
    a2: u16,
    d2: u8,
    a3: u16,
    d3: u8,
    a4: u16,
    d4: u8,
)
    requires
        m.wf(),
        m.shift_count == 0,
        m.shift_register == 0,
        a0 >= 0x8000 && a1 >= 0x8000 && a2 >= 0x8000 && a3 >= 0x8000 && a4 >= 0x8000,
        d0 & 0x80 == 0 && d1 & 0x80 == 0 && d2 & 0x80 == 0 && d3 & 0x80 == 0 && d4 & 0x80 == 0,
    ensures
        m.after_cpu_write(a0, d0).after_cpu_write(a1, d1).after_cpu_write(a2, d2).after_cpu_write(
            a3,
            d3,
        ).after_cpu_write(a4, d4) == (Mapper001V {
            shift_register: 0,
            shift_count: 0,
            ..m.committed(a4, mmc1_serial_value(d0, d1, d2, d3, d4))
        }),
{
}

/// MMC3: selecting bank register 6 and loading it routes every following
/// read of the low PRG window (in the mode where that window is
/// switchable) into the 8 KiB bank named by the loaded value.
pub proof fn lemma_mmc3_bank_select(m: Mapper004V, n: u8, addr: u16)
    requires
        m.wf(),
        0x8000 <= addr < 0xA000,
    ensures
        ({
            let w = m.after_cpu_write(0x8000, 6).after_cpu_write(0x8001, n);
            w.read_target(addr) == CartridgeReadTarget::PrgRom(
                (((n & 0x3F) * 0x2000) + (addr & 0x1FFF)) as usize,
            )
        }),
{
    assert((6u8 >> 6) & 0x01 == 0) by (bit_vector);
    assert(6u8 & 0x07 == 6) by (bit_vector);
    assert(0x8000u16 & 1 == 0) by (bit_vector);
    assert(0x8001u16 & 1 == 1) by (bit_vector);
    let w = m.after_cpu_write(0x8000, 6).after_cpu_write(0x8001, n);
    assert(w.bank_registers[6] == n);
}

/// In every mode and at every address the Z flag a load leaves matches
/// the loaded value, and the N flag its sign bit: the shape `with_zn`
/// gives every instruction contract.
pub proof fn lemma_zn_meaning(st: u8, v: u8)
    by (bit_vector)
    ensures
        flag_set(with_zn(st, v), FLAG_Z) == (v == 0),
        flag_set(with_zn(st, v), crate::status::FLAG_N) == (v & 0x80 != 0),
{
}

/// Flag updates are isolated: setting one of the eight architectural flag
/// bits reads back as set, and every other flag bit keeps its value.
pub proof fn lemma_with_flag_reads_back(st: u8, mask: u8, on: bool)
    by (bit_vector)
    requires
        mask == FLAG_C || mask == FLAG_Z || mask == crate::status::FLAG_I || mask
            == crate::status::FLAG_D || mask == FLAG_B || mask == FLAG_U || mask
            == crate::status::FLAG_V || mask == crate::status::FLAG_N,
    ensures
        flag_set(with_flag(st, mask, on), mask) == on,
        forall|other: u8|
            (other == FLAG_C || other == FLAG_Z || other == crate::status::FLAG_I || other
                == crate::status::FLAG_D || other == FLAG_B || other == FLAG_U || other
                == crate::status::FLAG_V || other == crate::status::FLAG_N) && other != mask
                ==> #[trigger] flag_set(with_flag(st, mask, on), other) == flag_set(st, other),
{
}

/// After a reset, the program counter holds the little-endian word at the
/// reset vector, and both of its bytes resolve through the cartridge's
/// mapper: the vector addresses lie in cartridge PRG space, so the bus
/// routes them there. Together with the contract of `Cpu::reset`, a
/// freshly loaded and reset machine starts where the mapped image says.
pub proof fn lemma_reset_vector_resolves_through_mapper(bus: CpuBusV)
    requires
        bus.wf(),
    ensures
        crate::cpu::read16(bus, crate::cpu::RESET_VECTOR) == ((bus.cartridge.prg_read(0xFFFC)
            as u16) | ((bus.cartridge.prg_read(0xFFFD) as u16) << 8)),
{
}

} // verus!
