//! The CPU register file, interrupt entry, and the stack and branch
//! primitives every instruction builds on.

use vstd::prelude::*;

use crate::ExecutionMode;
use crate::bus::{CpuBus, CpuBusV};
use crate::status::{FLAG_B, FLAG_I, FLAG_U, flag_set, with_flag, with_zn};

verus! {

/// Base of the fixed stack page 0x0100-0x01FF.
pub const STACK_BASE: u16 = 0x0100;
/// Little-endian reset vector.
pub const RESET_VECTOR: u16 = 0xFFFC;
/// Little-endian IRQ/BRK vector.
pub const IRQ_VECTOR: u16 = 0xFFFE;
/// Little-endian NMI vector.
pub const NMI_VECTOR: u16 = 0xFFFA;

pub struct Cpu {
    /// Accumulator.
    pub a: u8,
    /// X index register.
    pub x: u8,
    /// Y index register.
    pub y: u8,
    /// Stack pointer into the fixed stack page; pushes decrement it.
    pub st: u8,
    /// Program counter.
    pub pc: u16,
    /// Cycle debt: how many clock calls the current instruction still
    /// consumes.
    pub cycles: u8,
    /// Processor status register.
    pub status_register: u8,
    /// Selects which byte array the repurposed opcode 0x02 reads.
    pub execution_mode: ExecutionMode,
    /// Byte array served by opcode 0x02 in `Ring0` mode; never empty.
    pub secret_ring0: Vec<u8>,
    /// Byte array served by opcode 0x02 in `Ring3` mode; never empty.
    pub secret_ring3: Vec<u8>,
}

/// Mathematical model of [`Cpu`].
pub ghost struct CpuV {
    pub a: u8,
    pub x: u8,
    pub y: u8,
    pub st: u8,
    pub pc: u16,
    pub cycles: u8,
    pub status_register: u8,
    pub execution_mode: ExecutionMode,
    pub secret_ring0: Seq<u8>,
    pub secret_ring3: Seq<u8>,
}

impl View for Cpu {
    type V = CpuV;

    open spec fn view(&self) -> CpuV {
        CpuV {
            a: self.a,
            x: self.x,
            y: self.y,
            st: self.st,
            pc: self.pc,
            cycles: self.cycles,
            status_register: self.status_register,
            execution_mode: self.execution_mode,
            secret_ring0: self.secret_ring0@,
            secret_ring3: self.secret_ring3@,
        }
    }
}

/// The 16-bit little-endian value stored at `addr` and `addr + 1`.
pub open spec fn read16(bus: CpuBusV, addr: u16) -> u16
    recommends
        bus.wf(),
        addr < 0xFFFF,
{
    (bus.read_val(addr) as u16) | ((bus.read_val((addr + 1) as u16) as u16) << 8)
}

/// One stack push: the byte lands at the slot the pointer names, and the
/// pointer wraps downward within the page.
pub open spec fn spec_push(cpu: CpuV, bus: CpuBusV, data: u8) -> (CpuV, CpuBusV)
    recommends
        bus.wf(),
{
    (
        CpuV { st: cpu.st.wrapping_sub(1), ..cpu },
        bus.after_write((0x0100 + cpu.st) as u16, data),
    )
}

/// The byte one stack pop returns: the slot just above the pointer.
pub open spec fn spec_pop_val(cpu: CpuV, bus: CpuBusV) -> u8
    recommends
        bus.wf(),
{
    bus.read_val((0x0100 + cpu.st.wrapping_add(1)) as u16)
}

/// The register file after one stack pop: only the pointer moves.
pub open spec fn spec_pop_st(cpu: CpuV) -> CpuV {
    CpuV { st: cpu.st.wrapping_add(1), ..cpu }
}

/// Interrupt entry: push the return address high byte first, push the
/// status with U set and B as the entry kind demands, raise I, and take
/// the 16-bit vector — all against the bus as the pushes leave it.
pub open spec fn spec_interrupt(cpu: CpuV, bus: CpuBusV, vector: u16, brk_flag: bool) -> (
    CpuV,
    CpuBusV,
)
    recommends
        bus.wf(),
        vector < 0xFFFF,
{
    let pushed_status = with_flag(with_flag(cpu.status_register, FLAG_B, brk_flag), FLAG_U, true);
    let bus1 = bus.after_write((0x0100 + cpu.st) as u16, ((cpu.pc >> 8) & 0xFF) as u8);
    let bus2 = bus1.after_write(
        (0x0100 + cpu.st.wrapping_sub(1)) as u16,
        (cpu.pc & 0xFF) as u8,
    );
    let bus3 = bus2.after_write((0x0100 + cpu.st.wrapping_sub(2)) as u16, pushed_status);
    (
        CpuV {
            st: cpu.st.wrapping_sub(3),
            status_register: with_flag(pushed_status, FLAG_I, true),
            pc: read16(bus3, vector),
            cycles: 7,
            ..cpu
        },
        bus3,
    )
}

impl CpuV {
    /// The secret arrays the repurposed opcode indexes must not be empty.
    pub open spec fn wf(self) -> bool {
        self.secret_ring0.len() > 0 && self.secret_ring3.len() > 0
    }
}

impl Cpu {
    /// Builds a powered-off CPU; `reset` must run before clocking. The
    /// secret arrays start as single zero bytes until the host configures
    /// them.
    pub fn new(execution_mode: ExecutionMode) -> (cpu: Cpu)
        ensures
            cpu@.wf(),
            cpu@.a == 0 && cpu@.x == 0 && cpu@.y == 0 && cpu@.st == 0,
            cpu@.pc == 0 && cpu@.cycles == 0 && cpu@.status_register == 0,
            cpu@.execution_mode == execution_mode,
            cpu@.secret_ring0 == seq![0u8],
            cpu@.secret_ring3 == seq![0u8],
    {
        let cpu = Cpu {
            a: 0,
            x: 0,
            y: 0,
            st: 0,
            pc: 0,
            cycles: 0,
            status_register: 0,
            execution_mode,
            secret_ring0: vec![0u8],
            secret_ring3: vec![0u8],
        };
        proof {
            assert(cpu.secret_ring0@ =~= seq![0u8]);
            assert(cpu.secret_ring3@ =~= seq![0u8]);
        }
        cpu
    }

    /// Configures the two byte arrays the repurposed opcode 0x02 serves.
    pub fn set_secret_data(&mut self, ring0: Vec<u8>, ring3: Vec<u8>)
        requires
            ring0@.len() > 0,
            ring3@.len() > 0,
        ensures
            final(self)@.wf(),
            final(self)@ == (CpuV {
                secret_ring0: ring0@,
                secret_ring3: ring3@,
                ..old(self)@
            }),
    {
        self.secret_ring0 = ring0;
        self.secret_ring3 = ring3;
    }

    /// Reset entry: clears the data registers, parks the stack pointer at
    /// 0xFD, leaves only U set, charges eight cycles, and loads the
    /// program counter from the reset vector.
    pub fn reset(&mut self, bus: &CpuBus)
        requires
            bus@.wf(),
        ensures
            final(self)@ == (CpuV {
                a: 0,
                x: 0,
                y: 0,
                st: 0xFD,
                pc: read16(bus@, RESET_VECTOR),
                cycles: 8,
                status_register: FLAG_U,
                ..old(self)@
            }),
    {
        self.a = 0;
        self.x = 0;
        self.y = 0;
        self.st = 0xFD;
        self.cycles = 8;
        self.status_register = FLAG_U;
        self.pc = (bus.read(RESET_VECTOR) as u16) | ((bus.read(RESET_VECTOR + 1) as u16) << 8);
    }

    /// Maskable interrupt entry: a no-op while I is set, the shared entry
    /// sequence through the IRQ vector otherwise. Interrupts are only
    /// observed between instructions: the cycle debt must be paid off.
    pub fn irq(&mut self, bus: &mut CpuBus)
        requires
            old(bus)@.wf(),
            old(self)@.cycles == 0,
        ensures
            final(bus)@.wf(),
            flag_set(old(self)@.status_register, FLAG_I) ==> final(self)@ == old(self)@
                && final(bus)@ == old(bus)@,
            !flag_set(old(self)@.status_register, FLAG_I) ==> final(self)@ == spec_interrupt(
                old(self)@,
                old(bus)@,
                IRQ_VECTOR,
                false,
            ).0 && final(bus)@ == spec_interrupt(old(self)@, old(bus)@, IRQ_VECTOR, false).1,
    {
        if self.status_register & FLAG_I == 0 {
            self.interrupt_entry(bus, IRQ_VECTOR, false);
        }
    }

    /// Non-maskable interrupt entry: unconditional, through the NMI
    /// vector. Interrupts are only observed between instructions: the
    /// cycle debt must be paid off.
    pub fn nmi(&mut self, bus: &mut CpuBus)
        requires
            old(bus)@.wf(),
            old(self)@.cycles == 0,
        ensures
            final(bus)@.wf(),
            final(self)@ == spec_interrupt(old(self)@, old(bus)@, NMI_VECTOR, false).0,
            final(bus)@ == spec_interrupt(old(self)@, old(bus)@, NMI_VECTOR, false).1,
    {
        self.interrupt_entry(bus, NMI_VECTOR, false);
    }

    /// The entry sequence shared by IRQ and NMI.
    fn interrupt_entry(&mut self, bus: &mut CpuBus, vector: u16, brk_flag: bool)
        requires
            old(bus)@.wf(),
            vector < 0xFFFF,
        ensures
            final(bus)@.wf(),
            final(self)@ == spec_interrupt(old(self)@, old(bus)@, vector, brk_flag).0,
            final(bus)@ == spec_interrupt(old(self)@, old(bus)@, vector, brk_flag).1,
    {
        self.stack_push(bus, ((self.pc >> 8) & 0xFF) as u8);
        self.stack_push(bus, (self.pc & 0xFF) as u8);

        self.status_register = crate::status::status_with_flag(
            self.status_register,
            FLAG_B,
            brk_flag,
        );
        self.status_register = crate::status::status_with_flag(self.status_register, FLAG_U, true);
        self.stack_push(bus, self.status_register);

        self.status_register = crate::status::status_with_flag(self.status_register, FLAG_I, true);

        self.pc = (bus.read(vector) as u16) | ((bus.read(vector + 1) as u16) << 8);
        self.cycles = 7;
    }

    /// Pushes one byte: it lands at the slot the pointer names, and the
    /// pointer wraps downward within the page.
    pub fn stack_push(&mut self, bus: &mut CpuBus, data: u8)
        requires
            old(bus)@.wf(),
        ensures
            final(bus)@.wf(),
            final(self)@ == spec_push(old(self)@, old(bus)@, data).0,
            final(bus)@ == spec_push(old(self)@, old(bus)@, data).1,
    {
        bus.write(STACK_BASE + self.st as u16, data);
        self.st = self.st.wrapping_sub(1);
    }

    /// Pops one byte: the pointer wraps upward and the slot it then names
    /// is read.
    pub fn stack_pop(&mut self, bus: &CpuBus) -> (r: u8)
        requires
            bus@.wf(),
        ensures
            final(self)@ == spec_pop_st(old(self)@),
            r == spec_pop_val(old(self)@, bus@),
    {
        self.st = self.st.wrapping_add(1);
        bus.read(STACK_BASE + self.st as u16)
    }

    /// Takes a branch: one extra cycle, and a second when the target lies
    /// in a different page than the instruction's successor.
    pub fn branch(&mut self, offset: u16)
        requires
            old(self)@.cycles <= 200,
        ensures
            final(self)@ == (CpuV {
                pc: old(self)@.pc.wrapping_add(offset),
                cycles: (old(self)@.cycles + 1 + (if old(self)@.pc.wrapping_add(offset) & 0xFF00
                    != old(self)@.pc & 0xFF00 {
                    1int
                } else {
                    0int
                })) as u8,
                ..old(self)@
            }),
    {
        self.cycles = self.cycles + 1;

        let result = self.pc.wrapping_add(offset);

        // A page change costs the extra cycle.
        if (result & 0xFF00) != (self.pc & 0xFF00) {
            self.cycles = self.cycles + 1;
        }

        self.pc = result;
    }

    /// Sets Z and N from an 8-bit result.
    pub fn update_zn(&mut self, v: u8)
        ensures
            final(self)@ == (CpuV {
                status_register: with_zn(old(self)@.status_register, v),
                ..old(self)@
            }),
    {
        self.status_register = crate::status::status_with_zn(self.status_register, v);
    }
}

} // verus!
