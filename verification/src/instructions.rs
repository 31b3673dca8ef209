//! The instruction semantics: one method per mnemonic, each with an exact
//! contract over the register-file model. Memory-writing forms return the
//! byte to store; the step dispatcher issues the bus write.

use vstd::prelude::*;

use crate::bus::{CpuBus, CpuBusV};
use crate::cpu::{Cpu, CpuV, IRQ_VECTOR, read16, spec_pop_st, spec_pop_val, spec_push};
use crate::status::{FLAG_B, FLAG_C, FLAG_I, FLAG_N, FLAG_U, FLAG_V, FLAG_Z, flag_set, with_flag,
    with_zn};

verus! {

/// The sum an add-with-carry leaves in the accumulator.
pub open spec fn adc_result(a: u8, op: u8, carry_in: bool) -> u8 {
    ((a + op + (if carry_in {
        1int
    } else {
        0int
    })) % 256) as u8
}

/// The status an add-with-carry leaves: C on 9-bit overflow, V by the
/// signed-overflow formula, Z and N from the result.
pub open spec fn adc_status(st: u8, a: u8, op: u8) -> u8 {
    let carry_in = flag_set(st, FLAG_C);
    let r = adc_result(a, op, carry_in);
    let c = a + op + (if carry_in {
        1int
    } else {
        0int
    }) > 255;
    let v = ((a ^ r) & !(a ^ op)) & 0x80 == 0x80;
    with_zn(with_flag(with_flag(st, FLAG_C, c), FLAG_V, v), r)
}

/// The status a compare leaves: C when the register reaches the operand,
/// Z and N from their wrapping difference.
pub open spec fn compare_status(st: u8, reg: u8, op: u8) -> u8 {
    with_zn(with_flag(st, FLAG_C, reg >= op), reg.wrapping_sub(op))
}

/// A rotate-left result: the carry enters at bit 0.
pub open spec fn rol_result(op: u8, carry_in: bool) -> u8 {
    (op << 1) | (if carry_in {
        1u8
    } else {
        0u8
    })
}

/// A rotate-right result: the carry enters at bit 7.
pub open spec fn ror_result(op: u8, carry_in: bool) -> u8 {
    (op >> 1) | (if carry_in {
        0x80u8
    } else {
        0u8
    })
}

/// The status a BIT test leaves: Z from the masked accumulator, V and N
/// copied from bits 6 and 7 of the operand.
pub open spec fn bit_status(st: u8, a: u8, op: u8) -> u8 {
    with_flag(
        with_flag(with_flag(st, FLAG_Z, a & op == 0), FLAG_V, op & 0x40 != 0),
        FLAG_N,
        op & 0x80 != 0,
    )
}

/// A conditional branch: when taken, the offset is added to the program
/// counter for one extra cycle, and a second when the target leaves the
/// successor's page.
pub open spec fn spec_branch_if(cpu: CpuV, offset: u16, taken: bool) -> CpuV
    recommends
        cpu.cycles <= 200,
{
    if taken {
        let target = cpu.pc.wrapping_add(offset);
        CpuV {
            pc: target,
            cycles: (cpu.cycles + 1 + (if target & 0xFF00 != cpu.pc & 0xFF00 {
                1int
            } else {
                0int
            })) as u8,
            ..cpu
        }
    } else {
        cpu
    }
}

/// A push of the accumulator.
pub open spec fn spec_pha(cpu: CpuV, bus: CpuBusV) -> (CpuV, CpuBusV)
    recommends
        bus.wf(),
{
    spec_push(cpu, bus, cpu.a)
}

/// A push of the status register with B and U forced on in the pushed
/// copy; both are cleared in the live register afterwards.
pub open spec fn spec_php(cpu: CpuV, bus: CpuBusV) -> (CpuV, CpuBusV)
    recommends
        bus.wf(),
{
    let pushed = with_flag(with_flag(cpu.status_register, FLAG_B, true), FLAG_U, true);
    let r = spec_push(CpuV { status_register: pushed, ..cpu }, bus, pushed);
    (
        CpuV {
            status_register: with_flag(with_flag(pushed, FLAG_B, false), FLAG_U, false),
            ..r.0
        },
        r.1,
    )
}

/// A pop into the accumulator, setting Z and N from it.
pub open spec fn spec_pla(cpu: CpuV, bus: CpuBusV) -> CpuV
    recommends
        bus.wf(),
{
    let v = spec_pop_val(cpu, bus);
    let c = spec_pop_st(cpu);
    CpuV { a: v, status_register: with_zn(c.status_register, v), ..c }
}

/// A pop into the status register, with B and U forced clear.
pub open spec fn spec_plp(cpu: CpuV, bus: CpuBusV) -> CpuV
    recommends
        bus.wf(),
{
    let v = spec_pop_val(cpu, bus);
    let c = spec_pop_st(cpu);
    CpuV { status_register: with_flag(with_flag(v, FLAG_B, false), FLAG_U, false), ..c }
}

/// Interrupt return: pop the status (B and U cleared), then the program
/// counter low byte first.
pub open spec fn spec_rti(cpu: CpuV, bus: CpuBusV) -> CpuV
    recommends
        bus.wf(),
{
    let s = spec_pop_val(cpu, bus);
    let c1 = spec_pop_st(cpu);
    let lo = spec_pop_val(c1, bus);
    let c2 = spec_pop_st(c1);
    let hi = spec_pop_val(c2, bus);
    let c3 = spec_pop_st(c2);
    CpuV {
        status_register: with_flag(with_flag(s, FLAG_B, false), FLAG_U, false),
        pc: (lo as u16) | ((hi as u16) << 8),
        ..c3
    }
}

/// Subroutine return: pop the program counter low byte first, then step
/// past the address the call left behind.
pub open spec fn spec_rts(cpu: CpuV, bus: CpuBusV) -> CpuV
    recommends
        bus.wf(),
{
    let lo = spec_pop_val(cpu, bus);
    let c1 = spec_pop_st(cpu);
    let hi = spec_pop_val(c1, bus);
    let c2 = spec_pop_st(c1);
    CpuV { pc: ((lo as u16) | ((hi as u16) << 8)).wrapping_add(1), ..c2 }
}

/// Subroutine call: push the address of the call's last byte, high byte
/// first, then jump.
pub open spec fn spec_jsr(cpu: CpuV, bus: CpuBusV, address: u16) -> (CpuV, CpuBusV)
    recommends
        bus.wf(),
{
    let ret = cpu.pc.wrapping_sub(1);
    let r1 = spec_push(cpu, bus, (ret >> 8) as u8);
    let r2 = spec_push(r1.0, r1.1, (ret & 0x00FF) as u8);
    (CpuV { pc: address, ..r2.0 }, r2.1)
}

/// Software interrupt: skip the padding byte, push the return address and
/// the status with B and U set, raise I, and take the IRQ vector. The
/// cycle debt is left to the dispatch table.
pub open spec fn spec_brk(cpu: CpuV, bus: CpuBusV) -> (CpuV, CpuBusV)
    recommends
        bus.wf(),
{
    let ret = cpu.pc.wrapping_add(1);
    let pushed = with_flag(with_flag(cpu.status_register, FLAG_B, true), FLAG_U, true);
    let bus1 = bus.after_write((0x0100 + cpu.st) as u16, ((ret >> 8) & 0xFF) as u8);
    let bus2 = bus1.after_write((0x0100 + cpu.st.wrapping_sub(1)) as u16, (ret & 0xFF) as u8);
    let bus3 = bus2.after_write((0x0100 + cpu.st.wrapping_sub(2)) as u16, pushed);
    (
        CpuV {
            st: cpu.st.wrapping_sub(3),
            status_register: with_flag(pushed, FLAG_I, true),
            pc: read16(bus3, IRQ_VECTOR),
            ..cpu
        },
        bus3,
    )
}

impl Cpu {
    /// ADC: adds the operand and the carry into the accumulator.
    pub fn inst_adc(&mut self, op: u8)
        ensures
            final(self)@ == (CpuV {
                a: adc_result(old(self)@.a, op, flag_set(old(self)@.status_register, FLAG_C)),
                status_register: adc_status(old(self)@.status_register, old(self)@.a, op),
                ..old(self)@
            }),
    {
        let a = self.a;
        let carry = self.status_register & FLAG_C != 0;

        let mut result: u16 = a as u16 + op as u16;
        if carry {
            result = result + 1;
        }

        let c = result > 0xFF;
        self.status_register = crate::status::status_with_flag(self.status_register, FLAG_C, c);

        let r = (result % 256) as u8;

        let v = ((a ^ r) & !(a ^ op)) & 0x80 == 0x80;
        self.status_register = crate::status::status_with_flag(self.status_register, FLAG_V, v);

        self.a = r;
        self.update_zn(r);
    }

    /// SBC: defined as ADC of the operand's complement.
    pub fn inst_sbc(&mut self, op: u8)
        ensures
            final(self)@ == (CpuV {
                a: adc_result(
                    old(self)@.a,
                    op ^ 0xFF,
                    flag_set(old(self)@.status_register, FLAG_C),
                ),
                status_register: adc_status(old(self)@.status_register, old(self)@.a, op ^ 0xFF),
                ..old(self)@
            }),
    {
        let op = op ^ 0xFF;
        self.inst_adc(op);
    }

    /// AND: masks the accumulator.
    pub fn inst_and(&mut self, op: u8)
        ensures
            final(self)@ == (CpuV {
                a: old(self)@.a & op,
                status_register: with_zn(old(self)@.status_register, old(self)@.a & op),
                ..old(self)@
            }),
    {
        self.a = self.a & op;
        self.update_zn(self.a);
    }

    /// ORA: ors the accumulator.
    pub fn inst_ora(&mut self, op: u8)
        ensures
            final(self)@ == (CpuV {
                a: old(self)@.a | op,
                status_register: with_zn(old(self)@.status_register, old(self)@.a | op),
                ..old(self)@
            }),
    {
        self.a = self.a | op;
        self.update_zn(self.a);
    }

    /// EOR: exclusive-ors the accumulator.
    pub fn inst_eor(&mut self, op: u8)
        ensures
            final(self)@ == (CpuV {
                a: old(self)@.a ^ op,
                status_register: with_zn(old(self)@.status_register, old(self)@.a ^ op),
                ..old(self)@
            }),
    {
        self.a = self.a ^ op;
        self.update_zn(self.a);
    }

    /// ASL: shifts left; the old bit 7 becomes the carry, Z and N follow
    /// the result.
    pub fn inst_asl(&mut self, op: u8) -> (r: u8)
        ensures
            r == op << 1,
            final(self)@ == (CpuV {
                status_register: with_zn(
                    with_flag(old(self)@.status_register, FLAG_C, op & 0x80 == 0x80),
                    op << 1,
                ),
                ..old(self)@
            }),
    {
        self.status_register = crate::status::status_with_flag(
            self.status_register,
            FLAG_C,
            op & 0x80 == 0x80,
        );
        let result = op << 1;
        self.update_zn(result);
        result
    }

    /// LSR: shifts right; the old bit 0 becomes the carry.
    pub fn inst_lsr(&mut self, op: u8) -> (r: u8)
        ensures
            r == op >> 1,
            final(self)@ == (CpuV {
                status_register: with_zn(
                    with_flag(old(self)@.status_register, FLAG_C, op & 0x01 != 0),
                    op >> 1,
                ),
                ..old(self)@
            }),
    {
        self.status_register = crate::status::status_with_flag(
            self.status_register,
            FLAG_C,
            op & 0x01 != 0,
        );
        let result = op >> 1;
        self.update_zn(result);
        result
    }

    /// ROL: rotates left through the carry.
    pub fn inst_rol(&mut self, op: u8) -> (r: u8)
        ensures
            r == rol_result(op, flag_set(old(self)@.status_register, FLAG_C)),
            final(self)@ == (CpuV {
                status_register: with_zn(
                    with_flag(old(self)@.status_register, FLAG_C, op & 0x80 != 0),
                    rol_result(op, flag_set(old(self)@.status_register, FLAG_C)),
                ),
                ..old(self)@
            }),
    {
        let carry = self.status_register & FLAG_C != 0;

        self.status_register = crate::status::status_with_flag(
            self.status_register,
            FLAG_C,
            op & 0x80 != 0,
        );

        let result = (op << 1) | (if carry {
            1u8
        } else {
            0u8
        });

        self.update_zn(result);
        result
    }

    /// ROR: rotates right through the carry.
    pub fn inst_ror(&mut self, op: u8) -> (r: u8)
        ensures
            r == ror_result(op, flag_set(old(self)@.status_register, FLAG_C)),
            final(self)@ == (CpuV {
                status_register: with_zn(
                    with_flag(old(self)@.status_register, FLAG_C, op & 0x01 != 0),
                    ror_result(op, flag_set(old(self)@.status_register, FLAG_C)),
                ),
                ..old(self)@
            }),
    {
        let carry = self.status_register & FLAG_C != 0;

        self.status_register = crate::status::status_with_flag(
            self.status_register,
            FLAG_C,
            op & 0x01 != 0,
        );

        let result = (op >> 1) | (if carry {
            0x80u8
        } else {
            0u8
        });

        self.update_zn(result);
        result
    }

    /// CMP: compares the accumulator with the operand.
    pub fn inst_cmp(&mut self, op: u8)
        ensures
            final(self)@ == (CpuV {
                status_register: compare_status(old(self)@.status_register, old(self)@.a, op),
                ..old(self)@
            }),
    {
        let c = self.a >= op;
        self.status_register = crate::status::status_with_flag(self.status_register, FLAG_C, c);
        self.update_zn(self.a.wrapping_sub(op));
    }

    /// CPX: compares the X register with the operand.
    pub fn inst_cpx(&mut self, op: u8)
        ensures
            final(self)@ == (CpuV {
                status_register: compare_status(old(self)@.status_register, old(self)@.x, op),
                ..old(self)@
            }),
    {
        let c = self.x >= op;
        self.status_register = crate::status::status_with_flag(self.status_register, FLAG_C, c);
        self.update_zn(self.x.wrapping_sub(op));
    }

    /// CPY: compares the Y register with the operand.
    pub fn inst_cpy(&mut self, op: u8)
        ensures
            final(self)@ == (CpuV {
                status_register: compare_status(old(self)@.status_register, old(self)@.y, op),
                ..old(self)@
            }),
    {
        let c = self.y >= op;
        self.status_register = crate::status::status_with_flag(self.status_register, FLAG_C, c);
        self.update_zn(self.y.wrapping_sub(op));
    }

    /// BIT: tests the accumulator against memory without changing it.
    pub fn inst_bit(&mut self, op: u8)
        ensures
            final(self)@ == (CpuV {
                status_register: bit_status(old(self)@.status_register, old(self)@.a, op),
                ..old(self)@
            }),
    {
        let masked = self.a & op;
        self.status_register = crate::status::status_with_flag(
            self.status_register,
            FLAG_Z,
            masked == 0,
        );
        self.status_register = crate::status::status_with_flag(
            self.status_register,
            FLAG_V,
            op & 0x40 != 0,
        );
        self.status_register = crate::status::status_with_flag(
            self.status_register,
            FLAG_N,
            op & 0x80 != 0,
        );
    }

    /// DEC: decrements a memory byte; the caller stores the result.
    pub fn inst_dec(&mut self, op: u8) -> (r: u8)
        ensures
            r == op.wrapping_sub(1),
            final(self)@ == (CpuV {
                status_register: with_zn(old(self)@.status_register, op.wrapping_sub(1)),
                ..old(self)@
            }),
    {
        let result = op.wrapping_sub(1);
        self.update_zn(result);
        result
    }

    /// INC: increments a memory byte; the caller stores the result.
    pub fn inst_inc(&mut self, op: u8) -> (r: u8)
        ensures
            r == op.wrapping_add(1),
            final(self)@ == (CpuV {
                status_register: with_zn(old(self)@.status_register, op.wrapping_add(1)),
                ..old(self)@
            }),
    {
        let result = op.wrapping_add(1);
        self.update_zn(result);
        result
    }

    /// DEX: decrements X.
    pub fn inst_dex(&mut self)
        ensures
            final(self)@ == (CpuV {
                x: old(self)@.x.wrapping_sub(1),
                status_register: with_zn(old(self)@.status_register, old(self)@.x.wrapping_sub(1)),
                ..old(self)@
            }),
    {
        self.x = self.x.wrapping_sub(1);
        self.update_zn(self.x);
    }

    /// DEY: decrements Y.
    pub fn inst_dey(&mut self)
        ensures
            final(self)@ == (CpuV {
                y: old(self)@.y.wrapping_sub(1),
                status_register: with_zn(old(self)@.status_register, old(self)@.y.wrapping_sub(1)),
                ..old(self)@
            }),
    {
        self.y = self.y.wrapping_sub(1);
        self.update_zn(self.y);
    }

    /// INX: increments X.
    pub fn inst_inx(&mut self)
        ensures
            final(self)@ == (CpuV {
                x: old(self)@.x.wrapping_add(1),
                status_register: with_zn(old(self)@.status_register, old(self)@.x.wrapping_add(1)),
                ..old(self)@
            }),
    {
        self.x = self.x.wrapping_add(1);
        self.update_zn(self.x);
    }

    /// INY: increments Y.
    pub fn inst_iny(&mut self)
        ensures
            final(self)@ == (CpuV {
                y: old(self)@.y.wrapping_add(1),
                status_register: with_zn(old(self)@.status_register, old(self)@.y.wrapping_add(1)),
                ..old(self)@
            }),
    {
        self.y = self.y.wrapping_add(1);
        self.update_zn(self.y);
    }

    /// LDA: loads the accumulator.
    pub fn inst_lda(&mut self, op: u8)
        ensures
            final(self)@ == (CpuV {
                a: op,
                status_register: with_zn(old(self)@.status_register, op),
                ..old(self)@
            }),
    {
        self.a = op;
        self.update_zn(op);
    }

    /// LDX: loads X.
    pub fn inst_ldx(&mut self, op: u8)
        ensures
            final(self)@ == (CpuV {
                x: op,
                status_register: with_zn(old(self)@.status_register, op),
                ..old(self)@
            }),
    {
        self.x = op;
        self.update_zn(op);
    }

    /// LDY: loads Y.
    pub fn inst_ldy(&mut self, op: u8)
        ensures
            final(self)@ == (CpuV {
                y: op,
                status_register: with_zn(old(self)@.status_register, op),
                ..old(self)@
            }),
    {
        self.y = op;
        self.update_zn(op);
    }

    /// STA: stores the accumulator; no flag effects.
    pub fn inst_sta(&mut self, bus: &mut CpuBus, address: u16)
        requires
            old(bus)@.wf(),
        ensures
            final(bus)@.wf(),
            final(self)@ == old(self)@,
            final(bus)@ == old(bus)@.after_write(address, old(self)@.a),
    {
        bus.write(address, self.a);
    }

    /// STX: stores X; no flag effects.
    pub fn inst_stx(&mut self, bus: &mut CpuBus, address: u16)
        requires
            old(bus)@.wf(),
        ensures
            final(bus)@.wf(),
            final(self)@ == old(self)@,
            final(bus)@ == old(bus)@.after_write(address, old(self)@.x),
    {
        bus.write(address, self.x);
    }

    /// STY: stores Y; no flag effects.
    pub fn inst_sty(&mut self, bus: &mut CpuBus, address: u16)
        requires
            old(bus)@.wf(),
        ensures
            final(bus)@.wf(),
            final(self)@ == old(self)@,
            final(bus)@ == old(bus)@.after_write(address, old(self)@.y),
    {
        bus.write(address, self.y);
    }

    /// TAX: copies the accumulator into X.
    pub fn inst_tax(&mut self)
        ensures
            final(self)@ == (CpuV {
                x: old(self)@.a,
                status_register: with_zn(old(self)@.status_register, old(self)@.a),
                ..old(self)@
            }),
    {
        self.x = self.a;
        self.update_zn(self.x);
    }

    /// TAY: copies the accumulator into Y.
    pub fn inst_tay(&mut self)
        ensures
            final(self)@ == (CpuV {
                y: old(self)@.a,
                status_register: with_zn(old(self)@.status_register, old(self)@.a),
                ..old(self)@
            }),
    {
        self.y = self.a;
        self.update_zn(self.y);
    }

    /// TSX: copies the stack pointer into X.
    pub fn inst_tsx(&mut self)
        ensures
            final(self)@ == (CpuV {
                x: old(self)@.st,
                status_register: with_zn(old(self)@.status_register, old(self)@.st),
                ..old(self)@
            }),
    {
        self.x = self.st;
        self.update_zn(self.x);
    }

    /// TXA: copies X into the accumulator.
    pub fn inst_txa(&mut self)
        ensures
            final(self)@ == (CpuV {
                a: old(self)@.x,
                status_register: with_zn(old(self)@.status_register, old(self)@.x),
                ..old(self)@
            }),
    {
        self.a = self.x;
        self.update_zn(self.a);
    }

    /// TYA: copies Y into the accumulator.
    pub fn inst_tya(&mut self)
        ensures
            final(self)@ == (CpuV {
                a: old(self)@.y,
                status_register: with_zn(old(self)@.status_register, old(self)@.y),
                ..old(self)@
            }),
    {
        self.a = self.y;
        self.update_zn(self.a);
    }

    /// TXS: copies X into the stack pointer; no flag effects.
    pub fn inst_txs(&mut self)
        ensures
            final(self)@ == (CpuV { st: old(self)@.x, ..old(self)@ }),
    {
        self.st = self.x;
    }

    /// PHA: pushes the accumulator.
    pub fn inst_pha(&mut self, bus: &mut CpuBus)
        requires
            old(bus)@.wf(),
        ensures
            final(bus)@.wf(),
            final(self)@ == spec_pha(old(self)@, old(bus)@).0,
            final(bus)@ == spec_pha(old(self)@, old(bus)@).1,
    {
        let a = self.a;
        self.stack_push(bus, a);
    }

    /// PHP: pushes the status with B and U set, then clears both.
    pub fn inst_php(&mut self, bus: &mut CpuBus)
        requires
            old(bus)@.wf(),
        ensures
            final(bus)@.wf(),
            final(self)@ == spec_php(old(self)@, old(bus)@).0,
            final(bus)@ == spec_php(old(self)@, old(bus)@).1,
    {
        self.status_register = crate::status::status_with_flag(self.status_register, FLAG_B, true);
        self.status_register = crate::status::status_with_flag(self.status_register, FLAG_U, true);

        let bits = self.status_register;
        self.stack_push(bus, bits);

        self.status_register = crate::status::status_with_flag(
            self.status_register,
            FLAG_B,
            false,
        );
        self.status_register = crate::status::status_with_flag(
            self.status_register,
            FLAG_U,
            false,
        );
    }

    /// PLA: pops the accumulator and sets Z and N from it.
    pub fn inst_pla(&mut self, bus: &CpuBus)
        requires
            bus@.wf(),
        ensures
            final(self)@ == spec_pla(old(self)@, bus@),
    {
        let v = self.stack_pop(bus);
        self.a = v;
        self.update_zn(v);
    }

    /// PLP: pops the status, forcing B and U clear.
    pub fn inst_plp(&mut self, bus: &CpuBus)
        requires
            bus@.wf(),
        ensures
            final(self)@ == spec_plp(old(self)@, bus@),
    {
        let v = self.stack_pop(bus);
        self.status_register = crate::status::status_with_flag(v, FLAG_B, false);
        self.status_register = crate::status::status_with_flag(
            self.status_register,
            FLAG_U,
            false,
        );
    }

    /// JMP: loads the program counter.
    pub fn inst_jmp(&mut self, address: u16)
        ensures
            final(self)@ == (CpuV { pc: address, ..old(self)@ }),
    {
        self.pc = address;
    }

    /// JSR: pushes the address of the call's last byte, high byte first,
    /// then jumps.
    pub fn inst_jsr(&mut self, bus: &mut CpuBus, address: u16)
        requires
            old(bus)@.wf(),
        ensures
            final(bus)@.wf(),
            final(self)@ == spec_jsr(old(self)@, old(bus)@, address).0,
            final(bus)@ == spec_jsr(old(self)@, old(bus)@, address).1,
    {
        let ret = self.pc.wrapping_sub(1);

        self.stack_push(bus, (ret >> 8) as u8);
        self.stack_push(bus, (ret & 0x00FF) as u8);

        self.pc = address;
    }

    /// RTS: pops the return address and steps past it.
    pub fn inst_rts(&mut self, bus: &CpuBus)
        requires
            bus@.wf(),
        ensures
            final(self)@ == spec_rts(old(self)@, bus@),
    {
        let lo = self.stack_pop(bus);
        let hi = self.stack_pop(bus);
        self.pc = ((lo as u16) | ((hi as u16) << 8)).wrapping_add(1);
    }

    /// RTI: pops the status (B and U cleared) and the return address,
    /// without the RTS increment.
    pub fn inst_rti(&mut self, bus: &CpuBus)
        requires
            bus@.wf(),
        ensures
            final(self)@ == spec_rti(old(self)@, bus@),
    {
        let s = self.stack_pop(bus);
        self.status_register = crate::status::status_with_flag(s, FLAG_B, false);
        self.status_register = crate::status::status_with_flag(
            self.status_register,
            FLAG_U,
            false,
        );

        let lo = self.stack_pop(bus);
        let hi = self.stack_pop(bus);
        self.pc = (lo as u16) | ((hi as u16) << 8);
    }

    /// BRK: software interrupt through the IRQ vector.
    pub fn inst_brk(&mut self, bus: &mut CpuBus)
        requires
            old(bus)@.wf(),
        ensures
            final(bus)@.wf(),
            final(self)@ == spec_brk(old(self)@, old(bus)@).0,
            final(bus)@ == spec_brk(old(self)@, old(bus)@).1,
    {
        // The byte after the opcode is padding; return past it.
        self.pc = self.pc.wrapping_add(1);

        self.stack_push(bus, ((self.pc >> 8) & 0xFF) as u8);
        self.stack_push(bus, (self.pc & 0xFF) as u8);

        self.status_register = crate::status::status_with_flag(self.status_register, FLAG_B, true);
        self.status_register = crate::status::status_with_flag(self.status_register, FLAG_U, true);
        let bits = self.status_register;
        self.stack_push(bus, bits);

        self.status_register = crate::status::status_with_flag(self.status_register, FLAG_I, true);

        self.pc = (bus.read(IRQ_VECTOR) as u16) | ((bus.read(IRQ_VECTOR + 1) as u16) << 8);
    }

    /// BCC: branches when the carry is clear.
    pub fn inst_bcc(&mut self, offset: u16)
        requires
            old(self)@.cycles <= 200,
        ensures
            final(self)@ == spec_branch_if(
                old(self)@,
                offset,
                !flag_set(old(self)@.status_register, FLAG_C),
            ),
    {
        if self.status_register & FLAG_C == 0 {
            self.branch(offset);
        }
    }

    /// BCS: branches when the carry is set.
    pub fn inst_bcs(&mut self, offset: u16)
        requires
            old(self)@.cycles <= 200,
        ensures
            final(self)@ == spec_branch_if(
                old(self)@,
                offset,
                flag_set(old(self)@.status_register, FLAG_C),
            ),
    {
        if self.status_register & FLAG_C != 0 {
            self.branch(offset);
        }
    }

    /// BEQ: branches when the zero flag is set.
    pub fn inst_beq(&mut self, offset: u16)
        requires
            old(self)@.cycles <= 200,
        ensures
            final(self)@ == spec_branch_if(
                old(self)@,
                offset,
                flag_set(old(self)@.status_register, FLAG_Z),
            ),
    {
        if self.status_register & FLAG_Z != 0 {
            self.branch(offset);
        }
    }

    /// BNE: branches when the zero flag is clear.
    pub fn inst_bne(&mut self, offset: u16)
        requires
            old(self)@.cycles <= 200,
        ensures
            final(self)@ == spec_branch_if(
                old(self)@,
                offset,
                !flag_set(old(self)@.status_register, FLAG_Z),
            ),
    {
        if self.status_register & FLAG_Z == 0 {
            self.branch(offset);
        }
    }

    /// BMI: branches when the negative flag is set.
    pub fn inst_bmi(&mut self, offset: u16)
        requires
            old(self)@.cycles <= 200,
        ensures
            final(self)@ == spec_branch_if(
                old(self)@,
                offset,
                flag_set(old(self)@.status_register, FLAG_N),
            ),
    {
        if self.status_register & FLAG_N != 0 {
            self.branch(offset);
        }
    }

    /// BPL: branches when the negative flag is clear.
    pub fn inst_bpl(&mut self, offset: u16)
        requires
            old(self)@.cycles <= 200,
        ensures
            final(self)@ == spec_branch_if(
                old(self)@,
                offset,
                !flag_set(old(self)@.status_register, FLAG_N),
            ),
    {
        if self.status_register & FLAG_N == 0 {
            self.branch(offset);
        }
    }

    /// BVC: branches when the overflow flag is clear.
    pub fn inst_bvc(&mut self, offset: u16)
        requires
            old(self)@.cycles <= 200,
        ensures
            final(self)@ == spec_branch_if(
                old(self)@,
                offset,
                !flag_set(old(self)@.status_register, FLAG_V),
            ),
    {
        if self.status_register & FLAG_V == 0 {
            self.branch(offset);
        }
    }

    /// BVS: branches when the overflow flag is set.
    pub fn inst_bvs(&mut self, offset: u16)
        requires
            old(self)@.cycles <= 200,
        ensures
            final(self)@ == spec_branch_if(
                old(self)@,
                offset,
                flag_set(old(self)@.status_register, FLAG_V),
            ),
    {
        if self.status_register & FLAG_V != 0 {
            self.branch(offset);
        }
    }

    /// CLC: clears the carry.
    pub fn inst_clc(&mut self)
        ensures
            final(self)@ == (CpuV {
                status_register: with_flag(old(self)@.status_register, FLAG_C, false),
                ..old(self)@
            }),
    {
        self.status_register = crate::status::status_with_flag(
            self.status_register,
            FLAG_C,
            false,
        );
    }

    /// CLD: clears the decimal flag (tracked, without arithmetic effect).
    pub fn inst_cld(&mut self)
        ensures
            final(self)@ == (CpuV {
                status_register: with_flag(
                    old(self)@.status_register,
                    crate::status::FLAG_D,
                    false,
                ),
                ..old(self)@
            }),
    {
        self.status_register = crate::status::status_with_flag(
            self.status_register,
            crate::status::FLAG_D,
            false,
        );
    }

    /// CLI: clears the interrupt-disable flag.
    pub fn inst_cli(&mut self)
        ensures
            final(self)@ == (CpuV {
                status_register: with_flag(old(self)@.status_register, FLAG_I, false),
                ..old(self)@
            }),
    {
        self.status_register = crate::status::status_with_flag(
            self.status_register,
            FLAG_I,
            false,
        );
    }

    /// CLV: clears the overflow flag.
    pub fn inst_clv(&mut self)
        ensures
            final(self)@ == (CpuV {
                status_register: with_flag(old(self)@.status_register, FLAG_V, false),
                ..old(self)@
            }),
    {
        self.status_register = crate::status::status_with_flag(
            self.status_register,
            FLAG_V,
            false,
        );
    }

    /// SEC: sets the carry.
    pub fn inst_sec(&mut self)
        ensures
            final(self)@ == (CpuV {
                status_register: with_flag(old(self)@.status_register, FLAG_C, true),
                ..old(self)@
            }),
    {
        self.status_register = crate::status::status_with_flag(self.status_register, FLAG_C, true);
    }

    /// SED: sets the decimal flag (tracked, without arithmetic effect).
    pub fn inst_sed(&mut self)
        ensures
            final(self)@ == (CpuV {
                status_register: with_flag(
                    old(self)@.status_register,
                    crate::status::FLAG_D,
                    true,
                ),
                ..old(self)@
            }),
    {
        self.status_register = crate::status::status_with_flag(
            self.status_register,
            crate::status::FLAG_D,
            true,
        );
    }

    /// SEI: sets the interrupt-disable flag.
    pub fn inst_sei(&mut self)
        ensures
            final(self)@ == (CpuV {
                status_register: with_flag(old(self)@.status_register, FLAG_I, true),
                ..old(self)@
            }),
    {
        self.status_register = crate::status::status_with_flag(self.status_register, FLAG_I, true);
    }
}

} // verus!
