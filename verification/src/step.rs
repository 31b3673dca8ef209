//! The clocked instruction step: fetch, decode, dispatch, and cycle
//! accounting. The spec-level interpreter [`spec_clock`] states the whole
//! step exactly; `Cpu::clock` is proved to implement it.

use vstd::prelude::*;

use crate::ExecutionMode;
use crate::addressing::{am_abs_spec, am_abx_spec, am_aby_spec, am_imm_spec, am_ind_spec,
    am_izx_spec, am_izy_spec, am_rel_spec, am_zp_spec, am_zpx_spec, am_zpy_spec};
use crate::bus::{CpuBus, CpuBusV};
use crate::cpu::{Cpu, CpuV};
use crate::instructions::{adc_result, adc_status, bit_status, compare_status, rol_result,
    ror_result, spec_branch_if, spec_brk, spec_jsr, spec_pha, spec_php, spec_pla, spec_plp,
    spec_rti, spec_rts};
use crate::opcode::{Opcode, base_cycles, lemma_base_cycles_at_least_two, opcode_of_byte};
use crate::status::{FLAG_C, FLAG_D, FLAG_I, FLAG_N, FLAG_V, FLAG_Z, flag_set, with_flag, with_zn};

verus! {

/// The semantics of one instruction, already fetched: how the register
/// file and the bus move under the given opcode, penalties included but
/// the base cycle count not yet charged.
pub open spec fn spec_exec(cpu: CpuV, bus: CpuBusV, opcode: Opcode) -> (CpuV, CpuBusV)
    recommends
        cpu.wf(),
        bus.wf(),
{
    match opcode {
        Opcode::Brk => {
            spec_brk(cpu, bus)
        },
        Opcode::OraIndX => {
            let am = am_izx_spec(cpu, bus);
            let op = bus.read_val(am.1);
            (CpuV { a: am.0.a | op, status_register: with_zn(am.0.status_register, am.0.a | op), ..am.0 }, bus)
        },
        Opcode::FlagAcc => {
            match cpu.execution_mode {
                ExecutionMode::Ring0 => (
                    CpuV {
                        a: cpu.secret_ring0[cpu.a as int % cpu.secret_ring0.len() as int],
                        ..cpu
                    },
                    bus,
                ),
                ExecutionMode::Ring3 => (
                    CpuV {
                        a: cpu.secret_ring3[cpu.a as int % cpu.secret_ring3.len() as int],
                        ..cpu
                    },
                    bus,
                ),
            }
        },
        Opcode::OraZp => {
            let am = am_zp_spec(cpu, bus);
            let op = bus.read_val(am.1);
            (CpuV { a: am.0.a | op, status_register: with_zn(am.0.status_register, am.0.a | op), ..am.0 }, bus)
        },
        Opcode::AslZp => {
            let am = am_zp_spec(cpu, bus);
            let op = bus.read_val(am.1);
            (
                CpuV { status_register: with_zn(with_flag(am.0.status_register, FLAG_C, op & 0x80 == 0x80), (op) << 1), ..am.0 },
                bus.after_write(am.1, (op) << 1),
            )
        },
        Opcode::Php => {
            spec_php(cpu, bus)
        },
        Opcode::OraImm => {
            let am = am_imm_spec(cpu, bus);
            (CpuV { a: am.0.a | am.1, status_register: with_zn(am.0.status_register, am.0.a | am.1), ..am.0 }, bus)
        },
        Opcode::AslAcc => {
            let op = cpu.a;
            (
                CpuV { a: (op) << 1, status_register: with_zn(with_flag(cpu.status_register, FLAG_C, op & 0x80 == 0x80), (op) << 1), ..cpu },
                bus,
            )
        },
        Opcode::OraAbs => {
            let am = am_abs_spec(cpu, bus);
            let op = bus.read_val(am.1);
            (CpuV { a: am.0.a | op, status_register: with_zn(am.0.status_register, am.0.a | op), ..am.0 }, bus)
        },
        Opcode::AslAbs => {
            let am = am_abs_spec(cpu, bus);
            let op = bus.read_val(am.1);
            (
                CpuV { status_register: with_zn(with_flag(am.0.status_register, FLAG_C, op & 0x80 == 0x80), (op) << 1), ..am.0 },
                bus.after_write(am.1, (op) << 1),
            )
        },
        Opcode::Bpl => {
            let am = am_rel_spec(cpu, bus);
            (spec_branch_if(am.0, am.1, !flag_set(am.0.status_register, FLAG_N)), bus)
        },
        Opcode::OraIndY => {
            let am = am_izy_spec(cpu, bus);
            let charged = if am.2 {
                CpuV { cycles: (am.0.cycles + 1) as u8, ..am.0 }
            } else {
                am.0
            };
            let op = bus.read_val(am.1);
            (CpuV { a: charged.a | op, status_register: with_zn(charged.status_register, charged.a | op), ..charged }, bus)
        },
        Opcode::OraZpX => {
            let am = am_zpx_spec(cpu, bus);
            let op = bus.read_val(am.1);
            (CpuV { a: am.0.a | op, status_register: with_zn(am.0.status_register, am.0.a | op), ..am.0 }, bus)
        },
        Opcode::AslZpX => {
            let am = am_zpx_spec(cpu, bus);
            let op = bus.read_val(am.1);
            (
                CpuV { status_register: with_zn(with_flag(am.0.status_register, FLAG_C, op & 0x80 == 0x80), (op) << 1), ..am.0 },
                bus.after_write(am.1, (op) << 1),
            )
        },
        Opcode::Clc => {
            (CpuV { status_register: with_flag(cpu.status_register, FLAG_C, false), ..cpu }, bus)
        },
        Opcode::OraAbsY => {
            let am = am_aby_spec(cpu, bus);
            let charged = if am.2 {
                CpuV { cycles: (am.0.cycles + 1) as u8, ..am.0 }
            } else {
                am.0
            };
            let op = bus.read_val(am.1);
            (CpuV { a: charged.a | op, status_register: with_zn(charged.status_register, charged.a | op), ..charged }, bus)
        },
        Opcode::OraAbsX => {
            let am = am_abx_spec(cpu, bus);
            let charged = if am.2 {
                CpuV { cycles: (am.0.cycles + 1) as u8, ..am.0 }
            } else {
                am.0
            };
            let op = bus.read_val(am.1);
            (CpuV { a: charged.a | op, status_register: with_zn(charged.status_register, charged.a | op), ..charged }, bus)
        },
        Opcode::AslAbsX => {
            let am = am_abx_spec(cpu, bus);
            let op = bus.read_val(am.1);
            (
                CpuV { status_register: with_zn(with_flag(am.0.status_register, FLAG_C, op & 0x80 == 0x80), (op) << 1), ..am.0 },
                bus.after_write(am.1, (op) << 1),
            )
        },
        Opcode::JsrAbs => {
            let am = am_abs_spec(cpu, bus);
            spec_jsr(am.0, bus, am.1)
        },
        Opcode::AndIndX => {
            let am = am_izx_spec(cpu, bus);
            let op = bus.read_val(am.1);
            (CpuV { a: am.0.a & op, status_register: with_zn(am.0.status_register, am.0.a & op), ..am.0 }, bus)
        },
        Opcode::BitZp => {
            let am = am_zp_spec(cpu, bus);
            let op = bus.read_val(am.1);
            (CpuV { status_register: bit_status(am.0.status_register, am.0.a, op), ..am.0 }, bus)
        },
        Opcode::AndZp => {
            let am = am_zp_spec(cpu, bus);
            let op = bus.read_val(am.1);
            (CpuV { a: am.0.a & op, status_register: with_zn(am.0.status_register, am.0.a & op), ..am.0 }, bus)
        },
        Opcode::RolZp => {
            let am = am_zp_spec(cpu, bus);
            let op = bus.read_val(am.1);
            (
                CpuV { status_register: with_zn(with_flag(am.0.status_register, FLAG_C, op & 0x80 != 0), rol_result(op, flag_set(am.0.status_register, FLAG_C))), ..am.0 },
                bus.after_write(am.1, rol_result(op, flag_set(am.0.status_register, FLAG_C))),
            )
        },
        Opcode::Plp => {
            (spec_plp(cpu, bus), bus)
        },
        Opcode::AndImm => {
            let am = am_imm_spec(cpu, bus);
            (CpuV { a: am.0.a & am.1, status_register: with_zn(am.0.status_register, am.0.a & am.1), ..am.0 }, bus)
        },
        Opcode::RolAcc => {
            let op = cpu.a;
            (
                CpuV { a: rol_result(op, flag_set(cpu.status_register, FLAG_C)), status_register: with_zn(with_flag(cpu.status_register, FLAG_C, op & 0x80 != 0), rol_result(op, flag_set(cpu.status_register, FLAG_C))), ..cpu },
                bus,
            )
        },
        Opcode::BitAbs => {
            let am = am_abs_spec(cpu, bus);
            let op = bus.read_val(am.1);
            (CpuV { status_register: bit_status(am.0.status_register, am.0.a, op), ..am.0 }, bus)
        },
        Opcode::AndAbs => {
            let am = am_abs_spec(cpu, bus);
            let op = bus.read_val(am.1);
            (CpuV { a: am.0.a & op, status_register: with_zn(am.0.status_register, am.0.a & op), ..am.0 }, bus)
        },
        Opcode::RolAbs => {
            let am = am_abs_spec(cpu, bus);
            let op = bus.read_val(am.1);
            (
                CpuV { status_register: with_zn(with_flag(am.0.status_register, FLAG_C, op & 0x80 != 0), rol_result(op, flag_set(am.0.status_register, FLAG_C))), ..am.0 },
                bus.after_write(am.1, rol_result(op, flag_set(am.0.status_register, FLAG_C))),
            )
        },
        Opcode::Bmi => {
            let am = am_rel_spec(cpu, bus);
            (spec_branch_if(am.0, am.1, flag_set(am.0.status_register, FLAG_N)), bus)
        },
        Opcode::AndIndY => {
            let am = am_izy_spec(cpu, bus);
            let charged = if am.2 {
                CpuV { cycles: (am.0.cycles + 1) as u8, ..am.0 }
            } else {
                am.0
            };
            let op = bus.read_val(am.1);
            (CpuV { a: charged.a & op, status_register: with_zn(charged.status_register, charged.a & op), ..charged }, bus)
        },
        Opcode::AndZpX => {
            let am = am_zpx_spec(cpu, bus);
            let op = bus.read_val(am.1);
            (CpuV { a: am.0.a & op, status_register: with_zn(am.0.status_register, am.0.a & op), ..am.0 }, bus)
        },
        Opcode::RolZpX => {
            let am = am_zpx_spec(cpu, bus);
            let op = bus.read_val(am.1);
            (
                CpuV { status_register: with_zn(with_flag(am.0.status_register, FLAG_C, op & 0x80 != 0), rol_result(op, flag_set(am.0.status_register, FLAG_C))), ..am.0 },
                bus.after_write(am.1, rol_result(op, flag_set(am.0.status_register, FLAG_C))),
            )
        },
        Opcode::Sec => {
            (CpuV { status_register: with_flag(cpu.status_register, FLAG_C, true), ..cpu }, bus)
        },
        Opcode::AndAbsY => {
            let am = am_aby_spec(cpu, bus);
            let charged = if am.2 {
                CpuV { cycles: (am.0.cycles + 1) as u8, ..am.0 }
            } else {
                am.0
            };
            let op = bus.read_val(am.1);
            (CpuV { a: charged.a & op, status_register: with_zn(charged.status_register, charged.a & op), ..charged }, bus)
        },
        Opcode::AndAbsX => {
            let am = am_abx_spec(cpu, bus);
            let charged = if am.2 {
                CpuV { cycles: (am.0.cycles + 1) as u8, ..am.0 }
            } else {
                am.0
            };
            let op = bus.read_val(am.1);
            (CpuV { a: charged.a & op, status_register: with_zn(charged.status_register, charged.a & op), ..charged }, bus)
        },
        Opcode::RolAbsX => {
            let am = am_abx_spec(cpu, bus);
            let op = bus.read_val(am.1);
            (
                CpuV { status_register: with_zn(with_flag(am.0.status_register, FLAG_C, op & 0x80 != 0), rol_result(op, flag_set(am.0.status_register, FLAG_C))), ..am.0 },
                bus.after_write(am.1, rol_result(op, flag_set(am.0.status_register, FLAG_C))),
            )
        },
        Opcode::Rti => {
            (spec_rti(cpu, bus), bus)
        },
        Opcode::EorIndX => {
            let am = am_izx_spec(cpu, bus);
            let op = bus.read_val(am.1);
            (CpuV { a: am.0.a ^ op, status_register: with_zn(am.0.status_register, am.0.a ^ op), ..am.0 }, bus)
        },
        Opcode::EorZp => {
            let am = am_zp_spec(cpu, bus);
            let op = bus.read_val(am.1);
            (CpuV { a: am.0.a ^ op, status_register: with_zn(am.0.status_register, am.0.a ^ op), ..am.0 }, bus)
        },
        Opcode::LsrZp => {
            let am = am_zp_spec(cpu, bus);
            let op = bus.read_val(am.1);
            (
                CpuV { status_register: with_zn(with_flag(am.0.status_register, FLAG_C, op & 0x01 != 0), (op) >> 1), ..am.0 },
                bus.after_write(am.1, (op) >> 1),
            )
        },
        Opcode::Pha => {
            spec_pha(cpu, bus)
        },
        Opcode::EorImm => {
            let am = am_imm_spec(cpu, bus);
            (CpuV { a: am.0.a ^ am.1, status_register: with_zn(am.0.status_register, am.0.a ^ am.1), ..am.0 }, bus)
        },
        Opcode::LsrAcc => {
            let op = cpu.a;
            (
                CpuV { a: (op) >> 1, status_register: with_zn(with_flag(cpu.status_register, FLAG_C, op & 0x01 != 0), (op) >> 1), ..cpu },
                bus,
            )
        },
        Opcode::JmpAbs => {
            let am = am_abs_spec(cpu, bus);
            (CpuV { pc: am.1, ..am.0 }, bus)
        },
        Opcode::EorAbs => {
            let am = am_abs_spec(cpu, bus);
            let op = bus.read_val(am.1);
            (CpuV { a: am.0.a ^ op, status_register: with_zn(am.0.status_register, am.0.a ^ op), ..am.0 }, bus)
        },
        Opcode::LsrAbs => {
            let am = am_abs_spec(cpu, bus);
            let op = bus.read_val(am.1);
            (
                CpuV { status_register: with_zn(with_flag(am.0.status_register, FLAG_C, op & 0x01 != 0), (op) >> 1), ..am.0 },
                bus.after_write(am.1, (op) >> 1),
            )
        },
        Opcode::Bvc => {
            let am = am_rel_spec(cpu, bus);
            (spec_branch_if(am.0, am.1, !flag_set(am.0.status_register, FLAG_V)), bus)
        },
        Opcode::EorIndY => {
            let am = am_izy_spec(cpu, bus);
            let charged = if am.2 {
                CpuV { cycles: (am.0.cycles + 1) as u8, ..am.0 }
            } else {
                am.0
            };
            let op = bus.read_val(am.1);
            (CpuV { a: charged.a ^ op, status_register: with_zn(charged.status_register, charged.a ^ op), ..charged }, bus)
        },
        Opcode::EorZpX => {
            let am = am_zpx_spec(cpu, bus);
            let op = bus.read_val(am.1);
            (CpuV { a: am.0.a ^ op, status_register: with_zn(am.0.status_register, am.0.a ^ op), ..am.0 }, bus)
        },
        Opcode::LsrZpX => {
            let am = am_zpx_spec(cpu, bus);
            let op = bus.read_val(am.1);
            (
                CpuV { status_register: with_zn(with_flag(am.0.status_register, FLAG_C, op & 0x01 != 0), (op) >> 1), ..am.0 },
                bus.after_write(am.1, (op) >> 1),
            )
        },
        Opcode::Cli => {
            (CpuV { status_register: with_flag(cpu.status_register, FLAG_I, false), ..cpu }, bus)
        },
        Opcode::EorAbsY => {
            let am = am_aby_spec(cpu, bus);
            let charged = if am.2 {
                CpuV { cycles: (am.0.cycles + 1) as u8, ..am.0 }
            } else {
                am.0
            };
            let op = bus.read_val(am.1);
            (CpuV { a: charged.a ^ op, status_register: with_zn(charged.status_register, charged.a ^ op), ..charged }, bus)
        },
        Opcode::EorAbsX => {
            let am = am_abx_spec(cpu, bus);
            let charged = if am.2 {
                CpuV { cycles: (am.0.cycles + 1) as u8, ..am.0 }
            } else {
                am.0
            };
            let op = bus.read_val(am.1);
            (CpuV { a: charged.a ^ op, status_register: with_zn(charged.status_register, charged.a ^ op), ..charged }, bus)
        },
        Opcode::LsrAbsX => {
            let am = am_abx_spec(cpu, bus);
            let op = bus.read_val(am.1);
            (
                CpuV { status_register: with_zn(with_flag(am.0.status_register, FLAG_C, op & 0x01 != 0), (op) >> 1), ..am.0 },
                bus.after_write(am.1, (op) >> 1),
            )
        },
        Opcode::Rts => {
            (spec_rts(cpu, bus), bus)
        },
        Opcode::AdcIndX => {
            let am = am_izx_spec(cpu, bus);
            let op = bus.read_val(am.1);
            (CpuV { a: adc_result(am.0.a, op, flag_set(am.0.status_register, FLAG_C)), status_register: adc_status(am.0.status_register, am.0.a, op), ..am.0 }, bus)
        },
        Opcode::AdcZp => {
            let am = am_zp_spec(cpu, bus);
            let op = bus.read_val(am.1);
            (CpuV { a: adc_result(am.0.a, op, flag_set(am.0.status_register, FLAG_C)), status_register: adc_status(am.0.status_register, am.0.a, op), ..am.0 }, bus)
        },
        Opcode::RorZp => {
            let am = am_zp_spec(cpu, bus);
            let op = bus.read_val(am.1);
            (
                CpuV { status_register: with_zn(with_flag(am.0.status_register, FLAG_C, op & 0x01 != 0), ror_result(op, flag_set(am.0.status_register, FLAG_C))), ..am.0 },
                bus.after_write(am.1, ror_result(op, flag_set(am.0.status_register, FLAG_C))),
            )
        },
        Opcode::Pla => {
            (spec_pla(cpu, bus), bus)
        },
        Opcode::AdcImm => {
            let am = am_imm_spec(cpu, bus);
            (CpuV { a: adc_result(am.0.a, am.1, flag_set(am.0.status_register, FLAG_C)), status_register: adc_status(am.0.status_register, am.0.a, am.1), ..am.0 }, bus)
        },
        Opcode::RorAcc => {
            let op = cpu.a;
            (
                CpuV { a: ror_result(op, flag_set(cpu.status_register, FLAG_C)), status_register: with_zn(with_flag(cpu.status_register, FLAG_C, op & 0x01 != 0), ror_result(op, flag_set(cpu.status_register, FLAG_C))), ..cpu },
                bus,
            )
        },
        Opcode::JmpInd => {
            let am = am_ind_spec(cpu, bus);
            (CpuV { pc: am.1, ..am.0 }, bus)
        },
        Opcode::AdcAbs => {
            let am = am_abs_spec(cpu, bus);
            let op = bus.read_val(am.1);
            (CpuV { a: adc_result(am.0.a, op, flag_set(am.0.status_register, FLAG_C)), status_register: adc_status(am.0.status_register, am.0.a, op), ..am.0 }, bus)
        },
        Opcode::RorAbs => {
            let am = am_abs_spec(cpu, bus);
            let op = bus.read_val(am.1);
            (
                CpuV { status_register: with_zn(with_flag(am.0.status_register, FLAG_C, op & 0x01 != 0), ror_result(op, flag_set(am.0.status_register, FLAG_C))), ..am.0 },
                bus.after_write(am.1, ror_result(op, flag_set(am.0.status_register, FLAG_C))),
            )
        },
        Opcode::Bvs => {
            let am = am_rel_spec(cpu, bus);
            (spec_branch_if(am.0, am.1, flag_set(am.0.status_register, FLAG_V)), bus)
        },
        Opcode::AdcIndY => {
            let am = am_izy_spec(cpu, bus);
            let charged = if am.2 {
                CpuV { cycles: (am.0.cycles + 1) as u8, ..am.0 }
            } else {
                am.0
            };
            let op = bus.read_val(am.1);
            (CpuV { a: adc_result(charged.a, op, flag_set(charged.status_register, FLAG_C)), status_register: adc_status(charged.status_register, charged.a, op), ..charged }, bus)
        },
        Opcode::AdcZpX => {
            let am = am_zpx_spec(cpu, bus);
            let op = bus.read_val(am.1);
            (CpuV { a: adc_result(am.0.a, op, flag_set(am.0.status_register, FLAG_C)), status_register: adc_status(am.0.status_register, am.0.a, op), ..am.0 }, bus)
        },
        Opcode::RorZpX => {
            let am = am_zpx_spec(cpu, bus);
            let op = bus.read_val(am.1);
            (
                CpuV { status_register: with_zn(with_flag(am.0.status_register, FLAG_C, op & 0x01 != 0), ror_result(op, flag_set(am.0.status_register, FLAG_C))), ..am.0 },
                bus.after_write(am.1, ror_result(op, flag_set(am.0.status_register, FLAG_C))),
            )
        },
        Opcode::Sei => {
            (CpuV { status_register: with_flag(cpu.status_register, FLAG_I, true), ..cpu }, bus)
        },
        Opcode::AdcAbsY => {
            let am = am_aby_spec(cpu, bus);
            let charged = if am.2 {
                CpuV { cycles: (am.0.cycles + 1) as u8, ..am.0 }
            } else {
                am.0
            };
            let op = bus.read_val(am.1);
            (CpuV { a: adc_result(charged.a, op, flag_set(charged.status_register, FLAG_C)), status_register: adc_status(charged.status_register, charged.a, op), ..charged }, bus)
        },
        Opcode::AdcAbsX => {
            let am = am_abx_spec(cpu, bus);
            let charged = if am.2 {
                CpuV { cycles: (am.0.cycles + 1) as u8, ..am.0 }
            } else {
                am.0
            };
            let op = bus.read_val(am.1);
            (CpuV { a: adc_result(charged.a, op, flag_set(charged.status_register, FLAG_C)), status_register: adc_status(charged.status_register, charged.a, op), ..charged }, bus)
        },
        Opcode::RorAbsX => {
            let am = am_abx_spec(cpu, bus);
            let op = bus.read_val(am.1);
            (
                CpuV { status_register: with_zn(with_flag(am.0.status_register, FLAG_C, op & 0x01 != 0), ror_result(op, flag_set(am.0.status_register, FLAG_C))), ..am.0 },
                bus.after_write(am.1, ror_result(op, flag_set(am.0.status_register, FLAG_C))),
            )
        },
        Opcode::StaIndX => {
            let am = am_izx_spec(cpu, bus);
            (am.0, bus.after_write(am.1, am.0.a))
        },
        Opcode::StyZp => {
            let am = am_zp_spec(cpu, bus);
            (am.0, bus.after_write(am.1, am.0.y))
        },
        Opcode::StaZp => {
            let am = am_zp_spec(cpu, bus);
            (am.0, bus.after_write(am.1, am.0.a))
        },
        Opcode::StxZp => {
            let am = am_zp_spec(cpu, bus);
            (am.0, bus.after_write(am.1, am.0.x))
        },
        Opcode::Dey => {
            (CpuV { y: cpu.y.wrapping_sub(1), status_register: with_zn(cpu.status_register, cpu.y.wrapping_sub(1)), ..cpu }, bus)
        },
        Opcode::Txa => {
            (CpuV { a: cpu.x, status_register: with_zn(cpu.status_register, cpu.x), ..cpu }, bus)
        },
        Opcode::StyAbs => {
            let am = am_abs_spec(cpu, bus);
            (am.0, bus.after_write(am.1, am.0.y))
        },
        Opcode::StaAbs => {
            let am = am_abs_spec(cpu, bus);
            (am.0, bus.after_write(am.1, am.0.a))
        },
        Opcode::StxAbs => {
            let am = am_abs_spec(cpu, bus);
            (am.0, bus.after_write(am.1, am.0.x))
        },
        Opcode::Bcc => {
            let am = am_rel_spec(cpu, bus);
            (spec_branch_if(am.0, am.1, !flag_set(am.0.status_register, FLAG_C)), bus)
        },
        Opcode::StaIndY => {
            let am = am_izy_spec(cpu, bus);
            (am.0, bus.after_write(am.1, am.0.a))
        },
        Opcode::StyZpX => {
            let am = am_zpx_spec(cpu, bus);
            (am.0, bus.after_write(am.1, am.0.y))
        },
        Opcode::StaZpX => {
            let am = am_zpx_spec(cpu, bus);
            (am.0, bus.after_write(am.1, am.0.a))
        },
        Opcode::StxZpY => {
            let am = am_zpy_spec(cpu, bus);
            (am.0, bus.after_write(am.1, am.0.x))
        },
        Opcode::Tya => {
            (CpuV { a: cpu.y, status_register: with_zn(cpu.status_register, cpu.y), ..cpu }, bus)
        },
        Opcode::StaAbsY => {
            let am = am_aby_spec(cpu, bus);
            (am.0, bus.after_write(am.1, am.0.a))
        },
        Opcode::Txs => {
            (CpuV { st: cpu.x, ..cpu }, bus)
        },
        Opcode::StaAbsX => {
            let am = am_abx_spec(cpu, bus);
            (am.0, bus.after_write(am.1, am.0.a))
        },
        Opcode::LdyImm => {
            let am = am_imm_spec(cpu, bus);
            (CpuV { y: am.1, status_register: with_zn(am.0.status_register, am.1), ..am.0 }, bus)
        },
        Opcode::LdaIndX => {
            let am = am_izx_spec(cpu, bus);
            let op = bus.read_val(am.1);
            (CpuV { a: op, status_register: with_zn(am.0.status_register, op), ..am.0 }, bus)
        },
        Opcode::LdxImm => {
            let am = am_imm_spec(cpu, bus);
            (CpuV { x: am.1, status_register: with_zn(am.0.status_register, am.1), ..am.0 }, bus)
        },
        Opcode::LdyZp => {
            let am = am_zp_spec(cpu, bus);
            let op = bus.read_val(am.1);
            (CpuV { y: op, status_register: with_zn(am.0.status_register, op), ..am.0 }, bus)
        },
        Opcode::LdaZp => {
            let am = am_zp_spec(cpu, bus);
            let op = bus.read_val(am.1);
            (CpuV { a: op, status_register: with_zn(am.0.status_register, op), ..am.0 }, bus)
        },
        Opcode::LdxZp => {
            let am = am_zp_spec(cpu, bus);
            let op = bus.read_val(am.1);
            (CpuV { x: op, status_register: with_zn(am.0.status_register, op), ..am.0 }, bus)
        },
        Opcode::Tay => {
            (CpuV { y: cpu.a, status_register: with_zn(cpu.status_register, cpu.a), ..cpu }, bus)
        },
        Opcode::LdaImm => {
            let am = am_imm_spec(cpu, bus);
            (CpuV { a: am.1, status_register: with_zn(am.0.status_register, am.1), ..am.0 }, bus)
        },
        Opcode::Tax => {
            (CpuV { x: cpu.a, status_register: with_zn(cpu.status_register, cpu.a), ..cpu }, bus)
        },
        Opcode::LdyAbs => {
            let am = am_abs_spec(cpu, bus);
            let op = bus.read_val(am.1);
            (CpuV { y: op, status_register: with_zn(am.0.status_register, op), ..am.0 }, bus)
        },
        Opcode::LdaAbs => {
            let am = am_abs_spec(cpu, bus);
            let op = bus.read_val(am.1);
            (CpuV { a: op, status_register: with_zn(am.0.status_register, op), ..am.0 }, bus)
        },
        Opcode::LdxAbs => {
            let am = am_abs_spec(cpu, bus);
            let op = bus.read_val(am.1);
            (CpuV { x: op, status_register: with_zn(am.0.status_register, op), ..am.0 }, bus)
        },
        Opcode::Bcs => {
            let am = am_rel_spec(cpu, bus);
            (spec_branch_if(am.0, am.1, flag_set(am.0.status_register, FLAG_C)), bus)
        },
        Opcode::LdaIndY => {
            let am = am_izy_spec(cpu, bus);
            let charged = if am.2 {
                CpuV { cycles: (am.0.cycles + 1) as u8, ..am.0 }
            } else {
                am.0
            };
            let op = bus.read_val(am.1);
            (CpuV { a: op, status_register: with_zn(charged.status_register, op), ..charged }, bus)
        },
        Opcode::LdyZpX => {
            let am = am_zpx_spec(cpu, bus);
            let op = bus.read_val(am.1);
            (CpuV { y: op, status_register: with_zn(am.0.status_register, op), ..am.0 }, bus)
        },
        Opcode::LdaZpX => {
            let am = am_zpx_spec(cpu, bus);
            let op = bus.read_val(am.1);
            (CpuV { a: op, status_register: with_zn(am.0.status_register, op), ..am.0 }, bus)
        },
        Opcode::LdxZpY => {
            let am = am_zpy_spec(cpu, bus);
            let op = bus.read_val(am.1);
            (CpuV { x: op, status_register: with_zn(am.0.status_register, op), ..am.0 }, bus)
        },
        Opcode::Clv => {
            (CpuV { status_register: with_flag(cpu.status_register, FLAG_V, false), ..cpu }, bus)
        },
        Opcode::LdaAbsY => {
            let am = am_aby_spec(cpu, bus);
            let charged = if am.2 {
                CpuV { cycles: (am.0.cycles + 1) as u8, ..am.0 }
            } else {
                am.0
            };
            let op = bus.read_val(am.1);
            (CpuV { a: op, status_register: with_zn(charged.status_register, op), ..charged }, bus)
        },
        Opcode::Tsx => {
            (CpuV { x: cpu.st, status_register: with_zn(cpu.status_register, cpu.st), ..cpu }, bus)
        },
        Opcode::LdyAbsX => {
            let am = am_abx_spec(cpu, bus);
            let charged = if am.2 {
                CpuV { cycles: (am.0.cycles + 1) as u8, ..am.0 }
            } else {
                am.0
            };
            let op = bus.read_val(am.1);
            (CpuV { y: op, status_register: with_zn(charged.status_register, op), ..charged }, bus)
        },
        Opcode::LdaAbsX => {
            let am = am_abx_spec(cpu, bus);
            let charged = if am.2 {
                CpuV { cycles: (am.0.cycles + 1) as u8, ..am.0 }
            } else {
                am.0
            };
            let op = bus.read_val(am.1);
            (CpuV { a: op, status_register: with_zn(charged.status_register, op), ..charged }, bus)
        },
        Opcode::LdxAbsY => {
            let am = am_aby_spec(cpu, bus);
            let charged = if am.2 {
                CpuV { cycles: (am.0.cycles + 1) as u8, ..am.0 }
            } else {
                am.0
            };
            let op = bus.read_val(am.1);
            (CpuV { x: op, status_register: with_zn(charged.status_register, op), ..charged }, bus)
        },
        Opcode::CpyImm => {
            let am = am_imm_spec(cpu, bus);
            (CpuV { status_register: compare_status(am.0.status_register, am.0.y, am.1), ..am.0 }, bus)
        },
        Opcode::CmpIndX => {
            let am = am_izx_spec(cpu, bus);
            let op = bus.read_val(am.1);
            (CpuV { status_register: compare_status(am.0.status_register, am.0.a, op), ..am.0 }, bus)
        },
        Opcode::CpyZp => {
            let am = am_zp_spec(cpu, bus);
            let op = bus.read_val(am.1);
            (CpuV { status_register: compare_status(am.0.status_register, am.0.y, op), ..am.0 }, bus)
        },
        Opcode::CmpZp => {
            let am = am_zp_spec(cpu, bus);
            let op = bus.read_val(am.1);
            (CpuV { status_register: compare_status(am.0.status_register, am.0.a, op), ..am.0 }, bus)
        },
        Opcode::DecZp => {
            let am = am_zp_spec(cpu, bus);
            let op = bus.read_val(am.1);
            (
                CpuV { status_register: with_zn(am.0.status_register, (op).wrapping_sub(1)), ..am.0 },
                bus.after_write(am.1, (op).wrapping_sub(1)),
            )
        },
        Opcode::Iny => {
            (CpuV { y: cpu.y.wrapping_add(1), status_register: with_zn(cpu.status_register, cpu.y.wrapping_add(1)), ..cpu }, bus)
        },
        Opcode::CmpImm => {
            let am = am_imm_spec(cpu, bus);
            (CpuV { status_register: compare_status(am.0.status_register, am.0.a, am.1), ..am.0 }, bus)
        },
        Opcode::Dex => {
            (CpuV { x: cpu.x.wrapping_sub(1), status_register: with_zn(cpu.status_register, cpu.x.wrapping_sub(1)), ..cpu }, bus)
        },
        Opcode::CpyAbs => {
            let am = am_abs_spec(cpu, bus);
            let op = bus.read_val(am.1);
            (CpuV { status_register: compare_status(am.0.status_register, am.0.y, op), ..am.0 }, bus)
        },
        Opcode::CmpAbs => {
            let am = am_abs_spec(cpu, bus);
            let op = bus.read_val(am.1);
            (CpuV { status_register: compare_status(am.0.status_register, am.0.a, op), ..am.0 }, bus)
        },
        Opcode::DecAbs => {
            let am = am_abs_spec(cpu, bus);
            let op = bus.read_val(am.1);
            (
                CpuV { status_register: with_zn(am.0.status_register, (op).wrapping_sub(1)), ..am.0 },
                bus.after_write(am.1, (op).wrapping_sub(1)),
            )
        },
        Opcode::Bne => {
            let am = am_rel_spec(cpu, bus);
            (spec_branch_if(am.0, am.1, !flag_set(am.0.status_register, FLAG_Z)), bus)
        },
        Opcode::CmpIndY => {
            let am = am_izy_spec(cpu, bus);
            let charged = if am.2 {
                CpuV { cycles: (am.0.cycles + 1) as u8, ..am.0 }
            } else {
                am.0
            };
            let op = bus.read_val(am.1);
            (CpuV { status_register: compare_status(charged.status_register, charged.a, op), ..charged }, bus)
        },
        Opcode::CmpZpX => {
            let am = am_zpx_spec(cpu, bus);
            let op = bus.read_val(am.1);
            (CpuV { status_register: compare_status(am.0.status_register, am.0.a, op), ..am.0 }, bus)
        },
        Opcode::DecZpX => {
            let am = am_zpx_spec(cpu, bus);
            let op = bus.read_val(am.1);
            (
                CpuV { status_register: with_zn(am.0.status_register, (op).wrapping_sub(1)), ..am.0 },
                bus.after_write(am.1, (op).wrapping_sub(1)),
            )
        },
        Opcode::Cld => {
            (CpuV { status_register: with_flag(cpu.status_register, FLAG_D, false), ..cpu }, bus)
        },
        Opcode::CmpAbsY => {
            let am = am_aby_spec(cpu, bus);
            let charged = if am.2 {
                CpuV { cycles: (am.0.cycles + 1) as u8, ..am.0 }
            } else {
                am.0
            };
            let op = bus.read_val(am.1);
            (CpuV { status_register: compare_status(charged.status_register, charged.a, op), ..charged }, bus)
        },
        Opcode::CmpAbsX => {
            let am = am_abx_spec(cpu, bus);
            let charged = if am.2 {
                CpuV { cycles: (am.0.cycles + 1) as u8, ..am.0 }
            } else {
                am.0
            };
            let op = bus.read_val(am.1);
            (CpuV { status_register: compare_status(charged.status_register, charged.a, op), ..charged }, bus)
        },
        Opcode::DecAbsX => {
            let am = am_abx_spec(cpu, bus);
            let op = bus.read_val(am.1);
            (
                CpuV { status_register: with_zn(am.0.status_register, (op).wrapping_sub(1)), ..am.0 },
                bus.after_write(am.1, (op).wrapping_sub(1)),
            )
        },
        Opcode::CpxImm => {
            let am = am_imm_spec(cpu, bus);
            (CpuV { status_register: compare_status(am.0.status_register, am.0.x, am.1), ..am.0 }, bus)
        },
        Opcode::SbcIndX => {
            let am = am_izx_spec(cpu, bus);
            let op = bus.read_val(am.1);
            (CpuV { a: adc_result(am.0.a, (op) ^ 0xFF, flag_set(am.0.status_register, FLAG_C)), status_register: adc_status(am.0.status_register, am.0.a, (op) ^ 0xFF), ..am.0 }, bus)
        },
        Opcode::CpxZp => {
            let am = am_zp_spec(cpu, bus);
            let op = bus.read_val(am.1);
            (CpuV { status_register: compare_status(am.0.status_register, am.0.x, op), ..am.0 }, bus)
        },
        Opcode::SbcZp => {
            let am = am_zp_spec(cpu, bus);
            let op = bus.read_val(am.1);
            (CpuV { a: adc_result(am.0.a, (op) ^ 0xFF, flag_set(am.0.status_register, FLAG_C)), status_register: adc_status(am.0.status_register, am.0.a, (op) ^ 0xFF), ..am.0 }, bus)
        },
        Opcode::IncZp => {
            let am = am_zp_spec(cpu, bus);
            let op = bus.read_val(am.1);
            (
                CpuV { status_register: with_zn(am.0.status_register, (op).wrapping_add(1)), ..am.0 },
                bus.after_write(am.1, (op).wrapping_add(1)),
            )
        },
        Opcode::Inx => {
            (CpuV { x: cpu.x.wrapping_add(1), status_register: with_zn(cpu.status_register, cpu.x.wrapping_add(1)), ..cpu }, bus)
        },
        Opcode::SbcImm => {
            let am = am_imm_spec(cpu, bus);
            (CpuV { a: adc_result(am.0.a, (am.1) ^ 0xFF, flag_set(am.0.status_register, FLAG_C)), status_register: adc_status(am.0.status_register, am.0.a, (am.1) ^ 0xFF), ..am.0 }, bus)
        },
        Opcode::Nop => {
            (cpu, bus)
        },
        Opcode::CpxAbs => {
            let am = am_abs_spec(cpu, bus);
            let op = bus.read_val(am.1);
            (CpuV { status_register: compare_status(am.0.status_register, am.0.x, op), ..am.0 }, bus)
        },
        Opcode::SbcAbs => {
            let am = am_abs_spec(cpu, bus);
            let op = bus.read_val(am.1);
            (CpuV { a: adc_result(am.0.a, (op) ^ 0xFF, flag_set(am.0.status_register, FLAG_C)), status_register: adc_status(am.0.status_register, am.0.a, (op) ^ 0xFF), ..am.0 }, bus)
        },
        Opcode::IncAbs => {
            let am = am_abs_spec(cpu, bus);
            let op = bus.read_val(am.1);
            (
                CpuV { status_register: with_zn(am.0.status_register, (op).wrapping_add(1)), ..am.0 },
                bus.after_write(am.1, (op).wrapping_add(1)),
            )
        },
        Opcode::Beq => {
            let am = am_rel_spec(cpu, bus);
            (spec_branch_if(am.0, am.1, flag_set(am.0.status_register, FLAG_Z)), bus)
        },
        Opcode::SbcIndY => {
            let am = am_izy_spec(cpu, bus);
            let charged = if am.2 {
                CpuV { cycles: (am.0.cycles + 1) as u8, ..am.0 }
            } else {
                am.0
            };
            let op = bus.read_val(am.1);
            (CpuV { a: adc_result(charged.a, (op) ^ 0xFF, flag_set(charged.status_register, FLAG_C)), status_register: adc_status(charged.status_register, charged.a, (op) ^ 0xFF), ..charged }, bus)
        },
        Opcode::SbcZpX => {
            let am = am_zpx_spec(cpu, bus);
            let op = bus.read_val(am.1);
            (CpuV { a: adc_result(am.0.a, (op) ^ 0xFF, flag_set(am.0.status_register, FLAG_C)), status_register: adc_status(am.0.status_register, am.0.a, (op) ^ 0xFF), ..am.0 }, bus)
        },
        Opcode::IncZpX => {
            let am = am_zpx_spec(cpu, bus);
            let op = bus.read_val(am.1);
            (
                CpuV { status_register: with_zn(am.0.status_register, (op).wrapping_add(1)), ..am.0 },
                bus.after_write(am.1, (op).wrapping_add(1)),
            )
        },
        Opcode::Sed => {
            (CpuV { status_register: with_flag(cpu.status_register, FLAG_D, true), ..cpu }, bus)
        },
        Opcode::SbcAbsY => {
            let am = am_aby_spec(cpu, bus);
            let charged = if am.2 {
                CpuV { cycles: (am.0.cycles + 1) as u8, ..am.0 }
            } else {
                am.0
            };
            let op = bus.read_val(am.1);
            (CpuV { a: adc_result(charged.a, (op) ^ 0xFF, flag_set(charged.status_register, FLAG_C)), status_register: adc_status(charged.status_register, charged.a, (op) ^ 0xFF), ..charged }, bus)
        },
        Opcode::SbcAbsX => {
            let am = am_abx_spec(cpu, bus);
            let charged = if am.2 {
                CpuV { cycles: (am.0.cycles + 1) as u8, ..am.0 }
            } else {
                am.0
            };
            let op = bus.read_val(am.1);
            (CpuV { a: adc_result(charged.a, (op) ^ 0xFF, flag_set(charged.status_register, FLAG_C)), status_register: adc_status(charged.status_register, charged.a, (op) ^ 0xFF), ..charged }, bus)
        },
        Opcode::IncAbsX => {
            let am = am_abx_spec(cpu, bus);
            let op = bus.read_val(am.1);
            (
                CpuV { status_register: with_zn(am.0.status_register, (op).wrapping_add(1)), ..am.0 },
                bus.after_write(am.1, (op).wrapping_add(1)),
            )
        },
    }
}

/// One whole instruction from a zero cycle debt: fetch the opcode byte at
/// the program counter, step past it, run the semantics, then charge the
/// base cycle count minus the cycle being spent.
pub open spec fn spec_step(cpu: CpuV, bus: CpuBusV) -> (CpuV, CpuBusV)
    recommends
        cpu.wf(),
        bus.wf(),
{
    let opcode = opcode_of_byte(bus.read_val(cpu.pc));
    let fetched = CpuV { pc: cpu.pc.wrapping_add(1), ..cpu };
    let r = spec_exec(fetched, bus, opcode);
    (CpuV { cycles: (r.0.cycles + base_cycles(opcode) - 1) as u8, ..r.0 }, r.1)
}

/// One CPU cycle: pay down outstanding debt, or execute the next whole
/// instruction.
pub open spec fn spec_clock(cpu: CpuV, bus: CpuBusV) -> (CpuV, CpuBusV)
    recommends
        cpu.wf(),
        bus.wf(),
{
    if cpu.cycles > 0 {
        (CpuV { cycles: (cpu.cycles - 1) as u8, ..cpu }, bus)
    } else {
        spec_step(cpu, bus)
    }
}

impl Cpu {
    /// One CPU cycle. While cycle debt remains it is paid down by one and
    /// nothing else happens. At debt zero the next instruction executes
    /// whole, exactly as [`spec_clock`] states: fetch the opcode at the
    /// program counter, run its semantics (which may read and write the
    /// bus), then charge its base cycle count, any page-cross or branch
    /// penalties, minus the cycle just spent. The debt afterwards is at
    /// least the base count minus one and at most one more than the base
    /// count.
    #[verifier::rlimit(100)]
    pub fn clock(&mut self, bus: &mut CpuBus)
        requires
            old(self)@.wf(),
            old(bus)@.wf(),
        ensures
            final(self)@.wf(),
            final(bus)@.wf(),
            final(self)@ == spec_clock(old(self)@, old(bus)@).0,
            final(bus)@ == spec_clock(old(self)@, old(bus)@).1,
            old(self)@.cycles == 0 ==> {
                let op = opcode_of_byte(old(bus)@.read_val(old(self)@.pc));
                &&& final(self)@.cycles + 1 >= base_cycles(op)
                &&& final(self)@.cycles <= base_cycles(op) + 1
            },
    {
        if self.cycles == 0 {
            let opcode = Opcode::of_byte(bus.read(self.pc));
            self.pc = self.pc.wrapping_add(1);

            match opcode {
                Opcode::Brk => {
                    self.inst_brk(bus);
                },
                Opcode::OraIndX => {
                    let addr = self.am_izx(bus);
                    let op = bus.read(addr);
                    self.inst_ora(op);
                },
                Opcode::FlagAcc => {
                    // The repurposed opcode: the accumulator indexes one of the
                    // two configured byte arrays, chosen by the execution mode.
                    match self.execution_mode {
                        ExecutionMode::Ring0 => {
                            let i = self.a as usize % self.secret_ring0.len();
                            let v = self.secret_ring0[i];
                            self.a = v;
                        },
                        ExecutionMode::Ring3 => {
                            let i = self.a as usize % self.secret_ring3.len();
                            let v = self.secret_ring3[i];
                            self.a = v;
                        },
                    }
                },
                Opcode::OraZp => {
                    let addr = self.am_zp(bus);
                    let op = bus.read(addr);
                    self.inst_ora(op);
                },
                Opcode::AslZp => {
                    let addr = self.am_zp(bus);
                    let op = bus.read(addr);
                    let result = self.inst_asl(op);
                    bus.write(addr, result);
                },
                Opcode::Php => {
                    self.inst_php(bus);
                },
                Opcode::OraImm => {
                    let op = self.am_imm(bus);
                    self.inst_ora(op);
                },
                Opcode::AslAcc => {
                    let a = self.a;
                    let r = self.inst_asl(a);
                    self.a = r;
                },
                Opcode::OraAbs => {
                    let addr = self.am_abs(bus);
                    let op = bus.read(addr);
                    self.inst_ora(op);
                },
                Opcode::AslAbs => {
                    let addr = self.am_abs(bus);
                    let op = bus.read(addr);
                    let result = self.inst_asl(op);
                    bus.write(addr, result);
                },
                Opcode::Bpl => {
                    let offset = self.am_rel(bus);
                    self.inst_bpl(offset);
                },
                Opcode::OraIndY => {
                    let (addr, extra_cycle) = self.am_izy(bus);
                    if extra_cycle {
                        self.cycles = self.cycles + 1;
                    }
                    let op = bus.read(addr);
                    self.inst_ora(op);
                },
                Opcode::OraZpX => {
                    let addr = self.am_zpx(bus);
                    let op = bus.read(addr);
                    self.inst_ora(op);
                },
                Opcode::AslZpX => {
                    let addr = self.am_zpx(bus);
                    let op = bus.read(addr);
                    let result = self.inst_asl(op);
                    bus.write(addr, result);
                },
                Opcode::Clc => {
                    self.inst_clc();
                },
                Opcode::OraAbsY => {
                    let (addr, extra_cycle) = self.am_aby(bus);
                    if extra_cycle {
                        self.cycles = self.cycles + 1;
                    }
                    let op = bus.read(addr);
                    self.inst_ora(op);
                },
                Opcode::OraAbsX => {
                    let (addr, extra_cycle) = self.am_abx(bus);
                    if extra_cycle {
                        self.cycles = self.cycles + 1;
                    }
                    let op = bus.read(addr);
                    self.inst_ora(op);
                },
                Opcode::AslAbsX => {
                    let (addr, _) = self.am_abx(bus);
                    let op = bus.read(addr);
                    let result = self.inst_asl(op);
                    bus.write(addr, result);
                },
                Opcode::JsrAbs => {
                    let addr = self.am_abs(bus);
                    self.inst_jsr(bus, addr);
                },
                Opcode::AndIndX => {
                    let addr = self.am_izx(bus);
                    let op = bus.read(addr);
                    self.inst_and(op);
                },
                Opcode::BitZp => {
                    let addr = self.am_zp(bus);
                    let op = bus.read(addr);
                    self.inst_bit(op);
                },
                Opcode::AndZp => {
                    let addr = self.am_zp(bus);
                    let op = bus.read(addr);
                    self.inst_and(op);
                },
                Opcode::RolZp => {
                    let addr = self.am_zp(bus);
                    let op = bus.read(addr);
                    let result = self.inst_rol(op);
                    bus.write(addr, result);
                },
                Opcode::Plp => {
                    self.inst_plp(bus);
                },
                Opcode::AndImm => {
                    let op = self.am_imm(bus);
                    self.inst_and(op);
                },
                Opcode::RolAcc => {
                    let a = self.a;
                    let r = self.inst_rol(a);
                    self.a = r;
                },
                Opcode::BitAbs => {
                    let addr = self.am_abs(bus);
                    let op = bus.read(addr);
                    self.inst_bit(op);
                },
                Opcode::AndAbs => {
                    let addr = self.am_abs(bus);
                    let op = bus.read(addr);
                    self.inst_and(op);
                },
                Opcode::RolAbs => {
                    let addr = self.am_abs(bus);
                    let op = bus.read(addr);
                    let result = self.inst_rol(op);
                    bus.write(addr, result);
                },
                Opcode::Bmi => {
                    let offset = self.am_rel(bus);
                    self.inst_bmi(offset);
                },
                Opcode::AndIndY => {
                    let (addr, extra_cycle) = self.am_izy(bus);
                    if extra_cycle {
                        self.cycles = self.cycles + 1;
                    }
                    let op = bus.read(addr);
                    self.inst_and(op);
                },
                Opcode::AndZpX => {
                    let addr = self.am_zpx(bus);
                    let op = bus.read(addr);
                    self.inst_and(op);
                },
                Opcode::RolZpX => {
                    let addr = self.am_zpx(bus);
                    let op = bus.read(addr);
                    let result = self.inst_rol(op);
                    bus.write(addr, result);
                },
                Opcode::Sec => {
                    self.inst_sec();
                },
                Opcode::AndAbsY => {
                    let (addr, extra_cycle) = self.am_aby(bus);
                    if extra_cycle {
                        self.cycles = self.cycles + 1;
                    }
                    let op = bus.read(addr);
                    self.inst_and(op);
                },
                Opcode::AndAbsX => {
                    let (addr, extra_cycle) = self.am_abx(bus);
                    if extra_cycle {
                        self.cycles = self.cycles + 1;
                    }
                    let op = bus.read(addr);
                    self.inst_and(op);
                },
                Opcode::RolAbsX => {
                    let (addr, _) = self.am_abx(bus);
                    let op = bus.read(addr);
                    let result = self.inst_rol(op);
                    bus.write(addr, result);
                },
                Opcode::Rti => {
                    self.inst_rti(bus);
                },
                Opcode::EorIndX => {
                    let addr = self.am_izx(bus);
                    let op = bus.read(addr);
                    self.inst_eor(op);
                },
                Opcode::EorZp => {
                    let addr = self.am_zp(bus);
                    let op = bus.read(addr);
                    self.inst_eor(op);
                },
                Opcode::LsrZp => {
                    let addr = self.am_zp(bus);
                    let op = bus.read(addr);
                    let result = self.inst_lsr(op);
                    bus.write(addr, result);
                },
                Opcode::Pha => {
                    self.inst_pha(bus);
                },
                Opcode::EorImm => {
                    let op = self.am_imm(bus);
                    self.inst_eor(op);
                },
                Opcode::LsrAcc => {
                    let a = self.a;
                    let r = self.inst_lsr(a);
                    self.a = r;
                },
                Opcode::JmpAbs => {
                    let addr = self.am_abs(bus);
                    self.inst_jmp(addr);
                },
                Opcode::EorAbs => {
                    let addr = self.am_abs(bus);
                    let op = bus.read(addr);
                    self.inst_eor(op);
                },
                Opcode::LsrAbs => {
                    let addr = self.am_abs(bus);
                    let op = bus.read(addr);
                    let result = self.inst_lsr(op);
                    bus.write(addr, result);
                },
                Opcode::Bvc => {
                    let offset = self.am_rel(bus);
                    self.inst_bvc(offset);
                },
                Opcode::EorIndY => {
                    let (addr, extra_cycle) = self.am_izy(bus);
                    if extra_cycle {
                        self.cycles = self.cycles + 1;
                    }
                    let op = bus.read(addr);
                    self.inst_eor(op);
                },
                Opcode::EorZpX => {
                    let addr = self.am_zpx(bus);
                    let op = bus.read(addr);
                    self.inst_eor(op);
                },
                Opcode::LsrZpX => {
                    let addr = self.am_zpx(bus);
                    let op = bus.read(addr);
                    let result = self.inst_lsr(op);
                    bus.write(addr, result);
                },
                Opcode::Cli => {
                    self.inst_cli();
                },
                Opcode::EorAbsY => {
                    let (addr, extra_cycle) = self.am_aby(bus);
                    if extra_cycle {
                        self.cycles = self.cycles + 1;
                    }
                    let op = bus.read(addr);
                    self.inst_eor(op);
                },
                Opcode::EorAbsX => {
                    let (addr, extra_cycle) = self.am_abx(bus);
                    if extra_cycle {
                        self.cycles = self.cycles + 1;
                    }
                    let op = bus.read(addr);
                    self.inst_eor(op);
                },
                Opcode::LsrAbsX => {
                    let (addr, _) = self.am_abx(bus);
                    let op = bus.read(addr);
                    let result = self.inst_lsr(op);
                    bus.write(addr, result);
                },
                Opcode::Rts => {
                    self.inst_rts(bus);
                },
                Opcode::AdcIndX => {
                    let addr = self.am_izx(bus);
                    let op = bus.read(addr);
                    self.inst_adc(op);
                },
                Opcode::AdcZp => {
                    let addr = self.am_zp(bus);
                    let op = bus.read(addr);
                    self.inst_adc(op);
                },
                Opcode::RorZp => {
                    let addr = self.am_zp(bus);
                    let op = bus.read(addr);
                    let result = self.inst_ror(op);
                    bus.write(addr, result);
                },
                Opcode::Pla => {
                    self.inst_pla(bus);
                },
                Opcode::AdcImm => {
                    let op = self.am_imm(bus);
                    self.inst_adc(op);
                },
                Opcode::RorAcc => {
                    let a = self.a;
                    let r = self.inst_ror(a);
                    self.a = r;
                },
                Opcode::JmpInd => {
                    let addr = self.am_ind(bus);
                    self.inst_jmp(addr);
                },
                Opcode::AdcAbs => {
                    let addr = self.am_abs(bus);
                    let op = bus.read(addr);
                    self.inst_adc(op);
                },
                Opcode::RorAbs => {
                    let addr = self.am_abs(bus);
                    let op = bus.read(addr);
                    let result = self.inst_ror(op);
                    bus.write(addr, result);
                },
                Opcode::Bvs => {
                    let offset = self.am_rel(bus);
                    self.inst_bvs(offset);
                },
                Opcode::AdcIndY => {
                    let (addr, extra_cycle) = self.am_izy(bus);
                    if extra_cycle {
                        self.cycles = self.cycles + 1;
                    }
                    let op = bus.read(addr);
                    self.inst_adc(op);
                },
                Opcode::AdcZpX => {
                    let addr = self.am_zpx(bus);
                    let op = bus.read(addr);
                    self.inst_adc(op);
                },
                Opcode::RorZpX => {
                    let addr = self.am_zpx(bus);
                    let op = bus.read(addr);
                    let result = self.inst_ror(op);
                    bus.write(addr, result);
                },
                Opcode::Sei => {
                    self.inst_sei();
                },
                Opcode::AdcAbsY => {
                    let (addr, extra_cycle) = self.am_aby(bus);
                    if extra_cycle {
                        self.cycles = self.cycles + 1;
                    }
                    let op = bus.read(addr);
                    self.inst_adc(op);
                },
                Opcode::AdcAbsX => {
                    let (addr, extra_cycle) = self.am_abx(bus);
                    if extra_cycle {
                        self.cycles = self.cycles + 1;
                    }
                    let op = bus.read(addr);
                    self.inst_adc(op);
                },
                Opcode::RorAbsX => {
                    let (addr, _) = self.am_abx(bus);
                    let op = bus.read(addr);
                    let result = self.inst_ror(op);
                    bus.write(addr, result);
                },
                Opcode::StaIndX => {
                    let addr = self.am_izx(bus);
                    self.inst_sta(bus, addr);
                },
                Opcode::StyZp => {
                    let addr = self.am_zp(bus);
                    self.inst_sty(bus, addr);
                },
                Opcode::StaZp => {
                    let addr = self.am_zp(bus);
                    self.inst_sta(bus, addr);
                },
                Opcode::StxZp => {
                    let addr = self.am_zp(bus);
                    self.inst_stx(bus, addr);
                },
                Opcode::Dey => {
                    self.inst_dey();
                },
                Opcode::Txa => {
                    self.inst_txa();
                },
                Opcode::StyAbs => {
                    let addr = self.am_abs(bus);
                    self.inst_sty(bus, addr);
                },
                Opcode::StaAbs => {
                    let addr = self.am_abs(bus);
                    self.inst_sta(bus, addr);
                },
                Opcode::StxAbs => {
                    let addr = self.am_abs(bus);
                    self.inst_stx(bus, addr);
                },
                Opcode::Bcc => {
                    let offset = self.am_rel(bus);
                    self.inst_bcc(offset);
                },
                Opcode::StaIndY => {
                    let (addr, _) = self.am_izy(bus);
                    self.inst_sta(bus, addr);
                },
                Opcode::StyZpX => {
                    let addr = self.am_zpx(bus);
                    self.inst_sty(bus, addr);
                },
                Opcode::StaZpX => {
                    let addr = self.am_zpx(bus);
                    self.inst_sta(bus, addr);
                },
                Opcode::StxZpY => {
                    let addr = self.am_zpy(bus);
                    self.inst_stx(bus, addr);
                },
                Opcode::Tya => {
                    self.inst_tya();
                },
                Opcode::StaAbsY => {
                    let (addr, _) = self.am_aby(bus);
                    self.inst_sta(bus, addr);
                },
                Opcode::Txs => {
                    self.inst_txs();
                },
                Opcode::StaAbsX => {
                    let (addr, _) = self.am_abx(bus);
                    self.inst_sta(bus, addr);
                },
                Opcode::LdyImm => {
                    let op = self.am_imm(bus);
                    self.inst_ldy(op);
                },
                Opcode::LdaIndX => {
                    let addr = self.am_izx(bus);
                    let op = bus.read(addr);
                    self.inst_lda(op);
                },
                Opcode::LdxImm => {
                    let op = self.am_imm(bus);
                    self.inst_ldx(op);
                },
                Opcode::LdyZp => {
                    let addr = self.am_zp(bus);
                    let op = bus.read(addr);
                    self.inst_ldy(op);
                },
                Opcode::LdaZp => {
                    let addr = self.am_zp(bus);
                    let op = bus.read(addr);
                    self.inst_lda(op);
                },
                Opcode::LdxZp => {
                    let addr = self.am_zp(bus);
                    let op = bus.read(addr);
                    self.inst_ldx(op);
                },
                Opcode::Tay => {
                    self.inst_tay();
                },
                Opcode::LdaImm => {
                    let op = self.am_imm(bus);
                    self.inst_lda(op);
                },
                Opcode::Tax => {
                    self.inst_tax();
                },
                Opcode::LdyAbs => {
                    let addr = self.am_abs(bus);
                    let op = bus.read(addr);
                    self.inst_ldy(op);
                },
                Opcode::LdaAbs => {
                    let addr = self.am_abs(bus);
                    let op = bus.read(addr);
                    self.inst_lda(op);
                },
                Opcode::LdxAbs => {
                    let addr = self.am_abs(bus);
                    let op = bus.read(addr);
                    self.inst_ldx(op);
                },
                Opcode::Bcs => {
                    let offset = self.am_rel(bus);
                    self.inst_bcs(offset);
                },
                Opcode::LdaIndY => {
                    let (addr, extra_cycle) = self.am_izy(bus);
                    if extra_cycle {
                        self.cycles = self.cycles + 1;
                    }
                    let op = bus.read(addr);
                    self.inst_lda(op);
                },
                Opcode::LdyZpX => {
                    let addr = self.am_zpx(bus);
                    let op = bus.read(addr);
                    self.inst_ldy(op);
                },
                Opcode::LdaZpX => {
                    let addr = self.am_zpx(bus);
                    let op = bus.read(addr);
                    self.inst_lda(op);
                },
                Opcode::LdxZpY => {
                    let addr = self.am_zpy(bus);
                    let op = bus.read(addr);
                    self.inst_ldx(op);
                },
                Opcode::Clv => {
                    self.inst_clv();
                },
                Opcode::LdaAbsY => {
                    let (addr, extra_cycle) = self.am_aby(bus);
                    if extra_cycle {
                        self.cycles = self.cycles + 1;
                    }
                    let op = bus.read(addr);
                    self.inst_lda(op);
                },
                Opcode::Tsx => {
                    self.inst_tsx();
                },
                Opcode::LdyAbsX => {
                    let (addr, extra_cycle) = self.am_abx(bus);
                    if extra_cycle {
                        self.cycles = self.cycles + 1;
                    }
                    let op = bus.read(addr);
                    self.inst_ldy(op);
                },
                Opcode::LdaAbsX => {
                    let (addr, extra_cycle) = self.am_abx(bus);
                    if extra_cycle {
                        self.cycles = self.cycles + 1;
                    }
                    let op = bus.read(addr);
                    self.inst_lda(op);
                },
                Opcode::LdxAbsY => {
                    let (addr, extra_cycle) = self.am_aby(bus);
                    if extra_cycle {
                        self.cycles = self.cycles + 1;
                    }
                    let op = bus.read(addr);
                    self.inst_ldx(op);
                },
                Opcode::CpyImm => {
                    let op = self.am_imm(bus);
                    self.inst_cpy(op);
                },
                Opcode::CmpIndX => {
                    let addr = self.am_izx(bus);
                    let op = bus.read(addr);
                    self.inst_cmp(op);
                },
                Opcode::CpyZp => {
                    let addr = self.am_zp(bus);
                    let op = bus.read(addr);
                    self.inst_cpy(op);
                },
                Opcode::CmpZp => {
                    let addr = self.am_zp(bus);
                    let op = bus.read(addr);
                    self.inst_cmp(op);
                },
                Opcode::DecZp => {
                    let addr = self.am_zp(bus);
                    let op = bus.read(addr);
                    let result = self.inst_dec(op);
                    bus.write(addr, result);
                },
                Opcode::Iny => {
                    self.inst_iny();
                },
                Opcode::CmpImm => {
                    let op = self.am_imm(bus);
                    self.inst_cmp(op);
                },
                Opcode::Dex => {
                    self.inst_dex();
                },
                Opcode::CpyAbs => {
                    let addr = self.am_abs(bus);
                    let op = bus.read(addr);
                    self.inst_cpy(op);
                },
                Opcode::CmpAbs => {
                    let addr = self.am_abs(bus);
                    let op = bus.read(addr);
                    self.inst_cmp(op);
                },
                Opcode::DecAbs => {
                    let addr = self.am_abs(bus);
                    let op = bus.read(addr);
                    let result = self.inst_dec(op);
                    bus.write(addr, result);
                },
                Opcode::Bne => {
                    let offset = self.am_rel(bus);
                    self.inst_bne(offset);
                },
                Opcode::CmpIndY => {
                    let (addr, extra_cycle) = self.am_izy(bus);
                    if extra_cycle {
                        self.cycles = self.cycles + 1;
                    }
                    let op = bus.read(addr);
                    self.inst_cmp(op);
                },
                Opcode::CmpZpX => {
                    let addr = self.am_zpx(bus);
                    let op = bus.read(addr);
                    self.inst_cmp(op);
                },
                Opcode::DecZpX => {
                    let addr = self.am_zpx(bus);
                    let op = bus.read(addr);
                    let result = self.inst_dec(op);
                    bus.write(addr, result);
                },
                Opcode::Cld => {
                    self.inst_cld();
                },
                Opcode::CmpAbsY => {
                    let (addr, extra_cycle) = self.am_aby(bus);
                    if extra_cycle {
                        self.cycles = self.cycles + 1;
                    }
                    let op = bus.read(addr);
                    self.inst_cmp(op);
                },
                Opcode::CmpAbsX => {
                    let (addr, extra_cycle) = self.am_abx(bus);
                    if extra_cycle {
                        self.cycles = self.cycles + 1;
                    }
                    let op = bus.read(addr);
                    self.inst_cmp(op);
                },
                Opcode::DecAbsX => {
                    let (addr, _) = self.am_abx(bus);
                    let op = bus.read(addr);
                    let result = self.inst_dec(op);
                    bus.write(addr, result);
                },
                Opcode::CpxImm => {
                    let op = self.am_imm(bus);
                    self.inst_cpx(op);
                },
                Opcode::SbcIndX => {
                    let addr = self.am_izx(bus);
                    let op = bus.read(addr);
                    self.inst_sbc(op);
                },
                Opcode::CpxZp => {
                    let addr = self.am_zp(bus);
                    let op = bus.read(addr);
                    self.inst_cpx(op);
                },
                Opcode::SbcZp => {
                    let addr = self.am_zp(bus);
                    let op = bus.read(addr);
                    self.inst_sbc(op);
                },
                Opcode::IncZp => {
                    let addr = self.am_zp(bus);
                    let op = bus.read(addr);
                    let result = self.inst_inc(op);
                    bus.write(addr, result);
                },
                Opcode::Inx => {
                    self.inst_inx();
                },
                Opcode::SbcImm => {
                    let op = self.am_imm(bus);
                    self.inst_sbc(op);
                },
                Opcode::Nop => {
                    // A NOP really does nothing.
                },
                Opcode::CpxAbs => {
                    let addr = self.am_abs(bus);
                    let op = bus.read(addr);
                    self.inst_cpx(op);
                },
                Opcode::SbcAbs => {
                    let addr = self.am_abs(bus);
                    let op = bus.read(addr);
                    self.inst_sbc(op);
                },
                Opcode::IncAbs => {
                    let addr = self.am_abs(bus);
                    let op = bus.read(addr);
                    let result = self.inst_inc(op);
                    bus.write(addr, result);
                },
                Opcode::Beq => {
                    let offset = self.am_rel(bus);
                    self.inst_beq(offset);
                },
                Opcode::SbcIndY => {
                    let (addr, extra_cycle) = self.am_izy(bus);
                    if extra_cycle {
                        self.cycles = self.cycles + 1;
                    }
                    let op = bus.read(addr);
                    self.inst_sbc(op);
                },
                Opcode::SbcZpX => {
                    let addr = self.am_zpx(bus);
                    let op = bus.read(addr);
                    self.inst_sbc(op);
                },
                Opcode::IncZpX => {
                    let addr = self.am_zpx(bus);
                    let op = bus.read(addr);
                    let result = self.inst_inc(op);
                    bus.write(addr, result);
                },
                Opcode::Sed => {
                    self.inst_sed();
                },
                Opcode::SbcAbsY => {
                    let (addr, extra_cycle) = self.am_aby(bus);
                    if extra_cycle {
                        self.cycles = self.cycles + 1;
                    }
                    let op = bus.read(addr);
                    self.inst_sbc(op);
                },
                Opcode::SbcAbsX => {
                    let (addr, extra_cycle) = self.am_abx(bus);
                    if extra_cycle {
                        self.cycles = self.cycles + 1;
                    }
                    let op = bus.read(addr);
                    self.inst_sbc(op);
                },
                Opcode::IncAbsX => {
                    let (addr, _) = self.am_abx(bus);
                    let op = bus.read(addr);
                    let result = self.inst_inc(op);
                    bus.write(addr, result);
                },
            }

            proof {
                lemma_base_cycles_at_least_two(opcode);
            }
            self.cycles = self.cycles + opcode.cycles();
        }
        self.cycles = self.cycles - 1;
    }
}

} // verus!
