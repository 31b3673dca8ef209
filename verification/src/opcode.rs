//! A total mapping from 8-bit opcode bytes to instruction descriptors.
//!
//! Every one of the 256 opcode bytes resolves to a variant; undocumented
//! bytes degrade to `Nop` with a conservative base cycle count, matching the
//! architectural absence of faulting behaviour. The byte 0x02 is repurposed
//! by this platform as `FlagAcc` (see `step`).

use vstd::prelude::*;

verus! {

/// One documented instruction form: mnemonic plus addressing mode.
#[derive(Clone, Copy, Debug, PartialEq, Eq, Structural)]
pub enum Opcode {
    Brk,
    OraIndX,
    FlagAcc,
    OraZp,
    AslZp,
    Php,
    OraImm,
    AslAcc,
    OraAbs,
    AslAbs,
    Bpl,
    OraIndY,
    OraZpX,
    AslZpX,
    Clc,
    OraAbsY,
    OraAbsX,
    AslAbsX,
    JsrAbs,
    AndIndX,
    BitZp,
    AndZp,
    RolZp,
    Plp,
    AndImm,
    RolAcc,
    BitAbs,
    AndAbs,
    RolAbs,
    Bmi,
    AndIndY,
    AndZpX,
    RolZpX,
    Sec,
    AndAbsY,
    AndAbsX,
    RolAbsX,
    Rti,
    EorIndX,
    EorZp,
    LsrZp,
    Pha,
    EorImm,
    LsrAcc,
    JmpAbs,
    EorAbs,
    LsrAbs,
    Bvc,
    EorIndY,
    EorZpX,
    LsrZpX,
    Cli,
    EorAbsY,
    EorAbsX,
    LsrAbsX,
    Rts,
    AdcIndX,
    AdcZp,
    RorZp,
    Pla,
    AdcImm,
    RorAcc,
    JmpInd,
    AdcAbs,
    RorAbs,
    Bvs,
    AdcIndY,
    AdcZpX,
    RorZpX,
    Sei,
    AdcAbsY,
    AdcAbsX,
    RorAbsX,
    StaIndX,
    StyZp,
    StaZp,
    StxZp,
    Dey,
    Txa,
    StyAbs,
    StaAbs,
    StxAbs,
    Bcc,
    StaIndY,
    StyZpX,
    StaZpX,
    StxZpY,
    Tya,
    StaAbsY,
    Txs,
    StaAbsX,
    LdyImm,
    LdaIndX,
    LdxImm,
    LdyZp,
    LdaZp,
    LdxZp,
    Tay,
    LdaImm,
    Tax,
    LdyAbs,
    LdaAbs,
    LdxAbs,
    Bcs,
    LdaIndY,
    LdyZpX,
    LdaZpX,
    LdxZpY,
    Clv,
    LdaAbsY,
    Tsx,
    LdyAbsX,
    LdaAbsX,
    LdxAbsY,
    CpyImm,
    CmpIndX,
    CpyZp,
    CmpZp,
    DecZp,
    Iny,
    CmpImm,
    Dex,
    CpyAbs,
    CmpAbs,
    DecAbs,
    Bne,
    CmpIndY,
    CmpZpX,
    DecZpX,
    Cld,
    CmpAbsY,
    CmpAbsX,
    DecAbsX,
    CpxImm,
    SbcIndX,
    CpxZp,
    SbcZp,
    IncZp,
    Inx,
    SbcImm,
    Nop,
    CpxAbs,
    SbcAbs,
    IncAbs,
    Beq,
    SbcIndY,
    SbcZpX,
    IncZpX,
    Sed,
    SbcAbsY,
    SbcAbsX,
    IncAbsX,
}

/// The descriptor each opcode byte decodes to; bytes without a documented
/// form decode to `Nop`.
pub open spec fn opcode_of_byte(b: u8) -> Opcode {
    match b {
        0x00 => Opcode::Brk,
        0x01 => Opcode::OraIndX,
        0x02 => Opcode::FlagAcc,
        0x05 => Opcode::OraZp,
        0x06 => Opcode::AslZp,
        0x08 => Opcode::Php,
        0x09 => Opcode::OraImm,
        0x0A => Opcode::AslAcc,
        0x0D => Opcode::OraAbs,
        0x0E => Opcode::AslAbs,
        0x10 => Opcode::Bpl,
        0x11 => Opcode::OraIndY,
        0x15 => Opcode::OraZpX,
        0x16 => Opcode::AslZpX,
        0x18 => Opcode::Clc,
        0x19 => Opcode::OraAbsY,
        0x1D => Opcode::OraAbsX,
        0x1E => Opcode::AslAbsX,
        0x20 => Opcode::JsrAbs,
        0x21 => Opcode::AndIndX,
        0x24 => Opcode::BitZp,
        0x25 => Opcode::AndZp,
        0x26 => Opcode::RolZp,
        0x28 => Opcode::Plp,
        0x29 => Opcode::AndImm,
        0x2A => Opcode::RolAcc,
        0x2C => Opcode::BitAbs,
        0x2D => Opcode::AndAbs,
        0x2E => Opcode::RolAbs,
        0x30 => Opcode::Bmi,
        0x31 => Opcode::AndIndY,
        0x35 => Opcode::AndZpX,
        0x36 => Opcode::RolZpX,
        0x38 => Opcode::Sec,
        0x39 => Opcode::AndAbsY,
        0x3D => Opcode::AndAbsX,
        0x3E => Opcode::RolAbsX,
        0x40 => Opcode::Rti,
        0x41 => Opcode::EorIndX,
        0x45 => Opcode::EorZp,
        0x46 => Opcode::LsrZp,
        0x48 => Opcode::Pha,
        0x49 => Opcode::EorImm,
        0x4A => Opcode::LsrAcc,
        0x4C => Opcode::JmpAbs,
        0x4D => Opcode::EorAbs,
        0x4E => Opcode::LsrAbs,
        0x50 => Opcode::Bvc,
        0x51 => Opcode::EorIndY,
        0x55 => Opcode::EorZpX,
        0x56 => Opcode::LsrZpX,
        0x58 => Opcode::Cli,
        0x59 => Opcode::EorAbsY,
        0x5D => Opcode::EorAbsX,
        0x5E => Opcode::LsrAbsX,
        0x60 => Opcode::Rts,
        0x61 => Opcode::AdcIndX,
        0x65 => Opcode::AdcZp,
        0x66 => Opcode::RorZp,
        0x68 => Opcode::Pla,
        0x69 => Opcode::AdcImm,
        0x6A => Opcode::RorAcc,
        0x6C => Opcode::JmpInd,
        0x6D => Opcode::AdcAbs,
        0x6E => Opcode::RorAbs,
        0x70 => Opcode::Bvs,
        0x71 => Opcode::AdcIndY,
        0x75 => Opcode::AdcZpX,
        0x76 => Opcode::RorZpX,
        0x78 => Opcode::Sei,
        0x79 => Opcode::AdcAbsY,
        0x7D => Opcode::AdcAbsX,
        0x7E => Opcode::RorAbsX,
        0x81 => Opcode::StaIndX,
        0x84 => Opcode::StyZp,
        0x85 => Opcode::StaZp,
        0x86 => Opcode::StxZp,
        0x88 => Opcode::Dey,
        0x8A => Opcode::Txa,
        0x8C => Opcode::StyAbs,
        0x8D => Opcode::StaAbs,
        0x8E => Opcode::StxAbs,
        0x90 => Opcode::Bcc,
        0x91 => Opcode::StaIndY,
        0x94 => Opcode::StyZpX,
        0x95 => Opcode::StaZpX,
        0x96 => Opcode::StxZpY,
        0x98 => Opcode::Tya,
        0x99 => Opcode::StaAbsY,
        0x9A => Opcode::Txs,
        0x9D => Opcode::StaAbsX,
        0xA0 => Opcode::LdyImm,
        0xA1 => Opcode::LdaIndX,
        0xA2 => Opcode::LdxImm,
        0xA4 => Opcode::LdyZp,
        0xA5 => Opcode::LdaZp,
        0xA6 => Opcode::LdxZp,
        0xA8 => Opcode::Tay,
        0xA9 => Opcode::LdaImm,
        0xAA => Opcode::Tax,
        0xAC => Opcode::LdyAbs,
        0xAD => Opcode::LdaAbs,
        0xAE => Opcode::LdxAbs,
        0xB0 => Opcode::Bcs,
        0xB1 => Opcode::LdaIndY,
        0xB4 => Opcode::LdyZpX,
        0xB5 => Opcode::LdaZpX,
        0xB6 => Opcode::LdxZpY,
        0xB8 => Opcode::Clv,
        0xB9 => Opcode::LdaAbsY,
        0xBA => Opcode::Tsx,
        0xBC => Opcode::LdyAbsX,
        0xBD => Opcode::LdaAbsX,
        0xBE => Opcode::LdxAbsY,
        0xC0 => Opcode::CpyImm,
        0xC1 => Opcode::CmpIndX,
        0xC4 => Opcode::CpyZp,
        0xC5 => Opcode::CmpZp,
        0xC6 => Opcode::DecZp,
        0xC8 => Opcode::Iny,
        0xC9 => Opcode::CmpImm,
        0xCA => Opcode::Dex,
        0xCC => Opcode::CpyAbs,
        0xCD => Opcode::CmpAbs,
        0xCE => Opcode::DecAbs,
        0xD0 => Opcode::Bne,
        0xD1 => Opcode::CmpIndY,
        0xD5 => Opcode::CmpZpX,
        0xD6 => Opcode::DecZpX,
        0xD8 => Opcode::Cld,
        0xD9 => Opcode::CmpAbsY,
        0xDD => Opcode::CmpAbsX,
        0xDE => Opcode::DecAbsX,
        0xE0 => Opcode::CpxImm,
        0xE1 => Opcode::SbcIndX,
        0xE4 => Opcode::CpxZp,
        0xE5 => Opcode::SbcZp,
        0xE6 => Opcode::IncZp,
        0xE8 => Opcode::Inx,
        0xE9 => Opcode::SbcImm,
        0xEA => Opcode::Nop,
        0xEC => Opcode::CpxAbs,
        0xED => Opcode::SbcAbs,
        0xEE => Opcode::IncAbs,
        0xF0 => Opcode::Beq,
        0xF1 => Opcode::SbcIndY,
        0xF5 => Opcode::SbcZpX,
        0xF6 => Opcode::IncZpX,
        0xF8 => Opcode::Sed,
        0xF9 => Opcode::SbcAbsY,
        0xFD => Opcode::SbcAbsX,
        0xFE => Opcode::IncAbsX,
        _ => Opcode::Nop,
    }
}

/// Base cycle count of each instruction form, before page-cross and
/// branch-taken penalties.
pub open spec fn base_cycles(op: Opcode) -> u8 {
    match op {
        Opcode::Brk => 7,
        Opcode::OraIndX => 6,
        Opcode::FlagAcc => 2,
        Opcode::OraZp => 3,
        Opcode::AslZp => 5,
        Opcode::Php => 3,
        Opcode::OraImm => 2,
        Opcode::AslAcc => 2,
        Opcode::OraAbs => 4,
        Opcode::AslAbs => 6,
        Opcode::Bpl => 2,
        Opcode::OraIndY => 5,
        Opcode::OraZpX => 4,
        Opcode::AslZpX => 6,
        Opcode::Clc => 2,
        Opcode::OraAbsY => 4,
        Opcode::OraAbsX => 4,
        Opcode::AslAbsX => 7,
        Opcode::JsrAbs => 6,
        Opcode::AndIndX => 6,
        Opcode::BitZp => 3,
        Opcode::AndZp => 3,
        Opcode::RolZp => 5,
        Opcode::Plp => 4,
        Opcode::AndImm => 2,
        Opcode::RolAcc => 2,
        Opcode::BitAbs => 4,
        Opcode::AndAbs => 4,
        Opcode::RolAbs => 6,
        Opcode::Bmi => 2,
        Opcode::AndIndY => 5,
        Opcode::AndZpX => 4,
        Opcode::RolZpX => 6,
        Opcode::Sec => 2,
        Opcode::AndAbsY => 4,
        Opcode::AndAbsX => 4,
        Opcode::RolAbsX => 7,
        Opcode::Rti => 6,
        Opcode::EorIndX => 6,
        Opcode::EorZp => 3,
        Opcode::LsrZp => 5,
        Opcode::Pha => 3,
        Opcode::EorImm => 2,
        Opcode::LsrAcc => 2,
        Opcode::JmpAbs => 3,
        Opcode::EorAbs => 4,
        Opcode::LsrAbs => 6,
        Opcode::Bvc => 2,
        Opcode::EorIndY => 5,
        Opcode::EorZpX => 4,
        Opcode::LsrZpX => 6,
        Opcode::Cli => 2,
        Opcode::EorAbsY => 4,
        Opcode::EorAbsX => 4,
        Opcode::LsrAbsX => 7,
        Opcode::Rts => 6,
        Opcode::AdcIndX => 6,
        Opcode::AdcZp => 3,
        Opcode::RorZp => 5,
        Opcode::Pla => 4,
        Opcode::AdcImm => 2,
        Opcode::RorAcc => 2,
        Opcode::JmpInd => 5,
        Opcode::AdcAbs => 4,
        Opcode::RorAbs => 6,
        Opcode::Bvs => 2,
        Opcode::AdcIndY => 5,
        Opcode::AdcZpX => 4,
        Opcode::RorZpX => 6,
        Opcode::Sei => 2,
        Opcode::AdcAbsY => 4,
        Opcode::AdcAbsX => 4,
        Opcode::RorAbsX => 7,
        Opcode::StaIndX => 6,
        Opcode::StyZp => 3,
        Opcode::StaZp => 3,
        Opcode::StxZp => 3,
        Opcode::Dey => 2,
        Opcode::Txa => 2,
        Opcode::StyAbs => 4,
        Opcode::StaAbs => 4,
        Opcode::StxAbs => 4,
        Opcode::Bcc => 2,
        Opcode::StaIndY => 6,
        Opcode::StyZpX => 4,
        Opcode::StaZpX => 4,
        Opcode::StxZpY => 4,
        Opcode::Tya => 2,
        Opcode::StaAbsY => 5,
        Opcode::Txs => 2,
        Opcode::StaAbsX => 5,
        Opcode::LdyImm => 2,
        Opcode::LdaIndX => 6,
        Opcode::LdxImm => 2,
        Opcode::LdyZp => 3,
        Opcode::LdaZp => 3,
        Opcode::LdxZp => 3,
        Opcode::Tay => 2,
        Opcode::LdaImm => 2,
        Opcode::Tax => 2,
        Opcode::LdyAbs => 4,
        Opcode::LdaAbs => 4,
        Opcode::LdxAbs => 4,
        Opcode::Bcs => 2,
        Opcode::LdaIndY => 5,
        Opcode::LdyZpX => 4,
        Opcode::LdaZpX => 4,
        Opcode::LdxZpY => 4,
        Opcode::Clv => 2,
        Opcode::LdaAbsY => 4,
        Opcode::Tsx => 2,
        Opcode::LdyAbsX => 4,
        Opcode::LdaAbsX => 4,
        Opcode::LdxAbsY => 4,
        Opcode::CpyImm => 2,
        Opcode::CmpIndX => 6,
        Opcode::CpyZp => 3,
        Opcode::CmpZp => 3,
        Opcode::DecZp => 5,
        Opcode::Iny => 2,
        Opcode::CmpImm => 2,
        Opcode::Dex => 2,
        Opcode::CpyAbs => 4,
        Opcode::CmpAbs => 4,
        Opcode::DecAbs => 6,
        Opcode::Bne => 2,
        Opcode::CmpIndY => 5,
        Opcode::CmpZpX => 4,
        Opcode::DecZpX => 6,
        Opcode::Cld => 2,
        Opcode::CmpAbsY => 4,
        Opcode::CmpAbsX => 4,
        Opcode::DecAbsX => 7,
        Opcode::CpxImm => 2,
        Opcode::SbcIndX => 6,
        Opcode::CpxZp => 3,
        Opcode::SbcZp => 3,
        Opcode::IncZp => 5,
        Opcode::Inx => 2,
        Opcode::SbcImm => 2,
        Opcode::Nop => 2,
        Opcode::CpxAbs => 4,
        Opcode::SbcAbs => 4,
        Opcode::IncAbs => 6,
        Opcode::Beq => 2,
        Opcode::SbcIndY => 5,
        Opcode::SbcZpX => 4,
        Opcode::IncZpX => 6,
        Opcode::Sed => 2,
        Opcode::SbcAbsY => 4,
        Opcode::SbcAbsX => 4,
        Opcode::IncAbsX => 7,
    }
}

impl Opcode {
    /// Decodes an opcode byte; total, with undocumented bytes as `Nop`.
    pub fn of_byte(b: u8) -> (op: Opcode)
        ensures
            op == opcode_of_byte(b),
    {
        match b {
            0x00 => Opcode::Brk,
            0x01 => Opcode::OraIndX,
            0x02 => Opcode::FlagAcc,
            0x05 => Opcode::OraZp,
            0x06 => Opcode::AslZp,
            0x08 => Opcode::Php,
            0x09 => Opcode::OraImm,
            0x0A => Opcode::AslAcc,
            0x0D => Opcode::OraAbs,
            0x0E => Opcode::AslAbs,
            0x10 => Opcode::Bpl,
            0x11 => Opcode::OraIndY,
            0x15 => Opcode::OraZpX,
            0x16 => Opcode::AslZpX,
            0x18 => Opcode::Clc,
            0x19 => Opcode::OraAbsY,
            0x1D => Opcode::OraAbsX,
            0x1E => Opcode::AslAbsX,
            0x20 => Opcode::JsrAbs,
            0x21 => Opcode::AndIndX,
            0x24 => Opcode::BitZp,
            0x25 => Opcode::AndZp,
            0x26 => Opcode::RolZp,
            0x28 => Opcode::Plp,
            0x29 => Opcode::AndImm,
            0x2A => Opcode::RolAcc,
            0x2C => Opcode::BitAbs,
            0x2D => Opcode::AndAbs,
            0x2E => Opcode::RolAbs,
            0x30 => Opcode::Bmi,
            0x31 => Opcode::AndIndY,
            0x35 => Opcode::AndZpX,
            0x36 => Opcode::RolZpX,
            0x38 => Opcode::Sec,
            0x39 => Opcode::AndAbsY,
            0x3D => Opcode::AndAbsX,
            0x3E => Opcode::RolAbsX,
            0x40 => Opcode::Rti,
            0x41 => Opcode::EorIndX,
            0x45 => Opcode::EorZp,
            0x46 => Opcode::LsrZp,
            0x48 => Opcode::Pha,
            0x49 => Opcode::EorImm,
            0x4A => Opcode::LsrAcc,
            0x4C => Opcode::JmpAbs,
            0x4D => Opcode::EorAbs,
            0x4E => Opcode::LsrAbs,
            0x50 => Opcode::Bvc,
            0x51 => Opcode::EorIndY,
            0x55 => Opcode::EorZpX,
            0x56 => Opcode::LsrZpX,
            0x58 => Opcode::Cli,
            0x59 => Opcode::EorAbsY,
            0x5D => Opcode::EorAbsX,
            0x5E => Opcode::LsrAbsX,
            0x60 => Opcode::Rts,
            0x61 => Opcode::AdcIndX,
            0x65 => Opcode::AdcZp,
            0x66 => Opcode::RorZp,
            0x68 => Opcode::Pla,
            0x69 => Opcode::AdcImm,
            0x6A => Opcode::RorAcc,
            0x6C => Opcode::JmpInd,
            0x6D => Opcode::AdcAbs,
            0x6E => Opcode::RorAbs,
            0x70 => Opcode::Bvs,
            0x71 => Opcode::AdcIndY,
            0x75 => Opcode::AdcZpX,
            0x76 => Opcode::RorZpX,
            0x78 => Opcode::Sei,
            0x79 => Opcode::AdcAbsY,
            0x7D => Opcode::AdcAbsX,
            0x7E => Opcode::RorAbsX,
            0x81 => Opcode::StaIndX,
            0x84 => Opcode::StyZp,
            0x85 => Opcode::StaZp,
            0x86 => Opcode::StxZp,
            0x88 => Opcode::Dey,
            0x8A => Opcode::Txa,
            0x8C => Opcode::StyAbs,
            0x8D => Opcode::StaAbs,
            0x8E => Opcode::StxAbs,
            0x90 => Opcode::Bcc,
            0x91 => Opcode::StaIndY,
            0x94 => Opcode::StyZpX,
            0x95 => Opcode::StaZpX,
            0x96 => Opcode::StxZpY,
            0x98 => Opcode::Tya,
            0x99 => Opcode::StaAbsY,
            0x9A => Opcode::Txs,
            0x9D => Opcode::StaAbsX,
            0xA0 => Opcode::LdyImm,
            0xA1 => Opcode::LdaIndX,
            0xA2 => Opcode::LdxImm,
            0xA4 => Opcode::LdyZp,
            0xA5 => Opcode::LdaZp,
            0xA6 => Opcode::LdxZp,
            0xA8 => Opcode::Tay,
            0xA9 => Opcode::LdaImm,
            0xAA => Opcode::Tax,
            0xAC => Opcode::LdyAbs,
            0xAD => Opcode::LdaAbs,
            0xAE => Opcode::LdxAbs,
            0xB0 => Opcode::Bcs,
            0xB1 => Opcode::LdaIndY,
            0xB4 => Opcode::LdyZpX,
            0xB5 => Opcode::LdaZpX,
            0xB6 => Opcode::LdxZpY,
            0xB8 => Opcode::Clv,
            0xB9 => Opcode::LdaAbsY,
            0xBA => Opcode::Tsx,
            0xBC => Opcode::LdyAbsX,
            0xBD => Opcode::LdaAbsX,
            0xBE => Opcode::LdxAbsY,
            0xC0 => Opcode::CpyImm,
            0xC1 => Opcode::CmpIndX,
            0xC4 => Opcode::CpyZp,
            0xC5 => Opcode::CmpZp,
            0xC6 => Opcode::DecZp,
            0xC8 => Opcode::Iny,
            0xC9 => Opcode::CmpImm,
            0xCA => Opcode::Dex,
            0xCC => Opcode::CpyAbs,
            0xCD => Opcode::CmpAbs,
            0xCE => Opcode::DecAbs,
            0xD0 => Opcode::Bne,
            0xD1 => Opcode::CmpIndY,
            0xD5 => Opcode::CmpZpX,
            0xD6 => Opcode::DecZpX,
            0xD8 => Opcode::Cld,
            0xD9 => Opcode::CmpAbsY,
            0xDD => Opcode::CmpAbsX,
            0xDE => Opcode::DecAbsX,
            0xE0 => Opcode::CpxImm,
            0xE1 => Opcode::SbcIndX,
            0xE4 => Opcode::CpxZp,
            0xE5 => Opcode::SbcZp,
            0xE6 => Opcode::IncZp,
            0xE8 => Opcode::Inx,
            0xE9 => Opcode::SbcImm,
            0xEA => Opcode::Nop,
            0xEC => Opcode::CpxAbs,
            0xED => Opcode::SbcAbs,
            0xEE => Opcode::IncAbs,
            0xF0 => Opcode::Beq,
            0xF1 => Opcode::SbcIndY,
            0xF5 => Opcode::SbcZpX,
            0xF6 => Opcode::IncZpX,
            0xF8 => Opcode::Sed,
            0xF9 => Opcode::SbcAbsY,
            0xFD => Opcode::SbcAbsX,
            0xFE => Opcode::IncAbsX,
            _ => Opcode::Nop,
        }
    }

    /// Base cycle count of this instruction form.
    pub fn cycles(&self) -> (c: u8)
        ensures
            c == base_cycles(*self),
    {
        match *self {
            Opcode::Brk => 7,
            Opcode::OraIndX => 6,
            Opcode::FlagAcc => 2,
            Opcode::OraZp => 3,
            Opcode::AslZp => 5,
            Opcode::Php => 3,
            Opcode::OraImm => 2,
            Opcode::AslAcc => 2,
            Opcode::OraAbs => 4,
            Opcode::AslAbs => 6,
            Opcode::Bpl => 2,
            Opcode::OraIndY => 5,
            Opcode::OraZpX => 4,
            Opcode::AslZpX => 6,
            Opcode::Clc => 2,
            Opcode::OraAbsY => 4,
            Opcode::OraAbsX => 4,
            Opcode::AslAbsX => 7,
            Opcode::JsrAbs => 6,
            Opcode::AndIndX => 6,
            Opcode::BitZp => 3,
            Opcode::AndZp => 3,
            Opcode::RolZp => 5,
            Opcode::Plp => 4,
            Opcode::AndImm => 2,
            Opcode::RolAcc => 2,
            Opcode::BitAbs => 4,
            Opcode::AndAbs => 4,
            Opcode::RolAbs => 6,
            Opcode::Bmi => 2,
            Opcode::AndIndY => 5,
            Opcode::AndZpX => 4,
            Opcode::RolZpX => 6,
            Opcode::Sec => 2,
            Opcode::AndAbsY => 4,
            Opcode::AndAbsX => 4,
            Opcode::RolAbsX => 7,
            Opcode::Rti => 6,
            Opcode::EorIndX => 6,
            Opcode::EorZp => 3,
            Opcode::LsrZp => 5,
            Opcode::Pha => 3,
            Opcode::EorImm => 2,
            Opcode::LsrAcc => 2,
            Opcode::JmpAbs => 3,
            Opcode::EorAbs => 4,
            Opcode::LsrAbs => 6,
            Opcode::Bvc => 2,
            Opcode::EorIndY => 5,
            Opcode::EorZpX => 4,
            Opcode::LsrZpX => 6,
            Opcode::Cli => 2,
            Opcode::EorAbsY => 4,
            Opcode::EorAbsX => 4,
            Opcode::LsrAbsX => 7,
            Opcode::Rts => 6,
            Opcode::AdcIndX => 6,
            Opcode::AdcZp => 3,
            Opcode::RorZp => 5,
            Opcode::Pla => 4,
            Opcode::AdcImm => 2,
            Opcode::RorAcc => 2,
            Opcode::JmpInd => 5,
            Opcode::AdcAbs => 4,
            Opcode::RorAbs => 6,
            Opcode::Bvs => 2,
            Opcode::AdcIndY => 5,
            Opcode::AdcZpX => 4,
            Opcode::RorZpX => 6,
            Opcode::Sei => 2,
            Opcode::AdcAbsY => 4,
            Opcode::AdcAbsX => 4,
            Opcode::RorAbsX => 7,
            Opcode::StaIndX => 6,
            Opcode::StyZp => 3,
            Opcode::StaZp => 3,
            Opcode::StxZp => 3,
            Opcode::Dey => 2,
            Opcode::Txa => 2,
            Opcode::StyAbs => 4,
            Opcode::StaAbs => 4,
            Opcode::StxAbs => 4,
            Opcode::Bcc => 2,
            Opcode::StaIndY => 6,
            Opcode::StyZpX => 4,
            Opcode::StaZpX => 4,
            Opcode::StxZpY => 4,
            Opcode::Tya => 2,
            Opcode::StaAbsY => 5,
            Opcode::Txs => 2,
            Opcode::StaAbsX => 5,
            Opcode::LdyImm => 2,
            Opcode::LdaIndX => 6,
            Opcode::LdxImm => 2,
            Opcode::LdyZp => 3,
            Opcode::LdaZp => 3,
            Opcode::LdxZp => 3,
            Opcode::Tay => 2,
            Opcode::LdaImm => 2,
            Opcode::Tax => 2,
            Opcode::LdyAbs => 4,
            Opcode::LdaAbs => 4,
            Opcode::LdxAbs => 4,
            Opcode::Bcs => 2,
            Opcode::LdaIndY => 5,
            Opcode::LdyZpX => 4,
            Opcode::LdaZpX => 4,
            Opcode::LdxZpY => 4,
            Opcode::Clv => 2,
            Opcode::LdaAbsY => 4,
            Opcode::Tsx => 2,
            Opcode::LdyAbsX => 4,
            Opcode::LdaAbsX => 4,
            Opcode::LdxAbsY => 4,
            Opcode::CpyImm => 2,
            Opcode::CmpIndX => 6,
            Opcode::CpyZp => 3,
            Opcode::CmpZp => 3,
            Opcode::DecZp => 5,
            Opcode::Iny => 2,
            Opcode::CmpImm => 2,
            Opcode::Dex => 2,
            Opcode::CpyAbs => 4,
            Opcode::CmpAbs => 4,
            Opcode::DecAbs => 6,
            Opcode::Bne => 2,
            Opcode::CmpIndY => 5,
            Opcode::CmpZpX => 4,
            Opcode::DecZpX => 6,
            Opcode::Cld => 2,
            Opcode::CmpAbsY => 4,
            Opcode::CmpAbsX => 4,
            Opcode::DecAbsX => 7,
            Opcode::CpxImm => 2,
            Opcode::SbcIndX => 6,
            Opcode::CpxZp => 3,
            Opcode::SbcZp => 3,
            Opcode::IncZp => 5,
            Opcode::Inx => 2,
            Opcode::SbcImm => 2,
            Opcode::Nop => 2,
            Opcode::CpxAbs => 4,
            Opcode::SbcAbs => 4,
            Opcode::IncAbs => 6,
            Opcode::Beq => 2,
            Opcode::SbcIndY => 5,
            Opcode::SbcZpX => 4,
            Opcode::IncZpX => 6,
            Opcode::Sed => 2,
            Opcode::SbcAbsY => 4,
            Opcode::SbcAbsX => 4,
            Opcode::IncAbsX => 7,
        }
    }
}

/// Every instruction form costs at least two cycles, the undocumented ones
/// included.
pub proof fn lemma_base_cycles_at_least_two(op: Opcode)
    ensures
        2 <= base_cycles(op) <= 7,
{
}

} // verus!
