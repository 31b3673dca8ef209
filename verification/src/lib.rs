//! Cycle-counted emulator core for the NES variant of the 6502 CPU, together
//! with the iNES cartridge loader and the memory-bank-switching (mapper) layer
//! that feeds it.
//!
//! The crate is organised bottom-up:
//! - [`header`] parses the 16-byte iNES preamble;
//! - the `mapper_*` modules implement one bank-switching scheme each, joined
//!   by the tagged [`mapper::Mapper`] dispatcher;
//! - [`cartridge`] owns the PRG/CHR byte arrays and one mapper;
//! - [`bus`] routes CPU-side reads and writes into RAM, PPU-register and
//!   controller latches, APU stubs, and cartridge PRG space;
//! - [`status`] and [`opcode`] give the flag model and the total opcode
//!   descriptor table;
//! - [`cpu`], [`addressing`], [`instructions`] and [`step`] implement the
//!   register file, addressing modes, instruction semantics and the clocked
//!   instruction step, the last proved against the spec-level interpreter
//!   [`step::spec_clock`];
//! - [`laws`] states and proves the cross-cutting properties (stack round
//!   trips, cycle floors, bank-select behaviour);
//! - [`bits`] holds the few bit-level facts the proofs lean on.

use vstd::prelude::*;

pub mod addressing;
pub mod bits;
pub mod bus;
pub mod cartridge;
pub mod cpu;
pub mod header;
pub mod instructions;
pub mod laws;
pub mod mapper;
pub mod mapper_000;
pub mod mapper_001;
pub mod mapper_002;
pub mod mapper_003;
pub mod mapper_004;
pub mod mapper_066;
pub mod opcode;
pub mod status;
pub mod step;

verus! {

/// Privilege level of the CPU; it only selects which of the two configured
/// byte arrays the repurposed opcode 0x02 reads from.
#[derive(Clone, Copy, Debug, PartialEq, Eq, Structural)]
pub enum ExecutionMode {
    Ring0,
    Ring3,
}

/// How the 2 KiB nametable window is aliased across the 4 KiB logical region.
/// The mapper may change this over the cartridge's life.
#[derive(Clone, Copy, Debug, PartialEq, Eq, Structural)]
pub enum Mirroring {
    Horizontal,
    Vertical,
    FourScreen,
    OneScreenLower,
    OneScreenUpper,
}

/// Load-time errors surfaced by `Cartridge::load`. Run-time operations are
/// total and never fail.
#[derive(Clone, Copy, Debug, PartialEq, Eq, Structural)]
pub enum RomParserError {
    TooShort,
    InvalidMagicBytes,
    MapperNotImplemented,
}

} // verus!
