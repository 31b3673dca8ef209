//! The 8-bit processor status register.
//!
//! A single `u8` with one named constant per flag bit, following the
//! architectural layout: C Z I D B U V N at bit positions 0 through 7.
//! The spec functions here are the vocabulary every instruction contract
//! uses to describe flag updates.

use vstd::prelude::*;

verus! {

/// Carry.
pub const FLAG_C: u8 = 0x01;
/// Zero.
pub const FLAG_Z: u8 = 0x02;
/// Interrupt disable.
pub const FLAG_I: u8 = 0x04;
/// Decimal mode; tracked but without arithmetic effect on this variant.
pub const FLAG_D: u8 = 0x08;
/// Break; only ever observed in pushed copies of the register.
pub const FLAG_B: u8 = 0x10;
/// Unused; architecturally set on pushes.
pub const FLAG_U: u8 = 0x20;
/// Signed overflow.
pub const FLAG_V: u8 = 0x40;
/// Negative (bit 7 of the last result).
pub const FLAG_N: u8 = 0x80;

/// Whether the flag bit selected by `mask` is set in `st`.
pub open spec fn flag_set(st: u8, mask: u8) -> bool {
    st & mask != 0
}

/// `st` with the flag bit selected by `mask` forced to `on`.
pub open spec fn with_flag(st: u8, mask: u8, on: bool) -> u8 {
    if on {
        st | mask
    } else {
        st & !mask
    }
}

/// `st` with Z and N updated from the 8-bit result `v`:
/// Z when `v` is zero, N from bit 7 of `v`.
pub open spec fn with_zn(st: u8, v: u8) -> u8 {
    with_flag(with_flag(st, FLAG_Z, v == 0), FLAG_N, v & 0x80 != 0)
}

/// Exec mirror of [`with_flag`].
pub fn status_with_flag(st: u8, mask: u8, on: bool) -> (r: u8)
    ensures
        r == with_flag(st, mask, on),
{
    if on {
        st | mask
    } else {
        st & !mask
    }
}

/// Exec mirror of [`with_zn`].
pub fn status_with_zn(st: u8, v: u8) -> (r: u8)
    ensures
        r == with_zn(st, v),
{
    let zset = status_with_flag(st, FLAG_Z, v == 0);
    status_with_flag(zset, FLAG_N, v & 0x80 != 0)
}

} // verus!
