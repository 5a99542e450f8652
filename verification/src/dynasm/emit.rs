//! Operand mapping shared by the AArch64 emitters.
//!
//! Register number 31 means the zero register (XZR) in data operands and the
//! stack pointer in address/SP operands; every other register number is its
//! own flat-array slot.
//!
//! Conditional branches test the AArch64 condition on the NZCV word pinned in
//! `ebp` (N = bit 31, Z = bit 30, C = bit 29, V = bit 28) with the checks that
//! [`cond_check_for`] picks: a single bit test, or a short combination for
//! the compound conditions.

use crate::regs::{reg_offset, REG_SP, REG_XZR};
use vstd::prelude::*;

verus! {

/// The slot a data operand names: register 31 is XZR.
pub open spec fn data_slot_of(reg: u32) -> usize {
    if reg == 31 {
        REG_XZR
    } else {
        reg as usize
    }
}

/// The slot an SP-context operand names: register 31 is SP.
pub open spec fn sp_slot_of(reg: u32) -> usize {
    if reg == 31 {
        REG_SP
    } else {
        reg as usize
    }
}

/// Guest slot for a data-processing source: reg 31 = XZR (reads as zero).
pub fn src_slot(reg: u32) -> (r: usize)
    ensures
        r == data_slot_of(reg),
{
    if reg == 31 {
        REG_XZR
    } else {
        reg as usize
    }
}

/// Guest slot for a data-processing destination: reg 31 = XZR (writes are
/// discarded).
pub fn dst_slot(reg: u32) -> (r: usize)
    ensures
        r == data_slot_of(reg),
{
    if reg == 31 {
        REG_XZR
    } else {
        reg as usize
    }
}

/// Guest slot in SP context: reg 31 = SP.
pub fn sp_slot(reg: u32) -> (r: usize)
    ensures
        r == sp_slot_of(reg),
{
    if reg == 31 {
        REG_SP
    } else {
        reg as usize
    }
}

/// Byte offset of a load/store base register: reg 31 = SP.
pub fn base_offset(reg: u32) -> (r: i32)
    requires
        reg < 0x1000_0000,
    ensures
        r == sp_slot_of(reg) * 8,
{
    if reg == 31 {
        reg_offset(REG_SP)
    } else {
        reg_offset(reg as usize)
    }
}

/// Byte offset of a load/store data register: reg 31 = XZR.
pub fn data_offset(reg: u32) -> (r: i32)
    requires
        reg < 0x1000_0000,
    ensures
        r == data_slot_of(reg) * 8,
{
    if reg == 31 {
        reg_offset(REG_XZR)
    } else {
        reg_offset(reg as usize)
    }
}

/// A mask of the `width` low bits (all ones from 64 on).
pub open spec fn low_mask_spec(width: u32) -> u64 {
    if width >= 64 {
        u64::MAX
    } else {
        ((1u64 << width) - 1) as u64
    }
}

/// Mask of the `width` low bits, as the bitfield-move emitters use it.
pub fn low_mask(width: u32) -> (r: u64)
    ensures
        r == low_mask_spec(width),
{
    if width >= 64 {
        u64::MAX
    } else {
        assert((1u64 << width) >= 1) by (bit_vector)
            requires
                width < 64,
        ;
        (1u64 << width) - 1
    }
}

/// The test the emitted code performs on the NZCV word for a condition.
#[derive(Debug, Clone, Copy, PartialEq, Eq, Structural)]
pub enum CondCheck {
    /// `bt ebp, bit`: taken when the bit is set (`set`) or clear (`!set`).
    Bit { bit: u32, set: bool },
    /// HI: C set, then Z clear.
    CarrySetZeroClear,
    /// LS: C clear, or else Z set.
    CarryClearOrZeroSet,
    /// GE: N xor V (bits 31 and 28) clear.
    SignEqualsOverflow,
    /// LT: N xor V set.
    SignDiffersOverflow,
    /// GT: Z clear, then N xor V clear.
    ZeroClearSignEqualsOverflow,
    /// LE: Z set, or else N xor V set.
    ZeroSetOrSignDiffersOverflow,
    /// AL/NV: no test.
    Always,
}

/// Bit `bit` of `w` is set (what `bt` copies into CF).
pub open spec fn bit_set(w: u32, bit: u32) -> bool {
    (w >> bit) & 1 == 1
}

/// Bit 0 of `(w >> 31) ^ (w >> 28)`: N differs from V.
pub open spec fn n_xor_v(w: u32) -> bool {
    ((w >> 31u32) ^ (w >> 28u32)) & 1 == 1
}

/// Whether the emitted check on NZCV word `w` takes the branch.
pub open spec fn check_taken(c: CondCheck, w: u32) -> bool {
    match c {
        CondCheck::Bit { bit, set } => bit_set(w, bit) == set,
        CondCheck::CarrySetZeroClear => bit_set(w, 29) && !bit_set(w, 30),
        CondCheck::CarryClearOrZeroSet => !bit_set(w, 29) || bit_set(w, 30),
        CondCheck::SignEqualsOverflow => !n_xor_v(w),
        CondCheck::SignDiffersOverflow => n_xor_v(w),
        CondCheck::ZeroClearSignEqualsOverflow => !bit_set(w, 30) && !n_xor_v(w),
        CondCheck::ZeroSetOrSignDiffersOverflow => bit_set(w, 30) || n_xor_v(w),
        CondCheck::Always => true,
    }
}

/// The check emitted for each 4-bit condition code.
pub open spec fn cond_check_spec(cond: u32) -> CondCheck {
    if cond == 0 {
        CondCheck::Bit { bit: 30, set: true }
    } else if cond == 1 {
        CondCheck::Bit { bit: 30, set: false }
    } else if cond == 2 {
        CondCheck::Bit { bit: 29, set: true }
    } else if cond == 3 {
        CondCheck::Bit { bit: 29, set: false }
    } else if cond == 4 {
        CondCheck::Bit { bit: 31, set: true }
    } else if cond == 5 {
        CondCheck::Bit { bit: 31, set: false }
    } else if cond == 6 {
        CondCheck::Bit { bit: 28, set: true }
    } else if cond == 7 {
        CondCheck::Bit { bit: 28, set: false }
    } else if cond == 8 {
        CondCheck::CarrySetZeroClear
    } else if cond == 9 {
        CondCheck::CarryClearOrZeroSet
    } else if cond == 10 {
        CondCheck::SignEqualsOverflow
    } else if cond == 11 {
        CondCheck::SignDiffersOverflow
    } else if cond == 12 {
        CondCheck::ZeroClearSignEqualsOverflow
    } else if cond == 13 {
        CondCheck::ZeroSetOrSignDiffersOverflow
    } else {
        CondCheck::Always
    }
}

/// Pick the check for condition code `cond` (EQ, NE, CS, CC, MI, PL, VS,
/// VC, HI, LS, GE, LT, GT, LE, AL, NV).
pub fn cond_check_for(cond: u32) -> (c: CondCheck)
    requires
        cond < 16,
    ensures
        c == cond_check_spec(cond),
{
    match cond {
        0 => CondCheck::Bit { bit: 30, set: true },
        1 => CondCheck::Bit { bit: 30, set: false },
        2 => CondCheck::Bit { bit: 29, set: true },
        3 => CondCheck::Bit { bit: 29, set: false },
        4 => CondCheck::Bit { bit: 31, set: true },
        5 => CondCheck::Bit { bit: 31, set: false },
        6 => CondCheck::Bit { bit: 28, set: true },
        7 => CondCheck::Bit { bit: 28, set: false },
        8 => CondCheck::CarrySetZeroClear,
        9 => CondCheck::CarryClearOrZeroSet,
        10 => CondCheck::SignEqualsOverflow,
        11 => CondCheck::SignDiffersOverflow,
        12 => CondCheck::ZeroClearSignEqualsOverflow,
        13 => CondCheck::ZeroSetOrSignDiffersOverflow,
        _ => CondCheck::Always,
    }
}

/// AArch64 `ConditionHolds`: the base test chosen by `cond<3:1>` on the
/// flags N, Z, C, V (bits 31..28 of `w`), inverted when `cond<0>` is set,
/// except for `0b1111` (NV, which always holds).
pub open spec fn condition_holds(cond: u32, w: u32) -> bool {
    let n = bit_set(w, 31);
    let z = bit_set(w, 30);
    let c = bit_set(w, 29);
    let v = bit_set(w, 28);
    let base = cond >> 1u32;
    let result = if base == 0 {
        z
    } else if base == 1 {
        c
    } else if base == 2 {
        n
    } else if base == 3 {
        v
    } else if base == 4 {
        c && !z
    } else if base == 5 {
        n == v
    } else if base == 6 {
        n == v && !z
    } else {
        true
    };
    if cond & 1 == 1 && cond != 15 {
        !result
    } else {
        result
    }
}

/// The emitted condition check takes a conditional branch exactly when the
/// AArch64 condition holds, for every condition code and NZCV word.
pub proof fn lemma_cond_check_matches_architecture(cond: u32, w: u32)
    requires
        cond < 16,
    ensures
        check_taken(cond_check_spec(cond), w) == condition_holds(cond, w),
{
    assert(n_xor_v(w) == (bit_set(w, 31) != bit_set(w, 28)) && cond >> 1u32 == cond / 2 && (cond & 1
        == 1) == (cond % 2 == 1)) by (bit_vector);
}

} // verus!
