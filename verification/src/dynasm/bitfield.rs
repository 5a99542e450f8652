//! The signed and unsigned bitfield moves (`SBFM`, with its aliases `ASR`,
//! `SXTB`, `SXTH`, `SXTW`, `SBFX`, `SBFIZ`, and `UBFM`, with `LSR`, `LSL`,
//! `UXTB`, `UXTH`, `UBFX`, `UBFIZ`) as short x86-64 shift-and-mask
//! sequences.
//!
//! [`plan_sbfm`] and [`plan_ubfm`] pick the sequence from the instruction's
//! `sf`, `immr` and `imms`; the emitter runs it on `rax` (64-bit form) or
//! `eax` (32-bit form, the result then zero-extended).
//! [`lemma_sbfm_plan_correct`] and [`lemma_ubfm_plan_correct`] show that the
//! sequences compute the architectural results.

use crate::dynasm::emit::{low_mask, low_mask_spec};
use crate::insn::A64Insn;
use vstd::prelude::*;

verus! {

/// The shape of the x86-64 sequence of an `SBFM`.
#[derive(Debug, Clone, Copy, PartialEq, Eq, Structural)]
pub enum SbfmShape {
    /// `sar` by `shift` (nothing when 0): `ASR`.
    ArithShiftRight { shift: u32 },
    /// Sign-extend the low `from_bits` bits (`movsx` for 8, 16 and 32 bits,
    /// otherwise `shl`/`sar` by the register width minus `from_bits`).
    SignExtend { from_bits: u32 },
    /// `shr` by `lsb`, then `shl`/`sar` by the register width minus `width`:
    /// `SBFX`.
    Extract { lsb: u32, width: u32 },
    /// `shl`/`sar` by the register width minus `src_bits`, then `shl` by
    /// `dst_pos`: `SBFIZ`.
    Insert { src_bits: u32, dst_pos: u32 },
}

/// The x86-64 sequence of an `SBFM`: on 64 bits (`wide`) or 32 bits.
#[derive(Debug, Clone, Copy, PartialEq, Eq, Structural)]
pub struct BitfieldPlan {
    pub wide: bool,
    pub shape: SbfmShape,
}

/// The register width of the instruction's form.
pub open spec fn datasize(sf: bool) -> u32 {
    if sf {
        64
    } else {
        32
    }
}

/// `immr` and `imms` are below the register width, as the decoder gives them.
pub open spec fn sbfm_fields_ok(insn: A64Insn) -> bool {
    0 <= insn.imm < datasize(insn.sf) && insn.imm2 < datasize(insn.sf) as u64
}

/// The sequence the emitter uses for an `SBFM` with `immr = insn.imm` and
/// `imms = insn.imm2`.
pub open spec fn sbfm_plan(insn: A64Insn) -> BitfieldPlan {
    let n = datasize(insn.sf);
    let immr = insn.imm as u32;
    let imms = insn.imm2 as u32;
    let shape = if imms == n - 1 {
        SbfmShape::ArithShiftRight { shift: immr }
    } else if immr == 0 {
        SbfmShape::SignExtend { from_bits: (imms + 1) as u32 }
    } else if imms >= immr {
        SbfmShape::Extract { lsb: immr, width: (imms - immr + 1) as u32 }
    } else {
        SbfmShape::Insert { src_bits: (imms + 1) as u32, dst_pos: (n - immr) as u32 }
    };
    BitfieldPlan { wide: insn.sf, shape }
}

/// Pick the x86-64 sequence of an `SBFM`.
pub fn plan_sbfm(insn: &A64Insn) -> (p: BitfieldPlan)
    requires
        sbfm_fields_ok(*insn),
    ensures
        p == sbfm_plan(*insn),
{
    let n: u32 = if insn.sf {
        64
    } else {
        32
    };
    let immr = insn.imm as u32;
    let imms = insn.imm2 as u32;
    let shape = if imms == n - 1 {
        SbfmShape::ArithShiftRight { shift: immr }
    } else if immr == 0 {
        SbfmShape::SignExtend { from_bits: imms + 1 }
    } else if imms >= immr {
        SbfmShape::Extract { lsb: immr, width: imms - immr + 1 }
    } else {
        SbfmShape::Insert { src_bits: imms + 1, dst_pos: n - immr }
    };
    BitfieldPlan { wide: insn.sf, shape }
}

// ── What the x86-64 instructions compute ────────────────────────────────────

/// `sar r64, s`.
pub open spec fn sar64(x: u64, s: u32) -> u64 {
    ((x as i64) >> s) as u64
}

/// `shl` then `sar` of a 64-bit register by `s`: the low `64 - s` bits
/// sign-extended.
pub open spec fn sext_shift64(x: u64, s: u32) -> u64 {
    sar64(x << s, s)
}

/// `sar r32, s`.
pub open spec fn sar32(x: u32, s: u32) -> u32 {
    ((x as i32) >> s) as u32
}

/// `shl` then `sar` of a 32-bit register by `s`.
pub open spec fn sext_shift32(x: u32, s: u32) -> u32 {
    sar32(x << s, s)
}

/// The value the planned sequence leaves in `rax`, from the source value
/// `x` (a 32-bit sequence works on `eax` and zero-extends its result).
pub open spec fn sbfm_exec(p: BitfieldPlan, x: u64) -> u64 {
    if p.wide {
        match p.shape {
            SbfmShape::ArithShiftRight { shift } => if shift == 0 {
                x
            } else {
                sar64(x, shift)
            },
            SbfmShape::SignExtend { from_bits } => sext_shift64(x, (64 - from_bits) as u32),
            SbfmShape::Extract { lsb, width } => sext_shift64(x >> lsb, (64 - width) as u32),
            SbfmShape::Insert { src_bits, dst_pos } => sext_shift64(x, (64 - src_bits) as u32)
                << dst_pos,
        }
    } else {
        let w = x as u32;
        (match p.shape {
            SbfmShape::ArithShiftRight { shift } => if shift == 0 {
                w
            } else {
                sar32(w, shift)
            },
            SbfmShape::SignExtend { from_bits } => sext_shift32(w, (32 - from_bits) as u32),
            SbfmShape::Extract { lsb, width } => sext_shift32(w >> lsb, (32 - width) as u32),
            SbfmShape::Insert { src_bits, dst_pos } => sext_shift32(w, (32 - src_bits) as u32)
                << dst_pos,
        }) as u64
    }
}

// ── The architectural result ────────────────────────────────────────────────

/// The `w` low bits of `v` (1 <= w <= 64), sign-extended to 64 bits: bit
/// `w - 1` is copied into every bit above it.
pub open spec fn sign_extend64(v: u64, w: u32) -> u64 {
    let field = v & (if w >= 64 {
        u64::MAX
    } else {
        ((1u64 << w) - 1) as u64
    });
    if (v >> ((w - 1) as u32)) & 1 == 1 {
        field | !(if w >= 64 {
            u64::MAX
        } else {
            ((1u64 << w) - 1) as u64
        })
    } else {
        field
    }
}

/// The same on 32 bits (1 <= w <= 32).
pub open spec fn sign_extend32(v: u32, w: u32) -> u32 {
    let field = v & (if w >= 32 {
        u32::MAX
    } else {
        ((1u32 << w) - 1) as u32
    });
    if (v >> ((w - 1) as u32)) & 1 == 1 {
        field | !(if w >= 32 {
            u32::MAX
        } else {
            ((1u32 << w) - 1) as u32
        })
    } else {
        field
    }
}

/// The AArch64 result of `SBFM Xd, Xn, #immr, #imms` (or the W form, whose
/// 32-bit result is zero-extended) on source `x`: with `imms >= immr`, bits
/// `imms..immr` of the source moved to the bottom and sign-extended from
/// their top bit; otherwise the low `imms + 1` bits sign-extended and moved
/// up to bit `datasize - immr`, zeros below.
pub open spec fn a64_sbfm(sf: bool, immr: u32, imms: u32, x: u64) -> u64 {
    if sf {
        if imms >= immr {
            sign_extend64(x >> immr, (imms - immr + 1) as u32)
        } else {
            sign_extend64(x, (imms + 1) as u32) << ((64 - immr) as u32)
        }
    } else {
        let w = x as u32;
        (if imms >= immr {
            sign_extend32(w >> immr, (imms - immr + 1) as u32)
        } else {
            sign_extend32(w, (imms + 1) as u32) << ((32 - immr) as u32)
        }) as u64
    }
}

proof fn lemma_sext_shift64(v: u64, w: u32)
    requires
        1 <= w <= 64,
    ensures
        (if w == 64 {
            v
        } else {
            sext_shift64(v, (64 - w) as u32)
        }) == sign_extend64(v, w),
{
    if w == 64 {
        assert(sign_extend64(v, 64) == v) by (bit_vector);
    } else {
        let s = (64 - w) as u32;
        assert(sar64(v << s, s) == sign_extend64(v, w)) by (bit_vector)
            requires
                1 <= w < 64,
                s == 64 - w,
        ;
    }
}

proof fn lemma_sext_shift32(v: u32, w: u32)
    requires
        1 <= w <= 32,
    ensures
        (if w == 32 {
            v
        } else {
            sext_shift32(v, (32 - w) as u32)
        }) == sign_extend32(v, w),
{
    if w == 32 {
        assert(sign_extend32(v, 32) == v) by (bit_vector);
    } else {
        let s = (32 - w) as u32;
        assert(sar32(v << s, s) == sign_extend32(v, w)) by (bit_vector)
            requires
                1 <= w < 32,
                s == 32 - w,
        ;
    }
}

/// The planned x86-64 sequence computes the AArch64 `SBFM` result, for
/// every source value and every `immr`/`imms` the decoder produces.
pub proof fn lemma_sbfm_plan_correct(insn: A64Insn, x: u64)
    requires
        sbfm_fields_ok(insn),
    ensures
        sbfm_exec(sbfm_plan(insn), x) == a64_sbfm(insn.sf, insn.imm as u32, insn.imm2 as u32, x),
{
    let immr = insn.imm as u32;
    let imms = insn.imm2 as u32;
    if insn.sf {
        if imms == 63 {
            if immr == 0 {
                assert(sign_extend64(x >> 0u32, 64) == x) by (bit_vector);
            } else {
                let w = (64 - immr) as u32;
                assert(sar64(x, immr) == sign_extend64(x >> immr, w)) by (bit_vector)
                    requires
                        1 <= immr < 64,
                        w == 64 - immr,
                ;
            }
        } else if immr == 0 {
            lemma_sext_shift64(x, (imms + 1) as u32);
            assert(x >> 0u32 == x) by (bit_vector);
        } else if imms >= immr {
            lemma_sext_shift64(x >> immr, (imms - immr + 1) as u32);
        } else {
            lemma_sext_shift64(x, (imms + 1) as u32);
        }
    } else {
        let w32 = x as u32;
        if imms == 31 {
            if immr == 0 {
                assert(sign_extend32(w32 >> 0u32, 32) == w32) by (bit_vector);
            } else {
                let w = (32 - immr) as u32;
                assert(sar32(w32, immr) == sign_extend32(w32 >> immr, w)) by (bit_vector)
                    requires
                        1 <= immr < 32,
                        w == 32 - immr,
                ;
            }
        } else if immr == 0 {
            lemma_sext_shift32(w32, (imms + 1) as u32);
            assert(w32 >> 0u32 == w32) by (bit_vector);
        } else if imms >= immr {
            lemma_sext_shift32(w32 >> immr, (imms - immr + 1) as u32);
        } else {
            lemma_sext_shift32(w32, (imms + 1) as u32);
        }
    }
}

// ── UBFM ────────────────────────────────────────────────────────────────────

/// The shape of the x86-64 sequence of a `UBFM`.
#[derive(Debug, Clone, Copy, PartialEq, Eq, Structural)]
pub enum UbfmShape {
    /// `shr` by `shift` (nothing when 0), then `and` with `mask` (nothing
    /// when it is all ones): `LSR`, `UBFX`, `UXTB`, `UXTH`.
    Extract { shift: u32, mask: u64 },
    /// `and` with `mask` (nothing when it is all ones), then `shl` by
    /// `shift`: `LSL`, `UBFIZ`.
    Insert { mask: u64, shift: u32 },
}

/// The x86-64 sequence of a `UBFM`: on 64 bits (`wide`) or 32 bits (the
/// mask then taken to its low 32 bits).
#[derive(Debug, Clone, Copy, PartialEq, Eq, Structural)]
pub struct UbfmPlan {
    pub wide: bool,
    pub shape: UbfmShape,
}

/// The sequence the emitter uses for a `UBFM` with `immr = insn.imm` and
/// `imms = insn.imm2`.
pub open spec fn ubfm_plan(insn: A64Insn) -> UbfmPlan {
    let immr = insn.imm as u32;
    let imms = insn.imm2 as u32;
    let shape = if imms >= immr {
        UbfmShape::Extract { shift: immr, mask: low_mask_spec((imms - immr + 1) as u32) }
    } else {
        UbfmShape::Insert { mask: low_mask_spec((imms + 1) as u32), shift: (datasize(insn.sf) - immr) as u32 }
    };
    UbfmPlan { wide: insn.sf, shape }
}

/// Pick the x86-64 sequence of a `UBFM`.
pub fn plan_ubfm(insn: &A64Insn) -> (p: UbfmPlan)
    requires
        sbfm_fields_ok(*insn),
    ensures
        p == ubfm_plan(*insn),
{
    let n: u32 = if insn.sf {
        64
    } else {
        32
    };
    let immr = insn.imm as u32;
    let imms = insn.imm2 as u32;
    let shape = if imms >= immr {
        UbfmShape::Extract { shift: immr, mask: low_mask(imms - immr + 1) }
    } else {
        UbfmShape::Insert { mask: low_mask(imms + 1), shift: n - immr }
    };
    UbfmPlan { wide: insn.sf, shape }
}

/// The value the planned sequence leaves in `rax`, from the source value
/// `x` (a 32-bit sequence works on `eax`, masks with the mask's low 32 bits
/// unless they are all ones, and zero-extends its result).
pub open spec fn ubfm_exec(p: UbfmPlan, x: u64) -> u64 {
    if p.wide {
        match p.shape {
            UbfmShape::Extract { shift, mask } => {
                let y = if shift == 0 {
                    x
                } else {
                    x >> shift
                };
                if mask == u64::MAX {
                    y
                } else {
                    y & mask
                }
            },
            UbfmShape::Insert { mask, shift } => (if mask == u64::MAX {
                x
            } else {
                x & mask
            }) << shift,
        }
    } else {
        let w = x as u32;
        (match p.shape {
            UbfmShape::Extract { shift, mask } => {
                let y = if shift == 0 {
                    w
                } else {
                    w >> shift
                };
                if mask as u32 == u32::MAX {
                    y
                } else {
                    y & (mask as u32)
                }
            },
            UbfmShape::Insert { mask, shift } => (if mask as u32 == u32::MAX {
                w
            } else {
                w & (mask as u32)
            }) << shift,
        }) as u64
    }
}

/// The AArch64 result of `UBFM Xd, Xn, #immr, #imms` (or the W form, whose
/// 32-bit result is zero-extended) on source `x`: with `imms >= immr`, bits
/// `imms..immr` of the source moved to the bottom, zeros above; otherwise
/// the low `imms + 1` bits moved up to bit `datasize - immr`, zeros around
/// them.
pub open spec fn a64_ubfm(sf: bool, immr: u32, imms: u32, x: u64) -> u64 {
    if sf {
        if imms >= immr {
            (x >> immr) & low_mask_spec((imms - immr + 1) as u32)
        } else {
            (x & low_mask_spec((imms + 1) as u32)) << ((64 - immr) as u32)
        }
    } else {
        let w = x as u32;
        let field_mask = |width: u32| ((1u64 << width) - 1) as u32;
        (if imms >= immr {
            (w >> immr) & field_mask((imms - immr + 1) as u32)
        } else {
            (w & field_mask((imms + 1) as u32)) << ((32 - immr) as u32)
        }) as u64
    }
}

/// The planned x86-64 sequence computes the AArch64 `UBFM` result, for
/// every source value and every `immr`/`imms` the decoder produces.
pub proof fn lemma_ubfm_plan_correct(insn: A64Insn, x: u64)
    requires
        sbfm_fields_ok(insn),
    ensures
        ubfm_exec(ubfm_plan(insn), x) == a64_ubfm(insn.sf, insn.imm as u32, insn.imm2 as u32, x),
{
    let immr = insn.imm as u32;
    let imms = insn.imm2 as u32;
    let width: u32 = if imms >= immr {
        (imms - immr + 1) as u32
    } else {
        (imms + 1) as u32
    };
    if insn.sf {
        let y = x >> immr;
        assert(x >> 0u32 == x && y & u64::MAX == y && x & u64::MAX == x) by (bit_vector)
            requires
                y == x >> immr,
        ;
    } else {
        let w = x as u32;
        let m = low_mask_spec(width);
        let y = w >> immr;
        assert(w >> 0u32 == w && y & u32::MAX == y && w & u32::MAX == w && (m as u32) == ((1u64
            << width) - 1) as u32) by (bit_vector)
            requires
                1 <= width <= 32,
                y == w >> immr,
                m == (if width >= 64 {
                    u64::MAX
                } else {
                    ((1u64 << width) - 1) as u64
                }),
        ;
    }
}

} // verus!
