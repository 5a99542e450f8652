//! Multiply-add and multiply-subtract (`MADD`, `MSUB`, with their aliases
//! `MUL` and `MNEG`).
//!
//! The emitted code multiplies with `imul` (whose low 64 or 32 bits are the
//! same for signed and unsigned operands), then adds the product to the
//! addend or subtracts it from the addend; a W form zero-extends its 32-bit
//! result. [`plan_mul`] decides everything the emitted code depends on;
//! [`lemma_mul_matches_architecture`] shows that the sequence computes the
//! AArch64 result.

use crate::dynasm::emit::{data_slot_of, dst_slot, src_slot};
use crate::insn::{A64Insn, A64Opcode};
use crate::regs::REG_XZR;
use vstd::arithmetic::div_mod::{lemma_add_mod_noop, lemma_small_mod, lemma_sub_mod_noop};
use vstd::prelude::*;

verus! {

/// Everything the emitted code of a multiply-add or multiply-subtract
/// depends on.
#[derive(Debug, Clone, Copy, PartialEq, Eq, Structural)]
pub struct MulPlan {
    pub rd_slot: usize,
    pub rn_slot: usize,
    pub rm_slot: usize,
    /// Slot of the addend (XZR, which reads as zero, for `MUL` and `MNEG`).
    pub ra_slot: usize,
    /// The product is subtracted from the addend (`MSUB`, `MNEG`).
    pub subtract: bool,
    pub wide: bool,
}

/// The plan of a multiply-add or multiply-subtract (`None` for any other
/// instruction).
pub open spec fn mul_plan(insn: A64Insn) -> Option<MulPlan> {
    let plan = |ra_slot: usize, subtract: bool| Some(
        MulPlan {
            rd_slot: data_slot_of(insn.rd),
            rn_slot: data_slot_of(insn.rn),
            rm_slot: data_slot_of(insn.rm),
            ra_slot,
            subtract,
            wide: insn.sf,
        },
    );
    match insn.opcode {
        A64Opcode::Madd => plan(data_slot_of(insn.ra), false),
        A64Opcode::Mul => plan(REG_XZR, false),
        A64Opcode::Msub => plan(data_slot_of(insn.ra), true),
        A64Opcode::Mneg => plan(REG_XZR, true),
        _ => None,
    }
}

/// Plan a multiply-add or multiply-subtract.
pub fn plan_mul(insn: &A64Insn) -> (p: Option<MulPlan>)
    ensures
        p == mul_plan(*insn),
{
    let (ra_slot, subtract) = match insn.opcode {
        A64Opcode::Madd => (src_slot(insn.ra), false),
        A64Opcode::Mul => (REG_XZR, false),
        A64Opcode::Msub => (src_slot(insn.ra), true),
        A64Opcode::Mneg => (REG_XZR, true),
        _ => {
            return None;
        },
    };
    Some(
        MulPlan {
            rd_slot: dst_slot(insn.rd),
            rn_slot: src_slot(insn.rn),
            rm_slot: src_slot(insn.rm),
            ra_slot,
            subtract,
            wide: insn.sf,
        },
    )
}

/// 2 to the register width.
pub open spec fn mul_modulus(wide: bool) -> int {
    if wide {
        0x1_0000_0000_0000_0000
    } else {
        0x1_0000_0000
    }
}

/// The value the emitted sequence stores, from the sources `n`, `m` and
/// the addend `a` (0 when the addend slot is XZR): `imul` keeps the low bits
/// of the product, then `add`/`sub` wrap, all modulo the register width.
pub open spec fn planned_mul(p: MulPlan, n: u64, m: u64, a: u64) -> u64 {
    let w = mul_modulus(p.wide);
    let product = ((n as int % w) * (m as int % w)) % w;
    let addend = a as int % w;
    (if p.subtract {
        (addend - product) % w
    } else {
        (product + addend) % w
    }) as u64
}

/// AArch64 `MADD`/`MSUB`: `Ra + Rn * Rm` or `Ra - Rn * Rm` on the operands
/// taken as unsigned `datasize`-bit values, modulo 2^datasize.
pub open spec fn a64_mul(insn: A64Insn, n: u64, m: u64, a: u64) -> u64 {
    let w = mul_modulus(insn.sf);
    let (x, y, z) = (n as int % w, m as int % w, a as int % w);
    (if insn.opcode == A64Opcode::Msub || insn.opcode == A64Opcode::Mneg {
        (z - x * y) % w
    } else {
        (z + x * y) % w
    }) as u64
}

/// The emitted sequence computes the AArch64 result for all sources and
/// addends (the addend of `MUL` and `MNEG` being XZR, which reads as zero).
pub proof fn lemma_mul_matches_architecture(insn: A64Insn, n: u64, m: u64, a: u64)
    requires
        mul_plan(insn) is Some,
    ensures
        planned_mul(mul_plan(insn)->Some_0, n, m, a) == a64_mul(insn, n, m, a),
{
    let w = mul_modulus(insn.sf);
    let x = n as int % w;
    let y = m as int % w;
    let z = a as int % w;
    lemma_small_mod(z as nat, w as nat);
    lemma_small_mod((x * y % w) as nat, w as nat);
    lemma_add_mod_noop(x * y, z, w);
    lemma_sub_mod_noop(z, x * y, w);
    assert(x * y + z == z + x * y);
}

} // verus!
