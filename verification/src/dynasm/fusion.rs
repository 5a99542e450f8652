//! Instruction-fusion detection for the AArch64 dynasm backend.
//!
//! Two common two-instruction patterns are emitted as one unit, which skips
//! the intermediate NZCV write:
//! - F1: `CMP Xn, #imm` (a `SUBS` immediate whose destination is register 31)
//!   followed by `B.cond`;
//! - F2: `SUBS Xd, Xn, #1` with a real destination followed by `B.NE`
//!   (condition code 1), the loop-decrement idiom.
//!
//! The detector reads only an instruction's opcode, destination register,
//! immediate and condition code. Both patterns end in a conditional branch,
//! whose taken path leaves through a side exit, so like a lone conditional
//! branch a fused pair keeps its block open.

use crate::dynasm::EmitOutcome;
use crate::insn::{A64Insn, A64Opcode};
use vstd::prelude::*;

verus! {

/// A detected fusable pair (the two instructions are the first two of the
/// window handed to [`try_fuse`]).
#[derive(Debug, Clone, Copy, PartialEq, Eq, Structural)]
pub enum FusedPair {
    /// F1: `CMP Xn, #imm` immediately followed by `B.cond`.
    CmpBranch,
    /// F2: `SUBS Xd, Xn, #1` immediately followed by `B.NE`.
    SubsBne,
}

/// `insn` is a CMP immediate: `SUBS` immediate writing register 31.
pub open spec fn is_cmp_imm_spec(insn: A64Insn) -> bool {
    insn.opcode == A64Opcode::SubsImm && insn.rd == 31
}

/// The pair the window `insns` starts with, if any.
pub open spec fn fused_pair_of(insns: Seq<A64Insn>) -> Option<FusedPair> {
    if insns.len() < 2 {
        None
    } else if is_cmp_imm_spec(insns[0]) && insns[1].opcode == A64Opcode::BCond {
        Some(FusedPair::CmpBranch)
    } else if insns[0].opcode == A64Opcode::SubsImm && insns[0].imm == 1 && insns[0].rd != 31
        && insns[1].opcode == A64Opcode::BCond && insns[1].cond == 1 {
        Some(FusedPair::SubsBne)
    } else {
        None
    }
}

/// Returns true if `insn` is a CMP immediate (SUBS with rd == 31).
pub fn is_cmp_imm(insn: &A64Insn) -> (r: bool)
    ensures
        r == is_cmp_imm_spec(*insn),
{
    insn.opcode == A64Opcode::SubsImm && insn.rd == 31
}

/// Try to detect a fusable pair at the start of `insns`: the pair and the
/// number of instructions it consumes (always 2).
pub fn try_fuse(insns: &[A64Insn]) -> (r: Option<(FusedPair, usize)>)
    ensures
        r == (match fused_pair_of(insns@) {
            Some(p) => Some((p, 2usize)),
            None => None,
        }),
{
    if insns.len() < 2 {
        return None;
    }
    let a = &insns[0];
    let b = &insns[1];
    if is_cmp_imm(a) && b.opcode == A64Opcode::BCond {
        return Some((FusedPair::CmpBranch, 2));
    }
    if a.opcode == A64Opcode::SubsImm && a.imm == 1 && a.rd != 31 && b.opcode == A64Opcode::BCond
        && b.cond == 1 {
        return Some((FusedPair::SubsBne, 2));
    }
    None
}

/// The walk outcome of an emitted fused pair: both instructions, and the
/// block goes on with the not-taken path.
pub fn fused_outcome(pair: FusedPair) -> (r: EmitOutcome)
    ensures
        r == (EmitOutcome::Emitted { consumed: 2, terminates: false }),
{
    EmitOutcome::Emitted { consumed: 2, terminates: false }
}

} // verus!
