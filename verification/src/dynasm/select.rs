//! Conditional selects (`CSEL`, `CSINC`, `CSINV`, `CSNEG`, with their
//! aliases `CSET`, `CSETM`, `CINC`, `CINV`, `CNEG`).
//!
//! The emitted code materialises any deferred NZCV, loads the first source
//! into `rax` and the transformed second source into `rcx` (`add rcx, 1`,
//! `not rcx` or `neg rcx`, on 64 bits), runs the condition check and keeps
//! `rax` when it holds, `rcx` otherwise; a W form zero-extends the low 32
//! bits. [`plan_cond_select`] decides everything the emitted code depends
//! on; [`lemma_cond_select_matches_architecture`] shows that it computes the
//! AArch64 result.

use crate::dynasm::emit::{
    check_taken, cond_check_for, cond_check_spec, condition_holds, data_slot_of, dst_slot,
    lemma_cond_check_matches_architecture, src_slot, CondCheck,
};
use crate::insn::{A64Insn, A64Opcode};
use vstd::arithmetic::div_mod::{
    lemma_add_mod_noop, lemma_mod_mod, lemma_mod_multiples_vanish, lemma_small_mod, lemma_sub_mod_noop,
};
use vstd::prelude::*;

verus! {

/// How the second source is transformed when the condition fails.
#[derive(Debug, Clone, Copy, PartialEq, Eq, Structural)]
pub enum SelectVariant {
    /// `CSEL`: unchanged.
    Plain,
    /// `CSINC`: plus one.
    Increment,
    /// `CSINV`: inverted.
    Invert,
    /// `CSNEG`: negated.
    Negate,
}

/// Everything the emitted code of a conditional select depends on.
#[derive(Debug, Clone, Copy, PartialEq, Eq, Structural)]
pub struct CondSelectPlan {
    pub rd_slot: usize,
    /// Slot of the value taken when the condition holds.
    pub rn_slot: usize,
    /// Slot of the value transformed when it fails.
    pub rm_slot: usize,
    pub check: CondCheck,
    pub variant: SelectVariant,
    pub wide: bool,
}

/// The transform of a conditional-select opcode.
pub open spec fn select_variant(op: A64Opcode) -> SelectVariant {
    match op {
        A64Opcode::Csinc => SelectVariant::Increment,
        A64Opcode::Csinv => SelectVariant::Invert,
        A64Opcode::Csneg => SelectVariant::Negate,
        _ => SelectVariant::Plain,
    }
}

/// The plan of a conditional select (`None` for any other instruction).
pub open spec fn cond_select_plan(insn: A64Insn) -> Option<CondSelectPlan> {
    match insn.opcode {
        A64Opcode::Csel | A64Opcode::Csinc | A64Opcode::Csinv | A64Opcode::Csneg => Some(
            CondSelectPlan {
                rd_slot: data_slot_of(insn.rd),
                rn_slot: data_slot_of(insn.rn),
                rm_slot: data_slot_of(insn.rm),
                check: cond_check_spec(insn.cond),
                variant: select_variant(insn.opcode),
                wide: insn.sf,
            },
        ),
        _ => None,
    }
}

/// Plan a conditional select.
pub fn plan_cond_select(insn: &A64Insn) -> (p: Option<CondSelectPlan>)
    requires
        insn.cond < 16,
    ensures
        p == cond_select_plan(*insn),
{
    let variant = match insn.opcode {
        A64Opcode::Csel => SelectVariant::Plain,
        A64Opcode::Csinc => SelectVariant::Increment,
        A64Opcode::Csinv => SelectVariant::Invert,
        A64Opcode::Csneg => SelectVariant::Negate,
        _ => {
            return None;
        },
    };
    Some(
        CondSelectPlan {
            rd_slot: dst_slot(insn.rd),
            rn_slot: src_slot(insn.rn),
            rm_slot: src_slot(insn.rm),
            check: cond_check_for(insn.cond),
            variant,
            wide: insn.sf,
        },
    )
}

/// The value the emitted code stores, from the two sources `n` and `m` and
/// the NZCV word: the 64-bit `add`, `not` and `neg` wrap, and a W form keeps
/// the low 32 bits.
pub open spec fn planned_cond_select(p: CondSelectPlan, n: u64, m: u64, nzcv: u32) -> u64 {
    let other: int = match p.variant {
        SelectVariant::Plain => m as int,
        SelectVariant::Increment => (m + 1) % 0x1_0000_0000_0000_0000,
        SelectVariant::Invert => (!m) as int,
        SelectVariant::Negate => (0x1_0000_0000_0000_0000 - m) % 0x1_0000_0000_0000_0000,
    };
    let r: int = if check_taken(p.check, nzcv) {
        n as int
    } else {
        other
    };
    (if p.wide {
        r
    } else {
        r % 0x1_0000_0000
    }) as u64
}

/// AArch64 `CSEL`/`CSINC`/`CSINV`/`CSNEG` on `datasize` bits: the first
/// operand when `ConditionHolds(cond)`, otherwise the second operand, plus
/// one, inverted (all ones minus it) or negated, modulo 2^datasize.
pub open spec fn a64_cond_select(insn: A64Insn, n: u64, m: u64, nzcv: u32) -> u64 {
    let w: int = if insn.sf {
        0x1_0000_0000_0000_0000
    } else {
        0x1_0000_0000
    };
    let b = m as int % w;
    let other: int = match insn.opcode {
        A64Opcode::Csinc => (b + 1) % w,
        A64Opcode::Csinv => w - 1 - b,
        A64Opcode::Csneg => (w - b) % w,
        _ => b,
    };
    (if condition_holds(insn.cond, nzcv) {
        n as int % w
    } else {
        other
    }) as u64
}

/// The emitted code computes the AArch64 result of a conditional select for
/// all sources and flags.
pub proof fn lemma_cond_select_matches_architecture(insn: A64Insn, n: u64, m: u64, nzcv: u32)
    requires
        insn.cond < 16,
        cond_select_plan(insn) is Some,
    ensures
        planned_cond_select(cond_select_plan(insn)->Some_0, n, m, nzcv) == a64_cond_select(
            insn,
            n,
            m,
            nzcv,
        ),
{
    lemma_cond_check_matches_architecture(insn.cond, nzcv);
    assert(!m == 0xFFFF_FFFF_FFFF_FFFFu64 - m) by (bit_vector);
    let big: int = 0x1_0000_0000_0000_0000;
    let small: int = 0x1_0000_0000;
    let u = m as int;
    assert(big == small * small);
    lemma_small_mod(m as nat, big as nat);
    lemma_small_mod(n as nat, big as nat);
    if !insn.sf {
        let b = u % small;
        match insn.opcode {
            A64Opcode::Csinc => {
                lemma_mod_mod(u + 1, small, small);
                lemma_add_mod_noop(u, 1, small);
            },
            A64Opcode::Csinv => {
                lemma_mod_multiples_vanish(small, -1 - u, small);
                lemma_mod_multiples_vanish(1, -1 - u, small);
                lemma_sub_mod_noop(small - 1, u, small);
                lemma_small_mod((small - 1) as nat, small as nat);
                lemma_small_mod((small - 1 - b) as nat, small as nat);
            },
            A64Opcode::Csneg => {
                lemma_mod_mod(big - u, small, small);
                lemma_mod_multiples_vanish(small, -u, small);
                lemma_mod_multiples_vanish(1, -b, small);
                lemma_sub_mod_noop(0, u, small);
            },
            _ => {},
        }
    }
}

} // verus!
