//! Integer division (`SDIV`, `UDIV`).
//!
//! AArch64 division never traps: a zero divisor gives 0 and the signed
//! `INT_MIN / -1` gives `INT_MIN`. x86-64 `div`/`idiv` raise #DE on a zero
//! divisor or a quotient that does not fit, so the emitted code guards both:
//! a zero divisor yields 0, and a signed division by -1 is a negation
//! (`neg`, which wraps `INT_MIN` to itself); only the remaining cases reach
//! `div`/`idiv`. [`plan_div`] decides everything the emitted code depends
//! on; [`lemma_div_matches_architecture`] shows that the sequence computes
//! the AArch64 quotient and that every `div`/`idiv` it executes has a
//! quotient that fits.

use crate::dynasm::emit::{data_slot_of, dst_slot, src_slot};
use crate::dynasm::nzcv::{sint32, sint64};
use crate::insn::{A64Insn, A64Opcode};
use vstd::prelude::*;

verus! {

/// Everything the emitted code of a division depends on.
#[derive(Debug, Clone, Copy, PartialEq, Eq, Structural)]
pub struct DivPlan {
    pub rd_slot: usize,
    /// Dividend slot (register 31 is XZR).
    pub rn_slot: usize,
    /// Divisor slot (register 31 is XZR).
    pub rm_slot: usize,
    /// `SDIV` (`idiv`, with the guard for -1) rather than `UDIV` (`div`).
    pub signed: bool,
    /// 64-bit form; the 32-bit form works on `eax`/`ecx` and zero-extends.
    pub wide: bool,
}

/// The plan of a division (`None` for any other instruction).
pub open spec fn div_plan(insn: A64Insn) -> Option<DivPlan> {
    if insn.opcode == A64Opcode::Sdiv || insn.opcode == A64Opcode::Udiv {
        Some(
            DivPlan {
                rd_slot: data_slot_of(insn.rd),
                rn_slot: data_slot_of(insn.rn),
                rm_slot: data_slot_of(insn.rm),
                signed: insn.opcode == A64Opcode::Sdiv,
                wide: insn.sf,
            },
        )
    } else {
        None
    }
}

/// Plan a division.
pub fn plan_div(insn: &A64Insn) -> (p: Option<DivPlan>)
    ensures
        p == div_plan(*insn),
{
    match insn.opcode {
        A64Opcode::Sdiv | A64Opcode::Udiv => Some(
            DivPlan {
                rd_slot: dst_slot(insn.rd),
                rn_slot: src_slot(insn.rn),
                rm_slot: src_slot(insn.rm),
                signed: insn.opcode == A64Opcode::Sdiv,
                wide: insn.sf,
            },
        ),
        _ => None,
    }
}

/// 2 to the register width.
pub open spec fn width_modulus(wide: bool) -> int {
    if wide {
        0x1_0000_0000_0000_0000
    } else {
        0x1_0000_0000
    }
}

/// A register's value as an operand of the given width, unsigned or signed.
pub open spec fn div_operand(wide: bool, signed: bool, x: u64) -> int {
    let u = x as int % width_modulus(wide);
    if !signed {
        u
    } else if wide {
        sint64(u)
    } else {
        sint32(u)
    }
}

/// `a / b` rounded toward zero (`b != 0`).
pub open spec fn trunc_div(a: int, b: int) -> int {
    let q = (if a >= 0 {
        a
    } else {
        -a
    }) / (if b >= 0 {
        b
    } else {
        -b
    });
    if (a >= 0) == (b >= 0) {
        q
    } else {
        -q
    }
}

/// The emitted sequence reaches `div`/`idiv`: the divisor is neither 0
/// nor, for a signed division, -1.
pub open spec fn reaches_x86_div(p: DivPlan, n: u64, m: u64) -> bool {
    let b = div_operand(p.wide, p.signed, m);
    b != 0 && !(p.signed && b == -1)
}

/// The quotient of `div`/`idiv` on the operands fits the register, so the
/// instruction does not raise #DE.
pub open spec fn x86_quotient_fits(p: DivPlan, n: u64, m: u64) -> bool {
    let q = trunc_div(div_operand(p.wide, p.signed, n), div_operand(p.wide, p.signed, m));
    let half = width_modulus(p.wide) / 2;
    if p.signed {
        -half <= q < half
    } else {
        0 <= q < width_modulus(p.wide)
    }
}

/// The value the emitted sequence leaves in the destination: 0 for a zero
/// divisor, `neg` of the dividend for a signed divisor of -1, otherwise the
/// quotient `div`/`idiv` computes (rounded toward zero), as a pattern of the
/// register width, zero-extended.
pub open spec fn planned_div(p: DivPlan, n: u64, m: u64) -> u64 {
    let a = div_operand(p.wide, p.signed, n);
    let b = div_operand(p.wide, p.signed, m);
    let w = width_modulus(p.wide);
    if b == 0 {
        0
    } else if p.signed && b == -1 {
        ((w - n as int % w) % w) as u64
    } else {
        (trunc_div(a, b) % w) as u64
    }
}

/// AArch64 `SDIV`/`UDIV`: 0 when the divisor is 0, otherwise the operands'
/// quotient rounded toward zero, taken to the register width.
pub open spec fn a64_div(insn: A64Insn, n: u64, m: u64) -> u64 {
    let signed = insn.opcode == A64Opcode::Sdiv;
    let a = div_operand(insn.sf, signed, n);
    let b = div_operand(insn.sf, signed, m);
    if b == 0 {
        0
    } else {
        (trunc_div(a, b) % width_modulus(insn.sf)) as u64
    }
}

proof fn lemma_quotient_bound(x: int, y: int)
    requires
        0 <= x,
        1 <= y,
    ensures
        0 <= x / y <= x,
        y >= 2 ==> x / y <= x / 2,
{
    vstd::arithmetic::div_mod::lemma_div_pos_is_pos(x, y);
    vstd::arithmetic::div_mod::lemma_div_is_ordered_by_denominator(x, 1, y);
    if y >= 2 {
        vstd::arithmetic::div_mod::lemma_div_is_ordered_by_denominator(x, 2, y);
    }
}

/// The emitted sequence computes the AArch64 quotient for all operands, and
/// every `div`/`idiv` it executes has a quotient that fits the register.
pub proof fn lemma_div_matches_architecture(insn: A64Insn, n: u64, m: u64)
    requires
        div_plan(insn) is Some,
    ensures
        planned_div(div_plan(insn)->Some_0, n, m) == a64_div(insn, n, m),
        reaches_x86_div(div_plan(insn)->Some_0, n, m) ==> x86_quotient_fits(
            div_plan(insn)->Some_0,
            n,
            m,
        ),
{
    let p = div_plan(insn)->Some_0;
    let w = width_modulus(p.wide);
    let half = w / 2;
    let u = n as int % w;
    let a = div_operand(p.wide, p.signed, n);
    let b = div_operand(p.wide, p.signed, m);
    assert(0 <= u < w);
    assert(p.signed ==> -half <= a < half && -half <= b < half);
    assert(!p.signed ==> 0 <= a < w && 0 <= b < w);
    let abs_a = if a >= 0 {
        a
    } else {
        -a
    };
    let abs_b = if b >= 0 {
        b
    } else {
        -b
    };
    if b != 0 {
        lemma_quotient_bound(abs_a, abs_b);
    }
    if p.signed && b == -1 {
        // neg: the result is -u modulo the width, and -a is -u modulo it.
        assert(abs_a / 1 == abs_a);
        assert(trunc_div(a, b) == -a);
        assert(a == u || a == u - w);
        if u == 0 {
            assert((w - u) % w == 0);
        } else {
            assert((w - u) % w == w - u);
        }
        if a == u {
            vstd::arithmetic::div_mod::lemma_mod_add_multiples_vanish(-u, w);
        } else {
            vstd::arithmetic::div_mod::lemma_small_mod((w - u) as nat, w as nat);
        }
    }
}

} // verus!
