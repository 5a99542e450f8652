//! Additions and subtractions of a shifted or extended register (`ADD`,
//! `SUB`, and the flag-setting `ADDS`, `SUBS`, with their aliases `NEG`,
//! `NEGS`, `CMN` and `CMP`).
//!
//! The emitted code loads the first operand into `rax` (`eax` for a W form,
//! zero-extended), the second into `rcx`, shifts `rcx` (or `ecx`) by the
//! instruction's amount unless it is 0, or extends it and shifts it left
//! (as a register offset of a load is formed), and adds or subtracts; a
//! flag-setting form stores the operation and both operands for a later
//! NZCV reader (lazy NZCV). [`plan_reg_arith`] decides everything the
//! emitted code depends on; [`lemma_reg_arith_matches_architecture`] shows
//! that the sequence writes the AArch64 result and that replaying the
//! deferred record gives the NZCV AArch64 sets. Variable shifts (a shift by
//! a register amount) are planned by [`plan_var_shift`] and shown correct by
//! [`lemma_var_shift_matches_architecture`].

use crate::dynasm::emit::{data_slot_of, dst_slot, sp_slot, sp_slot_of, src_slot};
use crate::dynasm::memory::{a64_extend_reg, lemma_extend_matches_architecture, x86_extend};
use crate::dynasm::nzcv::{add_with_carry_nzcv, lemma_materialized_nzcv_is_architectural, materialized_nzcv};
use crate::insn::{A64Insn, A64Opcode};
use crate::regs::FlagOp;
use vstd::arithmetic::div_mod::{lemma_add_mod_noop_right, lemma_small_mod, lemma_sub_mod_noop_right};
use vstd::prelude::*;

verus! {

/// How the second operand is formed from its register.
#[derive(Debug, Clone, Copy, PartialEq, Eq, Structural)]
pub enum Operand2 {
    /// Shifted by `amount` (nothing when 0): `shift_type` 0 `LSL`, 1 `LSR`,
    /// 2 `ASR`, 3 `ROR` (`shl`, `shr`, `sar`, `ror`).
    Shifted { shift_type: u32, amount: u32 },
    /// Extended by `extend_type` (`UXTB` .. `SXTX`), then shifted left by
    /// `amount`, on 64 bits.
    Extended { extend_type: u32, amount: u32 },
}

/// Everything the emitted code of a register addition depends on.
#[derive(Debug, Clone, Copy, PartialEq, Eq, Structural)]
pub struct RegArithPlan {
    /// Destination slot (SP for 31 in `ADD`/`SUB` and the extended forms of
    /// `ADD`/`SUB`, XZR otherwise).
    pub rd_slot: usize,
    /// First operand slot (SP for 31 in `ADD`/`SUB` and every extended form,
    /// XZR otherwise).
    pub rn_slot: usize,
    /// Second operand slot (register 31 is XZR).
    pub rm_slot: usize,
    pub operand2: Operand2,
    pub sub: bool,
    /// The flag operation a flag-setting form defers.
    pub flags: Option<FlagOp>,
    pub wide: bool,
}

/// The flag operation of an addition or subtraction of the given width.
pub open spec fn arith_flag_op(sub: bool, wide: bool) -> FlagOp {
    if sub {
        if wide {
            FlagOp::Sub64
        } else {
            FlagOp::Sub32
        }
    } else if wide {
        FlagOp::Add64
    } else {
        FlagOp::Add32
    }
}

/// The plan of a shifted- or extended-register addition (`None` for any
/// other instruction).
pub open spec fn reg_arith_plan(insn: A64Insn) -> Option<RegArithPlan> {
    let op = insn.opcode;
    let sub = op == A64Opcode::SubReg || op == A64Opcode::SubsReg || op == A64Opcode::SubExt || op
        == A64Opcode::SubsExt;
    let flagged = op == A64Opcode::AddsReg || op == A64Opcode::SubsReg || op == A64Opcode::AddsExt
        || op == A64Opcode::SubsExt;
    let extended = op == A64Opcode::AddExt || op == A64Opcode::SubExt || op == A64Opcode::AddsExt
        || op == A64Opcode::SubsExt;
    if !(extended || op == A64Opcode::AddReg || op == A64Opcode::SubReg || op == A64Opcode::AddsReg
        || op == A64Opcode::SubsReg) {
        None
    } else {
        Some(
            RegArithPlan {
                rd_slot: if flagged {
                    data_slot_of(insn.rd)
                } else {
                    sp_slot_of(insn.rd)
                },
                rn_slot: if flagged && !extended {
                    data_slot_of(insn.rn)
                } else {
                    sp_slot_of(insn.rn)
                },
                rm_slot: data_slot_of(insn.rm),
                operand2: if extended {
                    Operand2::Extended { extend_type: insn.extend_type, amount: insn.extend_amt }
                } else {
                    Operand2::Shifted { shift_type: insn.shift_type, amount: insn.shift_amt }
                },
                sub,
                flags: if flagged {
                    Some(arith_flag_op(sub, insn.sf))
                } else {
                    None
                },
                wide: insn.sf,
            },
        )
    }
}

fn flag_op_for(sub: bool, wide: bool) -> (r: FlagOp)
    ensures
        r == arith_flag_op(sub, wide),
{
    match (sub, wide) {
        (true, true) => FlagOp::Sub64,
        (true, false) => FlagOp::Sub32,
        (false, true) => FlagOp::Add64,
        (false, false) => FlagOp::Add32,
    }
}

/// Plan a shifted- or extended-register addition.
pub fn plan_reg_arith(insn: &A64Insn) -> (p: Option<RegArithPlan>)
    ensures
        p == reg_arith_plan(*insn),
{
    let (sub, flagged, extended) = match insn.opcode {
        A64Opcode::AddReg => (false, false, false),
        A64Opcode::SubReg => (true, false, false),
        A64Opcode::AddsReg => (false, true, false),
        A64Opcode::SubsReg => (true, true, false),
        A64Opcode::AddExt => (false, false, true),
        A64Opcode::SubExt => (true, false, true),
        A64Opcode::AddsExt => (false, true, true),
        A64Opcode::SubsExt => (true, true, true),
        _ => {
            return None;
        },
    };
    Some(
        RegArithPlan {
            rd_slot: if flagged {
                dst_slot(insn.rd)
            } else {
                sp_slot(insn.rd)
            },
            rn_slot: if flagged && !extended {
                src_slot(insn.rn)
            } else {
                sp_slot(insn.rn)
            },
            rm_slot: src_slot(insn.rm),
            operand2: if extended {
                Operand2::Extended { extend_type: insn.extend_type, amount: insn.extend_amt }
            } else {
                Operand2::Shifted { shift_type: insn.shift_type, amount: insn.shift_amt }
            },
            sub,
            flags: if flagged {
                Some(flag_op_for(sub, insn.sf))
            } else {
                None
            },
            wide: insn.sf,
        },
    )
}

/// The low 32 bits of a register value.
pub open spec fn low32(x: u64) -> u32 {
    (x % 0x1_0000_0000) as u32
}

/// A 64-bit shift by `amt` (1..63): `LSL`, `LSR`, `ASR` or `ROR`.
pub open spec fn shift64(shift_type: u32, amt: u32, x: u64) -> u64 {
    if shift_type == 0 {
        x << amt
    } else if shift_type == 1 {
        x >> amt
    } else if shift_type == 2 {
        ((x as i64) >> amt) as u64
    } else {
        (x >> amt) | (x << ((64 - amt) as u32))
    }
}

/// A 32-bit shift by `amt` (1..31): `LSL`, `LSR`, `ASR` or `ROR`.
pub open spec fn shift32(shift_type: u32, amt: u32, x: u32) -> u32 {
    if shift_type == 0 {
        x << amt
    } else if shift_type == 1 {
        x >> amt
    } else if shift_type == 2 {
        ((x as i32) >> amt) as u32
    } else {
        (x >> amt) | (x << ((32 - amt) as u32))
    }
}

/// The first operand as the emitted code holds it: the whole register, or
/// its low 32 bits zero-extended (`mov eax, ...`).
pub open spec fn planned_lhs(p: RegArithPlan, n: u64) -> u64 {
    if p.wide {
        n
    } else {
        low32(n) as u64
    }
}

/// The second operand as `rcx` holds it: the register unchanged for a zero
/// shift, otherwise shifted on 64 bits or, for a W form, on its low 32 bits
/// (zero-extended); an extended operand is formed on 64 bits.
pub open spec fn planned_rhs(p: RegArithPlan, m: u64) -> u64 {
    match p.operand2 {
        Operand2::Shifted { shift_type, amount } => if amount == 0 {
            m
        } else if p.wide {
            shift64(shift_type, amount, m)
        } else {
            shift32(shift_type, amount, low32(m)) as u64
        },
        Operand2::Extended { extend_type, amount } => x86_extend(m, extend_type, amount),
    }
}

/// The value the emitted code stores: `add`/`sub` of the operands, modulo
/// the register width.
pub open spec fn planned_reg_arith(p: RegArithPlan, n: u64, m: u64) -> u64 {
    let w: int = if p.wide {
        0x1_0000_0000_0000_0000
    } else {
        0x1_0000_0000
    };
    let (a, b) = (planned_lhs(p, n) as int, planned_rhs(p, m) as int);
    (if p.sub {
        (a - b) % w
    } else {
        (a + b) % w
    }) as u64
}

/// The record a flag-setting form stores for a later NZCV reader.
pub open spec fn planned_reg_deferred_flags(p: RegArithPlan, n: u64, m: u64) -> Option<(FlagOp, u64, u64)> {
    match p.flags {
        Some(op) => Some((op, planned_lhs(p, n), planned_rhs(p, m))),
        None => None,
    }
}

/// The extended-register forms.
pub open spec fn is_extended_arith(op: A64Opcode) -> bool {
    op == A64Opcode::AddExt || op == A64Opcode::SubExt || op == A64Opcode::AddsExt || op
        == A64Opcode::SubsExt
}

/// AArch64 second operand: `ExtendReg` (the extended register shifted
/// left) for the extended forms, `ShiftReg` (shifted by the amount,
/// unchanged for 0) otherwise, of `datasize` bits.
pub open spec fn a64_shifted_operand(insn: A64Insn, m: u64) -> int {
    if is_extended_arith(insn.opcode) {
        a64_extend_reg(m, insn.extend_type, insn.extend_amt) as int % (if insn.sf {
            0x1_0000_0000_0000_0000int
        } else {
            0x1_0000_0000int
        })
    } else if insn.sf {
        (if insn.shift_amt == 0 {
            m
        } else {
            shift64(insn.shift_type, insn.shift_amt, m)
        }) as int
    } else {
        (if insn.shift_amt == 0 {
            low32(m)
        } else {
            shift32(insn.shift_type, insn.shift_amt, low32(m))
        }) as int
    }
}

/// AArch64 register `ADD`/`SUB` (and the flag-setting forms): the first
/// operand plus or minus the second, modulo 2^datasize.
pub open spec fn a64_reg_arith(insn: A64Insn, n: u64, m: u64) -> u64 {
    let w: int = if insn.sf {
        0x1_0000_0000_0000_0000
    } else {
        0x1_0000_0000
    };
    let a = n as int % w;
    let b = a64_shifted_operand(insn, m);
    (if insn.opcode == A64Opcode::SubReg || insn.opcode == A64Opcode::SubsReg || insn.opcode
        == A64Opcode::SubExt || insn.opcode == A64Opcode::SubsExt {
        (a - b) % w
    } else {
        (a + b) % w
    }) as u64
}

/// AArch64: the NZCV of `ADDS`/`SUBS` (shifted or extended register):
/// `AddWithCarry(a, b, 0)` or `AddWithCarry(a, NOT b, 1)` on `datasize`
/// bits.
pub open spec fn a64_reg_arith_nzcv(insn: A64Insn, n: u64, m: u64) -> u32 {
    let (bits, w): (nat, int) = if insn.sf {
        (64, 0x1_0000_0000_0000_0000)
    } else {
        (32, 0x1_0000_0000)
    };
    let a = n as int % w;
    let b = a64_shifted_operand(insn, m);
    if insn.opcode == A64Opcode::SubsReg || insn.opcode == A64Opcode::SubsExt {
        add_with_carry_nzcv(bits, a, w - 1 - b, 1)
    } else {
        add_with_carry_nzcv(bits, a, b, 0)
    }
}

/// The emitted code writes the AArch64 result for all operands (an
/// extended form for the extend types and amounts the decoder gives), and
/// replaying the record a flag-setting form defers gives the NZCV AArch64
/// sets.
pub proof fn lemma_reg_arith_matches_architecture(insn: A64Insn, n: u64, m: u64)
    requires
        reg_arith_plan(insn) is Some,
        is_extended_arith(insn.opcode) ==> insn.extend_type < 8 && insn.extend_amt < 64,
    ensures
        planned_reg_arith(reg_arith_plan(insn)->Some_0, n, m) == a64_reg_arith(insn, n, m),
        planned_reg_deferred_flags(reg_arith_plan(insn)->Some_0, n, m) matches Some((op, lhs, rhs))
            ==> materialized_nzcv(op, lhs, rhs) == a64_reg_arith_nzcv(insn, n, m),
{
    let p = reg_arith_plan(insn)->Some_0;
    let big: int = 0x1_0000_0000_0000_0000;
    let small: int = 0x1_0000_0000;
    let a = planned_lhs(p, n) as int;
    let b = planned_rhs(p, m) as int;
    lemma_small_mod(n as nat, big as nat);
    lemma_small_mod(m as nat, big as nat);
    lemma_small_mod(a as nat, big as nat);
    lemma_small_mod(b as nat, big as nat);
    if is_extended_arith(insn.opcode) {
        lemma_extend_matches_architecture(m, insn.extend_type, insn.extend_amt);
    }
    if !insn.sf {
        assert(low32(n) as int == n as int % small);
        assert(low32(m) as int == m as int % small);
        lemma_small_mod(a as nat, small as nat);
        if is_extended_arith(insn.opcode) {
            lemma_add_mod_noop_right(a, b, small);
            lemma_sub_mod_noop_right(a, b, small);
        } else if insn.shift_amt == 0 {
            lemma_add_mod_noop_right(a, m as int, small);
            lemma_sub_mod_noop_right(a, m as int, small);
        } else {
            lemma_small_mod(b as nat, small as nat);
        }
    }
    if let Some((op, lhs, rhs)) = planned_reg_deferred_flags(p, n, m) {
        lemma_materialized_nzcv_is_architectural(op, lhs, rhs);
    }
}

// ── Variable shifts ─────────────────────────────────────────────────────────

/// Everything the emitted code of a variable shift (`LSLV`, `LSRV`, `ASRV`,
/// `RORV`, written `LSL`, `LSR`, `ASR`, `ROR` with a register amount)
/// depends on: the amount register is masked to the register width (`and
/// ecx, 63` or `31`) and the value shifted by `cl`.
#[derive(Debug, Clone, Copy, PartialEq, Eq, Structural)]
pub struct VarShiftPlan {
    pub rd_slot: usize,
    pub rn_slot: usize,
    pub rm_slot: usize,
    /// 0 `LSL`, 1 `LSR`, 2 `ASR`, 3 `ROR`.
    pub shift_type: u32,
    pub wide: bool,
}

/// The plan of a variable shift (`None` for any other instruction).
pub open spec fn var_shift_plan(insn: A64Insn) -> Option<VarShiftPlan> {
    let t: u32 = match insn.opcode {
        A64Opcode::Lsl => 0,
        A64Opcode::Lsr => 1,
        A64Opcode::Asr => 2,
        _ => 3,
    };
    match insn.opcode {
        A64Opcode::Lsl | A64Opcode::Lsr | A64Opcode::Asr | A64Opcode::Ror => Some(
            VarShiftPlan {
                rd_slot: data_slot_of(insn.rd),
                rn_slot: data_slot_of(insn.rn),
                rm_slot: data_slot_of(insn.rm),
                shift_type: t,
                wide: insn.sf,
            },
        ),
        _ => None,
    }
}

/// Plan a variable shift.
pub fn plan_var_shift(insn: &A64Insn) -> (p: Option<VarShiftPlan>)
    ensures
        p == var_shift_plan(*insn),
{
    let shift_type: u32 = match insn.opcode {
        A64Opcode::Lsl => 0,
        A64Opcode::Lsr => 1,
        A64Opcode::Asr => 2,
        A64Opcode::Ror => 3,
        _ => {
            return None;
        },
    };
    Some(
        VarShiftPlan {
            rd_slot: dst_slot(insn.rd),
            rn_slot: src_slot(insn.rn),
            rm_slot: src_slot(insn.rm),
            shift_type,
            wide: insn.sf,
        },
    )
}

/// The value the emitted code stores: the first operand (or its low 32
/// bits) shifted by the amount register modulo the width, zero-extended.
pub open spec fn planned_var_shift(p: VarShiftPlan, n: u64, m: u64) -> u64 {
    if p.wide {
        let amt = (m % 64) as u32;
        if amt == 0 {
            n
        } else {
            shift64(p.shift_type, amt, n)
        }
    } else {
        let amt = (m % 32) as u32;
        (if amt == 0 {
            low32(n)
        } else {
            shift32(p.shift_type, amt, low32(n))
        }) as u64
    }
}

/// AArch64 `LSLV`/`LSRV`/`ASRV`/`RORV`: `ShiftReg` of the first operand,
/// of `datasize` bits, by `UInt(Rm) MOD datasize`.
pub open spec fn a64_var_shift(insn: A64Insn, n: u64, m: u64) -> u64 {
    let t: u32 = match insn.opcode {
        A64Opcode::Lsl => 0,
        A64Opcode::Lsr => 1,
        A64Opcode::Asr => 2,
        _ => 3,
    };
    if insn.sf {
        let amt = (m as int % 64) as u32;
        if amt == 0 {
            n
        } else {
            shift64(t, amt, n)
        }
    } else {
        let amt = (m as int % 32) as u32;
        (if amt == 0 {
            low32(n)
        } else {
            shift32(t, amt, low32(n))
        }) as u64
    }
}

/// The emitted variable shift computes the AArch64 result for all operands:
/// masking the amount to the width is the architecture's `MOD datasize`.
pub proof fn lemma_var_shift_matches_architecture(insn: A64Insn, n: u64, m: u64)
    requires
        var_shift_plan(insn) is Some,
    ensures
        planned_var_shift(var_shift_plan(insn)->Some_0, n, m) == a64_var_shift(insn, n, m),
{
}

} // verus!
