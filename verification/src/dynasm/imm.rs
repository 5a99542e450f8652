//! PC-relative addresses (`ADR`, `ADRP`), wide moves (`MOVZ`, `MOVN`,
//! `MOVK`) and additions and subtractions of an immediate (`ADD`, `SUB`,
//! and the flag-setting `ADDS`, `SUBS`, with their aliases `MOV` to or from
//! SP, `CMN` and `CMP`).
//!
//! A flag-setting form does not compute NZCV: it stores the operation and
//! its operands beside the flat registers (lazy NZCV), and a later reader
//! replays them. [`plan_imm`] decides everything the emitted code depends
//! on; [`lemma_imm_plan_matches_architecture`] shows that the emitted code
//! writes the AArch64 result and that replaying the deferred record gives
//! the NZCV the AArch64 instruction sets.

use crate::dynasm::emit::{data_slot_of, dst_slot, sp_slot, sp_slot_of, src_slot};
use crate::dynasm::rv64::emit::{branch_target, branch_target_spec};
use crate::dynasm::nzcv::{
    add_with_carry_nzcv, lemma_materialized_nzcv_is_architectural, materialized_nzcv,
};
use crate::insn::{A64Insn, A64Opcode};
use crate::regs::FlagOp;
use vstd::prelude::*;

verus! {

/// The operation the emitted code performs.
#[derive(Debug, Clone, Copy, PartialEq, Eq, Structural)]
pub enum ImmOp {
    /// `mov rax, value`: `ADR` and `ADRP` (the address, computed when the
    /// block is compiled), `MOVZ` and `MOVN` (the decoder gives the final
    /// value; a W form keeps its low 32 bits).
    Constant { value: u64 },
    /// `and rax, mask; or rax, bits` on the destination: `MOVK`.
    Keep { mask: u64, bits: u64 },
    /// `add`/`sub` of the immediate, on `rax` or `eax`.
    AddSub { sub: bool, imm: i64 },
    /// The same, with the flags deferred as `flags` over the source value
    /// and the immediate.
    AddSubFlags { sub: bool, imm: i64, flags: FlagOp },
}

/// Everything the emitted code of a wide move or immediate addition depends
/// on.
#[derive(Debug, Clone, Copy, PartialEq, Eq, Structural)]
pub struct ImmPlan {
    /// Destination slot (SP for 31 in `ADD`/`SUB`, XZR otherwise).
    pub rd_slot: usize,
    /// Source slot (SP for 31 in `ADD`/`SUB`, XZR otherwise; the
    /// destination for `MOVK`; unused for `MOVZ`/`MOVN`).
    pub rn_slot: usize,
    /// 64-bit (X) form; a W form's result is zero-extended.
    pub wide: bool,
    pub op: ImmOp,
}

/// The page `ADRP` addresses: the PC with its low 12 bits cleared, plus
/// `imm` pages of 4 KiB, modulo 2^64.
pub open spec fn adrp_page(pc: u64, imm: i64) -> int {
    ((pc & !0xFFFu64) + imm * 4096) % 0x1_0000_0000_0000_0000
}

/// The 16-bit field position of a `MOVK` (`hw * 16`, the decoder's `imm2`).
pub open spec fn movk_shift(insn: A64Insn) -> u64 {
    (insn.imm2 * 16) as u64
}

/// The plan of a PC-relative address, wide move or immediate addition
/// (`None` for any other instruction).
pub open spec fn imm_plan(insn: A64Insn) -> Option<ImmPlan> {
    let narrow = |v: u64| if insn.sf {
        v
    } else {
        v & 0xFFFF_FFFFu64
    };
    let flags = |sub: bool| if sub {
        if insn.sf {
            FlagOp::Sub64
        } else {
            FlagOp::Sub32
        }
    } else if insn.sf {
        FlagOp::Add64
    } else {
        FlagOp::Add32
    };
    let constant = |value: u64| Some(
        ImmPlan {
            rd_slot: data_slot_of(insn.rd),
            rn_slot: data_slot_of(insn.rd),
            wide: true,
            op: ImmOp::Constant { value },
        },
    );
    match insn.opcode {
        A64Opcode::Adr => constant(branch_target_spec(insn.pc, insn.imm) as u64),
        A64Opcode::Adrp => constant(adrp_page(insn.pc, insn.imm) as u64),
        A64Opcode::Movz | A64Opcode::Movn => Some(
            ImmPlan {
                rd_slot: data_slot_of(insn.rd),
                rn_slot: data_slot_of(insn.rd),
                wide: insn.sf,
                op: ImmOp::Constant { value: narrow(insn.imm as u64) },
            },
        ),
        A64Opcode::Movk => Some(
            ImmPlan {
                rd_slot: data_slot_of(insn.rd),
                rn_slot: data_slot_of(insn.rd),
                wide: true,
                op: ImmOp::Keep {
                    mask: !(0xFFFFu64 << movk_shift(insn)),
                    bits: ((insn.imm as u64) & 0xFFFFu64) << movk_shift(insn),
                },
            },
        ),
        A64Opcode::AddImm | A64Opcode::SubImm => Some(
            ImmPlan {
                rd_slot: sp_slot_of(insn.rd),
                rn_slot: sp_slot_of(insn.rn),
                wide: insn.sf,
                op: ImmOp::AddSub { sub: insn.opcode == A64Opcode::SubImm, imm: insn.imm },
            },
        ),
        A64Opcode::AddsImm | A64Opcode::SubsImm => Some(
            ImmPlan {
                rd_slot: data_slot_of(insn.rd),
                rn_slot: data_slot_of(insn.rn),
                wide: insn.sf,
                op: ImmOp::AddSubFlags {
                    sub: insn.opcode == A64Opcode::SubsImm,
                    imm: insn.imm,
                    flags: flags(insn.opcode == A64Opcode::SubsImm),
                },
            },
        ),
        _ => None,
    }
}

/// The decoder's `MOVK` field position fits a 64-bit register.
pub open spec fn imm_fields_ok(insn: A64Insn) -> bool {
    insn.opcode == A64Opcode::Movk ==> insn.imm2 < 4
}

/// The flag operation a flag-setting immediate addition defers.
fn adds_flag_op(sub: bool, wide: bool) -> (r: FlagOp)
    ensures
        r == (if sub {
            if wide {
                FlagOp::Sub64
            } else {
                FlagOp::Sub32
            }
        } else if wide {
            FlagOp::Add64
        } else {
            FlagOp::Add32
        }),
{
    match (sub, wide) {
        (true, true) => FlagOp::Sub64,
        (true, false) => FlagOp::Sub32,
        (false, true) => FlagOp::Add64,
        (false, false) => FlagOp::Add32,
    }
}

/// Plan a PC-relative address, wide move or immediate addition.
pub fn plan_imm(insn: &A64Insn) -> (p: Option<ImmPlan>)
    requires
        imm_fields_ok(*insn),
    ensures
        p == imm_plan(*insn),
{
    match insn.opcode {
        A64Opcode::Adr | A64Opcode::Adrp => {
            let value = if insn.opcode == A64Opcode::Adr {
                branch_target(insn.pc, insn.imm)
            } else {
                let offset = insn.imm.wrapping_mul(4096);
                let page = branch_target(insn.pc & !0xFFFu64, offset);
                proof {
                    let x: int = insn.imm * 4096;
                    let big: int = 0x1_0000_0000_0000_0000;
                    let k: int = (insn.pc & !0xFFFu64) as int;
                    assert(offset as int == x % big || offset as int == x % big - big);
                    vstd::arithmetic::div_mod::lemma_add_mod_noop(k, x, big);
                    vstd::arithmetic::div_mod::lemma_add_mod_noop(k, offset as int, big);
                    if offset as int == x % big - big {
                        vstd::arithmetic::div_mod::lemma_mod_multiples_vanish(-1, x % big, big);
                        vstd::arithmetic::div_mod::lemma_mod_twice(x, big);
                    } else {
                        vstd::arithmetic::div_mod::lemma_mod_twice(x, big);
                    }
                }
                page
            };
            Some(
                ImmPlan {
                    rd_slot: dst_slot(insn.rd),
                    rn_slot: dst_slot(insn.rd),
                    wide: true,
                    op: ImmOp::Constant { value },
                },
            )
        },
        A64Opcode::Movz | A64Opcode::Movn => {
            let value = if insn.sf {
                insn.imm as u64
            } else {
                insn.imm as u64 & 0xFFFF_FFFF
            };
            Some(
                ImmPlan {
                    rd_slot: dst_slot(insn.rd),
                    rn_slot: dst_slot(insn.rd),
                    wide: insn.sf,
                    op: ImmOp::Constant { value },
                },
            )
        },
        A64Opcode::Movk => {
            let shift = insn.imm2 * 16;
            Some(
                ImmPlan {
                    rd_slot: dst_slot(insn.rd),
                    rn_slot: dst_slot(insn.rd),
                    wide: true,
                    op: ImmOp::Keep {
                        mask: !(0xFFFFu64 << shift),
                        bits: ((insn.imm as u64) & 0xFFFF) << shift,
                    },
                },
            )
        },
        A64Opcode::AddImm | A64Opcode::SubImm => Some(
            ImmPlan {
                rd_slot: sp_slot(insn.rd),
                rn_slot: sp_slot(insn.rn),
                wide: insn.sf,
                op: ImmOp::AddSub { sub: insn.opcode == A64Opcode::SubImm, imm: insn.imm },
            },
        ),
        A64Opcode::AddsImm | A64Opcode::SubsImm => {
            let sub = insn.opcode == A64Opcode::SubsImm;
            Some(
                ImmPlan {
                    rd_slot: dst_slot(insn.rd),
                    rn_slot: src_slot(insn.rn),
                    wide: insn.sf,
                    op: ImmOp::AddSubFlags { sub, imm: insn.imm, flags: adds_flag_op(sub, insn.sf) },
                },
            )
        },
        _ => None,
    }
}

/// The value the emitted code writes to the destination, from the source
/// slot's value `x`: `add`/`sub` on `rax` wrap modulo 2^64, on `eax` modulo
/// 2^32 with the result zero-extended.
pub open spec fn planned_imm_result(p: ImmPlan, x: u64) -> u64 {
    let arith = |sub: bool, imm: i64| {
        let m: int = if p.wide {
            0x1_0000_0000_0000_0000
        } else {
            0x1_0000_0000
        };
        let a = x as int % m;
        (if sub {
            (a - imm) % m
        } else {
            (a + imm) % m
        }) as u64
    };
    match p.op {
        ImmOp::Constant { value } => value,
        ImmOp::Keep { mask, bits } => (x & mask) | bits,
        ImmOp::AddSub { sub, imm } => arith(sub, imm),
        ImmOp::AddSubFlags { sub, imm, .. } => arith(sub, imm),
    }
}

/// The record the emitted code stores for a later NZCV reader: the
/// operation, the source value and the immediate.
pub open spec fn planned_deferred_flags(p: ImmPlan, x: u64) -> Option<(FlagOp, u64, u64)> {
    match p.op {
        ImmOp::AddSubFlags { imm, flags, .. } => Some((flags, x, imm as u64)),
        _ => None,
    }
}

/// AArch64: the result of a PC-relative address, wide move or immediate
/// addition on the source value `x` (`datasize` 64 or 32 bits, a W result
/// zero-extended): `ADR` gives `PC + imm` and `ADRP` the PC's 4 KiB page
/// plus `imm` pages (modulo 2^64), `MOVZ`
/// and `MOVN` write the decoded value, `MOVK` replaces the 16-bit field at
/// `hw * 16`, `ADD`/`SUB` (and the flag-setting forms) compute
/// `AddWithCarry` of the operand with the immediate (or its complement and
/// a carry of 1).
pub open spec fn a64_imm_result(insn: A64Insn, x: u64) -> u64 {
    let m: int = if insn.sf {
        0x1_0000_0000_0000_0000
    } else {
        0x1_0000_0000
    };
    let operand = x as int % m;
    match insn.opcode {
        A64Opcode::Adr => ((insn.pc + insn.imm) % 0x1_0000_0000_0000_0000) as u64,
        A64Opcode::Adrp => adrp_page(insn.pc, insn.imm) as u64,
        A64Opcode::Movz | A64Opcode::Movn => if insn.sf {
            insn.imm as u64
        } else {
            (insn.imm as u64) & 0xFFFF_FFFFu64
        },
        A64Opcode::Movk => {
            let field = 0xFFFFu64 << movk_shift(insn);
            (x & !field) | (((insn.imm as u64) << movk_shift(insn)) & field)
        },
        A64Opcode::SubImm | A64Opcode::SubsImm => ((operand + (m - 1 - insn.imm) + 1) % m) as u64,
        _ => ((operand + insn.imm) % m) as u64,
    }
}

/// AArch64: the NZCV an `ADDS`/`SUBS` immediate sets on the source value
/// `x`: `AddWithCarry(x, imm, 0)`, or `AddWithCarry(x, NOT imm, 1)`, on
/// `datasize` bits.
pub open spec fn a64_adds_nzcv(insn: A64Insn, x: u64) -> u32 {
    let bits: nat = if insn.sf {
        64
    } else {
        32
    };
    let m: int = if insn.sf {
        0x1_0000_0000_0000_0000
    } else {
        0x1_0000_0000
    };
    if insn.opcode == A64Opcode::SubsImm {
        add_with_carry_nzcv(bits, x as int % m, m - 1 - insn.imm, 1)
    } else {
        add_with_carry_nzcv(bits, x as int % m, insn.imm as int, 0)
    }
}

/// The emitted code writes the AArch64 result for every source value, and
/// replaying the record a flag-setting form defers gives the NZCV AArch64
/// sets; the immediate of an addition is the decoder's unsigned, possibly
/// shifted, 12-bit value. A W-form `MOVK` is the exception: the emitter
/// inserts the field into all 64 bits of the register, where AArch64 zeroes
/// the upper half, so its result is that of the X form.
pub proof fn lemma_imm_plan_matches_architecture(insn: A64Insn, x: u64)
    requires
        imm_fields_ok(insn),
        imm_plan(insn) is Some,
        0 <= insn.imm < 0x100_0000 || insn.opcode == A64Opcode::Movz || insn.opcode
            == A64Opcode::Movn || insn.opcode == A64Opcode::Movk || insn.opcode == A64Opcode::Adr
            || insn.opcode == A64Opcode::Adrp,
    ensures
        !(insn.opcode == A64Opcode::Movk && !insn.sf) ==> planned_imm_result(
            imm_plan(insn)->Some_0,
            x,
        ) == a64_imm_result(insn, x),
        insn.opcode == A64Opcode::Movk && !insn.sf ==> planned_imm_result(imm_plan(insn)->Some_0, x)
            == a64_imm_result(A64Insn { sf: true, ..insn }, x),
        planned_deferred_flags(imm_plan(insn)->Some_0, x) matches Some((op, lhs, rhs)) ==> materialized_nzcv(
            op,
            lhs,
            rhs,
        ) == a64_adds_nzcv(insn, x),
{
    let p = imm_plan(insn)->Some_0;
    let m: int = if insn.sf {
        0x1_0000_0000_0000_0000
    } else {
        0x1_0000_0000
    };
    match insn.opcode {
        A64Opcode::Movk => {
            let s = movk_shift(insn);
            let imm = insn.imm as u64;
            assert((imm & 0xFFFFu64) << s == (imm << s) & (0xFFFFu64 << s)) by (bit_vector)
                requires
                    s < 64,
            ;
        },
        A64Opcode::SubImm | A64Opcode::SubsImm => {
            let a = x as int % m;
            vstd::arithmetic::div_mod::lemma_mod_add_multiples_vanish(a - insn.imm, m);
            assert(a + (m - 1 - insn.imm) + 1 == m + (a - insn.imm));
        },
        _ => {},
    }
    if let Some((op, lhs, rhs)) = planned_deferred_flags(p, x) {
        lemma_materialized_nzcv_is_architectural(op, lhs, rhs);
        assert(rhs as int == insn.imm);
        vstd::arithmetic::div_mod::lemma_small_mod(x as nat, 0x1_0000_0000_0000_0000nat);
        vstd::arithmetic::div_mod::lemma_small_mod(insn.imm as nat, 0x1_0000_0000nat);
    }
}

} // verus!
