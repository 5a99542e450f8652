//! Logical operations (`AND`, `ORR`, `EOR` with an immediate or a shifted
//! register, the inverting `BIC`, `ORN`, `EON`, and the flag-setting `ANDS`
//! and `BICS`, with their aliases `MOV` (register), `MVN` and `TST`).
//!
//! The emitted code loads the first operand into `rax` (`eax` for a W form),
//! forms the second in `rcx` (the immediate, or the register shifted unless
//! the amount is 0 and inverted with `not` for the inverting forms), and
//! applies `and`, `or` or `xor`; a flag-setting form stores the operation
//! and both operands for a later NZCV reader (lazy NZCV). The shifted
//! register forms other than `AND`, `ORR` and `EOR` carry their shift in the
//! decoder's extend fields. [`plan_logic`] decides everything the emitted
//! code depends on; [`lemma_logic_matches_architecture`] shows that the
//! sequence writes the AArch64 result and that replaying the deferred
//! record gives the NZCV AArch64 sets.

use crate::dynasm::arith::{low32, shift32, shift64};
use crate::dynasm::emit::{data_slot_of, dst_slot, sp_slot, sp_slot_of, src_slot};
use crate::dynasm::nzcv::{
    lemma_materialized_nzcv_is_architectural, materialized_nzcv, nzcv_word,
};
use crate::insn::{A64Insn, A64Opcode};
use crate::regs::FlagOp;
use vstd::prelude::*;

verus! {

/// The bitwise operation.
#[derive(Debug, Clone, Copy, PartialEq, Eq, Structural)]
pub enum LogicOp {
    And,
    Orr,
    Eor,
}

/// How the second operand is formed.
#[derive(Debug, Clone, Copy, PartialEq, Eq, Structural)]
pub enum LogicOperand {
    /// A decoded bitmask immediate.
    Imm { value: u64 },
    /// A register shifted by `amount` (nothing when 0) and, for `BIC`,
    /// `ORN`, `EON` and `BICS`, inverted.
    Reg { rm_slot: usize, shift_type: u32, amount: u32, invert: bool },
}

/// Everything the emitted code of a logical operation depends on.
#[derive(Debug, Clone, Copy, PartialEq, Eq, Structural)]
pub struct LogicPlan {
    /// Destination slot (SP for 31 in the immediate `AND`, `ORR`, `EOR`,
    /// XZR otherwise).
    pub rd_slot: usize,
    /// First operand slot (register 31 is XZR).
    pub rn_slot: usize,
    pub op: LogicOp,
    pub operand: LogicOperand,
    /// `ANDS`/`BICS`: the flag operation deferred.
    pub flags: Option<FlagOp>,
    pub wide: bool,
}

/// The plan of a logical operation (`None` for any other instruction).
pub open spec fn logic_plan(insn: A64Insn) -> Option<LogicPlan> {
    let o = insn.opcode;
    let op = if o == A64Opcode::OrrImm || o == A64Opcode::OrrReg || o == A64Opcode::OrnReg {
        LogicOp::Orr
    } else if o == A64Opcode::EorImm || o == A64Opcode::EorReg || o == A64Opcode::EonReg {
        LogicOp::Eor
    } else {
        LogicOp::And
    };
    let flags = if o == A64Opcode::AndsImm || o == A64Opcode::AndsReg || o == A64Opcode::BicsReg {
        Some(
            if insn.sf {
                FlagOp::And64
            } else {
                FlagOp::And32
            },
        )
    } else {
        None
    };
    let imm = o == A64Opcode::AndImm || o == A64Opcode::OrrImm || o == A64Opcode::EorImm || o
        == A64Opcode::AndsImm;
    let plain_reg = o == A64Opcode::AndReg || o == A64Opcode::OrrReg || o == A64Opcode::EorReg;
    let invert = o == A64Opcode::BicReg || o == A64Opcode::OrnReg || o == A64Opcode::EonReg || o
        == A64Opcode::BicsReg;
    if !(imm || plain_reg || invert || o == A64Opcode::AndsReg) {
        None
    } else {
        Some(
            LogicPlan {
                rd_slot: if imm && flags is None {
                    sp_slot_of(insn.rd)
                } else {
                    data_slot_of(insn.rd)
                },
                rn_slot: data_slot_of(insn.rn),
                op,
                operand: if imm {
                    LogicOperand::Imm { value: insn.imm as u64 }
                } else if plain_reg {
                    LogicOperand::Reg {
                        rm_slot: data_slot_of(insn.rm),
                        shift_type: insn.shift_type,
                        amount: insn.shift_amt,
                        invert: false,
                    }
                } else {
                    LogicOperand::Reg {
                        rm_slot: data_slot_of(insn.rm),
                        shift_type: insn.extend_type,
                        amount: insn.extend_amt,
                        invert,
                    }
                },
                flags,
                wide: insn.sf,
            },
        )
    }
}

/// Plan a logical operation.
pub fn plan_logic(insn: &A64Insn) -> (p: Option<LogicPlan>)
    ensures
        p == logic_plan(*insn),
{
    // (operation, immediate form, plain register form, inverted, flag-setting)
    let (op, imm, plain_reg, invert, flagged) = match insn.opcode {
        A64Opcode::AndImm => (LogicOp::And, true, false, false, false),
        A64Opcode::OrrImm => (LogicOp::Orr, true, false, false, false),
        A64Opcode::EorImm => (LogicOp::Eor, true, false, false, false),
        A64Opcode::AndsImm => (LogicOp::And, true, false, false, true),
        A64Opcode::AndReg => (LogicOp::And, false, true, false, false),
        A64Opcode::OrrReg => (LogicOp::Orr, false, true, false, false),
        A64Opcode::EorReg => (LogicOp::Eor, false, true, false, false),
        A64Opcode::AndsReg => (LogicOp::And, false, false, false, true),
        A64Opcode::BicReg => (LogicOp::And, false, false, true, false),
        A64Opcode::OrnReg => (LogicOp::Orr, false, false, true, false),
        A64Opcode::EonReg => (LogicOp::Eor, false, false, true, false),
        A64Opcode::BicsReg => (LogicOp::And, false, false, true, true),
        _ => {
            return None;
        },
    };
    let flags = if flagged {
        Some(
            if insn.sf {
                FlagOp::And64
            } else {
                FlagOp::And32
            },
        )
    } else {
        None
    };
    let operand = if imm {
        LogicOperand::Imm { value: insn.imm as u64 }
    } else if plain_reg {
        LogicOperand::Reg {
            rm_slot: src_slot(insn.rm),
            shift_type: insn.shift_type,
            amount: insn.shift_amt,
            invert: false,
        }
    } else {
        LogicOperand::Reg {
            rm_slot: src_slot(insn.rm),
            shift_type: insn.extend_type,
            amount: insn.extend_amt,
            invert,
        }
    };
    Some(
        LogicPlan {
            rd_slot: if imm && !flagged {
                sp_slot(insn.rd)
            } else {
                dst_slot(insn.rd)
            },
            rn_slot: src_slot(insn.rn),
            op,
            operand,
            flags,
            wide: insn.sf,
        },
    )
}

/// The first operand as the emitted code holds it: the whole register, or
/// its low 32 bits zero-extended.
pub open spec fn logic_lhs(p: LogicPlan, n: u64) -> u64 {
    if p.wide {
        n
    } else {
        low32(n) as u64
    }
}

/// The second operand as `rcx` holds it: the immediate (its low 32 bits for
/// a W form), or the register shifted (unchanged for 0) and inverted, on 64
/// bits or, for a W form, on 32 bits zero-extended.
pub open spec fn logic_rhs(p: LogicPlan, m: u64) -> u64 {
    match p.operand {
        LogicOperand::Imm { value } => if p.wide {
            value
        } else {
            low32(value) as u64
        },
        LogicOperand::Reg { shift_type, amount, invert, .. } => if p.wide {
            let s = if amount == 0 {
                m
            } else {
                shift64(shift_type, amount, m)
            };
            if invert {
                !s
            } else {
                s
            }
        } else {
            let s = if amount == 0 {
                m
            } else {
                shift32(shift_type, amount, low32(m)) as u64
            };
            if invert {
                (!low32(s)) as u64
            } else {
                s
            }
        },
    }
}

/// Apply a bitwise operation on 64 bits.
pub open spec fn apply64(op: LogicOp, a: u64, b: u64) -> u64 {
    match op {
        LogicOp::And => a & b,
        LogicOp::Orr => a | b,
        LogicOp::Eor => a ^ b,
    }
}

/// Apply a bitwise operation on 32 bits.
pub open spec fn apply32(op: LogicOp, a: u32, b: u32) -> u32 {
    match op {
        LogicOp::And => a & b,
        LogicOp::Orr => a | b,
        LogicOp::Eor => a ^ b,
    }
}

/// The value the emitted code stores: the operation on `rax` and `rcx`, or
/// on `eax` and `ecx` (zero-extended) for a W form.
pub open spec fn planned_logic(p: LogicPlan, n: u64, m: u64) -> u64 {
    if p.wide {
        apply64(p.op, n, logic_rhs(p, m))
    } else {
        apply32(p.op, low32(n), low32(logic_rhs(p, m))) as u64
    }
}

/// The record a flag-setting form stores for a later NZCV reader.
pub open spec fn planned_logic_deferred_flags(p: LogicPlan, n: u64, m: u64) -> Option<(FlagOp, u64, u64)> {
    match p.flags {
        Some(op) => Some((op, logic_lhs(p, n), logic_rhs(p, m))),
        None => None,
    }
}

/// AArch64: the second operand of `datasize` bits: the bitmask immediate,
/// or `ShiftReg` of the register (unchanged for 0), inverted for `BIC`,
/// `ORN`, `EON` and `BICS`.
pub open spec fn a64_logic_operand(insn: A64Insn, m: u64) -> u64 {
    let o = insn.opcode;
    let imm = o == A64Opcode::AndImm || o == A64Opcode::OrrImm || o == A64Opcode::EorImm || o
        == A64Opcode::AndsImm;
    let plain_reg = o == A64Opcode::AndReg || o == A64Opcode::OrrReg || o == A64Opcode::EorReg;
    let (t, amt) = if plain_reg {
        (insn.shift_type, insn.shift_amt)
    } else {
        (insn.extend_type, insn.extend_amt)
    };
    let invert = o == A64Opcode::BicReg || o == A64Opcode::OrnReg || o == A64Opcode::EonReg || o
        == A64Opcode::BicsReg;
    if insn.sf {
        let v = if imm {
            insn.imm as u64
        } else if amt == 0 {
            m
        } else {
            shift64(t, amt, m)
        };
        if invert {
            !v
        } else {
            v
        }
    } else {
        let v = if imm {
            low32(insn.imm as u64)
        } else if amt == 0 {
            low32(m)
        } else {
            shift32(t, amt, low32(m))
        };
        (if invert {
            !v
        } else {
            v
        }) as u64
    }
}

/// AArch64 `AND`/`ORR`/`EOR` (and the inverting and flag-setting forms) of
/// the first operand with the second, on `datasize` bits.
pub open spec fn a64_logic(insn: A64Insn, n: u64, m: u64) -> u64 {
    let o = insn.opcode;
    let op = if o == A64Opcode::OrrImm || o == A64Opcode::OrrReg || o == A64Opcode::OrnReg {
        LogicOp::Orr
    } else if o == A64Opcode::EorImm || o == A64Opcode::EorReg || o == A64Opcode::EonReg {
        LogicOp::Eor
    } else {
        LogicOp::And
    };
    let b = a64_logic_operand(insn, m);
    if insn.sf {
        apply64(op, n, b)
    } else {
        apply32(op, low32(n), low32(b)) as u64
    }
}

/// AArch64: the NZCV `ANDS`/`BICS` set: N the result's top bit, Z whether
/// it is zero, C and V clear.
pub open spec fn a64_logic_nzcv(insn: A64Insn, n: u64, m: u64) -> u32 {
    let r = a64_logic(insn, n, m);
    if insn.sf {
        nzcv_word(r >= 0x8000_0000_0000_0000, r == 0, false, false)
    } else {
        nzcv_word(r >= 0x8000_0000, r == 0, false, false)
    }
}

/// The emitted code writes the AArch64 result for all operands, and
/// replaying the record a flag-setting form defers gives the NZCV AArch64
/// sets.
pub proof fn lemma_logic_matches_architecture(insn: A64Insn, n: u64, m: u64)
    requires
        logic_plan(insn) is Some,
    ensures
        planned_logic(logic_plan(insn)->Some_0, n, m) == a64_logic(insn, n, m),
        planned_logic_deferred_flags(logic_plan(insn)->Some_0, n, m) matches Some((op, lhs, rhs))
            ==> materialized_nzcv(op, lhs, rhs) == a64_logic_nzcv(insn, n, m),
{
    let p = logic_plan(insn)->Some_0;
    let lhs = logic_lhs(p, n);
    let rhs = logic_rhs(p, m);
    assert(low32(low32(m) as u64) == low32(m));
    if !insn.sf {
        let v = low32(rhs);
        assert(v as int == rhs as int % 0x1_0000_0000);
        assert(lhs < 0x1_0000_0000 ==> (lhs & rhs) % 0x1_0000_0000u64 == lhs & (rhs
            % 0x1_0000_0000u64)) by (bit_vector);
    }
    if let Some((op, l, r)) = planned_logic_deferred_flags(p, n, m) {
        lemma_materialized_nzcv_is_architectural(op, l, r);
    }
}

} // verus!
