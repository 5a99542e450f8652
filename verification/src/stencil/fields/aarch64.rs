//! AArch64 instruction → `DecodedFields` extraction.
//!
//! Registers and immediates are copied (register numbers truncated to a
//! byte), with these adjustments for the stencils' holes:
//! - PC-relative branches get their absolute target `pc + imm`;
//! - B.cond and the conditional selects carry their condition code in `imm`;
//! - ADR and ADRP carry the address they compute in `imm`
//!   (`pc + imm`, and the 4 KiB page of `pc` plus `imm << 12`);
//! - MOVK carries its insertion shift `hw * 16`, SBFM/UBFM their `imms`, and
//!   EXTR its LSB position in `shamt`;
//! - RET without an explicit register returns through X30.

use crate::insn::{A64Insn, A64Opcode};
use crate::stencil::types::DecodedFields;
use vstd::prelude::*;

verus! {

/// Opcodes whose `branch_target` is the PC-relative target `pc + imm`.
pub open spec fn is_pc_rel_branch(op: A64Opcode) -> bool {
    op == A64Opcode::B || op == A64Opcode::Bl || op == A64Opcode::BCond || op == A64Opcode::Cbz
        || op == A64Opcode::Cbnz || op == A64Opcode::Tbz || op == A64Opcode::Tbnz
}

/// Opcodes whose `imm` carries the condition code.
pub open spec fn carries_cond_in_imm(op: A64Opcode) -> bool {
    op == A64Opcode::BCond || op == A64Opcode::Csel || op == A64Opcode::Csinc || op
        == A64Opcode::Csinv || op == A64Opcode::Csneg
}

/// `pc + imm` with the PC read as a signed 64-bit value.
pub open spec fn pc_plus_imm(pc: u64, imm: i64) -> int {
    (pc as i64) + imm
}

/// The address ADRP computes: the 4 KiB page of `pc` plus `imm << 12`
/// (the shift wrapping in 64 bits).
pub open spec fn adrp_address(pc: u64, imm: i64) -> int {
    ((pc & !0xFFFu64) as i64) + vstd::wrapping::i64_specs::signed_crop(imm * 4096)
}

/// Inputs on which extraction computes in range: the next PC, the targets
/// and addresses it adds up, and MOVK's shift fit their types.
pub open spec fn a64_fields_in_range(insn: A64Insn, pc: u64) -> bool {
    &&& pc + 4 <= u64::MAX
    &&& (is_pc_rel_branch(insn.opcode) || insn.opcode == A64Opcode::Adr) ==> i64::MIN <= pc_plus_imm(
        pc,
        insn.imm,
    ) <= i64::MAX
    &&& insn.opcode == A64Opcode::Adrp ==> i64::MIN <= adrp_address(pc, insn.imm) <= i64::MAX
    &&& insn.opcode == A64Opcode::Movk ==> (insn.imm2 as u8) * 16 <= u8::MAX
}

/// The fields extracted from `insn` at `pc` (helper addresses left unset).
pub open spec fn a64_fields(insn: A64Insn, pc: u64) -> DecodedFields {
    let op = insn.opcode;
    DecodedFields {
        rd: insn.rd as u8,
        rn: if op == A64Opcode::Ret && insn.rn == 0 {
            30
        } else {
            insn.rn as u8
        },
        rm: insn.rm as u8,
        ra: insn.ra as u8,
        rt: insn.rd as u8,
        rt2: insn.pair_second as u8,
        imm: if carries_cond_in_imm(op) {
            insn.cond as i64
        } else if op == A64Opcode::Adr {
            pc_plus_imm(pc, insn.imm) as i64
        } else if op == A64Opcode::Adrp {
            adrp_address(pc, insn.imm) as i64
        } else {
            insn.imm
        },
        simm: 0,
        shamt: if op == A64Opcode::Movk {
            ((insn.imm2 as u8) * 16) as u8
        } else if op == A64Opcode::Sbfm || op == A64Opcode::Ubfm {
            insn.imm2 as u8
        } else if op == A64Opcode::Extr {
            insn.imm as u8
        } else {
            insn.shift_amt as u8
        },
        sf: if insn.sf {
            1
        } else {
            0
        },
        shift: insn.shift_type as u8,
        cond: insn.cond as u8,
        branch_target: if is_pc_rel_branch(op) {
            pc_plus_imm(pc, insn.imm) as u64
        } else {
            0
        },
        next_pc: (pc + 4) as u64,
        mem_read_fn: 0,
        mem_write_fn: 0,
    }
}

/// Extract stencil fields from a decoded AArch64 instruction at `pc`.
pub fn extract_fields_a64(insn: &A64Insn, pc: u64) -> (f: DecodedFields)
    requires
        a64_fields_in_range(*insn, pc),
    ensures
        f == a64_fields(*insn, pc),
{
    let op = insn.opcode;
    let mut f = DecodedFields {
        rd: insn.rd as u8,
        rn: insn.rn as u8,
        rm: insn.rm as u8,
        ra: insn.ra as u8,
        rt: insn.rd as u8,
        rt2: insn.pair_second as u8,
        imm: insn.imm,
        simm: 0,
        shamt: insn.shift_amt as u8,
        sf: if insn.sf {
            1
        } else {
            0
        },
        shift: insn.shift_type as u8,
        cond: insn.cond as u8,
        branch_target: 0,
        next_pc: pc + 4,
        mem_read_fn: 0,
        mem_write_fn: 0,
    };
    match op {
        A64Opcode::B | A64Opcode::Bl | A64Opcode::BCond | A64Opcode::Cbz | A64Opcode::Cbnz
        | A64Opcode::Tbz | A64Opcode::Tbnz => {
            f.branch_target = ((pc as i64) + insn.imm) as u64;
        },
        _ => {},
    }
    if op == A64Opcode::Movk {
        f.shamt = (insn.imm2 as u8) * 16;
    }
    match op {
        A64Opcode::BCond | A64Opcode::Csel | A64Opcode::Csinc | A64Opcode::Csinv
        | A64Opcode::Csneg => {
            f.imm = insn.cond as i64;
        },
        _ => {},
    }
    if op == A64Opcode::Adr {
        f.imm = (pc as i64) + insn.imm;
    }
    if op == A64Opcode::Adrp {
        f.imm = ((pc & !0xFFFu64) as i64) + insn.imm.wrapping_mul(4096);
    }
    if op == A64Opcode::Sbfm || op == A64Opcode::Ubfm {
        f.imm = insn.imm;
        f.shamt = insn.imm2 as u8;
    }
    if op == A64Opcode::Extr {
        f.shamt = insn.imm as u8;
    }
    if op == A64Opcode::Ret && insn.rn == 0 {
        f.rn = 30;
    }
    f
}

/// `pc + imm` computed as the original signed sum and read back as an
/// address is `pc + imm` modulo 2^64.
pub proof fn lemma_signed_sum_wraps(pc: u64, imm: i64)
    requires
        i64::MIN <= pc_plus_imm(pc, imm) <= i64::MAX,
    ensures
        (pc_plus_imm(pc, imm) as u64) as int == (pc as int + imm) % 0x1_0000_0000_0000_0000,
{
    let v = pc_plus_imm(pc, imm);
    let p: i64 = pc as i64;
    let y: i64 = v as i64;
    assert(y as int == v);
    assert((p as int) + (if pc >= 0x8000_0000_0000_0000u64 {
        0x1_0000_0000_0000_0000int
    } else {
        0int
    }) == pc as int && (y as u64) as int == (y as int) + (if y < 0 {
        0x1_0000_0000_0000_0000int
    } else {
        0int
    })) by (bit_vector)
        requires
            p == pc as i64,
    ;
    assert((v as u64) == (y as u64));
    let m: int = 0x1_0000_0000_0000_0000;
    let r = (y as u64) as int;
    let k: int = if pc >= 0x8000_0000_0000_0000u64 {
        1
    } else {
        0
    };
    let k2: int = if y < 0 {
        1
    } else {
        0
    };
    assert(pc as int + imm == r + m * (k - k2));
    vstd::arithmetic::div_mod::lemma_mod_multiples_vanish(k - k2, r, m);
    vstd::arithmetic::div_mod::lemma_small_mod(r as nat, m as nat);
}

/// Every PC-relative branch (`B`, `BL`, `B.cond`, `CBZ`, `CBNZ`, `TBZ`,
/// `TBNZ`) gets its AArch64 target `pc + imm` (modulo 2^64) as
/// `branch_target`, and every instruction the fall-through address
/// `pc + 4`; no other instruction gets a branch target.
pub proof fn lemma_branch_fields(insn: A64Insn, pc: u64)
    requires
        pc + 4 <= u64::MAX,
        ({
            let op = insn.opcode;
            op == A64Opcode::B || op == A64Opcode::Bl || op == A64Opcode::BCond || op
                == A64Opcode::Cbz || op == A64Opcode::Cbnz || op == A64Opcode::Tbz || op
                == A64Opcode::Tbnz
        }) ==> i64::MIN <= pc_plus_imm(pc, insn.imm) <= i64::MAX,
    ensures
        a64_fields(insn, pc).next_pc == pc + 4,
        ({
            let op = insn.opcode;
            if op == A64Opcode::B || op == A64Opcode::Bl || op == A64Opcode::BCond || op
                == A64Opcode::Cbz || op == A64Opcode::Cbnz || op == A64Opcode::Tbz || op
                == A64Opcode::Tbnz {
                a64_fields(insn, pc).branch_target as int == (pc as int + insn.imm)
                    % 0x1_0000_0000_0000_0000
            } else {
                a64_fields(insn, pc).branch_target == 0
            }
        }),
{
    if is_pc_rel_branch(insn.opcode) {
        lemma_signed_sum_wraps(pc, insn.imm);
    }
}

/// The operands an instruction's fields carry: its registers (register
/// numbers as bytes; `RET` without a register returns through X30), its
/// width flag, the condition code in `imm` for `B.cond` and the conditional
/// selects, the address `pc + imm` (modulo 2^64) for `ADR`, the immediate
/// itself for every other instruction but `ADRP`, and the insertion shift
/// `16 * hw` (`MOVK`) or `imms` (`SBFM`, `UBFM`) in `shamt`.
pub proof fn lemma_a64_fields_operands(insn: A64Insn, pc: u64)
    requires
        insn.opcode == A64Opcode::Adr ==> i64::MIN <= pc_plus_imm(pc, insn.imm) <= i64::MAX,
        insn.opcode == A64Opcode::Movk ==> (insn.imm2 as u8) * 16 <= u8::MAX,
    ensures
        ({
            let f = a64_fields(insn, pc);
            let op = insn.opcode;
            &&& f.rd == insn.rd as u8 && f.rt == insn.rd as u8
            &&& f.rm == insn.rm as u8 && f.ra == insn.ra as u8 && f.rt2 == insn.pair_second as u8
            &&& f.rn == (if op == A64Opcode::Ret && insn.rn == 0 {
                30u8
            } else {
                insn.rn as u8
            })
            &&& f.sf == (if insn.sf {
                1u8
            } else {
                0u8
            })
            &&& f.cond == insn.cond as u8
            &&& (op == A64Opcode::BCond || op == A64Opcode::Csel || op == A64Opcode::Csinc || op
                == A64Opcode::Csinv || op == A64Opcode::Csneg) ==> f.imm == insn.cond as i64
            &&& op == A64Opcode::Adr ==> (f.imm as u64) as int == (pc as int + insn.imm)
                % 0x1_0000_0000_0000_0000
            &&& !(op == A64Opcode::BCond || op == A64Opcode::Csel || op == A64Opcode::Csinc || op
                == A64Opcode::Csinv || op == A64Opcode::Csneg || op == A64Opcode::Adr || op
                == A64Opcode::Adrp) ==> f.imm == insn.imm
            &&& op == A64Opcode::Movk ==> f.shamt as int == 16 * (insn.imm2 as u8)
            &&& (op == A64Opcode::Sbfm || op == A64Opcode::Ubfm) ==> f.shamt == insn.imm2 as u8
        }),
{
    if insn.opcode == A64Opcode::Adr {
        lemma_signed_sum_wraps(pc, insn.imm);
    }
}

} // verus!
