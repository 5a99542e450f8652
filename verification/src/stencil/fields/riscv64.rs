//! RISC-V64 instruction → `DecodedFields` extraction.
//!
//! RISC-V `rs1` maps to `rn` and `rs2` to `rm`; every instruction is a 64-bit
//! (`sf = 1`) one whose fall-through PC is `pc + 4`. Branches and JAL get
//! their absolute target `pc + imm`, and AUIPC carries `pc` itself in
//! `branch_target`. Other instructions (system, fences, the RV64M word
//! forms) keep the defaults.

use crate::insn::Rv64Insn;
use crate::stencil::fields::aarch64::{lemma_signed_sum_wraps, pc_plus_imm};
use crate::stencil::types::DecodedFields;
use vstd::prelude::*;

verus! {

/// The fields every RISC-V64 instruction starts from.
pub open spec fn rv64_base_fields(pc: u64) -> DecodedFields {
    DecodedFields {
        rd: 0,
        rn: 0,
        rm: 0,
        ra: 0,
        rt: 0,
        rt2: 0,
        imm: 0,
        simm: 0,
        shamt: 0,
        sf: 1,
        shift: 0,
        cond: 0,
        branch_target: 0,
        next_pc: (pc + 4) as u64,
        mem_read_fn: 0,
        mem_write_fn: 0,
    }
}

/// Register-immediate form: `rd`, `rs1`, `imm`.
pub open spec fn i_form(pc: u64, rd: u8, rs1: u8, imm: i64) -> DecodedFields {
    DecodedFields { rd, rn: rs1, imm, ..rv64_base_fields(pc) }
}

/// Shift-immediate form: `rd`, `rs1`, `shamt`.
pub open spec fn shift_form(pc: u64, rd: u8, rs1: u8, shamt: u8) -> DecodedFields {
    DecodedFields { rd, rn: rs1, shamt, ..rv64_base_fields(pc) }
}

/// Register-register form: `rd`, `rs1`, `rs2`.
pub open spec fn r_form(pc: u64, rd: u8, rs1: u8, rs2: u8) -> DecodedFields {
    DecodedFields { rd, rn: rs1, rm: rs2, ..rv64_base_fields(pc) }
}

/// Store form: `rs1` (base), `rs2` (data), `imm`.
pub open spec fn s_form(pc: u64, rs1: u8, rs2: u8, imm: i64) -> DecodedFields {
    DecodedFields { rn: rs1, rm: rs2, imm, ..rv64_base_fields(pc) }
}

/// Conditional-branch form: `rs1`, `rs2`, `imm` and the target `pc + imm`.
pub open spec fn b_form(pc: u64, rs1: u8, rs2: u8, imm: i64) -> DecodedFields {
    DecodedFields {
        rn: rs1,
        rm: rs2,
        imm,
        branch_target: pc_plus_imm(pc, imm) as u64,
        ..rv64_base_fields(pc)
    }
}

/// Whether `insn` is a PC-relative branch or JAL, with its offset.
pub open spec fn rv64_pc_rel_offset(insn: Rv64Insn) -> Option<i64> {
    match insn {
        Rv64Insn::BEQ { imm, .. } | Rv64Insn::BNE { imm, .. } | Rv64Insn::BLT { imm, .. }
        | Rv64Insn::BGE { imm, .. } | Rv64Insn::BLTU { imm, .. } | Rv64Insn::BGEU { imm, .. }
        | Rv64Insn::JAL { imm, .. } => Some(imm),
        _ => None,
    }
}

/// Inputs on which extraction computes in range: the next PC and the branch
/// target fit their types.
pub open spec fn rv64_fields_in_range(insn: Rv64Insn, pc: u64) -> bool {
    &&& pc + 4 <= u64::MAX
    &&& rv64_pc_rel_offset(insn) matches Some(imm) ==> i64::MIN <= pc_plus_imm(pc, imm)
        <= i64::MAX
}

/// The fields extracted from `insn` at `pc`.
pub open spec fn rv64_fields(insn: Rv64Insn, pc: u64) -> DecodedFields {
    match insn {
        Rv64Insn::ADDI { rd, rs1, imm } | Rv64Insn::SLTI { rd, rs1, imm } | Rv64Insn::SLTIU {
            rd,
            rs1,
            imm,
        } | Rv64Insn::XORI { rd, rs1, imm } | Rv64Insn::ORI { rd, rs1, imm } | Rv64Insn::ANDI {
            rd,
            rs1,
            imm,
        } | Rv64Insn::ADDIW { rd, rs1, imm } | Rv64Insn::LB { rd, rs1, imm } | Rv64Insn::LH {
            rd,
            rs1,
            imm,
        } | Rv64Insn::LW { rd, rs1, imm } | Rv64Insn::LD { rd, rs1, imm } | Rv64Insn::LBU {
            rd,
            rs1,
            imm,
        } | Rv64Insn::LHU { rd, rs1, imm } | Rv64Insn::LWU { rd, rs1, imm } | Rv64Insn::JALR {
            rd,
            rs1,
            imm,
        } => i_form(pc, rd, rs1, imm),
        Rv64Insn::SLLI { rd, rs1, shamt } | Rv64Insn::SRLI { rd, rs1, shamt } | Rv64Insn::SRAI {
            rd,
            rs1,
            shamt,
        } | Rv64Insn::SLLIW { rd, rs1, shamt } | Rv64Insn::SRLIW { rd, rs1, shamt }
        | Rv64Insn::SRAIW { rd, rs1, shamt } => shift_form(pc, rd, rs1, shamt),
        Rv64Insn::ADD { rd, rs1, rs2 } | Rv64Insn::SUB { rd, rs1, rs2 } | Rv64Insn::SLL {
            rd,
            rs1,
            rs2,
        } | Rv64Insn::SLT { rd, rs1, rs2 } | Rv64Insn::SLTU { rd, rs1, rs2 } | Rv64Insn::XOR {
            rd,
            rs1,
            rs2,
        } | Rv64Insn::SRL { rd, rs1, rs2 } | Rv64Insn::SRA { rd, rs1, rs2 } | Rv64Insn::OR {
            rd,
            rs1,
            rs2,
        } | Rv64Insn::AND { rd, rs1, rs2 } | Rv64Insn::ADDW { rd, rs1, rs2 } | Rv64Insn::SUBW {
            rd,
            rs1,
            rs2,
        } | Rv64Insn::SLLW { rd, rs1, rs2 } | Rv64Insn::SRLW { rd, rs1, rs2 } | Rv64Insn::SRAW {
            rd,
            rs1,
            rs2,
        } | Rv64Insn::MUL { rd, rs1, rs2 } | Rv64Insn::MULH { rd, rs1, rs2 } | Rv64Insn::MULHSU {
            rd,
            rs1,
            rs2,
        } | Rv64Insn::MULHU { rd, rs1, rs2 } | Rv64Insn::DIV { rd, rs1, rs2 } | Rv64Insn::DIVU {
            rd,
            rs1,
            rs2,
        } | Rv64Insn::REM { rd, rs1, rs2 } | Rv64Insn::REMU { rd, rs1, rs2 } => r_form(
            pc,
            rd,
            rs1,
            rs2,
        ),
        Rv64Insn::SB { rs1, rs2, imm } | Rv64Insn::SH { rs1, rs2, imm } | Rv64Insn::SW {
            rs1,
            rs2,
            imm,
        } | Rv64Insn::SD { rs1, rs2, imm } => s_form(pc, rs1, rs2, imm),
        Rv64Insn::BEQ { rs1, rs2, imm } | Rv64Insn::BNE { rs1, rs2, imm } | Rv64Insn::BLT {
            rs1,
            rs2,
            imm,
        } | Rv64Insn::BGE { rs1, rs2, imm } | Rv64Insn::BLTU { rs1, rs2, imm } | Rv64Insn::BGEU {
            rs1,
            rs2,
            imm,
        } => b_form(pc, rs1, rs2, imm),
        Rv64Insn::JAL { rd, imm } => DecodedFields {
            rd,
            imm,
            branch_target: pc_plus_imm(pc, imm) as u64,
            ..rv64_base_fields(pc)
        },
        Rv64Insn::LUI { rd, imm } => DecodedFields { rd, imm, ..rv64_base_fields(pc) },
        Rv64Insn::AUIPC { rd, imm } => DecodedFields {
            rd,
            imm,
            branch_target: pc,
            ..rv64_base_fields(pc)
        },
        _ => rv64_base_fields(pc),
    }
}

/// Extract stencil fields from a decoded RISC-V64 instruction at `pc`.
pub fn extract_fields_rv64(insn: &Rv64Insn, pc: u64) -> (f: DecodedFields)
    requires
        rv64_fields_in_range(*insn, pc),
    ensures
        f == rv64_fields(*insn, pc),
{
    let mut f = DecodedFields {
        rd: 0,
        rn: 0,
        rm: 0,
        ra: 0,
        rt: 0,
        rt2: 0,
        imm: 0,
        simm: 0,
        shamt: 0,
        sf: 1,
        shift: 0,
        cond: 0,
        branch_target: 0,
        next_pc: pc + 4,
        mem_read_fn: 0,
        mem_write_fn: 0,
    };
    match *insn {
        Rv64Insn::ADDI { rd, rs1, imm } | Rv64Insn::SLTI { rd, rs1, imm } | Rv64Insn::SLTIU {
            rd,
            rs1,
            imm,
        } | Rv64Insn::XORI { rd, rs1, imm } | Rv64Insn::ORI { rd, rs1, imm } | Rv64Insn::ANDI {
            rd,
            rs1,
            imm,
        } | Rv64Insn::ADDIW { rd, rs1, imm } | Rv64Insn::LB { rd, rs1, imm } | Rv64Insn::LH {
            rd,
            rs1,
            imm,
        } | Rv64Insn::LW { rd, rs1, imm } | Rv64Insn::LD { rd, rs1, imm } | Rv64Insn::LBU {
            rd,
            rs1,
            imm,
        } | Rv64Insn::LHU { rd, rs1, imm } | Rv64Insn::LWU { rd, rs1, imm } | Rv64Insn::JALR {
            rd,
            rs1,
            imm,
        } => {
            f.rd = rd;
            f.rn = rs1;
            f.imm = imm;
        },
        Rv64Insn::SLLI { rd, rs1, shamt } | Rv64Insn::SRLI { rd, rs1, shamt } | Rv64Insn::SRAI {
            rd,
            rs1,
            shamt,
        } | Rv64Insn::SLLIW { rd, rs1, shamt } | Rv64Insn::SRLIW { rd, rs1, shamt }
        | Rv64Insn::SRAIW { rd, rs1, shamt } => {
            f.rd = rd;
            f.rn = rs1;
            f.shamt = shamt;
        },
        Rv64Insn::ADD { rd, rs1, rs2 } | Rv64Insn::SUB { rd, rs1, rs2 } | Rv64Insn::SLL {
            rd,
            rs1,
            rs2,
        } | Rv64Insn::SLT { rd, rs1, rs2 } | Rv64Insn::SLTU { rd, rs1, rs2 } | Rv64Insn::XOR {
            rd,
            rs1,
            rs2,
        } | Rv64Insn::SRL { rd, rs1, rs2 } | Rv64Insn::SRA { rd, rs1, rs2 } | Rv64Insn::OR {
            rd,
            rs1,
            rs2,
        } | Rv64Insn::AND { rd, rs1, rs2 } | Rv64Insn::ADDW { rd, rs1, rs2 } | Rv64Insn::SUBW {
            rd,
            rs1,
            rs2,
        } | Rv64Insn::SLLW { rd, rs1, rs2 } | Rv64Insn::SRLW { rd, rs1, rs2 } | Rv64Insn::SRAW {
            rd,
            rs1,
            rs2,
        } | Rv64Insn::MUL { rd, rs1, rs2 } | Rv64Insn::MULH { rd, rs1, rs2 } | Rv64Insn::MULHSU {
            rd,
            rs1,
            rs2,
        } | Rv64Insn::MULHU { rd, rs1, rs2 } | Rv64Insn::DIV { rd, rs1, rs2 } | Rv64Insn::DIVU {
            rd,
            rs1,
            rs2,
        } | Rv64Insn::REM { rd, rs1, rs2 } | Rv64Insn::REMU { rd, rs1, rs2 } => {
            f.rd = rd;
            f.rn = rs1;
            f.rm = rs2;
        },
        Rv64Insn::SB { rs1, rs2, imm } | Rv64Insn::SH { rs1, rs2, imm } | Rv64Insn::SW {
            rs1,
            rs2,
            imm,
        } | Rv64Insn::SD { rs1, rs2, imm } => {
            f.rn = rs1;
            f.rm = rs2;
            f.imm = imm;
        },
        Rv64Insn::BEQ { rs1, rs2, imm } | Rv64Insn::BNE { rs1, rs2, imm } | Rv64Insn::BLT {
            rs1,
            rs2,
            imm,
        } | Rv64Insn::BGE { rs1, rs2, imm } | Rv64Insn::BLTU { rs1, rs2, imm } | Rv64Insn::BGEU {
            rs1,
            rs2,
            imm,
        } => {
            f.rn = rs1;
            f.rm = rs2;
            f.imm = imm;
            f.branch_target = ((pc as i64) + imm) as u64;
        },
        Rv64Insn::JAL { rd, imm } => {
            f.rd = rd;
            f.imm = imm;
            f.branch_target = ((pc as i64) + imm) as u64;
        },
        Rv64Insn::LUI { rd, imm } => {
            f.rd = rd;
            f.imm = imm;
        },
        Rv64Insn::AUIPC { rd, imm } => {
            f.rd = rd;
            f.imm = imm;
            f.branch_target = pc;
        },
        _ => {},
    }
    f
}

/// The operands of an instruction that carries an immediate, as its
/// encoding names them: `(rd, rs1, rs2, imm)` (`None` for a register the
/// form does not have); `None` for an instruction without an immediate.
pub open spec fn rv64_imm_operands(insn: Rv64Insn) -> Option<(Option<u8>, Option<u8>, Option<u8>, i64)> {
    match insn {
        Rv64Insn::ADDI { rd, rs1, imm } | Rv64Insn::SLTI { rd, rs1, imm } | Rv64Insn::SLTIU { rd, rs1, imm } | Rv64Insn::XORI { rd, rs1, imm } | Rv64Insn::ORI { rd, rs1, imm } | Rv64Insn::ANDI { rd, rs1, imm } | Rv64Insn::ADDIW { rd, rs1, imm } | Rv64Insn::LB { rd, rs1, imm } | Rv64Insn::LH { rd, rs1, imm } | Rv64Insn::LW { rd, rs1, imm } | Rv64Insn::LD { rd, rs1, imm } | Rv64Insn::LBU { rd, rs1, imm } | Rv64Insn::LHU { rd, rs1, imm } | Rv64Insn::LWU { rd, rs1, imm } | Rv64Insn::JALR { rd, rs1, imm } => Some((Some(rd), Some(rs1), None, imm)),
        Rv64Insn::SB { rs1, rs2, imm } | Rv64Insn::SH { rs1, rs2, imm } | Rv64Insn::SW { rs1, rs2, imm } | Rv64Insn::SD { rs1, rs2, imm } | Rv64Insn::BEQ { rs1, rs2, imm } | Rv64Insn::BNE { rs1, rs2, imm } | Rv64Insn::BLT { rs1, rs2, imm } | Rv64Insn::BGE { rs1, rs2, imm } | Rv64Insn::BLTU { rs1, rs2, imm } | Rv64Insn::BGEU { rs1, rs2, imm } => Some((None, Some(rs1), Some(rs2), imm)),
        Rv64Insn::JAL { rd, imm } | Rv64Insn::LUI { rd, imm } | Rv64Insn::AUIPC { rd, imm } => Some(
            (Some(rd), None, None, imm),
        ),
        _ => None,
    }
}

/// Extraction keeps an instruction's immediate and registers: every
/// instruction with an immediate (I-, S-, B-, U- and J-forms) has it copied
/// unchanged into `imm`, its `rd` into `rd`, `rs1` into `rn` and `rs2` into
/// `rm`; a conditional branch or `JAL` gets its target `pc + imm` (modulo
/// 2^64) and `AUIPC` its own `pc` in `branch_target`; every instruction
/// falls through to `pc + 4`.
pub proof fn lemma_rv64_fields_keep_operands(insn: Rv64Insn, pc: u64)
    requires
        pc + 4 <= u64::MAX,
        match insn {
            Rv64Insn::BEQ { imm, .. } | Rv64Insn::BNE { imm, .. } | Rv64Insn::BLT { imm, .. } | Rv64Insn::BGE { imm, .. } | Rv64Insn::BLTU { imm, .. } | Rv64Insn::BGEU { imm, .. } | Rv64Insn::JAL { imm, .. } => i64::MIN <= pc_plus_imm(pc, imm) <= i64::MAX,
            _ => true,
        },
    ensures
        rv64_fields(insn, pc).next_pc == pc + 4,
        rv64_imm_operands(insn) matches Some((rd, rs1, rs2, imm)) ==> {
            let f = rv64_fields(insn, pc);
            &&& f.imm == imm
            &&& rd matches Some(r) ==> f.rd == r
            &&& rs1 matches Some(r) ==> f.rn == r
            &&& rs2 matches Some(r) ==> f.rm == r
        },
        match insn {
            Rv64Insn::BEQ { imm, .. } | Rv64Insn::BNE { imm, .. } | Rv64Insn::BLT { imm, .. } | Rv64Insn::BGE { imm, .. } | Rv64Insn::BLTU { imm, .. } | Rv64Insn::BGEU { imm, .. } | Rv64Insn::JAL { imm, .. } => rv64_fields(insn, pc).branch_target as int == (pc as int + imm)
                % 0x1_0000_0000_0000_0000,
            Rv64Insn::AUIPC { .. } => rv64_fields(insn, pc).branch_target == pc,
            _ => true,
        },
{
    match insn {
        Rv64Insn::BEQ { imm, .. } | Rv64Insn::BNE { imm, .. } | Rv64Insn::BLT { imm, .. } | Rv64Insn::BGE { imm, .. } | Rv64Insn::BLTU { imm, .. } | Rv64Insn::BGEU { imm, .. } | Rv64Insn::JAL { imm, .. } => lemma_signed_sum_wraps(pc, imm),
        _ => {},
    }
}

} // verus!
