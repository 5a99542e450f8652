//! Operand and control-flow computations of the RISC-V64 emitters.
//!
//! Register `r` lives at byte offset `r * 8` of the flat array and the PC at
//! slot 32. A conditional branch compares `rs1` with `rs2` by an x86-64
//! `cmp` and jumps with the `jcc` that [`jcc_for`] picks; both of its exits
//! set the PC (the target or the fall-through) and end the block.
//!
//! [`plan_rv64_emit`] decides, for each decoded instruction, which emitter
//! produces its code and with which operation; branches, jumps and
//! environment calls end the block, fences emit nothing, and atomics,
//! floating point, CSR and privileged instructions are not compiled.

use crate::dynasm::{lemma_walk_bounded, walk_from, BlockFormation, EmitOutcome, MAX_BLOCK_INSNS};
use crate::insn::Rv64Insn;
use crate::regs::REG_PC_RV64;
use vstd::prelude::*;

verus! {

/// ALU operation type for register-register and register-immediate ops.
#[derive(Debug, Clone, Copy, PartialEq, Eq, Structural)]
pub enum AluOp {
    Add,
    Sub,
    Xor,
    Or,
    And,
}

/// Shift operation type.
#[derive(Debug, Clone, Copy, PartialEq, Eq, Structural)]
pub enum ShiftOp {
    Sll,
    Srl,
    Sra,
}

/// Branch condition for conditional branches.
#[derive(Debug, Clone, Copy, PartialEq, Eq, Structural)]
pub enum BranchCond {
    /// BEQ: branch if rs1 == rs2
    Eq,
    /// BNE: branch if rs1 != rs2
    Ne,
    /// BLT: branch if rs1 < rs2 (signed)
    Lt,
    /// BGE: branch if rs1 >= rs2 (signed)
    Ge,
    /// BLTU: branch if rs1 < rs2 (unsigned)
    Ltu,
    /// BGEU: branch if rs1 >= rs2 (unsigned)
    Geu,
}

/// The x86-64 conditional jumps the branch emitter uses after `cmp rs1, rs2`.
#[derive(Debug, Clone, Copy, PartialEq, Eq, Structural)]
pub enum X86Jcc {
    /// Jump if equal (ZF).
    Je,
    /// Jump if not equal (!ZF).
    Jne,
    /// Jump if less, signed (SF != OF).
    Jl,
    /// Jump if greater or equal, signed (SF == OF).
    Jge,
    /// Jump if below, unsigned (CF).
    Jb,
    /// Jump if above or equal, unsigned (!CF).
    Jae,
}

/// Which emitter produces an instruction's code, with its operands.
#[derive(Debug, Clone, Copy, PartialEq, Eq, Structural)]
pub enum Rv64Emit {
    /// `rd = rs1 op imm`; `word`: 32-bit operation, sign-extended.
    AluImm { rd: u8, rs1: u8, imm: i64, op: AluOp, word: bool },
    /// `rd = (rs1 < imm)`, signed or unsigned.
    SltImm { rd: u8, rs1: u8, imm: i64, unsigned: bool },
    /// `rd = rs1 shifted by shamt`.
    ShiftImm { rd: u8, rs1: u8, shamt: u8, shift: ShiftOp, word: bool },
    /// `rd = rs1 op rs2`.
    AluReg { rd: u8, rs1: u8, rs2: u8, op: AluOp, word: bool },
    /// `rd = (rs1 < rs2)`, signed or unsigned.
    SltReg { rd: u8, rs1: u8, rs2: u8, unsigned: bool },
    /// `rd = rs1 shifted by rs2`.
    ShiftReg { rd: u8, rs1: u8, rs2: u8, shift: ShiftOp, word: bool },
    /// `rd = imm`.
    Lui { rd: u8, imm: i64 },
    /// `rd = pc + imm`.
    Auipc { rd: u8, imm: i64 },
    /// `rd = rs1 * rs2`.
    Mul { rd: u8, rs1: u8, rs2: u8, word: bool },
    /// `rd = rs1 / rs2`.
    Div { rd: u8, rs1: u8, rs2: u8, signed: bool, word: bool },
    /// `rd = rs1 % rs2`.
    Rem { rd: u8, rs1: u8, rs2: u8, signed: bool, word: bool },
    /// Load `size` bytes from `rs1 + imm` into `rd`.
    Load { rd: u8, rs1: u8, imm: i64, size: u32, sign_extend: bool },
    /// Store the low `size` bytes of `rs2` to `rs1 + imm`.
    Store { rs1: u8, rs2: u8, imm: i64, size: u32 },
    /// Conditional branch to `pc + imm` (ends the block).
    Branch { rs1: u8, rs2: u8, imm: i64, cond: BranchCond },
    /// Jump and link to `pc + imm` (ends the block).
    Jal { rd: u8, imm: i64 },
    /// Jump and link to `(rs1 + imm) & !1` (ends the block).
    Jalr { rd: u8, rs1: u8, imm: i64 },
    /// Environment call (ends the block).
    Ecall,
    /// Breakpoint (ends the block).
    Ebreak,
    /// No code (fences on a single-threaded simulator).
    Nothing,
}

/// The emitter each instruction uses (`None`: not compiled).
pub open spec fn rv64_emit_plan(insn: Rv64Insn) -> Option<Rv64Emit> {
    match insn {
        Rv64Insn::ADDI { rd, rs1, imm } => Some(Rv64Emit::AluImm { rd, rs1, imm, op: AluOp::Add, word: false }),
        Rv64Insn::SLTI { rd, rs1, imm } => Some(Rv64Emit::SltImm { rd, rs1, imm, unsigned: false }),
        Rv64Insn::SLTIU { rd, rs1, imm } => Some(Rv64Emit::SltImm { rd, rs1, imm, unsigned: true }),
        Rv64Insn::XORI { rd, rs1, imm } => Some(Rv64Emit::AluImm { rd, rs1, imm, op: AluOp::Xor, word: false }),
        Rv64Insn::ORI { rd, rs1, imm } => Some(Rv64Emit::AluImm { rd, rs1, imm, op: AluOp::Or, word: false }),
        Rv64Insn::ANDI { rd, rs1, imm } => Some(Rv64Emit::AluImm { rd, rs1, imm, op: AluOp::And, word: false }),
        Rv64Insn::SLLI { rd, rs1, shamt } => Some(Rv64Emit::ShiftImm { rd, rs1, shamt, shift: ShiftOp::Sll, word: false }),
        Rv64Insn::SRLI { rd, rs1, shamt } => Some(Rv64Emit::ShiftImm { rd, rs1, shamt, shift: ShiftOp::Srl, word: false }),
        Rv64Insn::SRAI { rd, rs1, shamt } => Some(Rv64Emit::ShiftImm { rd, rs1, shamt, shift: ShiftOp::Sra, word: false }),
        Rv64Insn::ADD { rd, rs1, rs2 } => Some(Rv64Emit::AluReg { rd, rs1, rs2, op: AluOp::Add, word: false }),
        Rv64Insn::SUB { rd, rs1, rs2 } => Some(Rv64Emit::AluReg { rd, rs1, rs2, op: AluOp::Sub, word: false }),
        Rv64Insn::SLL { rd, rs1, rs2 } => Some(Rv64Emit::ShiftReg { rd, rs1, rs2, shift: ShiftOp::Sll, word: false }),
        Rv64Insn::SLT { rd, rs1, rs2 } => Some(Rv64Emit::SltReg { rd, rs1, rs2, unsigned: false }),
        Rv64Insn::SLTU { rd, rs1, rs2 } => Some(Rv64Emit::SltReg { rd, rs1, rs2, unsigned: true }),
        Rv64Insn::XOR { rd, rs1, rs2 } => Some(Rv64Emit::AluReg { rd, rs1, rs2, op: AluOp::Xor, word: false }),
        Rv64Insn::SRL { rd, rs1, rs2 } => Some(Rv64Emit::ShiftReg { rd, rs1, rs2, shift: ShiftOp::Srl, word: false }),
        Rv64Insn::SRA { rd, rs1, rs2 } => Some(Rv64Emit::ShiftReg { rd, rs1, rs2, shift: ShiftOp::Sra, word: false }),
        Rv64Insn::OR { rd, rs1, rs2 } => Some(Rv64Emit::AluReg { rd, rs1, rs2, op: AluOp::Or, word: false }),
        Rv64Insn::AND { rd, rs1, rs2 } => Some(Rv64Emit::AluReg { rd, rs1, rs2, op: AluOp::And, word: false }),
        Rv64Insn::ADDIW { rd, rs1, imm } => Some(Rv64Emit::AluImm { rd, rs1, imm, op: AluOp::Add, word: true }),
        Rv64Insn::SLLIW { rd, rs1, shamt } => Some(Rv64Emit::ShiftImm { rd, rs1, shamt, shift: ShiftOp::Sll, word: true }),
        Rv64Insn::SRLIW { rd, rs1, shamt } => Some(Rv64Emit::ShiftImm { rd, rs1, shamt, shift: ShiftOp::Srl, word: true }),
        Rv64Insn::SRAIW { rd, rs1, shamt } => Some(Rv64Emit::ShiftImm { rd, rs1, shamt, shift: ShiftOp::Sra, word: true }),
        Rv64Insn::ADDW { rd, rs1, rs2 } => Some(Rv64Emit::AluReg { rd, rs1, rs2, op: AluOp::Add, word: true }),
        Rv64Insn::SUBW { rd, rs1, rs2 } => Some(Rv64Emit::AluReg { rd, rs1, rs2, op: AluOp::Sub, word: true }),
        Rv64Insn::SLLW { rd, rs1, rs2 } => Some(Rv64Emit::ShiftReg { rd, rs1, rs2, shift: ShiftOp::Sll, word: true }),
        Rv64Insn::SRLW { rd, rs1, rs2 } => Some(Rv64Emit::ShiftReg { rd, rs1, rs2, shift: ShiftOp::Srl, word: true }),
        Rv64Insn::SRAW { rd, rs1, rs2 } => Some(Rv64Emit::ShiftReg { rd, rs1, rs2, shift: ShiftOp::Sra, word: true }),
        Rv64Insn::LUI { rd, imm } => Some(Rv64Emit::Lui { rd, imm }),
        Rv64Insn::AUIPC { rd, imm } => Some(Rv64Emit::Auipc { rd, imm }),
        Rv64Insn::MUL { rd, rs1, rs2 } => Some(Rv64Emit::Mul { rd, rs1, rs2, word: false }),
        Rv64Insn::MULW { rd, rs1, rs2 } => Some(Rv64Emit::Mul { rd, rs1, rs2, word: true }),
        Rv64Insn::DIV { rd, rs1, rs2 } => Some(Rv64Emit::Div { rd, rs1, rs2, signed: true, word: false }),
        Rv64Insn::DIVU { rd, rs1, rs2 } => Some(Rv64Emit::Div { rd, rs1, rs2, signed: false, word: false }),
        Rv64Insn::DIVW { rd, rs1, rs2 } => Some(Rv64Emit::Div { rd, rs1, rs2, signed: true, word: true }),
        Rv64Insn::DIVUW { rd, rs1, rs2 } => Some(Rv64Emit::Div { rd, rs1, rs2, signed: false, word: true }),
        Rv64Insn::REM { rd, rs1, rs2 } => Some(Rv64Emit::Rem { rd, rs1, rs2, signed: true, word: false }),
        Rv64Insn::REMU { rd, rs1, rs2 } => Some(Rv64Emit::Rem { rd, rs1, rs2, signed: false, word: false }),
        Rv64Insn::REMW { rd, rs1, rs2 } => Some(Rv64Emit::Rem { rd, rs1, rs2, signed: true, word: true }),
        Rv64Insn::REMUW { rd, rs1, rs2 } => Some(Rv64Emit::Rem { rd, rs1, rs2, signed: false, word: true }),
        Rv64Insn::LB { rd, rs1, imm } => Some(Rv64Emit::Load { rd, rs1, imm, size: 1, sign_extend: true }),
        Rv64Insn::LH { rd, rs1, imm } => Some(Rv64Emit::Load { rd, rs1, imm, size: 2, sign_extend: true }),
        Rv64Insn::LW { rd, rs1, imm } => Some(Rv64Emit::Load { rd, rs1, imm, size: 4, sign_extend: true }),
        Rv64Insn::LD { rd, rs1, imm } => Some(Rv64Emit::Load { rd, rs1, imm, size: 8, sign_extend: false }),
        Rv64Insn::LBU { rd, rs1, imm } => Some(Rv64Emit::Load { rd, rs1, imm, size: 1, sign_extend: false }),
        Rv64Insn::LHU { rd, rs1, imm } => Some(Rv64Emit::Load { rd, rs1, imm, size: 2, sign_extend: false }),
        Rv64Insn::LWU { rd, rs1, imm } => Some(Rv64Emit::Load { rd, rs1, imm, size: 4, sign_extend: false }),
        Rv64Insn::SB { rs1, rs2, imm } => Some(Rv64Emit::Store { rs1, rs2, imm, size: 1 }),
        Rv64Insn::SH { rs1, rs2, imm } => Some(Rv64Emit::Store { rs1, rs2, imm, size: 2 }),
        Rv64Insn::SW { rs1, rs2, imm } => Some(Rv64Emit::Store { rs1, rs2, imm, size: 4 }),
        Rv64Insn::SD { rs1, rs2, imm } => Some(Rv64Emit::Store { rs1, rs2, imm, size: 8 }),
        Rv64Insn::BEQ { rs1, rs2, imm } => Some(Rv64Emit::Branch { rs1, rs2, imm, cond: BranchCond::Eq }),
        Rv64Insn::BNE { rs1, rs2, imm } => Some(Rv64Emit::Branch { rs1, rs2, imm, cond: BranchCond::Ne }),
        Rv64Insn::BLT { rs1, rs2, imm } => Some(Rv64Emit::Branch { rs1, rs2, imm, cond: BranchCond::Lt }),
        Rv64Insn::BGE { rs1, rs2, imm } => Some(Rv64Emit::Branch { rs1, rs2, imm, cond: BranchCond::Ge }),
        Rv64Insn::BLTU { rs1, rs2, imm } => Some(Rv64Emit::Branch { rs1, rs2, imm, cond: BranchCond::Ltu }),
        Rv64Insn::BGEU { rs1, rs2, imm } => Some(Rv64Emit::Branch { rs1, rs2, imm, cond: BranchCond::Geu }),
        Rv64Insn::JAL { rd, imm } => Some(Rv64Emit::Jal { rd, imm }),
        Rv64Insn::JALR { rd, rs1, imm } => Some(Rv64Emit::Jalr { rd, rs1, imm }),
        Rv64Insn::ECALL => Some(Rv64Emit::Ecall),
        Rv64Insn::EBREAK => Some(Rv64Emit::Ebreak),
        Rv64Insn::FENCE | Rv64Insn::FENCE_I => Some(Rv64Emit::Nothing),
        _ => None,
    }
}

/// The emitted code ends the block (it writes the PC and returns itself).
pub open spec fn ends_block(e: Rv64Emit) -> bool {
    e is Branch || e is Jal || e is Jalr || e is Ecall || e is Ebreak
}

/// What the walk records for an instruction compiled by `plan`: one
/// instruction, ending the block for control transfers; an instruction
/// without a plan is unsupported.
pub open spec fn rv64_outcome(plan: Option<Rv64Emit>) -> EmitOutcome {
    match plan {
        Some(e) => EmitOutcome::Emitted { consumed: 1, terminates: ends_block(e) },
        None => EmitOutcome::Unsupported,
    }
}

/// Choose the emitter for a decoded instruction (`None`: not compiled).
pub fn plan_rv64_emit(insn: &Rv64Insn) -> (r: Option<Rv64Emit>)
    ensures
        r == rv64_emit_plan(*insn),
{
    match *insn {
        Rv64Insn::ADDI { rd, rs1, imm } => Some(Rv64Emit::AluImm { rd, rs1, imm, op: AluOp::Add, word: false }),
        Rv64Insn::SLTI { rd, rs1, imm } => Some(Rv64Emit::SltImm { rd, rs1, imm, unsigned: false }),
        Rv64Insn::SLTIU { rd, rs1, imm } => Some(Rv64Emit::SltImm { rd, rs1, imm, unsigned: true }),
        Rv64Insn::XORI { rd, rs1, imm } => Some(Rv64Emit::AluImm { rd, rs1, imm, op: AluOp::Xor, word: false }),
        Rv64Insn::ORI { rd, rs1, imm } => Some(Rv64Emit::AluImm { rd, rs1, imm, op: AluOp::Or, word: false }),
        Rv64Insn::ANDI { rd, rs1, imm } => Some(Rv64Emit::AluImm { rd, rs1, imm, op: AluOp::And, word: false }),
        Rv64Insn::SLLI { rd, rs1, shamt } => Some(Rv64Emit::ShiftImm { rd, rs1, shamt, shift: ShiftOp::Sll, word: false }),
        Rv64Insn::SRLI { rd, rs1, shamt } => Some(Rv64Emit::ShiftImm { rd, rs1, shamt, shift: ShiftOp::Srl, word: false }),
        Rv64Insn::SRAI { rd, rs1, shamt } => Some(Rv64Emit::ShiftImm { rd, rs1, shamt, shift: ShiftOp::Sra, word: false }),
        Rv64Insn::ADD { rd, rs1, rs2 } => Some(Rv64Emit::AluReg { rd, rs1, rs2, op: AluOp::Add, word: false }),
        Rv64Insn::SUB { rd, rs1, rs2 } => Some(Rv64Emit::AluReg { rd, rs1, rs2, op: AluOp::Sub, word: false }),
        Rv64Insn::SLL { rd, rs1, rs2 } => Some(Rv64Emit::ShiftReg { rd, rs1, rs2, shift: ShiftOp::Sll, word: false }),
        Rv64Insn::SLT { rd, rs1, rs2 } => Some(Rv64Emit::SltReg { rd, rs1, rs2, unsigned: false }),
        Rv64Insn::SLTU { rd, rs1, rs2 } => Some(Rv64Emit::SltReg { rd, rs1, rs2, unsigned: true }),
        Rv64Insn::XOR { rd, rs1, rs2 } => Some(Rv64Emit::AluReg { rd, rs1, rs2, op: AluOp::Xor, word: false }),
        Rv64Insn::SRL { rd, rs1, rs2 } => Some(Rv64Emit::ShiftReg { rd, rs1, rs2, shift: ShiftOp::Srl, word: false }),
        Rv64Insn::SRA { rd, rs1, rs2 } => Some(Rv64Emit::ShiftReg { rd, rs1, rs2, shift: ShiftOp::Sra, word: false }),
        Rv64Insn::OR { rd, rs1, rs2 } => Some(Rv64Emit::AluReg { rd, rs1, rs2, op: AluOp::Or, word: false }),
        Rv64Insn::AND { rd, rs1, rs2 } => Some(Rv64Emit::AluReg { rd, rs1, rs2, op: AluOp::And, word: false }),
        Rv64Insn::ADDIW { rd, rs1, imm } => Some(Rv64Emit::AluImm { rd, rs1, imm, op: AluOp::Add, word: true }),
        Rv64Insn::SLLIW { rd, rs1, shamt } => Some(Rv64Emit::ShiftImm { rd, rs1, shamt, shift: ShiftOp::Sll, word: true }),
        Rv64Insn::SRLIW { rd, rs1, shamt } => Some(Rv64Emit::ShiftImm { rd, rs1, shamt, shift: ShiftOp::Srl, word: true }),
        Rv64Insn::SRAIW { rd, rs1, shamt } => Some(Rv64Emit::ShiftImm { rd, rs1, shamt, shift: ShiftOp::Sra, word: true }),
        Rv64Insn::ADDW { rd, rs1, rs2 } => Some(Rv64Emit::AluReg { rd, rs1, rs2, op: AluOp::Add, word: true }),
        Rv64Insn::SUBW { rd, rs1, rs2 } => Some(Rv64Emit::AluReg { rd, rs1, rs2, op: AluOp::Sub, word: true }),
        Rv64Insn::SLLW { rd, rs1, rs2 } => Some(Rv64Emit::ShiftReg { rd, rs1, rs2, shift: ShiftOp::Sll, word: true }),
        Rv64Insn::SRLW { rd, rs1, rs2 } => Some(Rv64Emit::ShiftReg { rd, rs1, rs2, shift: ShiftOp::Srl, word: true }),
        Rv64Insn::SRAW { rd, rs1, rs2 } => Some(Rv64Emit::ShiftReg { rd, rs1, rs2, shift: ShiftOp::Sra, word: true }),
        Rv64Insn::LUI { rd, imm } => Some(Rv64Emit::Lui { rd, imm }),
        Rv64Insn::AUIPC { rd, imm } => Some(Rv64Emit::Auipc { rd, imm }),
        Rv64Insn::MUL { rd, rs1, rs2 } => Some(Rv64Emit::Mul { rd, rs1, rs2, word: false }),
        Rv64Insn::MULW { rd, rs1, rs2 } => Some(Rv64Emit::Mul { rd, rs1, rs2, word: true }),
        Rv64Insn::DIV { rd, rs1, rs2 } => Some(Rv64Emit::Div { rd, rs1, rs2, signed: true, word: false }),
        Rv64Insn::DIVU { rd, rs1, rs2 } => Some(Rv64Emit::Div { rd, rs1, rs2, signed: false, word: false }),
        Rv64Insn::DIVW { rd, rs1, rs2 } => Some(Rv64Emit::Div { rd, rs1, rs2, signed: true, word: true }),
        Rv64Insn::DIVUW { rd, rs1, rs2 } => Some(Rv64Emit::Div { rd, rs1, rs2, signed: false, word: true }),
        Rv64Insn::REM { rd, rs1, rs2 } => Some(Rv64Emit::Rem { rd, rs1, rs2, signed: true, word: false }),
        Rv64Insn::REMU { rd, rs1, rs2 } => Some(Rv64Emit::Rem { rd, rs1, rs2, signed: false, word: false }),
        Rv64Insn::REMW { rd, rs1, rs2 } => Some(Rv64Emit::Rem { rd, rs1, rs2, signed: true, word: true }),
        Rv64Insn::REMUW { rd, rs1, rs2 } => Some(Rv64Emit::Rem { rd, rs1, rs2, signed: false, word: true }),
        Rv64Insn::LB { rd, rs1, imm } => Some(Rv64Emit::Load { rd, rs1, imm, size: 1, sign_extend: true }),
        Rv64Insn::LH { rd, rs1, imm } => Some(Rv64Emit::Load { rd, rs1, imm, size: 2, sign_extend: true }),
        Rv64Insn::LW { rd, rs1, imm } => Some(Rv64Emit::Load { rd, rs1, imm, size: 4, sign_extend: true }),
        Rv64Insn::LD { rd, rs1, imm } => Some(Rv64Emit::Load { rd, rs1, imm, size: 8, sign_extend: false }),
        Rv64Insn::LBU { rd, rs1, imm } => Some(Rv64Emit::Load { rd, rs1, imm, size: 1, sign_extend: false }),
        Rv64Insn::LHU { rd, rs1, imm } => Some(Rv64Emit::Load { rd, rs1, imm, size: 2, sign_extend: false }),
        Rv64Insn::LWU { rd, rs1, imm } => Some(Rv64Emit::Load { rd, rs1, imm, size: 4, sign_extend: false }),
        Rv64Insn::SB { rs1, rs2, imm } => Some(Rv64Emit::Store { rs1, rs2, imm, size: 1 }),
        Rv64Insn::SH { rs1, rs2, imm } => Some(Rv64Emit::Store { rs1, rs2, imm, size: 2 }),
        Rv64Insn::SW { rs1, rs2, imm } => Some(Rv64Emit::Store { rs1, rs2, imm, size: 4 }),
        Rv64Insn::SD { rs1, rs2, imm } => Some(Rv64Emit::Store { rs1, rs2, imm, size: 8 }),
        Rv64Insn::BEQ { rs1, rs2, imm } => Some(Rv64Emit::Branch { rs1, rs2, imm, cond: BranchCond::Eq }),
        Rv64Insn::BNE { rs1, rs2, imm } => Some(Rv64Emit::Branch { rs1, rs2, imm, cond: BranchCond::Ne }),
        Rv64Insn::BLT { rs1, rs2, imm } => Some(Rv64Emit::Branch { rs1, rs2, imm, cond: BranchCond::Lt }),
        Rv64Insn::BGE { rs1, rs2, imm } => Some(Rv64Emit::Branch { rs1, rs2, imm, cond: BranchCond::Ge }),
        Rv64Insn::BLTU { rs1, rs2, imm } => Some(Rv64Emit::Branch { rs1, rs2, imm, cond: BranchCond::Ltu }),
        Rv64Insn::BGEU { rs1, rs2, imm } => Some(Rv64Emit::Branch { rs1, rs2, imm, cond: BranchCond::Geu }),
        Rv64Insn::JAL { rd, imm } => Some(Rv64Emit::Jal { rd, imm }),
        Rv64Insn::JALR { rd, rs1, imm } => Some(Rv64Emit::Jalr { rd, rs1, imm }),
        Rv64Insn::ECALL => Some(Rv64Emit::Ecall),
        Rv64Insn::EBREAK => Some(Rv64Emit::Ebreak),
        Rv64Insn::FENCE | Rv64Insn::FENCE_I => Some(Rv64Emit::Nothing),
        _ => None,
    }
}

/// The walk outcome of an instruction emitted according to `plan`.
pub fn emit_outcome(plan: &Option<Rv64Emit>) -> (r: EmitOutcome)
    ensures
        r == rv64_outcome(*plan),
{
    match plan {
        Some(e) => {
            let terminates = match e {
                Rv64Emit::Branch { .. } | Rv64Emit::Jal { .. } | Rv64Emit::Jalr { .. } | Rv64Emit::Ecall
                | Rv64Emit::Ebreak => true,
                _ => false,
            };
            EmitOutcome::Emitted { consumed: 1, terminates }
        },
        None => EmitOutcome::Unsupported,
    }
}

/// Byte offset of register `r` in the flat register array.
pub fn reg_off(r: u8) -> (off: i32)
    ensures
        off == r * 8,
{
    (r as i32) * 8
}

/// Returns true if writes to `rd` should be skipped (x0 is hardwired zero).
pub fn skip_rd_zero(rd: u8) -> (r: bool)
    ensures
        r == (rd == 0),
{
    rd == 0
}

/// Byte offset of the PC slot in the flat register array.
pub fn pc_off() -> (off: i32)
    ensures
        off == REG_PC_RV64 * 8,
{
    (REG_PC_RV64 * 8) as i32
}

/// Whether a RISC-V conditional branch is taken for register values `a`
/// (rs1) and `b` (rs2).
pub open spec fn rv_branch_taken(c: BranchCond, a: u64, b: u64) -> bool {
    match c {
        BranchCond::Eq => a == b,
        BranchCond::Ne => a != b,
        BranchCond::Lt => (a as i64) < (b as i64),
        BranchCond::Ge => (a as i64) >= (b as i64),
        BranchCond::Ltu => a < b,
        BranchCond::Geu => a >= b,
    }
}

/// Whether `jcc` jumps after the x86-64 `cmp a, b`, from the flags that
/// `cmp` sets: the wrapped difference gives ZF and SF, the borrow CF, and
/// the sign change of operands of unlike sign OF.
pub open spec fn x86_jcc_taken(j: X86Jcc, a: u64, b: u64) -> bool {
    let d = (a - b) as u64;
    let zf = d == 0;
    let sf = (d >> 63u64) == 1;
    let cf = a < b;
    let of = (((a ^ b) & (a ^ d)) >> 63u64) == 1;
    match j {
        X86Jcc::Je => zf,
        X86Jcc::Jne => !zf,
        X86Jcc::Jl => sf != of,
        X86Jcc::Jge => sf == of,
        X86Jcc::Jb => cf,
        X86Jcc::Jae => !cf,
    }
}

/// The conditional jump used for each RISC-V branch condition.
pub open spec fn jcc_of(c: BranchCond) -> X86Jcc {
    match c {
        BranchCond::Eq => X86Jcc::Je,
        BranchCond::Ne => X86Jcc::Jne,
        BranchCond::Lt => X86Jcc::Jl,
        BranchCond::Ge => X86Jcc::Jge,
        BranchCond::Ltu => X86Jcc::Jb,
        BranchCond::Geu => X86Jcc::Jae,
    }
}

/// Pick the x86-64 conditional jump for a RISC-V branch condition.
pub fn jcc_for(c: BranchCond) -> (j: X86Jcc)
    ensures
        j == jcc_of(c),
{
    match c {
        BranchCond::Eq => X86Jcc::Je,
        BranchCond::Ne => X86Jcc::Jne,
        BranchCond::Lt => X86Jcc::Jl,
        BranchCond::Ge => X86Jcc::Jge,
        BranchCond::Ltu => X86Jcc::Jb,
        BranchCond::Geu => X86Jcc::Jae,
    }
}

/// The emitted `cmp rs1, rs2` + `jcc` takes the branch exactly when the
/// RISC-V branch is taken, for every pair of register values.
pub proof fn lemma_jcc_implements_branch(c: BranchCond, a: u64, b: u64)
    ensures
        x86_jcc_taken(jcc_of(c), a, b) == rv_branch_taken(c, a, b),
{
    let d = (a - b) as u64;
    assert((d == 0) == (a == b)) by (bit_vector)
        requires
            d == (a - b) as u64,
    ;
    assert(((d >> 63u64) == 1) != ((((a ^ b) & (a ^ d)) >> 63u64) == 1) <==> (a as i64) < (
    b as i64)) by (bit_vector)
        requires
            d == (a - b) as u64,
    ;
}

/// Target of a PC-relative branch or jump: `pc + imm`, wrapping modulo 2^64.
pub open spec fn branch_target_spec(pc: u64, imm: i64) -> int {
    (pc + imm) % 0x1_0000_0000_0000_0000
}

/// Compute the target `pc + imm` (two's-complement wrapping) of a branch,
/// JAL or AUIPC.
pub fn branch_target(pc: u64, imm: i64) -> (r: u64)
    ensures
        r == branch_target_spec(pc, imm),
{
    let r = pc.wrapping_add_signed(imm);
    proof {
        let x: int = pc + imm;
        if x > u64::MAX {
            assert(x - 0x1_0000_0000_0000_0000 == x % 0x1_0000_0000_0000_0000);
        } else if x < 0 {
            assert(x + 0x1_0000_0000_0000_0000 == x % 0x1_0000_0000_0000_0000);
        } else {
            assert(x == x % 0x1_0000_0000_0000_0000);
        }
    }
    r
}

/// The return address a JAL/JALR links (and the not-taken PC of a branch).
pub fn return_address(pc: u64) -> (r: u64)
    requires
        pc + 4 <= u64::MAX,
    ensures
        r == pc + 4,
{
    pc + 4
}

/// A RISC-V64 block never holds more than `MAX_BLOCK_INSNS` instructions:
/// the walk over any instructions, driven by their emit plans, counts at most
/// the limit (instructions are emitted one at a time).
pub proof fn lemma_rv64_block_within_limit(plans: Seq<Option<Rv64Emit>>, n: nat)
    ensures
        walk_from(
            BlockFormation { insn_count: 0, finished: false },
            Seq::new(plans.len(), |i: int| rv64_outcome(plans[i])),
            n,
        ).insn_count <= MAX_BLOCK_INSNS,
{
    let outcomes = Seq::new(plans.len(), |i: int| rv64_outcome(plans[i]));
    assert forall|i: int| 0 <= i < outcomes.len() implies match #[trigger] outcomes[i] {
        EmitOutcome::Emitted { consumed, .. } => 1 <= consumed <= 1,
        EmitOutcome::Unsupported => true,
    } by {}
    assert forall|t: BlockFormation, i: int|
        #![trigger crate::dynasm::outcome_fits(t, outcomes[i], n)]
        0 <= i < outcomes.len() && crate::dynasm::walk_continues(t, n) implies crate::dynasm::outcome_fits(
        t,
        outcomes[i],
        n,
    ) by {}
    lemma_walk_bounded(BlockFormation { insn_count: 0, finished: false }, outcomes, n, 1);
}

} // verus!
