//! RISC-V64 stencil lookup by instruction name.
//!
//! The stencils themselves (code bytes and relocations) are generated at build
//! time from the stencil sources, one per supported instruction, and handed to
//! [`super::lookup_stencil_rv64`] as a table indexed by [`Rv64StencilOp`].
//! This module maps the decoder's instruction names to those entries.

use vstd::prelude::*;
use vstd::string::StringSliceAdditionalSpecFns;

verus! {

/// The RISC-V64 instructions that have a stencil, in table order.
#[derive(Debug, Clone, Copy, PartialEq, Eq, Structural)]
pub enum Rv64StencilOp {
    // ALU immediate
    Addi,
    Slti,
    Sltiu,
    Xori,
    Ori,
    Andi,
    Slli,
    Srli,
    Srai,
    // ALU register
    Add,
    Sub,
    Sll,
    Slt,
    Sltu,
    Xor,
    Srl,
    Sra,
    Or,
    And,
    // Word operations
    Addiw,
    Addw,
    Subw,
    // Loads
    Lb,
    Lh,
    Lw,
    Ld,
    Lbu,
    Lhu,
    Lwu,
    // Stores
    Sb,
    Sh,
    Sw,
    Sd,
    // Branches and jumps
    Beq,
    Bne,
    Blt,
    Bge,
    Bltu,
    Bgeu,
    Jal,
    Jalr,
    // Upper immediate
    Lui,
    Auipc,
    // Multiply/divide
    Mul,
    Div,
    Divu,
    Rem,
    Remu,
    // System
    Ecall,
}

/// Number of entries of the RISC-V64 stencil table.
pub const RV64_STENCIL_COUNT: usize = 49;

/// The instruction name (ASCII bytes) the decoder gives each op.
pub open spec fn rv64_stencil_name(op: Rv64StencilOp) -> Seq<u8> {
    match op {
        Rv64StencilOp::Addi => seq![0x41u8, 0x44u8, 0x44u8, 0x49u8], // ADDI
        Rv64StencilOp::Slti => seq![0x53u8, 0x4Cu8, 0x54u8, 0x49u8], // SLTI
        Rv64StencilOp::Sltiu => seq![0x53u8, 0x4Cu8, 0x54u8, 0x49u8, 0x55u8], // SLTIU
        Rv64StencilOp::Xori => seq![0x58u8, 0x4Fu8, 0x52u8, 0x49u8], // XORI
        Rv64StencilOp::Ori => seq![0x4Fu8, 0x52u8, 0x49u8], // ORI
        Rv64StencilOp::Andi => seq![0x41u8, 0x4Eu8, 0x44u8, 0x49u8], // ANDI
        Rv64StencilOp::Slli => seq![0x53u8, 0x4Cu8, 0x4Cu8, 0x49u8], // SLLI
        Rv64StencilOp::Srli => seq![0x53u8, 0x52u8, 0x4Cu8, 0x49u8], // SRLI
        Rv64StencilOp::Srai => seq![0x53u8, 0x52u8, 0x41u8, 0x49u8], // SRAI
        Rv64StencilOp::Add => seq![0x41u8, 0x44u8, 0x44u8], // ADD
        Rv64StencilOp::Sub => seq![0x53u8, 0x55u8, 0x42u8], // SUB
        Rv64StencilOp::Sll => seq![0x53u8, 0x4Cu8, 0x4Cu8], // SLL
        Rv64StencilOp::Slt => seq![0x53u8, 0x4Cu8, 0x54u8], // SLT
        Rv64StencilOp::Sltu => seq![0x53u8, 0x4Cu8, 0x54u8, 0x55u8], // SLTU
        Rv64StencilOp::Xor => seq![0x58u8, 0x4Fu8, 0x52u8], // XOR
        Rv64StencilOp::Srl => seq![0x53u8, 0x52u8, 0x4Cu8], // SRL
        Rv64StencilOp::Sra => seq![0x53u8, 0x52u8, 0x41u8], // SRA
        Rv64StencilOp::Or => seq![0x4Fu8, 0x52u8], // OR
        Rv64StencilOp::And => seq![0x41u8, 0x4Eu8, 0x44u8], // AND
        Rv64StencilOp::Addiw => seq![0x41u8, 0x44u8, 0x44u8, 0x49u8, 0x57u8], // ADDIW
        Rv64StencilOp::Addw => seq![0x41u8, 0x44u8, 0x44u8, 0x57u8], // ADDW
        Rv64StencilOp::Subw => seq![0x53u8, 0x55u8, 0x42u8, 0x57u8], // SUBW
        Rv64StencilOp::Lb => seq![0x4Cu8, 0x42u8], // LB
        Rv64StencilOp::Lh => seq![0x4Cu8, 0x48u8], // LH
        Rv64StencilOp::Lw => seq![0x4Cu8, 0x57u8], // LW
        Rv64StencilOp::Ld => seq![0x4Cu8, 0x44u8], // LD
        Rv64StencilOp::Lbu => seq![0x4Cu8, 0x42u8, 0x55u8], // LBU
        Rv64StencilOp::Lhu => seq![0x4Cu8, 0x48u8, 0x55u8], // LHU
        Rv64StencilOp::Lwu => seq![0x4Cu8, 0x57u8, 0x55u8], // LWU
        Rv64StencilOp::Sb => seq![0x53u8, 0x42u8], // SB
        Rv64StencilOp::Sh => seq![0x53u8, 0x48u8], // SH
        Rv64StencilOp::Sw => seq![0x53u8, 0x57u8], // SW
        Rv64StencilOp::Sd => seq![0x53u8, 0x44u8], // SD
        Rv64StencilOp::Beq => seq![0x42u8, 0x45u8, 0x51u8], // BEQ
        Rv64StencilOp::Bne => seq![0x42u8, 0x4Eu8, 0x45u8], // BNE
        Rv64StencilOp::Blt => seq![0x42u8, 0x4Cu8, 0x54u8], // BLT
        Rv64StencilOp::Bge => seq![0x42u8, 0x47u8, 0x45u8], // BGE
        Rv64StencilOp::Bltu => seq![0x42u8, 0x4Cu8, 0x54u8, 0x55u8], // BLTU
        Rv64StencilOp::Bgeu => seq![0x42u8, 0x47u8, 0x45u8, 0x55u8], // BGEU
        Rv64StencilOp::Jal => seq![0x4Au8, 0x41u8, 0x4Cu8], // JAL
        Rv64StencilOp::Jalr => seq![0x4Au8, 0x41u8, 0x4Cu8, 0x52u8], // JALR
        Rv64StencilOp::Lui => seq![0x4Cu8, 0x55u8, 0x49u8], // LUI
        Rv64StencilOp::Auipc => seq![0x41u8, 0x55u8, 0x49u8, 0x50u8, 0x43u8], // AUIPC
        Rv64StencilOp::Mul => seq![0x4Du8, 0x55u8, 0x4Cu8], // MUL
        Rv64StencilOp::Div => seq![0x44u8, 0x49u8, 0x56u8], // DIV
        Rv64StencilOp::Divu => seq![0x44u8, 0x49u8, 0x56u8, 0x55u8], // DIVU
        Rv64StencilOp::Rem => seq![0x52u8, 0x45u8, 0x4Du8], // REM
        Rv64StencilOp::Remu => seq![0x52u8, 0x45u8, 0x4Du8, 0x55u8], // REMU
        Rv64StencilOp::Ecall => seq![0x45u8, 0x43u8, 0x41u8, 0x4Cu8, 0x4Cu8], // ECALL
    }
}

/// Position of each op in the stencil table.
pub open spec fn rv64_stencil_index(op: Rv64StencilOp) -> usize {
    match op {
        Rv64StencilOp::Addi => 0,
        Rv64StencilOp::Slti => 1,
        Rv64StencilOp::Sltiu => 2,
        Rv64StencilOp::Xori => 3,
        Rv64StencilOp::Ori => 4,
        Rv64StencilOp::Andi => 5,
        Rv64StencilOp::Slli => 6,
        Rv64StencilOp::Srli => 7,
        Rv64StencilOp::Srai => 8,
        Rv64StencilOp::Add => 9,
        Rv64StencilOp::Sub => 10,
        Rv64StencilOp::Sll => 11,
        Rv64StencilOp::Slt => 12,
        Rv64StencilOp::Sltu => 13,
        Rv64StencilOp::Xor => 14,
        Rv64StencilOp::Srl => 15,
        Rv64StencilOp::Sra => 16,
        Rv64StencilOp::Or => 17,
        Rv64StencilOp::And => 18,
        Rv64StencilOp::Addiw => 19,
        Rv64StencilOp::Addw => 20,
        Rv64StencilOp::Subw => 21,
        Rv64StencilOp::Lb => 22,
        Rv64StencilOp::Lh => 23,
        Rv64StencilOp::Lw => 24,
        Rv64StencilOp::Ld => 25,
        Rv64StencilOp::Lbu => 26,
        Rv64StencilOp::Lhu => 27,
        Rv64StencilOp::Lwu => 28,
        Rv64StencilOp::Sb => 29,
        Rv64StencilOp::Sh => 30,
        Rv64StencilOp::Sw => 31,
        Rv64StencilOp::Sd => 32,
        Rv64StencilOp::Beq => 33,
        Rv64StencilOp::Bne => 34,
        Rv64StencilOp::Blt => 35,
        Rv64StencilOp::Bge => 36,
        Rv64StencilOp::Bltu => 37,
        Rv64StencilOp::Bgeu => 38,
        Rv64StencilOp::Jal => 39,
        Rv64StencilOp::Jalr => 40,
        Rv64StencilOp::Lui => 41,
        Rv64StencilOp::Auipc => 42,
        Rv64StencilOp::Mul => 43,
        Rv64StencilOp::Div => 44,
        Rv64StencilOp::Divu => 45,
        Rv64StencilOp::Rem => 46,
        Rv64StencilOp::Remu => 47,
        Rv64StencilOp::Ecall => 48,
    }
}

/// Position of `op` in the stencil table.
pub fn stencil_index(op: Rv64StencilOp) -> (r: usize)
    ensures
        r == rv64_stencil_index(op),
        r < RV64_STENCIL_COUNT,
{
    match op {
        Rv64StencilOp::Addi => 0,
        Rv64StencilOp::Slti => 1,
        Rv64StencilOp::Sltiu => 2,
        Rv64StencilOp::Xori => 3,
        Rv64StencilOp::Ori => 4,
        Rv64StencilOp::Andi => 5,
        Rv64StencilOp::Slli => 6,
        Rv64StencilOp::Srli => 7,
        Rv64StencilOp::Srai => 8,
        Rv64StencilOp::Add => 9,
        Rv64StencilOp::Sub => 10,
        Rv64StencilOp::Sll => 11,
        Rv64StencilOp::Slt => 12,
        Rv64StencilOp::Sltu => 13,
        Rv64StencilOp::Xor => 14,
        Rv64StencilOp::Srl => 15,
        Rv64StencilOp::Sra => 16,
        Rv64StencilOp::Or => 17,
        Rv64StencilOp::And => 18,
        Rv64StencilOp::Addiw => 19,
        Rv64StencilOp::Addw => 20,
        Rv64StencilOp::Subw => 21,
        Rv64StencilOp::Lb => 22,
        Rv64StencilOp::Lh => 23,
        Rv64StencilOp::Lw => 24,
        Rv64StencilOp::Ld => 25,
        Rv64StencilOp::Lbu => 26,
        Rv64StencilOp::Lhu => 27,
        Rv64StencilOp::Lwu => 28,
        Rv64StencilOp::Sb => 29,
        Rv64StencilOp::Sh => 30,
        Rv64StencilOp::Sw => 31,
        Rv64StencilOp::Sd => 32,
        Rv64StencilOp::Beq => 33,
        Rv64StencilOp::Bne => 34,
        Rv64StencilOp::Blt => 35,
        Rv64StencilOp::Bge => 36,
        Rv64StencilOp::Bltu => 37,
        Rv64StencilOp::Bgeu => 38,
        Rv64StencilOp::Jal => 39,
        Rv64StencilOp::Jalr => 40,
        Rv64StencilOp::Lui => 41,
        Rv64StencilOp::Auipc => 42,
        Rv64StencilOp::Mul => 43,
        Rv64StencilOp::Div => 44,
        Rv64StencilOp::Divu => 45,
        Rv64StencilOp::Rem => 46,
        Rv64StencilOp::Remu => 47,
        Rv64StencilOp::Ecall => 48,
    }
}

/// A byte string's length and first five bytes (-1 past its end), which
/// tells the instruction names apart.
pub open spec fn name_key(s: Seq<u8>) -> (int, int, int, int, int, int) {
    (
        s.len() as int,
        if s.len() > 0 { s[0] as int } else { -1 },
        if s.len() > 1 { s[1] as int } else { -1 },
        if s.len() > 2 { s[2] as int } else { -1 },
        if s.len() > 3 { s[3] as int } else { -1 },
        if s.len() > 4 { s[4] as int } else { -1 },
    )
}

/// The op whose name has the given key.
pub open spec fn op_of_key(k: (int, int, int, int, int, int)) -> Option<Rv64StencilOp> {
    if k == (4int, 0x41int, 0x44int, 0x44int, 0x49int, -1int) {
        Some(Rv64StencilOp::Addi)
    } else if k == (4int, 0x53int, 0x4Cint, 0x54int, 0x49int, -1int) {
        Some(Rv64StencilOp::Slti)
    } else if k == (5int, 0x53int, 0x4Cint, 0x54int, 0x49int, 0x55int) {
        Some(Rv64StencilOp::Sltiu)
    } else if k == (4int, 0x58int, 0x4Fint, 0x52int, 0x49int, -1int) {
        Some(Rv64StencilOp::Xori)
    } else if k == (3int, 0x4Fint, 0x52int, 0x49int, -1int, -1int) {
        Some(Rv64StencilOp::Ori)
    } else if k == (4int, 0x41int, 0x4Eint, 0x44int, 0x49int, -1int) {
        Some(Rv64StencilOp::Andi)
    } else if k == (4int, 0x53int, 0x4Cint, 0x4Cint, 0x49int, -1int) {
        Some(Rv64StencilOp::Slli)
    } else if k == (4int, 0x53int, 0x52int, 0x4Cint, 0x49int, -1int) {
        Some(Rv64StencilOp::Srli)
    } else if k == (4int, 0x53int, 0x52int, 0x41int, 0x49int, -1int) {
        Some(Rv64StencilOp::Srai)
    } else if k == (3int, 0x41int, 0x44int, 0x44int, -1int, -1int) {
        Some(Rv64StencilOp::Add)
    } else if k == (3int, 0x53int, 0x55int, 0x42int, -1int, -1int) {
        Some(Rv64StencilOp::Sub)
    } else if k == (3int, 0x53int, 0x4Cint, 0x4Cint, -1int, -1int) {
        Some(Rv64StencilOp::Sll)
    } else if k == (3int, 0x53int, 0x4Cint, 0x54int, -1int, -1int) {
        Some(Rv64StencilOp::Slt)
    } else if k == (4int, 0x53int, 0x4Cint, 0x54int, 0x55int, -1int) {
        Some(Rv64StencilOp::Sltu)
    } else if k == (3int, 0x58int, 0x4Fint, 0x52int, -1int, -1int) {
        Some(Rv64StencilOp::Xor)
    } else if k == (3int, 0x53int, 0x52int, 0x4Cint, -1int, -1int) {
        Some(Rv64StencilOp::Srl)
    } else if k == (3int, 0x53int, 0x52int, 0x41int, -1int, -1int) {
        Some(Rv64StencilOp::Sra)
    } else if k == (2int, 0x4Fint, 0x52int, -1int, -1int, -1int) {
        Some(Rv64StencilOp::Or)
    } else if k == (3int, 0x41int, 0x4Eint, 0x44int, -1int, -1int) {
        Some(Rv64StencilOp::And)
    } else if k == (5int, 0x41int, 0x44int, 0x44int, 0x49int, 0x57int) {
        Some(Rv64StencilOp::Addiw)
    } else if k == (4int, 0x41int, 0x44int, 0x44int, 0x57int, -1int) {
        Some(Rv64StencilOp::Addw)
    } else if k == (4int, 0x53int, 0x55int, 0x42int, 0x57int, -1int) {
        Some(Rv64StencilOp::Subw)
    } else if k == (2int, 0x4Cint, 0x42int, -1int, -1int, -1int) {
        Some(Rv64StencilOp::Lb)
    } else if k == (2int, 0x4Cint, 0x48int, -1int, -1int, -1int) {
        Some(Rv64StencilOp::Lh)
    } else if k == (2int, 0x4Cint, 0x57int, -1int, -1int, -1int) {
        Some(Rv64StencilOp::Lw)
    } else if k == (2int, 0x4Cint, 0x44int, -1int, -1int, -1int) {
        Some(Rv64StencilOp::Ld)
    } else if k == (3int, 0x4Cint, 0x42int, 0x55int, -1int, -1int) {
        Some(Rv64StencilOp::Lbu)
    } else if k == (3int, 0x4Cint, 0x48int, 0x55int, -1int, -1int) {
        Some(Rv64StencilOp::Lhu)
    } else if k == (3int, 0x4Cint, 0x57int, 0x55int, -1int, -1int) {
        Some(Rv64StencilOp::Lwu)
    } else if k == (2int, 0x53int, 0x42int, -1int, -1int, -1int) {
        Some(Rv64StencilOp::Sb)
    } else if k == (2int, 0x53int, 0x48int, -1int, -1int, -1int) {
        Some(Rv64StencilOp::Sh)
    } else if k == (2int, 0x53int, 0x57int, -1int, -1int, -1int) {
        Some(Rv64StencilOp::Sw)
    } else if k == (2int, 0x53int, 0x44int, -1int, -1int, -1int) {
        Some(Rv64StencilOp::Sd)
    } else if k == (3int, 0x42int, 0x45int, 0x51int, -1int, -1int) {
        Some(Rv64StencilOp::Beq)
    } else if k == (3int, 0x42int, 0x4Eint, 0x45int, -1int, -1int) {
        Some(Rv64StencilOp::Bne)
    } else if k == (3int, 0x42int, 0x4Cint, 0x54int, -1int, -1int) {
        Some(Rv64StencilOp::Blt)
    } else if k == (3int, 0x42int, 0x47int, 0x45int, -1int, -1int) {
        Some(Rv64StencilOp::Bge)
    } else if k == (4int, 0x42int, 0x4Cint, 0x54int, 0x55int, -1int) {
        Some(Rv64StencilOp::Bltu)
    } else if k == (4int, 0x42int, 0x47int, 0x45int, 0x55int, -1int) {
        Some(Rv64StencilOp::Bgeu)
    } else if k == (3int, 0x4Aint, 0x41int, 0x4Cint, -1int, -1int) {
        Some(Rv64StencilOp::Jal)
    } else if k == (4int, 0x4Aint, 0x41int, 0x4Cint, 0x52int, -1int) {
        Some(Rv64StencilOp::Jalr)
    } else if k == (3int, 0x4Cint, 0x55int, 0x49int, -1int, -1int) {
        Some(Rv64StencilOp::Lui)
    } else if k == (5int, 0x41int, 0x55int, 0x49int, 0x50int, 0x43int) {
        Some(Rv64StencilOp::Auipc)
    } else if k == (3int, 0x4Dint, 0x55int, 0x4Cint, -1int, -1int) {
        Some(Rv64StencilOp::Mul)
    } else if k == (3int, 0x44int, 0x49int, 0x56int, -1int, -1int) {
        Some(Rv64StencilOp::Div)
    } else if k == (4int, 0x44int, 0x49int, 0x56int, 0x55int, -1int) {
        Some(Rv64StencilOp::Divu)
    } else if k == (3int, 0x52int, 0x45int, 0x4Dint, -1int, -1int) {
        Some(Rv64StencilOp::Rem)
    } else if k == (4int, 0x52int, 0x45int, 0x4Dint, 0x55int, -1int) {
        Some(Rv64StencilOp::Remu)
    } else if k == (5int, 0x45int, 0x43int, 0x41int, 0x4Cint, 0x4Cint) {
        Some(Rv64StencilOp::Ecall)
    } else {
        None
    }
}

/// Every op's name keys back to that op.
proof fn lemma_key_of_name(op: Rv64StencilOp)
    ensures
        op_of_key(name_key(rv64_stencil_name(op))) == Some(op),
{
    match op {
        Rv64StencilOp::Addi => {},
        Rv64StencilOp::Slti => {},
        Rv64StencilOp::Sltiu => {},
        Rv64StencilOp::Xori => {},
        Rv64StencilOp::Ori => {},
        Rv64StencilOp::Andi => {},
        Rv64StencilOp::Slli => {},
        Rv64StencilOp::Srli => {},
        Rv64StencilOp::Srai => {},
        Rv64StencilOp::Add => {},
        Rv64StencilOp::Sub => {},
        Rv64StencilOp::Sll => {},
        Rv64StencilOp::Slt => {},
        Rv64StencilOp::Sltu => {},
        Rv64StencilOp::Xor => {},
        Rv64StencilOp::Srl => {},
        Rv64StencilOp::Sra => {},
        Rv64StencilOp::Or => {},
        Rv64StencilOp::And => {},
        Rv64StencilOp::Addiw => {},
        Rv64StencilOp::Addw => {},
        Rv64StencilOp::Subw => {},
        Rv64StencilOp::Lb => {},
        Rv64StencilOp::Lh => {},
        Rv64StencilOp::Lw => {},
        Rv64StencilOp::Ld => {},
        Rv64StencilOp::Lbu => {},
        Rv64StencilOp::Lhu => {},
        Rv64StencilOp::Lwu => {},
        Rv64StencilOp::Sb => {},
        Rv64StencilOp::Sh => {},
        Rv64StencilOp::Sw => {},
        Rv64StencilOp::Sd => {},
        Rv64StencilOp::Beq => {},
        Rv64StencilOp::Bne => {},
        Rv64StencilOp::Blt => {},
        Rv64StencilOp::Bge => {},
        Rv64StencilOp::Bltu => {},
        Rv64StencilOp::Bgeu => {},
        Rv64StencilOp::Jal => {},
        Rv64StencilOp::Jalr => {},
        Rv64StencilOp::Lui => {},
        Rv64StencilOp::Auipc => {},
        Rv64StencilOp::Mul => {},
        Rv64StencilOp::Div => {},
        Rv64StencilOp::Divu => {},
        Rv64StencilOp::Rem => {},
        Rv64StencilOp::Remu => {},
        Rv64StencilOp::Ecall => {},
    }
}

/// Different ops have different names.
pub proof fn lemma_names_distinct()
    ensures
        forall|a: Rv64StencilOp, b: Rv64StencilOp|
            rv64_stencil_name(a) == rv64_stencil_name(b) ==> a == b,
{
    assert forall|a: Rv64StencilOp, b: Rv64StencilOp|
        rv64_stencil_name(a) == rv64_stencil_name(b) implies a == b by {
        lemma_key_of_name(a);
        lemma_key_of_name(b);
    }
}

/// Whether two byte strings are equal.
fn bytes_eq(a: &[u8], b: &[u8]) -> (r: bool)
    ensures
        r == (a@ == b@),
{
    if a.len() != b.len() {
        return false;
    }
    let mut i: usize = 0;
    while i < a.len()
        invariant
            a@.len() == b@.len(),
            0 <= i <= a@.len(),
            forall|j: int| 0 <= j < i ==> a@[j] == b@[j],
        decreases a@.len() - i,
    {
        if a[i] != b[i] {
            return false;
        }
        i += 1;
    }
    assert(a@ =~= b@);
    true
}

/// Look up the stencil op for a RISC-V64 instruction name (`None` for an
/// instruction without a stencil).
pub fn lookup(name: &str) -> (r: Option<Rv64StencilOp>)
    ensures
        match r {
            Some(op) => rv64_stencil_name(op) == name.spec_bytes(),
            None => forall|op: Rv64StencilOp| rv64_stencil_name(op) != name.spec_bytes(),
        },
{
    let b = name.as_bytes();
    if bytes_eq(b, &[0x41u8, 0x44u8, 0x44u8, 0x49u8]) {
        return Some(Rv64StencilOp::Addi);
    }
    if bytes_eq(b, &[0x53u8, 0x4Cu8, 0x54u8, 0x49u8]) {
        return Some(Rv64StencilOp::Slti);
    }
    if bytes_eq(b, &[0x53u8, 0x4Cu8, 0x54u8, 0x49u8, 0x55u8]) {
        return Some(Rv64StencilOp::Sltiu);
    }
    if bytes_eq(b, &[0x58u8, 0x4Fu8, 0x52u8, 0x49u8]) {
        return Some(Rv64StencilOp::Xori);
    }
    if bytes_eq(b, &[0x4Fu8, 0x52u8, 0x49u8]) {
        return Some(Rv64StencilOp::Ori);
    }
    if bytes_eq(b, &[0x41u8, 0x4Eu8, 0x44u8, 0x49u8]) {
        return Some(Rv64StencilOp::Andi);
    }
    if bytes_eq(b, &[0x53u8, 0x4Cu8, 0x4Cu8, 0x49u8]) {
        return Some(Rv64StencilOp::Slli);
    }
    if bytes_eq(b, &[0x53u8, 0x52u8, 0x4Cu8, 0x49u8]) {
        return Some(Rv64StencilOp::Srli);
    }
    if bytes_eq(b, &[0x53u8, 0x52u8, 0x41u8, 0x49u8]) {
        return Some(Rv64StencilOp::Srai);
    }
    if bytes_eq(b, &[0x41u8, 0x44u8, 0x44u8]) {
        return Some(Rv64StencilOp::Add);
    }
    if bytes_eq(b, &[0x53u8, 0x55u8, 0x42u8]) {
        return Some(Rv64StencilOp::Sub);
    }
    if bytes_eq(b, &[0x53u8, 0x4Cu8, 0x4Cu8]) {
        return Some(Rv64StencilOp::Sll);
    }
    if bytes_eq(b, &[0x53u8, 0x4Cu8, 0x54u8]) {
        return Some(Rv64StencilOp::Slt);
    }
    if bytes_eq(b, &[0x53u8, 0x4Cu8, 0x54u8, 0x55u8]) {
        return Some(Rv64StencilOp::Sltu);
    }
    if bytes_eq(b, &[0x58u8, 0x4Fu8, 0x52u8]) {
        return Some(Rv64StencilOp::Xor);
    }
    if bytes_eq(b, &[0x53u8, 0x52u8, 0x4Cu8]) {
        return Some(Rv64StencilOp::Srl);
    }
    if bytes_eq(b, &[0x53u8, 0x52u8, 0x41u8]) {
        return Some(Rv64StencilOp::Sra);
    }
    if bytes_eq(b, &[0x4Fu8, 0x52u8]) {
        return Some(Rv64StencilOp::Or);
    }
    if bytes_eq(b, &[0x41u8, 0x4Eu8, 0x44u8]) {
        return Some(Rv64StencilOp::And);
    }
    if bytes_eq(b, &[0x41u8, 0x44u8, 0x44u8, 0x49u8, 0x57u8]) {
        return Some(Rv64StencilOp::Addiw);
    }
    if bytes_eq(b, &[0x41u8, 0x44u8, 0x44u8, 0x57u8]) {
        return Some(Rv64StencilOp::Addw);
    }
    if bytes_eq(b, &[0x53u8, 0x55u8, 0x42u8, 0x57u8]) {
        return Some(Rv64StencilOp::Subw);
    }
    if bytes_eq(b, &[0x4Cu8, 0x42u8]) {
        return Some(Rv64StencilOp::Lb);
    }
    if bytes_eq(b, &[0x4Cu8, 0x48u8]) {
        return Some(Rv64StencilOp::Lh);
    }
    if bytes_eq(b, &[0x4Cu8, 0x57u8]) {
        return Some(Rv64StencilOp::Lw);
    }
    if bytes_eq(b, &[0x4Cu8, 0x44u8]) {
        return Some(Rv64StencilOp::Ld);
    }
    if bytes_eq(b, &[0x4Cu8, 0x42u8, 0x55u8]) {
        return Some(Rv64StencilOp::Lbu);
    }
    if bytes_eq(b, &[0x4Cu8, 0x48u8, 0x55u8]) {
        return Some(Rv64StencilOp::Lhu);
    }
    if bytes_eq(b, &[0x4Cu8, 0x57u8, 0x55u8]) {
        return Some(Rv64StencilOp::Lwu);
    }
    if bytes_eq(b, &[0x53u8, 0x42u8]) {
        return Some(Rv64StencilOp::Sb);
    }
    if bytes_eq(b, &[0x53u8, 0x48u8]) {
        return Some(Rv64StencilOp::Sh);
    }
    if bytes_eq(b, &[0x53u8, 0x57u8]) {
        return Some(Rv64StencilOp::Sw);
    }
    if bytes_eq(b, &[0x53u8, 0x44u8]) {
        return Some(Rv64StencilOp::Sd);
    }
    if bytes_eq(b, &[0x42u8, 0x45u8, 0x51u8]) {
        return Some(Rv64StencilOp::Beq);
    }
    if bytes_eq(b, &[0x42u8, 0x4Eu8, 0x45u8]) {
        return Some(Rv64StencilOp::Bne);
    }
    if bytes_eq(b, &[0x42u8, 0x4Cu8, 0x54u8]) {
        return Some(Rv64StencilOp::Blt);
    }
    if bytes_eq(b, &[0x42u8, 0x47u8, 0x45u8]) {
        return Some(Rv64StencilOp::Bge);
    }
    if bytes_eq(b, &[0x42u8, 0x4Cu8, 0x54u8, 0x55u8]) {
        return Some(Rv64StencilOp::Bltu);
    }
    if bytes_eq(b, &[0x42u8, 0x47u8, 0x45u8, 0x55u8]) {
        return Some(Rv64StencilOp::Bgeu);
    }
    if bytes_eq(b, &[0x4Au8, 0x41u8, 0x4Cu8]) {
        return Some(Rv64StencilOp::Jal);
    }
    if bytes_eq(b, &[0x4Au8, 0x41u8, 0x4Cu8, 0x52u8]) {
        return Some(Rv64StencilOp::Jalr);
    }
    if bytes_eq(b, &[0x4Cu8, 0x55u8, 0x49u8]) {
        return Some(Rv64StencilOp::Lui);
    }
    if bytes_eq(b, &[0x41u8, 0x55u8, 0x49u8, 0x50u8, 0x43u8]) {
        return Some(Rv64StencilOp::Auipc);
    }
    if bytes_eq(b, &[0x4Du8, 0x55u8, 0x4Cu8]) {
        return Some(Rv64StencilOp::Mul);
    }
    if bytes_eq(b, &[0x44u8, 0x49u8, 0x56u8]) {
        return Some(Rv64StencilOp::Div);
    }
    if bytes_eq(b, &[0x44u8, 0x49u8, 0x56u8, 0x55u8]) {
        return Some(Rv64StencilOp::Divu);
    }
    if bytes_eq(b, &[0x52u8, 0x45u8, 0x4Du8]) {
        return Some(Rv64StencilOp::Rem);
    }
    if bytes_eq(b, &[0x52u8, 0x45u8, 0x4Du8, 0x55u8]) {
        return Some(Rv64StencilOp::Remu);
    }
    if bytes_eq(b, &[0x45u8, 0x43u8, 0x41u8, 0x4Cu8, 0x4Cu8]) {
        return Some(Rv64StencilOp::Ecall);
    }
    None
}

} // verus!
