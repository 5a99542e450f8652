//! The fields of decoded guest instructions that the JIT reads.
//!
//! The decoders produce richer instruction records; block formation, stencil
//! selection, operand extraction and fusion detection read only the fields
//! gathered here, so a decoded instruction is handed to them in this form.

use vstd::prelude::*;

verus! {

/// AArch64 opcodes the JIT tells apart (every other opcode is `Other`).
#[derive(Debug, Clone, Copy, PartialEq, Eq, Structural)]
pub enum A64Opcode {
    AddImm,
    SubImm,
    AddsImm,
    SubsImm,
    AndImm,
    OrrImm,
    EorImm,
    AndsImm,
    Movz,
    Movn,
    Movk,
    AddReg,
    SubReg,
    AddsReg,
    SubsReg,
    AndReg,
    OrrReg,
    EorReg,
    OrnReg,
    BicReg,
    Sbfm,
    Ubfm,
    Adr,
    Adrp,
    Csel,
    Csinc,
    Csinv,
    Csneg,
    Madd,
    Mul,
    Msub,
    Sdiv,
    Udiv,
    Extr,
    Clz,
    Rev,
    Ldr,
    Ldrb,
    Ldrh,
    Ldrsw,
    Ldrsh,
    Ldrsb,
    Str,
    Strb,
    Strh,
    Ldp,
    Stp,
    Ldur,
    Stur,
    Tbz,
    Tbnz,
    B,
    Bl,
    Br,
    Blr,
    Ret,
    Cbz,
    Cbnz,
    BCond,
    Svc,
    Nop,
    Ccmp,
    Ccmn,
    Lsl,
    Lsr,
    Asr,
    Ror,
    Rev16,
    Rev32,
    Rbit,
    Bfm,
    EonReg,
    BicsReg,
    AndsReg,
    AddExt,
    SubExt,
    AddsExt,
    SubsExt,
    Adc,
    Adcs,
    Sbc,
    Sbcs,
    Mneg,
    Smulh,
    Umulh,
    Ldurb,
    Ldurh,
    Ldursb,
    Ldursh,
    Ldursw,
    Sturb,
    Sturh,
    Ldar,
    Stlr,
    Ldapr,
    Ldaprh,
    Ldaprb,
    Prfm,
    SimdDup,
    StrSimd,
    StpSimd,
    Mrs,
    Msr,
    MsrImm,
    Sys,
    DcZva,
    Wfi,
    Wfe,
    Hvc,
    Smc,
    Brk,
    Eret,
    /// Any opcode the JIT does not distinguish.
    Other,
}

/// A decoded AArch64 instruction, as the JIT reads it.
#[derive(Debug, Clone, Copy, PartialEq, Eq, Structural)]
pub struct A64Insn {
    pub opcode: A64Opcode,
    /// Destination (also `Rt` of loads/stores and CBZ/CBNZ).
    pub rd: u32,
    pub rn: u32,
    pub rm: u32,
    pub ra: u32,
    /// Second register of a load/store pair.
    pub pair_second: u32,
    /// Primary immediate (branch offset, `immr`, scaled offset, ...).
    pub imm: i64,
    /// Secondary immediate (`imms`, MOVK `hw`, ...).
    pub imm2: u64,
    pub shift_amt: u32,
    pub shift_type: u32,
    /// 64-bit (X) form.
    pub sf: bool,
    /// Condition code.
    pub cond: u32,
    pub extend_type: u32,
    /// Left shift applied to an extended register offset.
    pub extend_amt: u32,
    pub pre_index: bool,
    pub post_index: bool,
    /// Access size field of loads/stores (log2 of bytes).
    pub size: u32,
    /// Size field of SIMD/FP loads and stores (register width class).
    pub ftype: u32,
    /// Guest address of the instruction.
    pub pc: u64,
}

/// A decoded RISC-V64 instruction, as the JIT reads it (variants are named
/// by their mnemonics).
#[allow(non_camel_case_types)]
#[derive(Debug, Clone, Copy, PartialEq, Eq, Structural)]
pub enum Rv64Insn {
    ADDI { rd: u8, rs1: u8, imm: i64 },
    SLTI { rd: u8, rs1: u8, imm: i64 },
    SLTIU { rd: u8, rs1: u8, imm: i64 },
    XORI { rd: u8, rs1: u8, imm: i64 },
    ORI { rd: u8, rs1: u8, imm: i64 },
    ANDI { rd: u8, rs1: u8, imm: i64 },
    SLLI { rd: u8, rs1: u8, shamt: u8 },
    SRLI { rd: u8, rs1: u8, shamt: u8 },
    SRAI { rd: u8, rs1: u8, shamt: u8 },
    ADD { rd: u8, rs1: u8, rs2: u8 },
    SUB { rd: u8, rs1: u8, rs2: u8 },
    SLL { rd: u8, rs1: u8, rs2: u8 },
    SLT { rd: u8, rs1: u8, rs2: u8 },
    SLTU { rd: u8, rs1: u8, rs2: u8 },
    XOR { rd: u8, rs1: u8, rs2: u8 },
    SRL { rd: u8, rs1: u8, rs2: u8 },
    SRA { rd: u8, rs1: u8, rs2: u8 },
    OR { rd: u8, rs1: u8, rs2: u8 },
    AND { rd: u8, rs1: u8, rs2: u8 },
    ADDIW { rd: u8, rs1: u8, imm: i64 },
    SLLIW { rd: u8, rs1: u8, shamt: u8 },
    SRLIW { rd: u8, rs1: u8, shamt: u8 },
    SRAIW { rd: u8, rs1: u8, shamt: u8 },
    ADDW { rd: u8, rs1: u8, rs2: u8 },
    SUBW { rd: u8, rs1: u8, rs2: u8 },
    SLLW { rd: u8, rs1: u8, rs2: u8 },
    SRLW { rd: u8, rs1: u8, rs2: u8 },
    SRAW { rd: u8, rs1: u8, rs2: u8 },
    LB { rd: u8, rs1: u8, imm: i64 },
    LH { rd: u8, rs1: u8, imm: i64 },
    LW { rd: u8, rs1: u8, imm: i64 },
    LD { rd: u8, rs1: u8, imm: i64 },
    LBU { rd: u8, rs1: u8, imm: i64 },
    LHU { rd: u8, rs1: u8, imm: i64 },
    LWU { rd: u8, rs1: u8, imm: i64 },
    SB { rs1: u8, rs2: u8, imm: i64 },
    SH { rs1: u8, rs2: u8, imm: i64 },
    SW { rs1: u8, rs2: u8, imm: i64 },
    SD { rs1: u8, rs2: u8, imm: i64 },
    BEQ { rs1: u8, rs2: u8, imm: i64 },
    BNE { rs1: u8, rs2: u8, imm: i64 },
    BLT { rs1: u8, rs2: u8, imm: i64 },
    BGE { rs1: u8, rs2: u8, imm: i64 },
    BLTU { rs1: u8, rs2: u8, imm: i64 },
    BGEU { rs1: u8, rs2: u8, imm: i64 },
    JAL { rd: u8, imm: i64 },
    JALR { rd: u8, rs1: u8, imm: i64 },
    LUI { rd: u8, imm: i64 },
    AUIPC { rd: u8, imm: i64 },
    MUL { rd: u8, rs1: u8, rs2: u8 },
    MULH { rd: u8, rs1: u8, rs2: u8 },
    MULHSU { rd: u8, rs1: u8, rs2: u8 },
    MULHU { rd: u8, rs1: u8, rs2: u8 },
    DIV { rd: u8, rs1: u8, rs2: u8 },
    DIVU { rd: u8, rs1: u8, rs2: u8 },
    REM { rd: u8, rs1: u8, rs2: u8 },
    REMU { rd: u8, rs1: u8, rs2: u8 },
    MULW { rd: u8, rs1: u8, rs2: u8 },
    DIVW { rd: u8, rs1: u8, rs2: u8 },
    DIVUW { rd: u8, rs1: u8, rs2: u8 },
    REMW { rd: u8, rs1: u8, rs2: u8 },
    REMUW { rd: u8, rs1: u8, rs2: u8 },
    FENCE,
    FENCE_I,
    ECALL,
    EBREAK,
    /// Any instruction the JIT does not compile.
    Other,
}

} // verus!
