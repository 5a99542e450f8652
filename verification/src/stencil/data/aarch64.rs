//! AArch64 stencil selection.
//!
//! An instruction is rejected (left to another backend) when its stencil
//! would compute the wrong result: a flag-setting or width-dependent opcode
//! in its 32-bit (W) form, a register operand that is shifted, a load/store
//! with register-offset or pre/post-index addressing, an access size without
//! a stencil, a sign-extending load to a W register, or an opcode without any
//! stencil. Otherwise the opcode (with, for bitfield moves, whether they
//! extract or insert, and for loads/stores their size or width) names one
//! stencil of the generated table, which is indexed by [`A64StencilOp`].

use super::reject::{
    COMPLEX_ADDRESSING, SHIFTED_REGISTER, UNSUPPORTED_SIZE, W_REGISTER,
};
use super::StencilLookup;
use crate::insn::{A64Insn, A64Opcode};
use crate::stencil::types::Stencil;
use vstd::prelude::*;

verus! {

/// AArch64-specific reject reason: LDRSB to a W register.
pub const LDRSB_W_FORM: &'static str = "ldrsb-w-form";
/// AArch64-specific reject reason: LDRSH to a W register.
pub const LDRSH_W_FORM: &'static str = "ldrsh-w-form";
/// AArch64-specific reject reason: load/store pair stencils disabled.
pub const LDP_STP_DISABLED: &'static str = "ldp-stp-disabled";

/// The AArch64 stencils, in table order.
#[derive(Debug, Clone, Copy, PartialEq, Eq, Structural)]
pub enum A64StencilOp {
    AddImm,
    SubImm,
    AddsImm,
    SubsImm,
    AndImm,
    OrrImm,
    EorImm,
    AndsImm,
    Movz,
    Movn,
    Movk,
    AddReg,
    SubReg,
    AddsReg,
    SubsReg,
    AndReg,
    OrrReg,
    EorReg,
    OrnReg,
    BicReg,
    SbfmExt,
    SbfmIns,
    UbfmExt,
    UbfmIns,
    Adr,
    Adrp,
    Csel,
    Csinc,
    Csinv,
    Csneg,
    Madd,
    Msub,
    Sdiv,
    Udiv,
    Extr,
    Clz,
    Rev,
    Ldr64,
    Ldr32,
    Ldr16,
    Ldr8,
    Ldrsw,
    Ldrsh,
    Ldrsb,
    Str64,
    Str32,
    Str16,
    Str8,
    Ldp64,
    Ldp32,
    Stp64,
    Stp32,
    Ldur64,
    Ldur32,
    Stur64,
    Stur32,
    Tbz,
    Tbnz,
    B,
    Bl,
    Br,
    Blr,
    Ret,
    Cbz,
    Cbnz,
    Bcond,
    Svc,
    Nop,
}

/// Number of entries of the AArch64 stencil table.
pub const A64_STENCIL_COUNT: usize = 68;

/// Position of each stencil in the table.
pub open spec fn a64_stencil_index(op: A64StencilOp) -> usize {
    match op {
        A64StencilOp::AddImm => 0,
        A64StencilOp::SubImm => 1,
        A64StencilOp::AddsImm => 2,
        A64StencilOp::SubsImm => 3,
        A64StencilOp::AndImm => 4,
        A64StencilOp::OrrImm => 5,
        A64StencilOp::EorImm => 6,
        A64StencilOp::AndsImm => 7,
        A64StencilOp::Movz => 8,
        A64StencilOp::Movn => 9,
        A64StencilOp::Movk => 10,
        A64StencilOp::AddReg => 11,
        A64StencilOp::SubReg => 12,
        A64StencilOp::AddsReg => 13,
        A64StencilOp::SubsReg => 14,
        A64StencilOp::AndReg => 15,
        A64StencilOp::OrrReg => 16,
        A64StencilOp::EorReg => 17,
        A64StencilOp::OrnReg => 18,
        A64StencilOp::BicReg => 19,
        A64StencilOp::SbfmExt => 20,
        A64StencilOp::SbfmIns => 21,
        A64StencilOp::UbfmExt => 22,
        A64StencilOp::UbfmIns => 23,
        A64StencilOp::Adr => 24,
        A64StencilOp::Adrp => 25,
        A64StencilOp::Csel => 26,
        A64StencilOp::Csinc => 27,
        A64StencilOp::Csinv => 28,
        A64StencilOp::Csneg => 29,
        A64StencilOp::Madd => 30,
        A64StencilOp::Msub => 31,
        A64StencilOp::Sdiv => 32,
        A64StencilOp::Udiv => 33,
        A64StencilOp::Extr => 34,
        A64StencilOp::Clz => 35,
        A64StencilOp::Rev => 36,
        A64StencilOp::Ldr64 => 37,
        A64StencilOp::Ldr32 => 38,
        A64StencilOp::Ldr16 => 39,
        A64StencilOp::Ldr8 => 40,
        A64StencilOp::Ldrsw => 41,
        A64StencilOp::Ldrsh => 42,
        A64StencilOp::Ldrsb => 43,
        A64StencilOp::Str64 => 44,
        A64StencilOp::Str32 => 45,
        A64StencilOp::Str16 => 46,
        A64StencilOp::Str8 => 47,
        A64StencilOp::Ldp64 => 48,
        A64StencilOp::Ldp32 => 49,
        A64StencilOp::Stp64 => 50,
        A64StencilOp::Stp32 => 51,
        A64StencilOp::Ldur64 => 52,
        A64StencilOp::Ldur32 => 53,
        A64StencilOp::Stur64 => 54,
        A64StencilOp::Stur32 => 55,
        A64StencilOp::Tbz => 56,
        A64StencilOp::Tbnz => 57,
        A64StencilOp::B => 58,
        A64StencilOp::Bl => 59,
        A64StencilOp::Br => 60,
        A64StencilOp::Blr => 61,
        A64StencilOp::Ret => 62,
        A64StencilOp::Cbz => 63,
        A64StencilOp::Cbnz => 64,
        A64StencilOp::Bcond => 65,
        A64StencilOp::Svc => 66,
        A64StencilOp::Nop => 67,
    }
}

/// Position of `op` in the stencil table.
pub fn a64_stencil_table_index(op: A64StencilOp) -> (r: usize)
    ensures
        r == a64_stencil_index(op),
        r < A64_STENCIL_COUNT,
{
    match op {
        A64StencilOp::AddImm => 0,
        A64StencilOp::SubImm => 1,
        A64StencilOp::AddsImm => 2,
        A64StencilOp::SubsImm => 3,
        A64StencilOp::AndImm => 4,
        A64StencilOp::OrrImm => 5,
        A64StencilOp::EorImm => 6,
        A64StencilOp::AndsImm => 7,
        A64StencilOp::Movz => 8,
        A64StencilOp::Movn => 9,
        A64StencilOp::Movk => 10,
        A64StencilOp::AddReg => 11,
        A64StencilOp::SubReg => 12,
        A64StencilOp::AddsReg => 13,
        A64StencilOp::SubsReg => 14,
        A64StencilOp::AndReg => 15,
        A64StencilOp::OrrReg => 16,
        A64StencilOp::EorReg => 17,
        A64StencilOp::OrnReg => 18,
        A64StencilOp::BicReg => 19,
        A64StencilOp::SbfmExt => 20,
        A64StencilOp::SbfmIns => 21,
        A64StencilOp::UbfmExt => 22,
        A64StencilOp::UbfmIns => 23,
        A64StencilOp::Adr => 24,
        A64StencilOp::Adrp => 25,
        A64StencilOp::Csel => 26,
        A64StencilOp::Csinc => 27,
        A64StencilOp::Csinv => 28,
        A64StencilOp::Csneg => 29,
        A64StencilOp::Madd => 30,
        A64StencilOp::Msub => 31,
        A64StencilOp::Sdiv => 32,
        A64StencilOp::Udiv => 33,
        A64StencilOp::Extr => 34,
        A64StencilOp::Clz => 35,
        A64StencilOp::Rev => 36,
        A64StencilOp::Ldr64 => 37,
        A64StencilOp::Ldr32 => 38,
        A64StencilOp::Ldr16 => 39,
        A64StencilOp::Ldr8 => 40,
        A64StencilOp::Ldrsw => 41,
        A64StencilOp::Ldrsh => 42,
        A64StencilOp::Ldrsb => 43,
        A64StencilOp::Str64 => 44,
        A64StencilOp::Str32 => 45,
        A64StencilOp::Str16 => 46,
        A64StencilOp::Str8 => 47,
        A64StencilOp::Ldp64 => 48,
        A64StencilOp::Ldp32 => 49,
        A64StencilOp::Stp64 => 50,
        A64StencilOp::Stp32 => 51,
        A64StencilOp::Ldur64 => 52,
        A64StencilOp::Ldur32 => 53,
        A64StencilOp::Stur64 => 54,
        A64StencilOp::Stur32 => 55,
        A64StencilOp::Tbz => 56,
        A64StencilOp::Tbnz => 57,
        A64StencilOp::B => 58,
        A64StencilOp::Bl => 59,
        A64StencilOp::Br => 60,
        A64StencilOp::Blr => 61,
        A64StencilOp::Ret => 62,
        A64StencilOp::Cbz => 63,
        A64StencilOp::Cbnz => 64,
        A64StencilOp::Bcond => 65,
        A64StencilOp::Svc => 66,
        A64StencilOp::Nop => 67,
    }
}

/// What the selection decided for an instruction.
#[derive(Debug, Clone, Copy)]
pub enum A64Selection {
    /// The instruction is compiled with this stencil.
    Stencil(A64StencilOp),
    /// The instruction is recognised but rejected, for this reason.
    Rejected(&'static str),
    /// The opcode has neither a stencil nor a reject rule.
    Unknown,
}

/// Opcodes whose 32-bit form a 64-bit stencil computes wrongly (flag
/// semantics or result width differ).
pub open spec fn needs_sf_reject(op: A64Opcode) -> bool {
    op == A64Opcode::AddsImm || op == A64Opcode::SubsImm || op == A64Opcode::AndsImm || op
        == A64Opcode::AddsReg || op == A64Opcode::SubsReg || op == A64Opcode::Clz || op
        == A64Opcode::Rev || op == A64Opcode::Extr
}

/// Register-operand opcodes whose second operand may be shifted.
pub open spec fn is_shiftable_reg_op(op: A64Opcode) -> bool {
    op == A64Opcode::AddReg || op == A64Opcode::SubReg || op == A64Opcode::AddsReg || op
        == A64Opcode::SubsReg || op == A64Opcode::AndReg || op == A64Opcode::OrrReg || op
        == A64Opcode::EorReg || op == A64Opcode::OrnReg || op == A64Opcode::BicReg
}

/// Loads and stores.
pub open spec fn is_load_store(op: A64Opcode) -> bool {
    op == A64Opcode::Ldr || op == A64Opcode::Ldrb || op == A64Opcode::Ldrh || op
        == A64Opcode::Ldrsw || op == A64Opcode::Ldrsh || op == A64Opcode::Ldrsb || op
        == A64Opcode::Str || op == A64Opcode::Strb || op == A64Opcode::Strh || op
        == A64Opcode::Ldp || op == A64Opcode::Stp || op == A64Opcode::Ldur || op
        == A64Opcode::Stur
}

/// The load/store uses an addressing mode the stencils do not support
/// (register offset, pre-index or post-index).
pub open spec fn is_complex_addressing_spec(insn: A64Insn) -> bool {
    insn.extend_type != 0 || insn.rm != 0 || insn.pre_index || insn.post_index
}

/// The stencil selected for `insn`, or why it is rejected.
pub open spec fn a64_selection(insn: A64Insn) -> A64Selection {
    if needs_sf_reject(insn.opcode) && !insn.sf {
        A64Selection::Rejected(W_REGISTER)
    } else if is_shiftable_reg_op(insn.opcode) && (insn.shift_amt != 0 || insn.shift_type != 0) {
        A64Selection::Rejected(SHIFTED_REGISTER)
    } else if is_load_store(insn.opcode) && is_complex_addressing_spec(insn) {
        A64Selection::Rejected(COMPLEX_ADDRESSING)
    } else {
        match insn.opcode {
            A64Opcode::AddImm => A64Selection::Stencil(A64StencilOp::AddImm),
            A64Opcode::SubImm => A64Selection::Stencil(A64StencilOp::SubImm),
            A64Opcode::AddsImm => A64Selection::Stencil(A64StencilOp::AddsImm),
            A64Opcode::SubsImm => A64Selection::Stencil(A64StencilOp::SubsImm),
            A64Opcode::AndImm => A64Selection::Stencil(A64StencilOp::AndImm),
            A64Opcode::OrrImm => A64Selection::Stencil(A64StencilOp::OrrImm),
            A64Opcode::EorImm => A64Selection::Stencil(A64StencilOp::EorImm),
            A64Opcode::AndsImm => A64Selection::Stencil(A64StencilOp::AndsImm),
            A64Opcode::Movz => A64Selection::Stencil(A64StencilOp::Movz),
            A64Opcode::Movn => A64Selection::Stencil(A64StencilOp::Movn),
            A64Opcode::Movk => A64Selection::Stencil(A64StencilOp::Movk),
            A64Opcode::AddReg => A64Selection::Stencil(A64StencilOp::AddReg),
            A64Opcode::SubReg => A64Selection::Stencil(A64StencilOp::SubReg),
            A64Opcode::AddsReg => A64Selection::Stencil(A64StencilOp::AddsReg),
            A64Opcode::SubsReg => A64Selection::Stencil(A64StencilOp::SubsReg),
            A64Opcode::AndReg => A64Selection::Stencil(A64StencilOp::AndReg),
            A64Opcode::OrrReg => A64Selection::Stencil(A64StencilOp::OrrReg),
            A64Opcode::EorReg => A64Selection::Stencil(A64StencilOp::EorReg),
            A64Opcode::OrnReg => A64Selection::Stencil(A64StencilOp::OrnReg),
            A64Opcode::BicReg => A64Selection::Stencil(A64StencilOp::BicReg),
            A64Opcode::Adr => A64Selection::Stencil(A64StencilOp::Adr),
            A64Opcode::Adrp => A64Selection::Stencil(A64StencilOp::Adrp),
            A64Opcode::Csel => A64Selection::Stencil(A64StencilOp::Csel),
            A64Opcode::Csinc => A64Selection::Stencil(A64StencilOp::Csinc),
            A64Opcode::Csinv => A64Selection::Stencil(A64StencilOp::Csinv),
            A64Opcode::Csneg => A64Selection::Stencil(A64StencilOp::Csneg),
            A64Opcode::Madd => A64Selection::Stencil(A64StencilOp::Madd),
            A64Opcode::Msub => A64Selection::Stencil(A64StencilOp::Msub),
            A64Opcode::Sdiv => A64Selection::Stencil(A64StencilOp::Sdiv),
            A64Opcode::Udiv => A64Selection::Stencil(A64StencilOp::Udiv),
            A64Opcode::Extr => A64Selection::Stencil(A64StencilOp::Extr),
            A64Opcode::Clz => A64Selection::Stencil(A64StencilOp::Clz),
            A64Opcode::Rev => A64Selection::Stencil(A64StencilOp::Rev),
            A64Opcode::Ldrsw => A64Selection::Stencil(A64StencilOp::Ldrsw),
            A64Opcode::Tbz => A64Selection::Stencil(A64StencilOp::Tbz),
            A64Opcode::Tbnz => A64Selection::Stencil(A64StencilOp::Tbnz),
            A64Opcode::B => A64Selection::Stencil(A64StencilOp::B),
            A64Opcode::Bl => A64Selection::Stencil(A64StencilOp::Bl),
            A64Opcode::Br => A64Selection::Stencil(A64StencilOp::Br),
            A64Opcode::Blr => A64Selection::Stencil(A64StencilOp::Blr),
            A64Opcode::Ret => A64Selection::Stencil(A64StencilOp::Ret),
            A64Opcode::Cbz => A64Selection::Stencil(A64StencilOp::Cbz),
            A64Opcode::Cbnz => A64Selection::Stencil(A64StencilOp::Cbnz),
            A64Opcode::Svc => A64Selection::Stencil(A64StencilOp::Svc),
            A64Opcode::Nop => A64Selection::Stencil(A64StencilOp::Nop),
            A64Opcode::Mul => A64Selection::Stencil(A64StencilOp::Madd),
            A64Opcode::BCond => A64Selection::Stencil(A64StencilOp::Bcond),
            A64Opcode::Sbfm => if insn.imm2 >= (insn.imm as u64) {
                A64Selection::Stencil(A64StencilOp::SbfmExt)
            } else {
                A64Selection::Stencil(A64StencilOp::SbfmIns)
            },
            A64Opcode::Ubfm => if insn.imm2 >= (insn.imm as u64) {
                A64Selection::Stencil(A64StencilOp::UbfmExt)
            } else {
                A64Selection::Stencil(A64StencilOp::UbfmIns)
            },
            A64Opcode::Ldr => if insn.size == 3 {
                A64Selection::Stencil(A64StencilOp::Ldr64)
            } else if insn.size == 2 {
                A64Selection::Stencil(A64StencilOp::Ldr32)
            } else if insn.size == 1 {
                A64Selection::Stencil(A64StencilOp::Ldr16)
            } else if insn.size == 0 {
                A64Selection::Stencil(A64StencilOp::Ldr8)
            } else {
                A64Selection::Rejected(UNSUPPORTED_SIZE)
            },
            A64Opcode::Ldrb => A64Selection::Stencil(A64StencilOp::Ldr8),
            A64Opcode::Ldrh => A64Selection::Stencil(A64StencilOp::Ldr16),
            A64Opcode::Ldrsh => if !insn.sf {
                A64Selection::Rejected(LDRSH_W_FORM)
            } else {
                A64Selection::Stencil(A64StencilOp::Ldrsh)
            },
            A64Opcode::Ldrsb => if !insn.sf {
                A64Selection::Rejected(LDRSB_W_FORM)
            } else {
                A64Selection::Stencil(A64StencilOp::Ldrsb)
            },
            A64Opcode::Str => if insn.size == 3 {
                A64Selection::Stencil(A64StencilOp::Str64)
            } else if insn.size == 2 {
                A64Selection::Stencil(A64StencilOp::Str32)
            } else if insn.size == 1 {
                A64Selection::Stencil(A64StencilOp::Str16)
            } else if insn.size == 0 {
                A64Selection::Stencil(A64StencilOp::Str8)
            } else {
                A64Selection::Rejected(UNSUPPORTED_SIZE)
            },
            A64Opcode::Strb => A64Selection::Stencil(A64StencilOp::Str8),
            A64Opcode::Strh => A64Selection::Stencil(A64StencilOp::Str16),
            A64Opcode::Ldp => if insn.sf {
                A64Selection::Stencil(A64StencilOp::Ldp64)
            } else {
                A64Selection::Stencil(A64StencilOp::Ldp32)
            },
            A64Opcode::Stp => if insn.sf {
                A64Selection::Stencil(A64StencilOp::Stp64)
            } else {
                A64Selection::Stencil(A64StencilOp::Stp32)
            },
            A64Opcode::Ldur => if insn.size == 3 {
                A64Selection::Stencil(A64StencilOp::Ldur64)
            } else if insn.size == 2 {
                A64Selection::Stencil(A64StencilOp::Ldur32)
            } else {
                A64Selection::Rejected(UNSUPPORTED_SIZE)
            },
            A64Opcode::Stur => if insn.size == 3 {
                A64Selection::Stencil(A64StencilOp::Stur64)
            } else if insn.size == 2 {
                A64Selection::Stencil(A64StencilOp::Stur32)
            } else {
                A64Selection::Rejected(UNSUPPORTED_SIZE)
            },
            _ => A64Selection::Unknown,
        }
    }
}

/// Returns true if the load/store uses an addressing mode our stencils
/// don't support (register-offset, pre-index, or post-index).
fn is_complex_addressing(insn: &A64Insn) -> (r: bool)
    ensures
        r == is_complex_addressing_spec(*insn),
{
    insn.extend_type != 0 || insn.rm != 0 || insn.pre_index || insn.post_index
}

/// Select the stencil for an AArch64 instruction, or the reason it is rejected.
pub fn select(insn: &A64Insn) -> (r: A64Selection)
    ensures
        r == a64_selection(*insn),
{
    let op = insn.opcode;
    let needs_sf_reject = match op {
        A64Opcode::AddsImm | A64Opcode::SubsImm | A64Opcode::AndsImm | A64Opcode::AddsReg
        | A64Opcode::SubsReg | A64Opcode::Clz | A64Opcode::Rev | A64Opcode::Extr => true,
        _ => false,
    };
    if needs_sf_reject && !insn.sf {
        return A64Selection::Rejected(W_REGISTER);
    }
    let shiftable = match op {
        A64Opcode::AddReg | A64Opcode::SubReg | A64Opcode::AddsReg | A64Opcode::SubsReg
        | A64Opcode::AndReg | A64Opcode::OrrReg | A64Opcode::EorReg | A64Opcode::OrnReg
        | A64Opcode::BicReg => true,
        _ => false,
    };
    if shiftable && (insn.shift_amt != 0 || insn.shift_type != 0) {
        return A64Selection::Rejected(SHIFTED_REGISTER);
    }
    let load_store = match op {
        A64Opcode::Ldr | A64Opcode::Ldrb | A64Opcode::Ldrh | A64Opcode::Ldrsw | A64Opcode::Ldrsh
        | A64Opcode::Ldrsb | A64Opcode::Str | A64Opcode::Strb | A64Opcode::Strh | A64Opcode::Ldp
        | A64Opcode::Stp | A64Opcode::Ldur | A64Opcode::Stur => true,
        _ => false,
    };
    if load_store && is_complex_addressing(insn) {
        return A64Selection::Rejected(COMPLEX_ADDRESSING);
    }
    match insn.opcode {
        A64Opcode::AddImm => A64Selection::Stencil(A64StencilOp::AddImm),
        A64Opcode::SubImm => A64Selection::Stencil(A64StencilOp::SubImm),
        A64Opcode::AddsImm => A64Selection::Stencil(A64StencilOp::AddsImm),
        A64Opcode::SubsImm => A64Selection::Stencil(A64StencilOp::SubsImm),
        A64Opcode::AndImm => A64Selection::Stencil(A64StencilOp::AndImm),
        A64Opcode::OrrImm => A64Selection::Stencil(A64StencilOp::OrrImm),
        A64Opcode::EorImm => A64Selection::Stencil(A64StencilOp::EorImm),
        A64Opcode::AndsImm => A64Selection::Stencil(A64StencilOp::AndsImm),
        A64Opcode::Movz => A64Selection::Stencil(A64StencilOp::Movz),
        A64Opcode::Movn => A64Selection::Stencil(A64StencilOp::Movn),
        A64Opcode::Movk => A64Selection::Stencil(A64StencilOp::Movk),
        A64Opcode::AddReg => A64Selection::Stencil(A64StencilOp::AddReg),
        A64Opcode::SubReg => A64Selection::Stencil(A64StencilOp::SubReg),
        A64Opcode::AddsReg => A64Selection::Stencil(A64StencilOp::AddsReg),
        A64Opcode::SubsReg => A64Selection::Stencil(A64StencilOp::SubsReg),
        A64Opcode::AndReg => A64Selection::Stencil(A64StencilOp::AndReg),
        A64Opcode::OrrReg => A64Selection::Stencil(A64StencilOp::OrrReg),
        A64Opcode::EorReg => A64Selection::Stencil(A64StencilOp::EorReg),
        A64Opcode::OrnReg => A64Selection::Stencil(A64StencilOp::OrnReg),
        A64Opcode::BicReg => A64Selection::Stencil(A64StencilOp::BicReg),
        A64Opcode::Adr => A64Selection::Stencil(A64StencilOp::Adr),
        A64Opcode::Adrp => A64Selection::Stencil(A64StencilOp::Adrp),
        A64Opcode::Csel => A64Selection::Stencil(A64StencilOp::Csel),
        A64Opcode::Csinc => A64Selection::Stencil(A64StencilOp::Csinc),
        A64Opcode::Csinv => A64Selection::Stencil(A64StencilOp::Csinv),
        A64Opcode::Csneg => A64Selection::Stencil(A64StencilOp::Csneg),
        A64Opcode::Madd => A64Selection::Stencil(A64StencilOp::Madd),
        A64Opcode::Msub => A64Selection::Stencil(A64StencilOp::Msub),
        A64Opcode::Sdiv => A64Selection::Stencil(A64StencilOp::Sdiv),
        A64Opcode::Udiv => A64Selection::Stencil(A64StencilOp::Udiv),
        A64Opcode::Extr => A64Selection::Stencil(A64StencilOp::Extr),
        A64Opcode::Clz => A64Selection::Stencil(A64StencilOp::Clz),
        A64Opcode::Rev => A64Selection::Stencil(A64StencilOp::Rev),
        A64Opcode::Ldrsw => A64Selection::Stencil(A64StencilOp::Ldrsw),
        A64Opcode::Tbz => A64Selection::Stencil(A64StencilOp::Tbz),
        A64Opcode::Tbnz => A64Selection::Stencil(A64StencilOp::Tbnz),
        A64Opcode::B => A64Selection::Stencil(A64StencilOp::B),
        A64Opcode::Bl => A64Selection::Stencil(A64StencilOp::Bl),
        A64Opcode::Br => A64Selection::Stencil(A64StencilOp::Br),
        A64Opcode::Blr => A64Selection::Stencil(A64StencilOp::Blr),
        A64Opcode::Ret => A64Selection::Stencil(A64StencilOp::Ret),
        A64Opcode::Cbz => A64Selection::Stencil(A64StencilOp::Cbz),
        A64Opcode::Cbnz => A64Selection::Stencil(A64StencilOp::Cbnz),
        A64Opcode::Svc => A64Selection::Stencil(A64StencilOp::Svc),
        A64Opcode::Nop => A64Selection::Stencil(A64StencilOp::Nop),
        A64Opcode::Mul => A64Selection::Stencil(A64StencilOp::Madd),
        A64Opcode::BCond => A64Selection::Stencil(A64StencilOp::Bcond),
        A64Opcode::Sbfm => if insn.imm2 >= (insn.imm as u64) {
            A64Selection::Stencil(A64StencilOp::SbfmExt)
        } else {
            A64Selection::Stencil(A64StencilOp::SbfmIns)
        },
        A64Opcode::Ubfm => if insn.imm2 >= (insn.imm as u64) {
            A64Selection::Stencil(A64StencilOp::UbfmExt)
        } else {
            A64Selection::Stencil(A64StencilOp::UbfmIns)
        },
        A64Opcode::Ldr => if insn.size == 3 {
            A64Selection::Stencil(A64StencilOp::Ldr64)
        } else if insn.size == 2 {
            A64Selection::Stencil(A64StencilOp::Ldr32)
        } else if insn.size == 1 {
            A64Selection::Stencil(A64StencilOp::Ldr16)
        } else if insn.size == 0 {
            A64Selection::Stencil(A64StencilOp::Ldr8)
        } else {
            A64Selection::Rejected(UNSUPPORTED_SIZE)
        },
        A64Opcode::Ldrb => A64Selection::Stencil(A64StencilOp::Ldr8),
        A64Opcode::Ldrh => A64Selection::Stencil(A64StencilOp::Ldr16),
        A64Opcode::Ldrsh => if !insn.sf {
            A64Selection::Rejected(LDRSH_W_FORM)
        } else {
            A64Selection::Stencil(A64StencilOp::Ldrsh)
        },
        A64Opcode::Ldrsb => if !insn.sf {
            A64Selection::Rejected(LDRSB_W_FORM)
        } else {
            A64Selection::Stencil(A64StencilOp::Ldrsb)
        },
        A64Opcode::Str => if insn.size == 3 {
            A64Selection::Stencil(A64StencilOp::Str64)
        } else if insn.size == 2 {
            A64Selection::Stencil(A64StencilOp::Str32)
        } else if insn.size == 1 {
            A64Selection::Stencil(A64StencilOp::Str16)
        } else if insn.size == 0 {
            A64Selection::Stencil(A64StencilOp::Str8)
        } else {
            A64Selection::Rejected(UNSUPPORTED_SIZE)
        },
        A64Opcode::Strb => A64Selection::Stencil(A64StencilOp::Str8),
        A64Opcode::Strh => A64Selection::Stencil(A64StencilOp::Str16),
        A64Opcode::Ldp => if insn.sf {
            A64Selection::Stencil(A64StencilOp::Ldp64)
        } else {
            A64Selection::Stencil(A64StencilOp::Ldp32)
        },
        A64Opcode::Stp => if insn.sf {
            A64Selection::Stencil(A64StencilOp::Stp64)
        } else {
            A64Selection::Stencil(A64StencilOp::Stp32)
        },
        A64Opcode::Ldur => if insn.size == 3 {
            A64Selection::Stencil(A64StencilOp::Ldur64)
        } else if insn.size == 2 {
            A64Selection::Stencil(A64StencilOp::Ldur32)
        } else {
            A64Selection::Rejected(UNSUPPORTED_SIZE)
        },
        A64Opcode::Stur => if insn.size == 3 {
            A64Selection::Stencil(A64StencilOp::Stur64)
        } else if insn.size == 2 {
            A64Selection::Stencil(A64StencilOp::Stur32)
        } else {
            A64Selection::Rejected(UNSUPPORTED_SIZE)
        },
        _ => A64Selection::Unknown,
    }
}

/// The lookup result of `insn` in the generated table: the selected
/// stencil, the reason it is rejected, or `None` for an opcode with neither.
pub open spec fn a64_lookup_result(insn: A64Insn, table: &'static [Stencil]) -> Option<StencilLookup> {
    match a64_selection(insn) {
        A64Selection::Stencil(op) => Some(StencilLookup::Found(&table@[a64_stencil_index(op) as int])),
        A64Selection::Rejected(reason) => Some(StencilLookup::Rejected(reason)),
        A64Selection::Unknown => None,
    }
}

/// Look up the stencil of an AArch64 instruction in the generated table:
/// `Found` with the selected stencil, `Rejected` with the reason for a
/// recognised but unsupported instruction, and `None` for an opcode the
/// table does not know at all (the whole block is then abandoned).
pub fn lookup(insn: &A64Insn, table: &'static [Stencil]) -> (r: Option<StencilLookup>)
    requires
        table@.len() == A64_STENCIL_COUNT,
    ensures
        r == a64_lookup_result(*insn, table),
{
    match select(insn) {
        A64Selection::Stencil(op) => Some(StencilLookup::Found(&table[a64_stencil_table_index(op)])),
        A64Selection::Rejected(reason) => Some(StencilLookup::Rejected(reason)),
        A64Selection::Unknown => None,
    }
}

// ── What each stencil computes ──────────────────────────────────────────────

/// The AArch64 instructions stencil `s` implements: its own operation, at
/// the operand width or access size its name gives (`MUL` is `MADD` with
/// XZR as addend; the bitfield stencils split by extract, `imms >= immr`,
/// and insert; a sized load or store moves `2^size` bytes).
pub open spec fn stencil_implements(s: A64StencilOp, insn: A64Insn) -> bool {
    let op = insn.opcode;
    match s {
        A64StencilOp::AddImm => op == A64Opcode::AddImm,
        A64StencilOp::SubImm => op == A64Opcode::SubImm,
        A64StencilOp::AddsImm => op == A64Opcode::AddsImm,
        A64StencilOp::SubsImm => op == A64Opcode::SubsImm,
        A64StencilOp::AndImm => op == A64Opcode::AndImm,
        A64StencilOp::OrrImm => op == A64Opcode::OrrImm,
        A64StencilOp::EorImm => op == A64Opcode::EorImm,
        A64StencilOp::AndsImm => op == A64Opcode::AndsImm,
        A64StencilOp::Movz => op == A64Opcode::Movz,
        A64StencilOp::Movn => op == A64Opcode::Movn,
        A64StencilOp::Movk => op == A64Opcode::Movk,
        A64StencilOp::AddReg => op == A64Opcode::AddReg,
        A64StencilOp::SubReg => op == A64Opcode::SubReg,
        A64StencilOp::AddsReg => op == A64Opcode::AddsReg,
        A64StencilOp::SubsReg => op == A64Opcode::SubsReg,
        A64StencilOp::AndReg => op == A64Opcode::AndReg,
        A64StencilOp::OrrReg => op == A64Opcode::OrrReg,
        A64StencilOp::EorReg => op == A64Opcode::EorReg,
        A64StencilOp::OrnReg => op == A64Opcode::OrnReg,
        A64StencilOp::BicReg => op == A64Opcode::BicReg,
        A64StencilOp::Adr => op == A64Opcode::Adr,
        A64StencilOp::Adrp => op == A64Opcode::Adrp,
        A64StencilOp::Csel => op == A64Opcode::Csel,
        A64StencilOp::Csinc => op == A64Opcode::Csinc,
        A64StencilOp::Csinv => op == A64Opcode::Csinv,
        A64StencilOp::Csneg => op == A64Opcode::Csneg,
        A64StencilOp::Msub => op == A64Opcode::Msub,
        A64StencilOp::Sdiv => op == A64Opcode::Sdiv,
        A64StencilOp::Udiv => op == A64Opcode::Udiv,
        A64StencilOp::Extr => op == A64Opcode::Extr,
        A64StencilOp::Clz => op == A64Opcode::Clz,
        A64StencilOp::Rev => op == A64Opcode::Rev,
        A64StencilOp::Ldrsw => op == A64Opcode::Ldrsw,
        A64StencilOp::Tbz => op == A64Opcode::Tbz,
        A64StencilOp::Tbnz => op == A64Opcode::Tbnz,
        A64StencilOp::B => op == A64Opcode::B,
        A64StencilOp::Bl => op == A64Opcode::Bl,
        A64StencilOp::Br => op == A64Opcode::Br,
        A64StencilOp::Blr => op == A64Opcode::Blr,
        A64StencilOp::Ret => op == A64Opcode::Ret,
        A64StencilOp::Cbz => op == A64Opcode::Cbz,
        A64StencilOp::Cbnz => op == A64Opcode::Cbnz,
        A64StencilOp::Svc => op == A64Opcode::Svc,
        A64StencilOp::Nop => op == A64Opcode::Nop,
        A64StencilOp::Madd => op == A64Opcode::Madd || op == A64Opcode::Mul,
        A64StencilOp::Bcond => op == A64Opcode::BCond,
        A64StencilOp::SbfmExt => op == A64Opcode::Sbfm && insn.imm2 >= insn.imm as u64,
        A64StencilOp::SbfmIns => op == A64Opcode::Sbfm && insn.imm2 < insn.imm as u64,
        A64StencilOp::UbfmExt => op == A64Opcode::Ubfm && insn.imm2 >= insn.imm as u64,
        A64StencilOp::UbfmIns => op == A64Opcode::Ubfm && insn.imm2 < insn.imm as u64,
        A64StencilOp::Ldr64 => op == A64Opcode::Ldr && insn.size == 3,
        A64StencilOp::Ldr32 => op == A64Opcode::Ldr && insn.size == 2,
        A64StencilOp::Ldr16 => (op == A64Opcode::Ldr && insn.size == 1) || op == A64Opcode::Ldrh,
        A64StencilOp::Ldr8 => (op == A64Opcode::Ldr && insn.size == 0) || op == A64Opcode::Ldrb,
        A64StencilOp::Ldrsh => op == A64Opcode::Ldrsh && insn.sf,
        A64StencilOp::Ldrsb => op == A64Opcode::Ldrsb && insn.sf,
        A64StencilOp::Str64 => op == A64Opcode::Str && insn.size == 3,
        A64StencilOp::Str32 => op == A64Opcode::Str && insn.size == 2,
        A64StencilOp::Str16 => (op == A64Opcode::Str && insn.size == 1) || op == A64Opcode::Strh,
        A64StencilOp::Str8 => (op == A64Opcode::Str && insn.size == 0) || op == A64Opcode::Strb,
        A64StencilOp::Ldp64 => op == A64Opcode::Ldp && insn.sf,
        A64StencilOp::Ldp32 => op == A64Opcode::Ldp && !insn.sf,
        A64StencilOp::Stp64 => op == A64Opcode::Stp && insn.sf,
        A64StencilOp::Stp32 => op == A64Opcode::Stp && !insn.sf,
        A64StencilOp::Ldur64 => op == A64Opcode::Ldur && insn.size == 3,
        A64StencilOp::Ldur32 => op == A64Opcode::Ldur && insn.size == 2,
        A64StencilOp::Stur64 => op == A64Opcode::Stur && insn.size == 3,
        A64StencilOp::Stur32 => op == A64Opcode::Stur && insn.size == 2,
    }
}

/// A selected stencil implements the instruction: selection never hands an
/// instruction to the stencil of another operation, width or access size.
pub proof fn lemma_selected_stencil_implements(insn: A64Insn)
    ensures
        a64_selection(insn) matches A64Selection::Stencil(s) ==> stencil_implements(s, insn),
{
}

/// The stencil stored at table position `i`.
pub open spec fn stencil_at(i: int) -> A64StencilOp {
    if i == 0 {
        A64StencilOp::AddImm
    } else if i == 1 {
        A64StencilOp::SubImm
    } else if i == 2 {
        A64StencilOp::AddsImm
    } else if i == 3 {
        A64StencilOp::SubsImm
    } else if i == 4 {
        A64StencilOp::AndImm
    } else if i == 5 {
        A64StencilOp::OrrImm
    } else if i == 6 {
        A64StencilOp::EorImm
    } else if i == 7 {
        A64StencilOp::AndsImm
    } else if i == 8 {
        A64StencilOp::Movz
    } else if i == 9 {
        A64StencilOp::Movn
    } else if i == 10 {
        A64StencilOp::Movk
    } else if i == 11 {
        A64StencilOp::AddReg
    } else if i == 12 {
        A64StencilOp::SubReg
    } else if i == 13 {
        A64StencilOp::AddsReg
    } else if i == 14 {
        A64StencilOp::SubsReg
    } else if i == 15 {
        A64StencilOp::AndReg
    } else if i == 16 {
        A64StencilOp::OrrReg
    } else if i == 17 {
        A64StencilOp::EorReg
    } else if i == 18 {
        A64StencilOp::OrnReg
    } else if i == 19 {
        A64StencilOp::BicReg
    } else if i == 20 {
        A64StencilOp::SbfmExt
    } else if i == 21 {
        A64StencilOp::SbfmIns
    } else if i == 22 {
        A64StencilOp::UbfmExt
    } else if i == 23 {
        A64StencilOp::UbfmIns
    } else if i == 24 {
        A64StencilOp::Adr
    } else if i == 25 {
        A64StencilOp::Adrp
    } else if i == 26 {
        A64StencilOp::Csel
    } else if i == 27 {
        A64StencilOp::Csinc
    } else if i == 28 {
        A64StencilOp::Csinv
    } else if i == 29 {
        A64StencilOp::Csneg
    } else if i == 30 {
        A64StencilOp::Madd
    } else if i == 31 {
        A64StencilOp::Msub
    } else if i == 32 {
        A64StencilOp::Sdiv
    } else if i == 33 {
        A64StencilOp::Udiv
    } else if i == 34 {
        A64StencilOp::Extr
    } else if i == 35 {
        A64StencilOp::Clz
    } else if i == 36 {
        A64StencilOp::Rev
    } else if i == 37 {
        A64StencilOp::Ldr64
    } else if i == 38 {
        A64StencilOp::Ldr32
    } else if i == 39 {
        A64StencilOp::Ldr16
    } else if i == 40 {
        A64StencilOp::Ldr8
    } else if i == 41 {
        A64StencilOp::Ldrsw
    } else if i == 42 {
        A64StencilOp::Ldrsh
    } else if i == 43 {
        A64StencilOp::Ldrsb
    } else if i == 44 {
        A64StencilOp::Str64
    } else if i == 45 {
        A64StencilOp::Str32
    } else if i == 46 {
        A64StencilOp::Str16
    } else if i == 47 {
        A64StencilOp::Str8
    } else if i == 48 {
        A64StencilOp::Ldp64
    } else if i == 49 {
        A64StencilOp::Ldp32
    } else if i == 50 {
        A64StencilOp::Stp64
    } else if i == 51 {
        A64StencilOp::Stp32
    } else if i == 52 {
        A64StencilOp::Ldur64
    } else if i == 53 {
        A64StencilOp::Ldur32
    } else if i == 54 {
        A64StencilOp::Stur64
    } else if i == 55 {
        A64StencilOp::Stur32
    } else if i == 56 {
        A64StencilOp::Tbz
    } else if i == 57 {
        A64StencilOp::Tbnz
    } else if i == 58 {
        A64StencilOp::B
    } else if i == 59 {
        A64StencilOp::Bl
    } else if i == 60 {
        A64StencilOp::Br
    } else if i == 61 {
        A64StencilOp::Blr
    } else if i == 62 {
        A64StencilOp::Ret
    } else if i == 63 {
        A64StencilOp::Cbz
    } else if i == 64 {
        A64StencilOp::Cbnz
    } else if i == 65 {
        A64StencilOp::Bcond
    } else if i == 66 {
        A64StencilOp::Svc
    } else {
        A64StencilOp::Nop
    }
}

/// Each stencil has its own table position, inside the table: a lookup
/// never finds the stencil of another operation in a shared slot.
pub proof fn lemma_stencil_positions_distinct(a: A64StencilOp, b: A64StencilOp)
    ensures
        a64_stencil_index(a) < A64_STENCIL_COUNT,
        a64_stencil_index(a) == a64_stencil_index(b) ==> a == b,
{
    assert(stencil_at(a64_stencil_index(a) as int) == a);
    assert(stencil_at(a64_stencil_index(b) as int) == b);
}

} // verus!
