//! Routing of decoded AArch64 instructions to the dynasm emitters, and the
//! block walk that drives them.
//!
//! Every supported opcode is handled by exactly one emitter routine. An
//! unconditional branch, a return, an exception-generating instruction
//! (SVC, HVC, SMC, BRK), ERET and WFI end the block; a conditional branch
//! keeps it open, because its taken path leaves through a side exit and the
//! not-taken path falls through to the next instruction. Anything else the
//! dispatcher does not know ends the block before it, and the interpreter
//! takes over there. Before an instruction goes to its emitter, the walk
//! tries to fuse it with the next one; a fused pair ends in a conditional
//! branch and keeps the block open too.

use crate::dynasm::arith::{reg_arith_plan, var_shift_plan, Operand2};
use crate::dynasm::branch::branch_plan;
use crate::dynasm::carry::carry_plan;
use crate::dynasm::divide::div_plan;
use crate::dynasm::fusion::{fused_outcome, fused_pair_of, try_fuse};
use crate::dynasm::imm::{imm_plan, ImmOp};
use crate::dynasm::logic::{logic_plan, LogicOperand};
use crate::dynasm::multiply::mul_plan;
use crate::dynasm::select::cond_select_plan;
use crate::dynasm::{
    fallthrough_pc_spec, finish_block, walk_continues, walk_step, BlockFormation, EmitOutcome,
    MAX_BLOCK_INSNS,
};
use crate::insn::{A64Insn, A64Opcode};
use vstd::prelude::*;

verus! {

/// The PSTATE field an `MSR (immediate)` writes, with the 4-bit `CRm` mask.
#[derive(Debug, Clone, Copy, PartialEq, Eq, Structural)]
pub enum PstateWrite {
    /// DAIFSet: the mask bits are set in DAIF.
    DaifSet { mask: u32 },
    /// DAIFClr: the mask bits are cleared in DAIF.
    DaifClr { mask: u32 },
    /// SPSel: bit 0 of the mask selects the stack pointer.
    SpSel { mask: u32 },
    /// Any other field: the write has no effect.
    Ignored,
}

/// The exception-generating instructions, each with its own runtime entry.
#[derive(Debug, Clone, Copy, PartialEq, Eq, Structural)]
pub enum ExceptionCall {
    Svc,
    Hvc,
    Smc,
    Brk,
}

/// The emitter routine that produces the host code of one instruction.
#[derive(Debug, Clone, Copy, PartialEq, Eq, Structural)]
pub enum A64Emitter {
    Adr,
    Adrp,
    AddSubImm,
    AddsSubsImm,
    LogicalImm,
    AndsImm,
    AndsReg,
    Movz,
    Movk,
    Movn,
    Ubfm,
    AddSubReg,
    AddSubExt,
    AddsSubsReg,
    CondCompare,
    CondSelect,
    Sbfm,
    ShiftReg,
    Clz,
    Rev,
    Rev16,
    Rev32,
    Rbit,
    Extr,
    Bfm,
    LogicalNegReg,
    Sdiv,
    Udiv,
    AddsSubsExt,
    Adc,
    Sbc,
    Madd,
    Msub,
    Smulh,
    Umulh,
    LogicalReg,
    /// Any single-register load with an immediate offset (also acquire loads).
    Load,
    /// Any single-register store with an immediate offset (also release stores).
    Store,
    LoadPair,
    StorePair,
    /// Emits nothing (NOP, WFE, prefetch).
    Hint,
    B,
    Bl,
    Br,
    Blr,
    Ret,
    Cbz,
    Cbnz,
    BCond,
    Tbz,
    Tbnz,
    SimdDup,
    /// Store of one vector register of `bytes` bytes.
    StoreSimd { bytes: u32 },
    /// Store of a pair of vector registers of `bytes` bytes each.
    StorePairSimd { bytes: u32 },
    Mrs,
    Msr,
    MsrImm(PstateWrite),
    DcZva,
    Sys,
    Exception(ExceptionCall),
    Eret,
    Wfi,
}

/// `op1`, bits 16..18 of an `MSR (immediate)` record's immediate.
pub open spec fn msr_op1(imm: i64) -> u32 {
    ((imm >> 16u64) & 7i64) as u32
}

/// `op2`, bits 5..7 of the immediate.
pub open spec fn msr_op2(imm: i64) -> u32 {
    ((imm >> 5u64) & 7i64) as u32
}

/// `CRm`, bits 8..11 of the immediate.
pub open spec fn msr_crm(imm: i64) -> u32 {
    ((imm >> 8u64) & 15i64) as u32
}

/// The PSTATE write an `MSR (immediate)` with immediate `imm` performs.
pub open spec fn pstate_write_of(imm: i64) -> PstateWrite {
    let op1 = msr_op1(imm);
    let op2 = msr_op2(imm);
    if op1 == 3 && op2 == 6 {
        PstateWrite::DaifSet { mask: msr_crm(imm) }
    } else if op1 == 3 && op2 == 7 {
        PstateWrite::DaifClr { mask: msr_crm(imm) }
    } else if op1 == 0 && op2 == 5 {
        PstateWrite::SpSel { mask: msr_crm(imm) }
    } else {
        PstateWrite::Ignored
    }
}

/// Decode the PSTATE write of an `MSR (immediate)` from its immediate.
pub fn decode_pstate_write(imm: i64) -> (r: PstateWrite)
    ensures
        r == pstate_write_of(imm),
{
    let op1 = ((imm >> 16u64) & 7i64) as u32;
    let op2 = ((imm >> 5u64) & 7i64) as u32;
    let crm = ((imm >> 8u64) & 15i64) as u32;
    if op1 == 3 && op2 == 6 {
        PstateWrite::DaifSet { mask: crm }
    } else if op1 == 3 && op2 == 7 {
        PstateWrite::DaifClr { mask: crm }
    } else if op1 == 0 && op2 == 5 {
        PstateWrite::SpSel { mask: crm }
    } else {
        PstateWrite::Ignored
    }
}

/// The emitter of `insn`, or `None` when the dispatcher cannot compile it.
/// Vector stores narrower than 8 bytes per register are left to the
/// interpreter.
pub open spec fn a64_emit_plan(insn: A64Insn) -> Option<A64Emitter> {
    match insn.opcode {
        A64Opcode::Adr => Some(A64Emitter::Adr),
        A64Opcode::Adrp => Some(A64Emitter::Adrp),
        A64Opcode::AddImm | A64Opcode::SubImm => Some(A64Emitter::AddSubImm),
        A64Opcode::AddsImm | A64Opcode::SubsImm => Some(A64Emitter::AddsSubsImm),
        A64Opcode::AndImm | A64Opcode::OrrImm | A64Opcode::EorImm => Some(A64Emitter::LogicalImm),
        A64Opcode::AndsImm => Some(A64Emitter::AndsImm),
        A64Opcode::AndsReg => Some(A64Emitter::AndsReg),
        A64Opcode::Movz => Some(A64Emitter::Movz),
        A64Opcode::Movk => Some(A64Emitter::Movk),
        A64Opcode::Movn => Some(A64Emitter::Movn),
        A64Opcode::Ubfm => Some(A64Emitter::Ubfm),
        A64Opcode::AddReg | A64Opcode::SubReg => Some(A64Emitter::AddSubReg),
        A64Opcode::AddExt | A64Opcode::SubExt => Some(A64Emitter::AddSubExt),
        A64Opcode::AddsReg | A64Opcode::SubsReg => Some(A64Emitter::AddsSubsReg),
        A64Opcode::Ccmp | A64Opcode::Ccmn => Some(A64Emitter::CondCompare),
        A64Opcode::Csel | A64Opcode::Csinc | A64Opcode::Csinv | A64Opcode::Csneg => Some(
            A64Emitter::CondSelect,
        ),
        A64Opcode::Sbfm => Some(A64Emitter::Sbfm),
        A64Opcode::Lsl | A64Opcode::Lsr | A64Opcode::Asr | A64Opcode::Ror => Some(
            A64Emitter::ShiftReg,
        ),
        A64Opcode::Clz => Some(A64Emitter::Clz),
        A64Opcode::Rev => Some(A64Emitter::Rev),
        A64Opcode::Rev16 => Some(A64Emitter::Rev16),
        A64Opcode::Rev32 => Some(A64Emitter::Rev32),
        A64Opcode::Rbit => Some(A64Emitter::Rbit),
        A64Opcode::Extr => Some(A64Emitter::Extr),
        A64Opcode::Bfm => Some(A64Emitter::Bfm),
        A64Opcode::OrnReg | A64Opcode::EonReg | A64Opcode::BicReg | A64Opcode::BicsReg => Some(
            A64Emitter::LogicalNegReg,
        ),
        A64Opcode::Sdiv => Some(A64Emitter::Sdiv),
        A64Opcode::Udiv => Some(A64Emitter::Udiv),
        A64Opcode::AddsExt | A64Opcode::SubsExt => Some(A64Emitter::AddsSubsExt),
        A64Opcode::Adc | A64Opcode::Adcs => Some(A64Emitter::Adc),
        A64Opcode::Sbc | A64Opcode::Sbcs => Some(A64Emitter::Sbc),
        A64Opcode::Madd | A64Opcode::Mul => Some(A64Emitter::Madd),
        A64Opcode::Msub | A64Opcode::Mneg => Some(A64Emitter::Msub),
        A64Opcode::Smulh => Some(A64Emitter::Smulh),
        A64Opcode::Umulh => Some(A64Emitter::Umulh),
        A64Opcode::AndReg | A64Opcode::OrrReg | A64Opcode::EorReg => Some(A64Emitter::LogicalReg),
        A64Opcode::Ldr | A64Opcode::Ldrb | A64Opcode::Ldrh | A64Opcode::Ldrsb | A64Opcode::Ldrsh
        | A64Opcode::Ldrsw | A64Opcode::Ldur | A64Opcode::Ldurb | A64Opcode::Ldurh
        | A64Opcode::Ldursb | A64Opcode::Ldursh | A64Opcode::Ldursw | A64Opcode::Ldar
        | A64Opcode::Ldapr | A64Opcode::Ldaprh | A64Opcode::Ldaprb => Some(A64Emitter::Load),
        A64Opcode::Str | A64Opcode::Strb | A64Opcode::Strh | A64Opcode::Stur | A64Opcode::Sturb
        | A64Opcode::Sturh | A64Opcode::Stlr => Some(A64Emitter::Store),
        A64Opcode::Ldp => Some(A64Emitter::LoadPair),
        A64Opcode::Stp => Some(A64Emitter::StorePair),
        A64Opcode::Prfm | A64Opcode::Nop | A64Opcode::Wfe => Some(A64Emitter::Hint),
        A64Opcode::B => Some(A64Emitter::B),
        A64Opcode::Bl => Some(A64Emitter::Bl),
        A64Opcode::Br => Some(A64Emitter::Br),
        A64Opcode::Blr => Some(A64Emitter::Blr),
        A64Opcode::Ret => Some(A64Emitter::Ret),
        A64Opcode::Cbz => Some(A64Emitter::Cbz),
        A64Opcode::Cbnz => Some(A64Emitter::Cbnz),
        A64Opcode::BCond => Some(A64Emitter::BCond),
        A64Opcode::Tbz => Some(A64Emitter::Tbz),
        A64Opcode::Tbnz => Some(A64Emitter::Tbnz),
        A64Opcode::SimdDup => Some(A64Emitter::SimdDup),
        A64Opcode::StrSimd => if insn.ftype < 3 {
            None
        } else if insn.ftype == 3 {
            Some(A64Emitter::StoreSimd { bytes: 8 })
        } else {
            Some(A64Emitter::StoreSimd { bytes: 16 })
        },
        A64Opcode::StpSimd => if insn.ftype == 0 {
            None
        } else if insn.ftype == 1 {
            Some(A64Emitter::StorePairSimd { bytes: 8 })
        } else {
            Some(A64Emitter::StorePairSimd { bytes: 16 })
        },
        A64Opcode::Mrs => Some(A64Emitter::Mrs),
        A64Opcode::Msr => Some(A64Emitter::Msr),
        A64Opcode::MsrImm => Some(A64Emitter::MsrImm(pstate_write_of(insn.imm))),
        A64Opcode::DcZva => Some(A64Emitter::DcZva),
        A64Opcode::Sys => Some(A64Emitter::Sys),
        A64Opcode::Svc => Some(A64Emitter::Exception(ExceptionCall::Svc)),
        A64Opcode::Hvc => Some(A64Emitter::Exception(ExceptionCall::Hvc)),
        A64Opcode::Smc => Some(A64Emitter::Exception(ExceptionCall::Smc)),
        A64Opcode::Brk => Some(A64Emitter::Exception(ExceptionCall::Brk)),
        A64Opcode::Eret => Some(A64Emitter::Eret),
        A64Opcode::Wfi => Some(A64Emitter::Wfi),
        A64Opcode::Other => None,
    }
}

/// The emitter writes the block's exit itself: the block ends after it.
pub open spec fn emitter_ends_block(e: A64Emitter) -> bool {
    match e {
        A64Emitter::B | A64Emitter::Bl | A64Emitter::Br | A64Emitter::Blr | A64Emitter::Ret
        | A64Emitter::Exception(_) | A64Emitter::Eret | A64Emitter::Wfi => true,
        _ => false,
    }
}

/// The walk outcome of one instruction handled by `plan`.
pub open spec fn a64_outcome(plan: Option<A64Emitter>) -> EmitOutcome {
    match plan {
        Some(e) => EmitOutcome::Emitted { consumed: 1, terminates: emitter_ends_block(e) },
        None => EmitOutcome::Unsupported,
    }
}

/// Choose the emitter of `insn`.
pub fn plan_a64_emit(insn: &A64Insn) -> (r: Option<A64Emitter>)
    ensures
        r == a64_emit_plan(*insn),
{
    match insn.opcode {
        A64Opcode::Adr => Some(A64Emitter::Adr),
        A64Opcode::Adrp => Some(A64Emitter::Adrp),
        A64Opcode::AddImm | A64Opcode::SubImm => Some(A64Emitter::AddSubImm),
        A64Opcode::AddsImm | A64Opcode::SubsImm => Some(A64Emitter::AddsSubsImm),
        A64Opcode::AndImm | A64Opcode::OrrImm | A64Opcode::EorImm => Some(A64Emitter::LogicalImm),
        A64Opcode::AndsImm => Some(A64Emitter::AndsImm),
        A64Opcode::AndsReg => Some(A64Emitter::AndsReg),
        A64Opcode::Movz => Some(A64Emitter::Movz),
        A64Opcode::Movk => Some(A64Emitter::Movk),
        A64Opcode::Movn => Some(A64Emitter::Movn),
        A64Opcode::Ubfm => Some(A64Emitter::Ubfm),
        A64Opcode::AddReg | A64Opcode::SubReg => Some(A64Emitter::AddSubReg),
        A64Opcode::AddExt | A64Opcode::SubExt => Some(A64Emitter::AddSubExt),
        A64Opcode::AddsReg | A64Opcode::SubsReg => Some(A64Emitter::AddsSubsReg),
        A64Opcode::Ccmp | A64Opcode::Ccmn => Some(A64Emitter::CondCompare),
        A64Opcode::Csel | A64Opcode::Csinc | A64Opcode::Csinv | A64Opcode::Csneg => Some(
            A64Emitter::CondSelect,
        ),
        A64Opcode::Sbfm => Some(A64Emitter::Sbfm),
        A64Opcode::Lsl | A64Opcode::Lsr | A64Opcode::Asr | A64Opcode::Ror => Some(
            A64Emitter::ShiftReg,
        ),
        A64Opcode::Clz => Some(A64Emitter::Clz),
        A64Opcode::Rev => Some(A64Emitter::Rev),
        A64Opcode::Rev16 => Some(A64Emitter::Rev16),
        A64Opcode::Rev32 => Some(A64Emitter::Rev32),
        A64Opcode::Rbit => Some(A64Emitter::Rbit),
        A64Opcode::Extr => Some(A64Emitter::Extr),
        A64Opcode::Bfm => Some(A64Emitter::Bfm),
        A64Opcode::OrnReg | A64Opcode::EonReg | A64Opcode::BicReg | A64Opcode::BicsReg => Some(
            A64Emitter::LogicalNegReg,
        ),
        A64Opcode::Sdiv => Some(A64Emitter::Sdiv),
        A64Opcode::Udiv => Some(A64Emitter::Udiv),
        A64Opcode::AddsExt | A64Opcode::SubsExt => Some(A64Emitter::AddsSubsExt),
        A64Opcode::Adc | A64Opcode::Adcs => Some(A64Emitter::Adc),
        A64Opcode::Sbc | A64Opcode::Sbcs => Some(A64Emitter::Sbc),
        A64Opcode::Madd | A64Opcode::Mul => Some(A64Emitter::Madd),
        A64Opcode::Msub | A64Opcode::Mneg => Some(A64Emitter::Msub),
        A64Opcode::Smulh => Some(A64Emitter::Smulh),
        A64Opcode::Umulh => Some(A64Emitter::Umulh),
        A64Opcode::AndReg | A64Opcode::OrrReg | A64Opcode::EorReg => Some(A64Emitter::LogicalReg),
        A64Opcode::Ldr | A64Opcode::Ldrb | A64Opcode::Ldrh | A64Opcode::Ldrsb | A64Opcode::Ldrsh
        | A64Opcode::Ldrsw | A64Opcode::Ldur | A64Opcode::Ldurb | A64Opcode::Ldurh
        | A64Opcode::Ldursb | A64Opcode::Ldursh | A64Opcode::Ldursw | A64Opcode::Ldar
        | A64Opcode::Ldapr | A64Opcode::Ldaprh | A64Opcode::Ldaprb => Some(A64Emitter::Load),
        A64Opcode::Str | A64Opcode::Strb | A64Opcode::Strh | A64Opcode::Stur | A64Opcode::Sturb
        | A64Opcode::Sturh | A64Opcode::Stlr => Some(A64Emitter::Store),
        A64Opcode::Ldp => Some(A64Emitter::LoadPair),
        A64Opcode::Stp => Some(A64Emitter::StorePair),
        A64Opcode::Prfm | A64Opcode::Nop | A64Opcode::Wfe => Some(A64Emitter::Hint),
        A64Opcode::B => Some(A64Emitter::B),
        A64Opcode::Bl => Some(A64Emitter::Bl),
        A64Opcode::Br => Some(A64Emitter::Br),
        A64Opcode::Blr => Some(A64Emitter::Blr),
        A64Opcode::Ret => Some(A64Emitter::Ret),
        A64Opcode::Cbz => Some(A64Emitter::Cbz),
        A64Opcode::Cbnz => Some(A64Emitter::Cbnz),
        A64Opcode::BCond => Some(A64Emitter::BCond),
        A64Opcode::Tbz => Some(A64Emitter::Tbz),
        A64Opcode::Tbnz => Some(A64Emitter::Tbnz),
        A64Opcode::SimdDup => Some(A64Emitter::SimdDup),
        A64Opcode::StrSimd => if insn.ftype < 3 {
            None
        } else if insn.ftype == 3 {
            Some(A64Emitter::StoreSimd { bytes: 8 })
        } else {
            Some(A64Emitter::StoreSimd { bytes: 16 })
        },
        A64Opcode::StpSimd => if insn.ftype == 0 {
            None
        } else if insn.ftype == 1 {
            Some(A64Emitter::StorePairSimd { bytes: 8 })
        } else {
            Some(A64Emitter::StorePairSimd { bytes: 16 })
        },
        A64Opcode::Mrs => Some(A64Emitter::Mrs),
        A64Opcode::Msr => Some(A64Emitter::Msr),
        A64Opcode::MsrImm => Some(A64Emitter::MsrImm(decode_pstate_write(insn.imm))),
        A64Opcode::DcZva => Some(A64Emitter::DcZva),
        A64Opcode::Sys => Some(A64Emitter::Sys),
        A64Opcode::Svc => Some(A64Emitter::Exception(ExceptionCall::Svc)),
        A64Opcode::Hvc => Some(A64Emitter::Exception(ExceptionCall::Hvc)),
        A64Opcode::Smc => Some(A64Emitter::Exception(ExceptionCall::Smc)),
        A64Opcode::Brk => Some(A64Emitter::Exception(ExceptionCall::Brk)),
        A64Opcode::Eret => Some(A64Emitter::Eret),
        A64Opcode::Wfi => Some(A64Emitter::Wfi),
        A64Opcode::Other => None,
    }
}

/// The walk outcome of one instruction handled by `plan`.
pub fn a64_emit_outcome(plan: &Option<A64Emitter>) -> (r: EmitOutcome)
    ensures
        r == a64_outcome(*plan),
{
    match plan {
        Some(e) => {
            let ends = match e {
                A64Emitter::B | A64Emitter::Bl | A64Emitter::Br | A64Emitter::Blr
                | A64Emitter::Ret | A64Emitter::Exception(_) | A64Emitter::Eret
                | A64Emitter::Wfi => true,
                _ => false,
            };
            EmitOutcome::Emitted { consumed: 1, terminates: ends }
        },
        None => EmitOutcome::Unsupported,
    }
}

/// The opcodes after which the block ends.
pub open spec fn is_block_ender(op: A64Opcode) -> bool {
    match op {
        A64Opcode::B | A64Opcode::Bl | A64Opcode::Br | A64Opcode::Blr | A64Opcode::Ret
        | A64Opcode::Svc | A64Opcode::Hvc | A64Opcode::Smc | A64Opcode::Brk | A64Opcode::Eret
        | A64Opcode::Wfi => true,
        _ => false,
    }
}

/// An instruction ends its block exactly when it is an unconditional branch,
/// a return, an exception-generating instruction, ERET or WFI; conditional
/// branches (B.cond, CBZ, CBNZ, TBZ, TBNZ) are emitted and keep it open; and
/// only an unknown opcode, or a vector store narrower than 8 bytes per
/// register, is left to the interpreter.
pub proof fn lemma_a64_block_enders(insn: A64Insn)
    ensures
        a64_outcome(a64_emit_plan(insn)) == (EmitOutcome::Emitted {
            consumed: 1,
            terminates: true,
        }) <==> is_block_ender(insn.opcode),
        a64_outcome(a64_emit_plan(insn)) == EmitOutcome::Unsupported <==> (insn.opcode
            == A64Opcode::Other || (insn.opcode == A64Opcode::StrSimd && insn.ftype < 3) || (
        insn.opcode == A64Opcode::StpSimd && insn.ftype == 0)),
{
}

/// The outcome of the walk's step at position `i` of `insns`: a fused pair
/// when one starts there, otherwise the single instruction's outcome.
pub open spec fn a64_step_outcome(insns: Seq<A64Insn>, i: int) -> EmitOutcome {
    match fused_pair_of(insns.subrange(i, insns.len() as int)) {
        Some(_) => EmitOutcome::Emitted { consumed: 2, terminates: false },
        None => a64_outcome(a64_emit_plan(insns[i])),
    }
}

/// The state a block walk over `insns` reaches from `s`.
pub open spec fn a64_block_walk(insns: Seq<A64Insn>, s: BlockFormation) -> BlockFormation
    decreases insns.len() - s.insn_count, if s.finished { 0int } else { 1int },
{
    if !walk_continues(s, insns.len()) {
        s
    } else {
        a64_block_walk(insns, walk_step(s, a64_step_outcome(insns, s.insn_count as int)))
    }
}

/// Walk an AArch64 block the way the dynasm compiler does: at each position
/// a fused pair is tried first, otherwise the instruction goes to its
/// emitter; the walk stops at a terminator, an unsupported instruction, the
/// end of `insns` or the block-size limit.
pub fn form_a64_block(insns: &[A64Insn]) -> (r: BlockFormation)
    ensures
        r == a64_block_walk(insns@, BlockFormation { insn_count: 0, finished: false }),
        r.insn_count <= insns@.len(),
{
    let n = insns.len();
    let mut s = BlockFormation::start();
    while s.wants_more(n)
        invariant
            n == insns@.len(),
            s.insn_count <= n,
            a64_block_walk(insns@, s) == a64_block_walk(
                insns@,
                BlockFormation { insn_count: 0, finished: false },
            ),
        decreases n - s.insn_count, if s.finished { 0int } else { 1int },
    {
        let i = s.insn_count;
        let rest = vstd::slice::slice_subrange(insns, i, n);
        let outcome = match try_fuse(rest) {
            Some((pair, _)) => fused_outcome(pair),
            None => {
                let plan = plan_a64_emit(&insns[i]);
                a64_emit_outcome(&plan)
            },
        };
        assert(outcome == a64_step_outcome(insns@, i as int));
        s = s.step(outcome, n);
    }
    s
}

/// A walk over `insns` never counts more instructions than they hold, nor
/// more than one past the block-size limit (a fused pair may start at the
/// last position below it).
pub proof fn lemma_a64_block_bounded(insns: Seq<A64Insn>, s: BlockFormation)
    requires
        s.insn_count <= insns.len(),
        s.insn_count <= MAX_BLOCK_INSNS + 1,
    ensures
        a64_block_walk(insns, s).insn_count <= insns.len(),
        a64_block_walk(insns, s).insn_count <= MAX_BLOCK_INSNS + 1,
    decreases insns.len() - s.insn_count, if s.finished { 0int } else { 1int },
{
    if walk_continues(s, insns.len()) {
        lemma_a64_block_bounded(insns, walk_step(s, a64_step_outcome(insns, s.insn_count as int)));
    }
}

/// The block the dynasm compiler forms at guest PC `pc` from `insns`:
/// `None` when it would compile nothing (no instruction, or the first one is
/// unsupported), otherwise its instruction count and the guest PC its
/// fall-through exit sets.
pub fn a64_block_extent(pc: u64, insns: &[A64Insn]) -> (r: Option<(u32, u64)>)
    requires
        fallthrough_pc_spec(
            pc,
            a64_block_walk(insns@, BlockFormation { insn_count: 0, finished: false }).insn_count as nat,
        ) <= u64::MAX,
    ensures
        ({
            let c = a64_block_walk(insns@, BlockFormation { insn_count: 0, finished: false }).insn_count;
            if c == 0 {
                r is None
            } else {
                r == Some((c as u32, fallthrough_pc_spec(pc, c as nat) as u64))
            }
        }),
{
    let s = form_a64_block(insns);
    proof {
        lemma_a64_block_bounded(insns@, BlockFormation { insn_count: 0, finished: false });
    }
    finish_block(s, pc)
}

/// The dispatcher hands an instruction to an emitter exactly when that
/// emitter's plan takes the instruction, with the variant the emitter
/// implements: division signed or unsigned, multiply-add or -subtract,
/// addition or subtraction with carry, immediate, shifted- or
/// extended-register arithmetic with or without flags, immediate, plain or
/// inverted logic with or without flags, conditional selects, variable
/// shifts and branches.
pub proof fn lemma_routing_matches_plans(insn: A64Insn)
    ensures
        ({
            let e = a64_emit_plan(insn);
            &&& (e == Some(A64Emitter::Sdiv)) == (div_plan(insn) matches Some(p) && p.signed)
            &&& (e == Some(A64Emitter::Udiv)) == (div_plan(insn) matches Some(p) && !p.signed)
            &&& (e == Some(A64Emitter::Madd)) == (mul_plan(insn) matches Some(p) && !p.subtract)
            &&& (e == Some(A64Emitter::Msub)) == (mul_plan(insn) matches Some(p) && p.subtract)
            &&& (e == Some(A64Emitter::Adc)) == (carry_plan(insn) matches Some(p) && !p.subtract)
            &&& (e == Some(A64Emitter::Sbc)) == (carry_plan(insn) matches Some(p) && p.subtract)
            &&& (e == Some(A64Emitter::CondSelect)) == (cond_select_plan(insn) is Some)
            &&& (e == Some(A64Emitter::ShiftReg)) == (var_shift_plan(insn) is Some)
            &&& (e == Some(A64Emitter::AddSubImm)) == (imm_plan(insn) matches Some(p)
                && p.op is AddSub)
            &&& (e == Some(A64Emitter::AddsSubsImm)) == (imm_plan(insn) matches Some(p)
                && p.op is AddSubFlags)
            &&& (e == Some(A64Emitter::Movk)) == (imm_plan(insn) matches Some(p) && p.op is Keep)
            &&& (e == Some(A64Emitter::AddSubReg)) == (reg_arith_plan(insn) matches Some(p)
                && p.operand2 is Shifted && p.flags is None)
            &&& (e == Some(A64Emitter::AddsSubsReg)) == (reg_arith_plan(insn) matches Some(p)
                && p.operand2 is Shifted && p.flags is Some)
            &&& (e == Some(A64Emitter::AddSubExt)) == (reg_arith_plan(insn) matches Some(p)
                && p.operand2 is Extended && p.flags is None)
            &&& (e == Some(A64Emitter::AddsSubsExt)) == (reg_arith_plan(insn) matches Some(p)
                && p.operand2 is Extended && p.flags is Some)
            &&& (e == Some(A64Emitter::LogicalImm)) == (logic_plan(insn) matches Some(p)
                && p.operand is Imm && p.flags is None)
            &&& (e == Some(A64Emitter::AndsImm)) == (logic_plan(insn) matches Some(p)
                && p.operand is Imm && p.flags is Some)
            &&& (e == Some(A64Emitter::LogicalReg)) == (logic_plan(insn) matches Some(p) && (
            p.operand matches LogicOperand::Reg { invert, .. } && !invert) && p.flags is None)
            &&& (e == Some(A64Emitter::AndsReg)) == (logic_plan(insn) matches Some(p) && (
            p.operand matches LogicOperand::Reg { invert, .. } && !invert) && p.flags is Some)
            &&& (e == Some(A64Emitter::LogicalNegReg)) == (logic_plan(insn) matches Some(p) && (
            p.operand matches LogicOperand::Reg { invert, .. } && invert))
            &&& (e == Some(A64Emitter::B) || e == Some(A64Emitter::Bl) || e == Some(A64Emitter::Br)
                || e == Some(A64Emitter::Blr) || e == Some(A64Emitter::Ret) || e == Some(
                A64Emitter::Cbz,
            ) || e == Some(A64Emitter::Cbnz) || e == Some(A64Emitter::BCond) || e == Some(
                A64Emitter::Tbz,
            ) || e == Some(A64Emitter::Tbnz)) == (branch_plan(insn, 0) is Some)
        }),
{
}

} // verus!
