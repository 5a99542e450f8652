//! Branches: what decides them, where they go and how they leave the block.
//!
//! Unconditional and register branches end the block through a plain exit;
//! conditional branches (`B.cond`, `CBZ`/`CBNZ`, `TBZ`/`TBNZ`) leave through
//! a patchable exit slot on the taken path only and fall through into the
//! rest of the block. Every exit adds the instructions the block executed up
//! to and including the branch to the retired count. [`plan_branch`] decides
//! everything the emitted code depends on;
//! [`lemma_branch_matches_architecture`] shows that the planned test takes
//! the branch exactly when AArch64 does and that the planned target and link
//! address are the AArch64 ones.

use crate::dynasm::emit::{
    check_taken, cond_check_for, cond_check_spec, condition_holds, data_slot_of,
    lemma_cond_check_matches_architecture, src_slot, CondCheck,
};
use crate::dynasm::rv64::emit::{branch_target, branch_target_spec};
use crate::insn::{A64Insn, A64Opcode};
use vstd::prelude::*;

verus! {

/// What decides whether a branch is taken.
#[derive(Debug, Clone, Copy, PartialEq, Eq, Structural)]
pub enum BranchTest {
    /// Always taken (`B`, `BL`, `BR`, `BLR`, `RET`).
    Always,
    /// `B.cond`: the check of the (materialised) NZCV flags.
    Flags(CondCheck),
    /// `CBZ`: the register (all 64 bits, or the low 32) is zero.
    Zero { slot: usize, wide: bool },
    /// `CBNZ`: the register (all 64 bits, or the low 32) is not zero.
    NonZero { slot: usize, wide: bool },
    /// `TBZ`: bit `bit` of the register is clear (`bt rax, bit`).
    BitClear { slot: usize, bit: u32 },
    /// `TBNZ`: bit `bit` of the register is set.
    BitSet { slot: usize, bit: u32 },
}

/// Where a taken branch goes.
#[derive(Debug, Clone, Copy, PartialEq, Eq, Structural)]
pub enum BranchTarget {
    /// A PC-relative target, known when the block is compiled.
    Direct(u64),
    /// The value of a register slot, read when the branch executes.
    Register(usize),
}

/// Everything the emitted code of a branch depends on.
#[derive(Debug, Clone, Copy, PartialEq, Eq, Structural)]
pub struct BranchPlan {
    pub test: BranchTest,
    pub target: BranchTarget,
    /// `BL`/`BLR`: the return address written to X30 (`REG_X30`) before the
    /// exit.
    pub link: Option<u64>,
    /// The taken path leaves through a patchable exit slot that chaining
    /// can turn into a direct jump to the target's block.
    pub chainable: bool,
    /// Instructions the exit adds to the retired count.
    pub retired: u32,
}

/// The return address `BL`/`BLR` links: `pc + 4`, wrapping modulo 2^64.
pub open spec fn link_address(pc: u64) -> u64 {
    vstd::wrapping::u64_specs::wrapping_add(pc, 4)
}

/// The plan of a branch that is the `insn_idx`-th instruction of its block
/// (`None` for an instruction that is no branch).
pub open spec fn branch_plan(insn: A64Insn, insn_idx: u32) -> Option<BranchPlan> {
    let direct = BranchTarget::Direct(branch_target_spec(insn.pc, insn.imm) as u64);
    let retired = (insn_idx + 1) as u32;
    let exit = |test: BranchTest, target: BranchTarget, link: Option<u64>, chainable: bool|
        Some(BranchPlan { test, target, link, chainable, retired });
    match insn.opcode {
        A64Opcode::B => exit(BranchTest::Always, direct, None, false),
        A64Opcode::Bl => exit(BranchTest::Always, direct, Some(link_address(insn.pc)), false),
        A64Opcode::Br | A64Opcode::Ret => exit(
            BranchTest::Always,
            BranchTarget::Register(data_slot_of(insn.rn)),
            None,
            false,
        ),
        A64Opcode::Blr => exit(
            BranchTest::Always,
            BranchTarget::Register(data_slot_of(insn.rn)),
            Some(link_address(insn.pc)),
            false,
        ),
        A64Opcode::BCond => exit(BranchTest::Flags(cond_check_spec(insn.cond)), direct, None, true),
        A64Opcode::Cbz => exit(
            BranchTest::Zero { slot: data_slot_of(insn.rd), wide: insn.sf },
            direct,
            None,
            true,
        ),
        A64Opcode::Cbnz => exit(
            BranchTest::NonZero { slot: data_slot_of(insn.rd), wide: insn.sf },
            direct,
            None,
            true,
        ),
        A64Opcode::Tbz => exit(
            BranchTest::BitClear { slot: data_slot_of(insn.rn), bit: (insn.imm2 % 64) as u32 },
            direct,
            None,
            true,
        ),
        A64Opcode::Tbnz => exit(
            BranchTest::BitSet { slot: data_slot_of(insn.rn), bit: (insn.imm2 % 64) as u32 },
            direct,
            None,
            true,
        ),
        _ => None,
    }
}

/// Plan a branch that is the `insn_idx`-th instruction of its block.
pub fn plan_branch(insn: &A64Insn, insn_idx: u32) -> (p: Option<BranchPlan>)
    requires
        insn_idx < u32::MAX,
        insn.opcode == A64Opcode::BCond ==> insn.cond < 16,
    ensures
        p == branch_plan(*insn, insn_idx),
{
    let direct = BranchTarget::Direct(branch_target(insn.pc, insn.imm));
    let retired = insn_idx + 1;
    let link = insn.pc.wrapping_add(4);
    let (test, target, link, chainable) = match insn.opcode {
        A64Opcode::B => (BranchTest::Always, direct, None, false),
        A64Opcode::Bl => (BranchTest::Always, direct, Some(link), false),
        A64Opcode::Br | A64Opcode::Ret => (
            BranchTest::Always,
            BranchTarget::Register(src_slot(insn.rn)),
            None,
            false,
        ),
        A64Opcode::Blr => (BranchTest::Always, BranchTarget::Register(src_slot(insn.rn)), Some(link), false),
        A64Opcode::BCond => (BranchTest::Flags(cond_check_for(insn.cond)), direct, None, true),
        A64Opcode::Cbz => (BranchTest::Zero { slot: src_slot(insn.rd), wide: insn.sf }, direct, None, true),
        A64Opcode::Cbnz => (
            BranchTest::NonZero { slot: src_slot(insn.rd), wide: insn.sf },
            direct,
            None,
            true,
        ),
        A64Opcode::Tbz => (
            BranchTest::BitClear { slot: src_slot(insn.rn), bit: (insn.imm2 % 64) as u32 },
            direct,
            None,
            true,
        ),
        A64Opcode::Tbnz => (
            BranchTest::BitSet { slot: src_slot(insn.rn), bit: (insn.imm2 % 64) as u32 },
            direct,
            None,
            true,
        ),
        _ => {
            return None;
        },
    };
    Some(BranchPlan { test, target, link, chainable, retired })
}

/// Whether the emitted test takes the branch, from the tested register's
/// value `x` and the NZCV word `nzcv`: `test rax, rax` / `test eax, eax`
/// for the zero tests, `bt rax, bit` for the bit tests.
pub open spec fn planned_taken(t: BranchTest, x: u64, nzcv: u32) -> bool {
    match t {
        BranchTest::Always => true,
        BranchTest::Flags(c) => check_taken(c, nzcv),
        BranchTest::Zero { wide, .. } => if wide {
            x == 0
        } else {
            (x as u32) == 0
        },
        BranchTest::NonZero { wide, .. } => if wide {
            x != 0
        } else {
            (x as u32) != 0
        },
        BranchTest::BitClear { bit, .. } => (x >> (bit as u64)) & 1 == 0,
        BranchTest::BitSet { bit, .. } => (x >> (bit as u64)) & 1 == 1,
    }
}

/// AArch64: whether the branch is taken, from the tested register's value
/// `x` and the flags `nzcv`: `ConditionHolds(cond)` for `B.cond`, the
/// operand of the instruction's width compared with zero for `CBZ`/`CBNZ`,
/// bit `b5:b40` of the register for `TBZ`/`TBNZ`, always otherwise.
pub open spec fn a64_branch_taken(insn: A64Insn, x: u64, nzcv: u32) -> bool {
    let operand: u64 = if insn.sf {
        x
    } else {
        x & 0xFFFF_FFFFu64
    };
    let bit_set: bool = (x & (1u64 << (insn.imm2 as u64))) != 0;
    match insn.opcode {
        A64Opcode::BCond => condition_holds(insn.cond, nzcv),
        A64Opcode::Cbz => operand == 0,
        A64Opcode::Cbnz => operand != 0,
        A64Opcode::Tbz => !bit_set,
        A64Opcode::Tbnz => bit_set,
        _ => true,
    }
}

/// The planned test takes the branch exactly when AArch64 does; a
/// PC-relative target is `pc + imm` (wrapping) and the link is `pc + 4`
/// (wrapping); the retired count includes the branch.
pub proof fn lemma_branch_matches_architecture(insn: A64Insn, insn_idx: u32, x: u64, nzcv: u32)
    requires
        insn_idx < u32::MAX,
        insn.opcode == A64Opcode::BCond ==> insn.cond < 16,
        insn.opcode == A64Opcode::Tbz || insn.opcode == A64Opcode::Tbnz ==> insn.imm2 < 64,
        branch_plan(insn, insn_idx) is Some,
    ensures
        ({
            let p = branch_plan(insn, insn_idx)->Some_0;
            &&& planned_taken(p.test, x, nzcv) == a64_branch_taken(insn, x, nzcv)
            &&& p.target matches BranchTarget::Direct(t) ==> t == branch_target_spec(insn.pc, insn.imm)
            &&& p.link matches Some(l) ==> l == (insn.pc + 4) % 0x1_0000_0000_0000_0000
            &&& p.retired == insn_idx + 1
        }),
{
    let p = branch_plan(insn, insn_idx)->Some_0;
    if insn.opcode == A64Opcode::BCond {
        lemma_cond_check_matches_architecture(insn.cond, nzcv);
    }
    let b = insn.imm2;
    assert((((x as u32) == 0) == ((x & 0xFFFF_FFFFu64) == 0)) && (b < 64 ==> (((x >> (b % 64)) & 1
        == 1) == ((x & (1u64 << b)) != 0)) && ((x >> (b % 64)) & 1 == 0 || (x >> (b % 64)) & 1 == 1)))
        by (bit_vector);
}

} // verus!
