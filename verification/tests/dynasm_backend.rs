use helm_jit::dynasm::emit::{
    base_offset, cond_check_for, data_offset, dst_slot, low_mask, sp_slot, src_slot, CondCheck,
};
use helm_jit::dynasm::dispatch::{
    a64_block_extent, a64_emit_outcome, decode_pstate_write, form_a64_block, plan_a64_emit,
    A64Emitter, ExceptionCall, PstateWrite,
};
use helm_jit::dynasm::arith::{plan_reg_arith, plan_var_shift, Operand2, RegArithPlan, VarShiftPlan};
use helm_jit::dynasm::bitfield::{plan_sbfm, plan_ubfm, BitfieldPlan, SbfmShape, UbfmPlan, UbfmShape};
use helm_jit::dynasm::branch::{plan_branch, BranchPlan, BranchTarget, BranchTest};
use helm_jit::dynasm::carry::{plan_carry, CarryPlan};
use helm_jit::dynasm::divide::{plan_div, DivPlan};
use helm_jit::dynasm::imm::{plan_imm, ImmOp, ImmPlan};
use helm_jit::dynasm::logic::{plan_logic, LogicOp, LogicOperand, LogicPlan};
use helm_jit::dynasm::fusion::{fused_outcome, is_cmp_imm, try_fuse, FusedPair};
use helm_jit::dynasm::memory::{plan_tlb_load, plan_tlb_store, AddrMode, TlbAccessPlan};
use helm_jit::dynasm::nzcv::{flag_op_code, materialize_op};
use helm_jit::dynasm::multiply::{plan_mul, MulPlan};
use helm_jit::dynasm::pair::{plan_pair, PairAccessPlan};
use helm_jit::dynasm::select::{plan_cond_select, CondSelectPlan, SelectVariant};
use helm_jit::dynasm::zva::{plan_dc_zva, zva_write_offsets, DC_ZVA_BLOCK_SIZE};
use helm_jit::dynasm::rv64::emit::{
    branch_target, jcc_for, pc_off, reg_off, return_address, skip_rd_zero, BranchCond, X86Jcc,
};
use helm_jit::dynasm::rv64::DynasmBackendRv64;
use helm_jit::dynasm::{finish_block, BlockFormation, DynasmBackend, EmitOutcome, MAX_BLOCK_INSNS};
use helm_jit::insn::{A64Insn, A64Opcode};
use helm_jit::regs::{FlagOp, REG_SP, REG_XZR};

fn a64(opcode: A64Opcode, rd: u32, imm: i64, cond: u32) -> A64Insn {
    A64Insn {
        opcode,
        rd,
        rn: 1,
        rm: 0,
        ra: 0,
        pair_second: 0,
        imm,
        imm2: 0,
        shift_amt: 0,
        shift_type: 0,
        sf: true,
        cond,
        extend_type: 0,
        extend_amt: 0,
        pre_index: false,
        post_index: false,
        size: 0,
        ftype: 0,
        pc: 0,
    }
}

/// Drive a block-formation walk with the given emitter outcomes.
fn walk(n: usize, outcomes: &[EmitOutcome]) -> BlockFormation {
    let mut s = BlockFormation::start();
    let mut it = outcomes.iter();
    while s.wants_more(n) {
        match it.next() {
            Some(o) => s = s.step(*o, n),
            None => break,
        }
    }
    s
}

const GO: EmitOutcome = EmitOutcome::Emitted {
    consumed: 1,
    terminates: false,
};
const BRANCH: EmitOutcome = EmitOutcome::Emitted {
    consumed: 1,
    terminates: true,
};

#[test]
fn backend_names() {
    assert_eq!(DynasmBackend::new().name(), "dynasm");
    assert_eq!(DynasmBackend::default().name(), "dynasm");
    assert_eq!(DynasmBackendRv64::new().name(), "dynasm-rv64");
    assert_eq!(DynasmBackendRv64::default().name(), "dynasm-rv64");
}

#[test]
fn walk_ends_at_terminator() {
    let s = walk(10, &[GO, GO, BRANCH, GO]);
    assert_eq!(s.insn_count, 3);
    assert!(s.finished);
    assert_eq!(finish_block(s, 0x1000), Some((3, 0x100c)));
}

#[test]
fn walk_ends_before_unsupported() {
    let s = walk(10, &[GO, EmitOutcome::Unsupported, GO]);
    assert_eq!(s.insn_count, 1);
    assert_eq!(finish_block(s, 0x2000), Some((1, 0x2004)));
}

#[test]
fn unsupported_first_instruction_compiles_nothing() {
    let s = walk(4, &[EmitOutcome::Unsupported]);
    assert_eq!(s.insn_count, 0);
    assert_eq!(finish_block(s, 0x3000), None);
    assert_eq!(finish_block(walk(0, &[]), 0x3000), None);
}

#[test]
fn walk_is_capped_at_block_limit() {
    let outcomes = vec![GO; 100];
    let s = walk(100, &outcomes);
    assert_eq!(s.insn_count, MAX_BLOCK_INSNS);
    assert!(!s.finished);
    assert_eq!(finish_block(s, 0), Some((64, 256)));
}

#[test]
fn fused_pair_counts_two_and_may_overshoot_limit() {
    let pair = EmitOutcome::Emitted {
        consumed: 2,
        terminates: false,
    };
    let mut outcomes = vec![GO; 63];
    outcomes.push(pair);
    let s = walk(100, &outcomes);
    assert_eq!(s.insn_count, 65);
    let s = walk(
        5,
        &[
            GO,
            EmitOutcome::Emitted {
                consumed: 2,
                terminates: true,
            },
        ],
    );
    assert_eq!(s.insn_count, 3);
    assert!(s.finished);
}

#[test]
fn walk_stops_at_end_of_slice() {
    let s = walk(2, &[GO, GO, GO]);
    assert_eq!(s.insn_count, 2);
    assert!(!s.wants_more(2));
}

#[test]
fn operand_slots() {
    assert_eq!(src_slot(31), REG_XZR);
    assert_eq!(dst_slot(31), REG_XZR);
    assert_eq!(sp_slot(31), REG_SP);
    assert_eq!(src_slot(7), 7);
    assert_eq!(sp_slot(30), 30);
    assert_eq!(base_offset(31), (REG_SP * 8) as i32);
    assert_eq!(data_offset(31), (REG_XZR * 8) as i32);
    assert_eq!(base_offset(2), 16);
}

#[test]
fn low_masks() {
    assert_eq!(low_mask(0), 0);
    assert_eq!(low_mask(1), 1);
    assert_eq!(low_mask(12), 0xFFF);
    assert_eq!(low_mask(63), u64::MAX >> 1);
    assert_eq!(low_mask(64), u64::MAX);
    assert_eq!(low_mask(200), u64::MAX);
}

#[test]
fn fusion_patterns() {
    let cmp = a64(A64Opcode::SubsImm, 31, 5, 0);
    let bcond = a64(A64Opcode::BCond, 0, 8, 0);
    assert!(is_cmp_imm(&cmp));
    assert_eq!(try_fuse(&[cmp, bcond]), Some((FusedPair::CmpBranch, 2)));
    let dec = a64(A64Opcode::SubsImm, 3, 1, 0);
    let bne = a64(A64Opcode::BCond, 0, -8, 1);
    assert!(!is_cmp_imm(&dec));
    assert_eq!(try_fuse(&[dec, bne]), Some((FusedPair::SubsBne, 2)));
    let beq = a64(A64Opcode::BCond, 0, -8, 0);
    assert_eq!(try_fuse(&[dec, beq]), None);
    let dec2 = a64(A64Opcode::SubsImm, 3, 2, 0);
    assert_eq!(try_fuse(&[dec2, bne]), None);
    assert_eq!(try_fuse(&[cmp]), None);
    assert_eq!(try_fuse(&[]), None);
    let add = a64(A64Opcode::AddImm, 31, 5, 0);
    assert_eq!(try_fuse(&[add, bcond]), None);
}

#[test]
fn rv64_operands() {
    assert_eq!(reg_off(0), 0);
    assert_eq!(reg_off(31), 248);
    assert_eq!(pc_off(), 256);
    assert!(skip_rd_zero(0));
    assert!(!skip_rd_zero(1));
    assert_eq!(return_address(0x1000), 0x1004);
}

#[test]
fn rv64_branch_targets_wrap() {
    assert_eq!(branch_target(0x1000, 0x100), 0x1100);
    assert_eq!(branch_target(0x1000, -0x10), 0xFF0);
    assert_eq!(branch_target(0, -4), u64::MAX - 3);
    assert_eq!(branch_target(u64::MAX, 1), 0);
}

fn x86_taken(j: X86Jcc, a: u64, b: u64) -> bool {
    match j {
        X86Jcc::Je => a == b,
        X86Jcc::Jne => a != b,
        X86Jcc::Jl => (a as i64) < (b as i64),
        X86Jcc::Jge => (a as i64) >= (b as i64),
        X86Jcc::Jb => a < b,
        X86Jcc::Jae => a >= b,
    }
}

#[test]
fn rv64_branch_conditions_map_to_jcc() {
    assert_eq!(jcc_for(BranchCond::Eq), X86Jcc::Je);
    assert_eq!(jcc_for(BranchCond::Ne), X86Jcc::Jne);
    assert_eq!(jcc_for(BranchCond::Lt), X86Jcc::Jl);
    assert_eq!(jcc_for(BranchCond::Ge), X86Jcc::Jge);
    assert_eq!(jcc_for(BranchCond::Ltu), X86Jcc::Jb);
    assert_eq!(jcc_for(BranchCond::Geu), X86Jcc::Jae);
    // -1 < 1 signed, but not unsigned.
    assert!(x86_taken(jcc_for(BranchCond::Lt), u64::MAX, 1));
    assert!(!x86_taken(jcc_for(BranchCond::Ltu), u64::MAX, 1));
    assert!(x86_taken(jcc_for(BranchCond::Geu), u64::MAX, 1));
}

#[test]
fn fused_pairs_keep_the_block_open() {
    assert_eq!(
        fused_outcome(FusedPair::CmpBranch),
        EmitOutcome::Emitted {
            consumed: 2,
            terminates: false
        }
    );
    assert_eq!(fused_outcome(FusedPair::SubsBne), fused_outcome(FusedPair::CmpBranch));
}

#[test]
fn condition_checks_follow_the_condition_codes() {
    assert_eq!(cond_check_for(0), CondCheck::Bit { bit: 30, set: true }); // EQ
    assert_eq!(cond_check_for(1), CondCheck::Bit { bit: 30, set: false }); // NE
    assert_eq!(cond_check_for(2), CondCheck::Bit { bit: 29, set: true }); // CS
    assert_eq!(cond_check_for(7), CondCheck::Bit { bit: 28, set: false }); // VC
    assert_eq!(cond_check_for(8), CondCheck::CarrySetZeroClear); // HI
    assert_eq!(cond_check_for(9), CondCheck::CarryClearOrZeroSet); // LS
    assert_eq!(cond_check_for(10), CondCheck::SignEqualsOverflow); // GE
    assert_eq!(cond_check_for(11), CondCheck::SignDiffersOverflow); // LT
    assert_eq!(cond_check_for(12), CondCheck::ZeroClearSignEqualsOverflow); // GT
    assert_eq!(cond_check_for(13), CondCheck::ZeroSetOrSignDiffersOverflow); // LE
    assert_eq!(cond_check_for(14), CondCheck::Always); // AL
    assert_eq!(cond_check_for(15), CondCheck::Always); // NV
}

/// What the emitted x86 sequence decides for a check (bit tests on the NZCV word).
fn taken(c: CondCheck, w: u32) -> bool {
    let bit = |b: u32| (w >> b) & 1 == 1;
    let nv = ((w >> 31) ^ (w >> 28)) & 1 == 1;
    match c {
        CondCheck::Bit { bit: b, set } => bit(b) == set,
        CondCheck::CarrySetZeroClear => bit(29) && !bit(30),
        CondCheck::CarryClearOrZeroSet => !bit(29) || bit(30),
        CondCheck::SignEqualsOverflow => !nv,
        CondCheck::SignDiffersOverflow => nv,
        CondCheck::ZeroClearSignEqualsOverflow => !bit(30) && !nv,
        CondCheck::ZeroSetOrSignDiffersOverflow => bit(30) || nv,
        CondCheck::Always => true,
    }
}


#[test]
fn condition_checks_agree_with_flag_semantics_on_all_flag_combinations() {
    for flags in 0u32..16 {
        let w = flags << 28;
        let (n, z, c, v) = (w >> 31 & 1 == 1, w >> 30 & 1 == 1, w >> 29 & 1 == 1, w >> 28 & 1 == 1);
        let expected = [
            z,
            !z,
            c,
            !c,
            n,
            !n,
            v,
            !v,
            c && !z,
            !c || z,
            n == v,
            n != v,
            !z && n == v,
            z || n != v,
            true,
            true,
        ];
        for cond in 0u32..16 {
            assert_eq!(taken(cond_check_for(cond), w), expected[cond as usize], "cond {cond} flags {flags:04b}");
        }
    }
}

fn at(mut insn: A64Insn, pc: u64) -> A64Insn {
    insn.pc = pc;
    insn
}

fn make_add_imm(pc: u64, rd: u32, rn: u32, imm: i64) -> A64Insn {
    let mut insn = at(a64(A64Opcode::AddImm, rd, imm, 0), pc);
    insn.rn = rn;
    insn
}

fn make_subs_imm(pc: u64, rd: u32, rn: u32, imm: i64) -> A64Insn {
    let mut insn = at(a64(A64Opcode::SubsImm, rd, imm, 0), pc);
    insn.rn = rn;
    insn
}

fn make_bcond(pc: u64, cond: u32, imm: i64) -> A64Insn {
    at(a64(A64Opcode::BCond, 0, imm, cond), pc)
}

#[test]
fn mod_compile_single_nop() {
    let insns = [at(a64(A64Opcode::Nop, 0, 0, 0), 0x1000)];
    let block = a64_block_extent(0x1000, &insns);
    assert!(block.is_some());
    let (count, next_pc) = block.unwrap();
    assert_eq!(count, 1);
    assert_eq!(next_pc, 0x1004);
}

#[test]
fn mod_compile_add_sequence() {
    let insns = [
        make_add_imm(0x2000, 0, 0, 1),
        make_add_imm(0x2004, 1, 1, 2),
        make_add_imm(0x2008, 2, 2, 3),
    ];
    let block = a64_block_extent(0x2000, &insns);
    assert!(block.is_some());
    assert_eq!(block.unwrap().0, 3);
}

#[test]
fn mod_unsupported_first_insn_returns_none() {
    // An exclusive load has no emitter.
    let insns = [at(a64(A64Opcode::Other, 0, 0, 0), 0x3000)];
    assert!(a64_block_extent(0x3000, &insns).is_none());
}

#[test]
fn mod_empty_insns_returns_none() {
    assert!(a64_block_extent(0x4000, &[]).is_none());
}

#[test]
fn conditional_branch_fallthrough_keeps_following_insns_in_block() {
    let insns = [
        at(a64(A64Opcode::Cbnz, 0, 0x10, 0), 0x1000),
        make_add_imm(0x1004, 1, 1, 1),
    ];
    let (count, next_pc) = a64_block_extent(0x1000, &insns).unwrap();
    assert_eq!(count, 2);
    assert_eq!(next_pc, 0x1008);
}

#[test]
fn fused_subs_bne_fallthrough_keeps_following_insns_in_block() {
    let insns = [
        make_subs_imm(0x2000, 0, 0, 1),
        make_bcond(0x2004, 1, 0x10),
        make_add_imm(0x2008, 1, 1, 1),
    ];
    let (count, next_pc) = a64_block_extent(0x2000, &insns).unwrap();
    assert_eq!(count, 3);
    assert_eq!(next_pc, 0x200c);
}

#[test]
fn fused_cmp_bcond_pair_closes_a_three_insn_block() {
    let insns = [
        make_subs_imm(0x1000, 5, 5, 100),
        make_subs_imm(0x1004, 31, 0, 37), // CMP X0, #37
        make_bcond(0x1008, 13, -0x20),    // B.LE
    ];
    assert_eq!(a64_block_extent(0x1000, &insns), Some((3, 0x100c)));
    let s = form_a64_block(&insns);
    assert_eq!(s.insn_count, 3);
    assert!(!s.finished);
}

#[test]
fn unconditional_branch_ends_the_block() {
    let insns = [
        make_add_imm(0x1000, 0, 0, 1),
        at(a64(A64Opcode::B, 0, 0x40, 0), 0x1004),
        make_add_imm(0x1008, 1, 1, 1),
    ];
    let s = form_a64_block(&insns);
    assert_eq!(s.insn_count, 2);
    assert!(s.finished);
    assert_eq!(a64_block_extent(0x1000, &insns), Some((2, 0x1008)));
}

#[test]
fn block_stops_before_unsupported_insn() {
    let insns = [
        make_add_imm(0x1000, 0, 0, 1),
        make_add_imm(0x1004, 0, 0, 1),
        at(a64(A64Opcode::Other, 0, 0, 0), 0x1008),
        make_add_imm(0x100c, 0, 0, 1),
    ];
    assert_eq!(a64_block_extent(0x1000, &insns), Some((2, 0x1008)));
}

#[test]
fn long_block_is_capped_and_fused_pair_may_cross_the_cap() {
    let mut insns: Vec<A64Insn> = (0..100).map(|i| make_add_imm(i * 4, 0, 0, 1)).collect();
    assert_eq!(a64_block_extent(0, &insns), Some((64, 256)));
    insns[63] = make_subs_imm(252, 0, 0, 1);
    insns[64] = make_bcond(256, 1, 0x10);
    assert_eq!(a64_block_extent(0, &insns), Some((65, 260)));
}

#[test]
fn dispatch_routes_opcodes_to_emitters() {
    let route = |op: A64Opcode| plan_a64_emit(&a64(op, 0, 0, 0));
    assert_eq!(route(A64Opcode::OrrImm), Some(A64Emitter::LogicalImm));
    assert_eq!(route(A64Opcode::Mneg), Some(A64Emitter::Msub));
    assert_eq!(route(A64Opcode::Ldaprb), Some(A64Emitter::Load));
    assert_eq!(route(A64Opcode::Stlr), Some(A64Emitter::Store));
    assert_eq!(route(A64Opcode::Prfm), Some(A64Emitter::Hint));
    assert_eq!(route(A64Opcode::Wfe), Some(A64Emitter::Hint));
    assert_eq!(route(A64Opcode::Brk), Some(A64Emitter::Exception(ExceptionCall::Brk)));
    assert_eq!(route(A64Opcode::Other), None);
}

#[test]
fn dispatch_outcomes_follow_block_enders() {
    let outcome = |op: A64Opcode| a64_emit_outcome(&plan_a64_emit(&a64(op, 0, 0, 0)));
    for op in [
        A64Opcode::B,
        A64Opcode::Bl,
        A64Opcode::Br,
        A64Opcode::Blr,
        A64Opcode::Ret,
        A64Opcode::Svc,
        A64Opcode::Hvc,
        A64Opcode::Smc,
        A64Opcode::Brk,
        A64Opcode::Eret,
        A64Opcode::Wfi,
    ] {
        assert_eq!(outcome(op), BRANCH);
    }
    for op in [
        A64Opcode::BCond,
        A64Opcode::Cbz,
        A64Opcode::Cbnz,
        A64Opcode::Tbz,
        A64Opcode::Tbnz,
        A64Opcode::Mrs,
        A64Opcode::Sys,
        A64Opcode::DcZva,
    ] {
        assert_eq!(outcome(op), GO);
    }
    assert_eq!(outcome(A64Opcode::Other), EmitOutcome::Unsupported);
}

#[test]
fn narrow_vector_stores_are_left_to_the_interpreter() {
    let mut st = a64(A64Opcode::StrSimd, 0, 0, 0);
    for (ftype, expected) in [
        (0, None),
        (2, None),
        (3, Some(A64Emitter::StoreSimd { bytes: 8 })),
        (4, Some(A64Emitter::StoreSimd { bytes: 16 })),
    ] {
        st.ftype = ftype;
        assert_eq!(plan_a64_emit(&st), expected);
    }
    let mut stp = a64(A64Opcode::StpSimd, 0, 0, 0);
    for (ftype, expected) in [
        (0, None),
        (1, Some(A64Emitter::StorePairSimd { bytes: 8 })),
        (2, Some(A64Emitter::StorePairSimd { bytes: 16 })),
    ] {
        stp.ftype = ftype;
        assert_eq!(plan_a64_emit(&stp), expected);
    }
}

#[test]
fn msr_immediate_fields_select_the_pstate_write() {
    // op1 in bits 16..18, CRm in bits 8..11, op2 in bits 5..7.
    let imm = |op1: i64, crm: i64, op2: i64| (op1 << 16) | (crm << 8) | (op2 << 5);
    assert_eq!(decode_pstate_write(imm(3, 0xf, 6)), PstateWrite::DaifSet { mask: 0xf });
    assert_eq!(decode_pstate_write(imm(3, 2, 7)), PstateWrite::DaifClr { mask: 2 });
    assert_eq!(decode_pstate_write(imm(0, 1, 5)), PstateWrite::SpSel { mask: 1 });
    assert_eq!(decode_pstate_write(imm(1, 1, 5)), PstateWrite::Ignored);
    let mut msr = a64(A64Opcode::MsrImm, 0, imm(3, 4, 6), 0);
    assert_eq!(
        plan_a64_emit(&msr),
        Some(A64Emitter::MsrImm(PstateWrite::DaifSet { mask: 4 }))
    );
    msr.imm = imm(3, 4, 1);
    assert_eq!(plan_a64_emit(&msr), Some(A64Emitter::MsrImm(PstateWrite::Ignored)));
}

fn sbfm(sf: bool, immr: i64, imms: u64) -> A64Insn {
    let mut insn = a64(A64Opcode::Sbfm, 2, immr, 0);
    insn.sf = sf;
    insn.imm2 = imms;
    insn
}

#[test]
fn sbfm_plans_follow_the_aliases() {
    let plan = |sf, immr, imms| plan_sbfm(&sbfm(sf, immr, imms));
    // ASR X, #3; SXTB/SXTH/SXTW; SBFX; SBFIZ.
    assert_eq!(plan(true, 3, 63).shape, SbfmShape::ArithShiftRight { shift: 3 });
    assert_eq!(plan(true, 0, 7).shape, SbfmShape::SignExtend { from_bits: 8 });
    assert_eq!(plan(true, 0, 31).shape, SbfmShape::SignExtend { from_bits: 32 });
    assert_eq!(plan(true, 4, 11).shape, SbfmShape::Extract { lsb: 4, width: 8 });
    assert_eq!(plan(true, 60, 3).shape, SbfmShape::Insert { src_bits: 4, dst_pos: 4 });
    assert_eq!(
        plan(false, 0, 15),
        BitfieldPlan { wide: false, shape: SbfmShape::SignExtend { from_bits: 16 } }
    );
    assert_eq!(plan(false, 5, 31).shape, SbfmShape::ArithShiftRight { shift: 5 });
    assert_eq!(plan(false, 28, 3).shape, SbfmShape::Insert { src_bits: 4, dst_pos: 4 });
}

fn ldst(opcode: A64Opcode, sf: bool) -> A64Insn {
    let mut insn = a64(opcode, 3, 16, 0);
    insn.sf = sf;
    insn.rn = 31;
    insn
}

#[test]
fn tlb_load_plans() {
    let p = plan_tlb_load(&ldst(A64Opcode::Ldr, true));
    assert_eq!(
        p,
        TlbAccessPlan {
            size: 8,
            base_slot: REG_SP,
            data_slot: 3,
            addressing: AddrMode::Offset { imm: 16 },
            sign_extend: false,
            wide: true,
        }
    );
    assert_eq!(plan_tlb_load(&ldst(A64Opcode::Ldr, false)).size, 4);
    let b = plan_tlb_load(&ldst(A64Opcode::Ldrsb, false));
    assert_eq!((b.size, b.sign_extend, b.wide), (1, true, true));
    let h = plan_tlb_load(&ldst(A64Opcode::Ldrh, false));
    assert_eq!((h.size, h.sign_extend, h.wide), (2, false, false));
    let mut post = ldst(A64Opcode::Ldr, true);
    post.post_index = true;
    post.rm = 5;
    assert_eq!(plan_tlb_load(&post).addressing, AddrMode::PostIndex { imm: 16 });
    let mut pre = ldst(A64Opcode::Ldrb, true);
    pre.pre_index = true;
    assert_eq!(plan_tlb_load(&pre).addressing, AddrMode::PreIndex { imm: 16 });
    let mut reg = ldst(A64Opcode::Ldr, true);
    reg.rm = 31;
    reg.extend_type = 6;
    reg.extend_amt = 3;
    assert_eq!(
        plan_tlb_load(&reg).addressing,
        AddrMode::RegOffset { rm_slot: REG_XZR, extend_type: 6, amount: 3 }
    );
}

#[test]
fn tlb_store_plans() {
    let mut st = ldst(A64Opcode::Strh, false);
    st.rd = 31;
    let p = plan_tlb_store(&st);
    assert_eq!((p.size, p.data_slot, p.sign_extend, p.wide), (2, REG_XZR, false, true));
    let mut sized = ldst(A64Opcode::Stlr, true);
    sized.size = 2;
    assert_eq!(plan_tlb_store(&sized).size, 4);
}

#[test]
fn flag_op_codes_follow_declaration_order() {
    assert_eq!(flag_op_code(FlagOp::NoFlags), 0);
    assert_eq!(flag_op_code(FlagOp::Add64), 1);
    assert_eq!(flag_op_code(FlagOp::Sub64), 2);
    assert_eq!(flag_op_code(FlagOp::And64), 3);
    assert_eq!(flag_op_code(FlagOp::Add32), 4);
    assert_eq!(flag_op_code(FlagOp::Sub32), 5);
    assert_eq!(flag_op_code(FlagOp::And32), 6);
}

#[test]
fn materialisation_replays_the_stored_operation() {
    assert_eq!(materialize_op(0), None);
    for op in [
        FlagOp::Add64,
        FlagOp::Sub64,
        FlagOp::And64,
        FlagOp::Add32,
        FlagOp::Sub32,
        FlagOp::And32,
    ] {
        assert_eq!(materialize_op(flag_op_code(op)), Some(op));
    }
    // A code no emitter stores falls back to the 64-bit AND.
    assert_eq!(materialize_op(7), Some(FlagOp::And64));
    assert_eq!(materialize_op(u32::MAX), Some(FlagOp::And64));
}

#[test]
fn pair_plans() {
    // LDP X3, X31(XZR), [SP, #16]
    let mut ldp = ldst(A64Opcode::Ldp, true);
    ldp.pair_second = 31;
    assert_eq!(
        plan_pair(&ldp),
        PairAccessPlan {
            size: 8,
            base_slot: REG_SP,
            first_slot: 3,
            second_slot: REG_XZR,
            addressing: AddrMode::Offset { imm: 16 },
            wide: true,
        }
    );
    // STP W3, W4, [X2, #-8]!
    let mut stp = a64(A64Opcode::Stp, 3, -8, 0);
    stp.sf = false;
    stp.rn = 2;
    stp.pair_second = 4;
    stp.pre_index = true;
    let p = plan_pair(&stp);
    assert_eq!((p.size, p.base_slot, p.first_slot, p.second_slot, p.wide), (4, 2, 3, 4, false));
    assert_eq!(p.addressing, AddrMode::PreIndex { imm: -8 });
    // LDP X0, X1, [X5], #32
    let mut post = a64(A64Opcode::Ldp, 0, 32, 0);
    post.rn = 5;
    post.pair_second = 1;
    post.post_index = true;
    assert_eq!(plan_pair(&post).addressing, AddrMode::PostIndex { imm: 32 });
}

#[test]
fn dc_zva_plan_and_offsets() {
    assert_eq!(plan_dc_zva(&a64(A64Opcode::DcZva, 7, 0, 0)), 7);
    assert_eq!(plan_dc_zva(&a64(A64Opcode::DcZva, 31, 0, 0)), REG_XZR);
    assert_eq!(zva_write_offsets(), vec![0, 8, 16, 24, 32, 40, 48, 56]);
    assert_eq!(DC_ZVA_BLOCK_SIZE, 64);
}

fn branch_at(opcode: A64Opcode, pc: u64, imm: i64) -> A64Insn {
    let mut insn = a64(opcode, 0, imm, 0);
    insn.pc = pc;
    insn
}

#[test]
fn branch_plans() {
    assert_eq!(
        plan_branch(&branch_at(A64Opcode::B, 0x1000, 0x20), 2),
        Some(BranchPlan {
            test: BranchTest::Always,
            target: BranchTarget::Direct(0x1020),
            link: None,
            chainable: false,
            retired: 3,
        })
    );
    let bl = plan_branch(&branch_at(A64Opcode::Bl, 0x1000, -0x10), 0).unwrap();
    assert_eq!((bl.target, bl.link, bl.retired), (BranchTarget::Direct(0xFF0), Some(0x1004), 1));
    // Targets and links wrap modulo 2^64.
    let wrap = plan_branch(&branch_at(A64Opcode::Bl, u64::MAX - 1, 8), 0).unwrap();
    assert_eq!((wrap.target, wrap.link), (BranchTarget::Direct(6), Some(2)));
    let mut ret = branch_at(A64Opcode::Ret, 0x2000, 0);
    ret.rn = 30;
    let r = plan_branch(&ret, 4).unwrap();
    assert_eq!((r.test, r.target, r.chainable), (BranchTest::Always, BranchTarget::Register(30), false));
    let mut blr = branch_at(A64Opcode::Blr, 0x2000, 0);
    blr.rn = 31;
    let r = plan_branch(&blr, 0).unwrap();
    assert_eq!((r.target, r.link), (BranchTarget::Register(REG_XZR), Some(0x2004)));
    let mut bcond = branch_at(A64Opcode::BCond, 0x3000, 8);
    bcond.cond = 1;
    let r = plan_branch(&bcond, 0).unwrap();
    assert_eq!(r.test, BranchTest::Flags(CondCheck::Bit { bit: 30, set: false }));
    assert!(r.chainable);
    let mut cbz = branch_at(A64Opcode::Cbz, 0x3000, 8);
    cbz.rd = 31;
    cbz.sf = false;
    assert_eq!(plan_branch(&cbz, 0).unwrap().test, BranchTest::Zero { slot: REG_XZR, wide: false });
    let mut cbnz = branch_at(A64Opcode::Cbnz, 0x3000, 8);
    cbnz.rd = 4;
    assert_eq!(plan_branch(&cbnz, 0).unwrap().test, BranchTest::NonZero { slot: 4, wide: true });
    let mut tbnz = branch_at(A64Opcode::Tbnz, 0x3000, 8);
    tbnz.rn = 5;
    tbnz.imm2 = 63;
    assert_eq!(plan_branch(&tbnz, 0).unwrap().test, BranchTest::BitSet { slot: 5, bit: 63 });
    let mut tbz = branch_at(A64Opcode::Tbz, 0x3000, 8);
    tbz.rn = 2;
    tbz.imm2 = 3;
    assert_eq!(plan_branch(&tbz, 0).unwrap().test, BranchTest::BitClear { slot: 2, bit: 3 });
    assert_eq!(plan_branch(&branch_at(A64Opcode::AddImm, 0, 0), 0), None);
}

fn bitfield(sf: bool, immr: i64, imms: u64) -> A64Insn {
    let mut insn = a64(A64Opcode::Ubfm, 0, immr, 0);
    insn.sf = sf;
    insn.imm2 = imms;
    insn
}

#[test]
fn ubfm_plans() {
    // LSR X0, X1, #4 = UBFM X0, X1, #4, #63
    assert_eq!(
        plan_ubfm(&bitfield(true, 4, 63)),
        UbfmPlan { wide: true, shape: UbfmShape::Extract { shift: 4, mask: u64::MAX >> 4 } }
    );
    // UXTB W0, W1 = UBFM W0, W1, #0, #7
    assert_eq!(plan_ubfm(&bitfield(false, 0, 7)).shape, UbfmShape::Extract { shift: 0, mask: 0xFF });
    // LSL X0, X1, #8 = UBFM X0, X1, #56, #55
    assert_eq!(
        plan_ubfm(&bitfield(true, 56, 55)).shape,
        UbfmShape::Insert { mask: (1u64 << 56) - 1, shift: 8 }
    );
    // UBFIZ W0, W1, #3, #5 = UBFM W0, W1, #29, #4
    assert_eq!(plan_ubfm(&bitfield(false, 29, 4)).shape, UbfmShape::Insert { mask: 0x1F, shift: 3 });
}

#[test]
fn imm_plans() {
    // MOVZ W3, #0x1234, LSL #16 (decoded value 0x1234_0000), W form keeps 32 bits.
    let mut movz = a64(A64Opcode::Movz, 3, 0x1234_0000, 0);
    movz.sf = false;
    assert_eq!(
        plan_imm(&movz),
        Some(ImmPlan { rd_slot: 3, rn_slot: 3, wide: false, op: ImmOp::Constant { value: 0x1234_0000 } })
    );
    // MOVN X0, #0 decodes to all ones; the W form keeps the low 32 bits.
    let mut movn = a64(A64Opcode::Movn, 0, -1, 0);
    assert_eq!(plan_imm(&movn).unwrap().op, ImmOp::Constant { value: u64::MAX });
    movn.sf = false;
    assert_eq!(plan_imm(&movn).unwrap().op, ImmOp::Constant { value: 0xFFFF_FFFF });
    // MOVK X5, #0xBEEF, LSL #32
    let mut movk = a64(A64Opcode::Movk, 5, 0xBEEF, 0);
    movk.imm2 = 2;
    assert_eq!(
        plan_imm(&movk).unwrap().op,
        ImmOp::Keep { mask: !(0xFFFFu64 << 32), bits: 0xBEEFu64 << 32 }
    );
    // ADD SP, SP, #16: register 31 is SP.
    let mut add = a64(A64Opcode::AddImm, 31, 16, 0);
    add.rn = 31;
    let p = plan_imm(&add).unwrap();
    assert_eq!((p.rd_slot, p.rn_slot, p.op), (REG_SP, REG_SP, ImmOp::AddSub { sub: false, imm: 16 }));
    // CMP W2, #7 = SUBS WZR, W2, #7: register 31 is XZR, flags deferred.
    let mut cmp = a64(A64Opcode::SubsImm, 31, 7, 0);
    cmp.rn = 2;
    cmp.sf = false;
    let p = plan_imm(&cmp).unwrap();
    assert_eq!(
        (p.rd_slot, p.rn_slot, p.wide, p.op),
        (REG_XZR, 2, false, ImmOp::AddSubFlags { sub: true, imm: 7, flags: FlagOp::Sub32 })
    );
    assert_eq!(plan_imm(&a64(A64Opcode::Ubfm, 0, 0, 0)), None);
}

#[test]
fn div_plans() {
    let mut sdiv = a64(A64Opcode::Sdiv, 2, 0, 0);
    sdiv.rn = 3;
    sdiv.rm = 31;
    assert_eq!(
        plan_div(&sdiv),
        Some(DivPlan { rd_slot: 2, rn_slot: 3, rm_slot: REG_XZR, signed: true, wide: true })
    );
    let mut udiv = a64(A64Opcode::Udiv, 31, 0, 0);
    udiv.sf = false;
    let p = plan_div(&udiv).unwrap();
    assert_eq!((p.rd_slot, p.signed, p.wide), (REG_XZR, false, false));
    assert_eq!(plan_div(&a64(A64Opcode::Movz, 0, 0, 0)), None);
}

#[test]
fn cond_select_plans() {
    // CSINC W0, WZR, WZR, NE = CSET W0, EQ
    let mut cset = a64(A64Opcode::Csinc, 0, 0, 1);
    cset.rn = 31;
    cset.rm = 31;
    cset.sf = false;
    assert_eq!(
        plan_cond_select(&cset),
        Some(CondSelectPlan {
            rd_slot: 0,
            rn_slot: REG_XZR,
            rm_slot: REG_XZR,
            check: CondCheck::Bit { bit: 30, set: false },
            variant: SelectVariant::Increment,
            wide: false,
        })
    );
    let mut csneg = a64(A64Opcode::Csneg, 4, 0, 11);
    csneg.rn = 5;
    csneg.rm = 6;
    let p = plan_cond_select(&csneg).unwrap();
    assert_eq!((p.check, p.variant), (CondCheck::SignDiffersOverflow, SelectVariant::Negate));
    assert_eq!(plan_cond_select(&a64(A64Opcode::Csinv, 0, 0, 0)).unwrap().variant, SelectVariant::Invert);
    assert_eq!(plan_cond_select(&a64(A64Opcode::Csel, 0, 0, 14)).unwrap().check, CondCheck::Always);
    assert_eq!(plan_cond_select(&a64(A64Opcode::Sdiv, 0, 0, 0)), None);
}

#[test]
fn pc_relative_address_plans() {
    let mut adr = a64(A64Opcode::Adr, 7, -4, 0);
    adr.pc = 0x1000;
    assert_eq!(
        plan_imm(&adr),
        Some(ImmPlan { rd_slot: 7, rn_slot: 7, wide: true, op: ImmOp::Constant { value: 0xFFC } })
    );
    let mut adrp = a64(A64Opcode::Adrp, 1, 2, 0);
    adrp.pc = 0x12345;
    assert_eq!(plan_imm(&adrp).unwrap().op, ImmOp::Constant { value: 0x14000 });
    // Pages below zero wrap modulo 2^64.
    adrp.pc = 0x1000;
    adrp.imm = -2;
    assert_eq!(plan_imm(&adrp).unwrap().op, ImmOp::Constant { value: 0xFFFF_FFFF_FFFF_F000 });
}

#[test]
fn mul_plans() {
    let mut madd = a64(A64Opcode::Madd, 1, 0, 0);
    madd.rn = 2;
    madd.rm = 3;
    madd.ra = 4;
    assert_eq!(
        plan_mul(&madd),
        Some(MulPlan { rd_slot: 1, rn_slot: 2, rm_slot: 3, ra_slot: 4, subtract: false, wide: true })
    );
    let mut mneg = a64(A64Opcode::Mneg, 1, 0, 0);
    mneg.sf = false;
    mneg.ra = 9;
    let p = plan_mul(&mneg).unwrap();
    assert_eq!((p.ra_slot, p.subtract, p.wide), (REG_XZR, true, false));
    assert_eq!(plan_mul(&a64(A64Opcode::Mul, 0, 0, 0)).unwrap().ra_slot, REG_XZR);
    assert_eq!(plan_mul(&a64(A64Opcode::Smulh, 0, 0, 0)), None);
}

#[test]
fn reg_arith_plans() {
    // ADD SP, X1, X2, LSL #3
    let mut add = a64(A64Opcode::AddReg, 31, 0, 0);
    add.rn = 1;
    add.rm = 2;
    add.shift_amt = 3;
    assert_eq!(
        plan_reg_arith(&add),
        Some(RegArithPlan {
            rd_slot: REG_SP,
            rn_slot: 1,
            rm_slot: 2,
            operand2: Operand2::Shifted { shift_type: 0, amount: 3 },
            sub: false,
            flags: None,
            wide: true,
        })
    );
    // CMP W4, W5, ASR #2 = SUBS WZR, W4, W5, ASR #2
    let mut cmp = a64(A64Opcode::SubsReg, 31, 0, 0);
    cmp.rn = 4;
    cmp.rm = 5;
    cmp.sf = false;
    cmp.shift_type = 2;
    cmp.shift_amt = 2;
    let p = plan_reg_arith(&cmp).unwrap();
    assert_eq!((p.rd_slot, p.sub, p.flags, p.wide), (REG_XZR, true, Some(FlagOp::Sub32), false));
    // CMP SP, W6, UXTW #2 = SUBS XZR, SP, W6, UXTW #2: Rn is SP in extended forms.
    let mut ext = a64(A64Opcode::SubsExt, 31, 0, 0);
    ext.rn = 31;
    ext.rm = 6;
    ext.extend_type = 2;
    ext.extend_amt = 2;
    let p = plan_reg_arith(&ext).unwrap();
    assert_eq!((p.rd_slot, p.rn_slot, p.flags), (REG_XZR, REG_SP, Some(FlagOp::Sub64)));
    assert_eq!(p.operand2, Operand2::Extended { extend_type: 2, amount: 2 });
    assert_eq!(plan_reg_arith(&a64(A64Opcode::AddImm, 0, 0, 0)), None);
}

#[test]
fn logic_plans() {
    // ORR SP, X1, #0xFF: the immediate form writes SP for register 31.
    let mut orr = a64(A64Opcode::OrrImm, 31, 0xFF, 0);
    orr.rn = 1;
    assert_eq!(
        plan_logic(&orr),
        Some(LogicPlan {
            rd_slot: REG_SP,
            rn_slot: 1,
            op: LogicOp::Orr,
            operand: LogicOperand::Imm { value: 0xFF },
            flags: None,
            wide: true,
        })
    );
    // TST W2, #1 = ANDS WZR, W2, #1
    let mut tst = a64(A64Opcode::AndsImm, 31, 1, 0);
    tst.rn = 2;
    tst.sf = false;
    let p = plan_logic(&tst).unwrap();
    assert_eq!((p.rd_slot, p.flags), (REG_XZR, Some(FlagOp::And32)));
    // EOR X0, X1, X2, LSR #4
    let mut eor = a64(A64Opcode::EorReg, 0, 0, 0);
    eor.rn = 1;
    eor.rm = 2;
    eor.shift_type = 1;
    eor.shift_amt = 4;
    assert_eq!(
        plan_logic(&eor).unwrap().operand,
        LogicOperand::Reg { rm_slot: 2, shift_type: 1, amount: 4, invert: false }
    );
    // BICS X0, X1, X3, LSL #2: the shift sits in the extend fields.
    let mut bics = a64(A64Opcode::BicsReg, 0, 0, 0);
    bics.rn = 1;
    bics.rm = 3;
    bics.extend_type = 0;
    bics.extend_amt = 2;
    let p = plan_logic(&bics).unwrap();
    assert_eq!(p.operand, LogicOperand::Reg { rm_slot: 3, shift_type: 0, amount: 2, invert: true });
    assert_eq!((p.op, p.flags), (LogicOp::And, Some(FlagOp::And64)));
    assert_eq!(plan_logic(&a64(A64Opcode::AddReg, 0, 0, 0)), None);
}

#[test]
fn var_shift_plans() {
    let mut asr = a64(A64Opcode::Asr, 1, 0, 0);
    asr.rn = 2;
    asr.rm = 3;
    asr.sf = false;
    assert_eq!(
        plan_var_shift(&asr),
        Some(VarShiftPlan { rd_slot: 1, rn_slot: 2, rm_slot: 3, shift_type: 2, wide: false })
    );
    assert_eq!(plan_var_shift(&a64(A64Opcode::Ror, 0, 0, 0)).unwrap().shift_type, 3);
    assert_eq!(plan_var_shift(&a64(A64Opcode::Lsl, 0, 0, 0)).unwrap().shift_type, 0);
    assert_eq!(plan_var_shift(&a64(A64Opcode::Ubfm, 0, 0, 0)), None);
}

#[test]
fn carry_plans() {
    let mut adcs = a64(A64Opcode::Adcs, 1, 0, 0);
    adcs.rn = 2;
    adcs.rm = 31;
    assert_eq!(
        plan_carry(&adcs),
        Some(CarryPlan { rd_slot: 1, rn_slot: 2, rm_slot: REG_XZR, subtract: false, set_flags: true, wide: true })
    );
    let mut sbc = a64(A64Opcode::Sbc, 1, 0, 0);
    sbc.sf = false;
    let p = plan_carry(&sbc).unwrap();
    assert_eq!((p.subtract, p.set_flags, p.wide), (true, false, false));
    assert_eq!(plan_carry(&a64(A64Opcode::AddReg, 0, 0, 0)), None);
}
