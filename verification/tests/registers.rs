use helm_jit::dynasm::pinned::is_caller_saved_pinned;
use helm_jit::regs::{
    arch_to_flat, arch_to_flat_rv64, flat_to_arch, flat_to_arch_rv64, is_pinned, pinned_host_reg,
    reg_offset, vreg_offset_hi, vreg_offset_lo, Aarch64RegState, FlagOp, HostReg, REG_COUNT,
    REG_FLAG_OP, REG_NZCV, REG_PC, REG_PC_RV64, REG_SP, REG_V_BASE, REG_X0, REG_X30, REG_XZR,
};
use helm_jit::stencil::regs_rv64::{self, reg_offset_rv64, REG_COUNT_RV64};

#[test]
fn reg_offset_is_8_aligned() {
    assert_eq!(reg_offset(0), 0);
    assert_eq!(reg_offset(1), 8);
    assert_eq!(reg_offset(REG_PC), 256);
    assert_eq!(reg_offset(REG_NZCV), 264);
}

#[test]
fn round_trip_preserves_state() {
    let mut a64 = Aarch64RegState::default();
    a64.x[0] = 0xDEAD_BEEF;
    a64.x[30] = 0x1234;
    a64.sp = 0x7FFF_FFFF_FFF0;
    a64.pc = 0x4000_0000;
    a64.nzcv = 0xA000_0000; // N=1, C=1

    let mut flat = arch_to_flat(&a64);
    assert_eq!(flat[REG_X0], 0xDEAD_BEEF);
    assert_eq!(flat[REG_X30], 0x1234);
    assert_eq!(flat[REG_SP], 0x7FFF_FFFF_FFF0);
    assert_eq!(flat[REG_PC], 0x4000_0000);
    assert_eq!(flat[REG_NZCV], 0xA000_0000);
    assert_eq!(flat[REG_XZR], 0);

    // Modify in flat array (simulating JIT execution)
    flat[REG_X0] = 42;
    flat[REG_PC] = 0x4000_0008;

    let mut a64_out = Aarch64RegState::default();
    flat_to_arch(&mut flat, &mut a64_out);
    assert_eq!(a64_out.x[0], 42);
    assert_eq!(a64_out.pc, 0x4000_0008);
    assert_eq!(flat[REG_XZR], 0); // re-zeroed
}

#[test]
fn round_trip_uses_current_banked_sp() {
    let mut a64 = Aarch64RegState::default();
    a64.current_el = 1;
    a64.spsel = true;
    a64.sp = 0x1111;
    a64.sp_el1 = 0x2222;

    let mut flat = arch_to_flat(&a64);
    assert_eq!(flat[REG_SP], 0x2222);

    flat[REG_SP] = 0x3333;
    flat_to_arch(&mut flat, &mut a64);

    assert_eq!(a64.sp, 0x1111);
    assert_eq!(a64.sp_el1, 0x3333);
}

#[test]
fn flat_round_trip() {
    let mut iregs = [0u64; 32];
    iregs[1] = 0xDEAD_BEEF;
    iregs[31] = 0x1234;
    let pc = 0x8000_0000u64;

    let mut flat = arch_to_flat_rv64(&iregs, pc);
    assert_eq!(flat[0], 0, "x0 always zero");
    assert_eq!(flat[1], 0xDEAD_BEEF);
    assert_eq!(flat[31], 0x1234);
    assert_eq!(flat[REG_PC_RV64], 0x8000_0000);

    // Simulate JIT modifying registers
    flat[1] = 42;
    flat[REG_PC_RV64] = 0x8000_0008;

    let mut iregs_out = [0u64; 32];
    let mut pc_out = 0u64;
    flat_to_arch_rv64(&mut flat, &mut iregs_out, &mut pc_out);
    assert_eq!(iregs_out[0], 0, "x0 stays zero");
    assert_eq!(iregs_out[1], 42);
    assert_eq!(pc_out, 0x8000_0008);
}

#[test]
fn rv64_layout_offsets() {
    assert_eq!(reg_offset_rv64(0), 0); // x0
    assert_eq!(reg_offset_rv64(1), 8); // x1 (ra)
    assert_eq!(reg_offset_rv64(2), 16); // x2 (sp)
    assert_eq!(reg_offset_rv64(regs_rv64::REG_PC_RV64), 256); // PC
}

#[test]
fn rv64_x0_always_zero() {
    let mut flat = [0u64; REG_COUNT_RV64];
    flat[regs_rv64::REG_X0] = 0xDEAD; // simulate JIT writing to x0
    // Re-zero (caller's responsibility after sync):
    flat[regs_rv64::REG_X0] = 0;
    assert_eq!(flat[regs_rv64::REG_X0], 0);
}

#[test]
fn flag_op_discriminants() {
    // Ensure FlagOp discriminants match what we store/compare in emitted code.
    assert_eq!(FlagOp::NoFlags as i32, 0);
    assert_eq!(FlagOp::Add64 as i32, 1);
    assert_eq!(FlagOp::Sub64 as i32, 2);
    assert_eq!(FlagOp::And64 as i32, 3);
    assert_eq!(FlagOp::Add32 as i32, 4);
    assert_eq!(FlagOp::Sub32 as i32, 5);
    assert_eq!(FlagOp::And32 as i32, 6);
}

#[test]
fn flag_op_slots_distinct_from_stash() {
    // Slot 38 is used as stash in ldst.rs — confirm FLAG_OP slots don't overlap.
    assert_ne!(REG_FLAG_OP, 38);
}

#[test]
fn pinned_slots_have_host_regs() {
    // X0 is pinned to R8
    assert_eq!(pinned_host_reg(REG_X0), Some(HostReg::R8));
    // X1 is pinned to R9
    assert_eq!(pinned_host_reg(REG_X0 + 1), Some(HostReg::R9));
    // X5 is NOT pinned
    assert_eq!(pinned_host_reg(REG_X0 + 5), None);
    // SP is pinned to R15
    assert_eq!(pinned_host_reg(REG_SP), Some(HostReg::R15));
    // NZCV is pinned to Rbp
    assert_eq!(pinned_host_reg(REG_NZCV), Some(HostReg::Rbp));
}

#[test]
fn caller_saved_pinned_detection() {
    // X0–X3 are pinned to r8–r11 (caller-saved)
    assert!(is_caller_saved_pinned(REG_X0));
    assert!(is_caller_saved_pinned(REG_X0 + 1));
    assert!(is_caller_saved_pinned(REG_X0 + 2));
    assert!(is_caller_saved_pinned(REG_X0 + 3));
    // X4 is pinned to rbx (callee-saved) — NOT caller-saved pinned
    assert!(!is_caller_saved_pinned(REG_X0 + 4));
    // X5 not pinned
    assert!(!is_caller_saved_pinned(REG_X0 + 5));
}

// ── Further scenarios ───────────────────────────────────────────────────────

#[test]
fn full_binding_and_spilled_slots() {
    assert_eq!(pinned_host_reg(REG_X0 + 4), Some(HostReg::Rbx));
    assert_eq!(pinned_host_reg(REG_X0 + 19), Some(HostReg::R12));
    assert_eq!(pinned_host_reg(REG_X0 + 20), Some(HostReg::R13));
    assert_eq!(pinned_host_reg(REG_X30), Some(HostReg::R14));
    assert_eq!(pinned_host_reg(REG_PC), None);
    assert_eq!(pinned_host_reg(REG_XZR), None);
    assert!(is_pinned(REG_SP));
    assert!(!is_pinned(REG_X0 + 21));
    assert!(!is_caller_saved_pinned(REG_SP));
    assert!(!is_caller_saved_pinned(REG_NZCV));
}

#[test]
fn vector_register_halves() {
    assert_eq!(vreg_offset_lo(0), (REG_V_BASE * 8) as i32);
    assert_eq!(vreg_offset_hi(0), (REG_V_BASE * 8 + 8) as i32);
    assert_eq!(vreg_offset_lo(31), 384 + 31 * 16);
    assert_eq!(vreg_offset_hi(31), 384 + 31 * 16 + 8);
    assert_eq!(REG_COUNT, REG_V_BASE + 64);
}

#[test]
fn vector_registers_round_trip_through_halves() {
    let mut a64 = Aarch64RegState::default();
    a64.v[3] = (0x1122_3344_5566_7788u128 << 64) | 0x99AA_BBCC_DDEE_FF00u128;
    let mut flat = arch_to_flat(&a64);
    assert_eq!(flat[REG_V_BASE + 6], 0x99AA_BBCC_DDEE_FF00);
    assert_eq!(flat[REG_V_BASE + 7], 0x1122_3344_5566_7788);
    let mut back = Aarch64RegState::default();
    flat_to_arch(&mut flat, &mut back);
    assert_eq!(back.v[3], a64.v[3]);
}

#[test]
fn xzr_written_by_jit_is_rezeroed() {
    let a64 = Aarch64RegState::default();
    let mut flat = arch_to_flat(&a64);
    flat[REG_XZR] = 0x55;
    let mut back = Aarch64RegState::default();
    flat_to_arch(&mut flat, &mut back);
    assert_eq!(flat[REG_XZR], 0);
}

#[test]
fn banked_sp_at_el2_and_el0() {
    let mut a64 = Aarch64RegState::default();
    a64.current_el = 2;
    a64.spsel = true;
    a64.sp_el2 = 0xE2;
    a64.sp = 0xE0;
    assert_eq!(a64.current_sp(), 0xE2);
    assert_eq!(arch_to_flat(&a64)[REG_SP], 0xE2);
    a64.spsel = false;
    assert_eq!(a64.current_sp(), 0xE0);
    assert_eq!(arch_to_flat(&a64)[REG_SP], 0xE0);
}

#[test]
fn rv64_flat_to_arch_rezeroes_x0() {
    let iregs = [7u64; 32];
    let mut flat = arch_to_flat_rv64(&iregs, 0x10);
    assert_eq!(flat[0], 0);
    flat[0] = 9;
    let mut out = [1u64; 32];
    let mut pc = 0;
    flat_to_arch_rv64(&mut flat, &mut out, &mut pc);
    assert_eq!(out[0], 0);
    assert_eq!(flat[0], 0);
    assert_eq!(out[31], 7);
    assert_eq!(pc, 0x10);
}
