use helm_jit::helpers::{spsel_write, sys_exec, JitSeTlb, SE_TLB_ENTRIES, SE_TLB_INVALID_TAG};
use helm_jit::regs::Aarch64RegState;

/// Encode `SYS #op1, Cn, Cm, #op2, Xt` (op0 = 1).
fn sys(op1: u32, crn: u32, crm: u32, op2: u32, rt: u32) -> u32 {
    0xD508_0000 | (op1 << 16) | (crn << 12) | (crm << 8) | (op2 << 5) | rt
}

#[test]
fn se_tlb_starts_invalid_and_fills_by_page() {
    let mut tlb = JitSeTlb::new();
    assert_eq!(tlb.entries.len(), SE_TLB_ENTRIES);
    assert!(tlb.entries.iter().all(|e| e.va_tag == SE_TLB_INVALID_TAG && e.host_ptr == 0));
    tlb.fill(0x4000_1234, 0x7F00_0000);
    let e = tlb.entries[1];
    assert_eq!(e.va_tag, 0x4000_1);
    assert_eq!(e.host_ptr, 0x7F00_0000);
    // Pages 256 apart share a slot: the later fill replaces the earlier one.
    tlb.fill(0x4010_1000, 0x7F10_0000);
    assert_eq!(tlb.entries[1].va_tag, 0x4010_1);
}

#[test]
fn se_tlb_flush_invalidates_every_entry() {
    let mut tlb = JitSeTlb::new();
    tlb.fill(0x1000, 0xAA000);
    tlb.fill(0xFF000, 0xBB000);
    tlb.flush();
    assert!(tlb.entries.iter().all(|e| e.va_tag == SE_TLB_INVALID_TAG));
    // Host pointers are left as they were.
    assert_eq!(tlb.entries[1].host_ptr, 0xAA000);
    assert_eq!(tlb.entries[0xFF].host_ptr, 0xBB000);
}

#[test]
fn tlbi_vae1_requests_flush_of_canonical_va() {
    let mut a = Aarch64RegState::default();
    // TLBI VAE1, Xt: op1=0, CRn=8, CRm=7, op2=1
    sys_exec(&mut a, sys(0, 8, 7, 1, 3), 0x0000_0000_0004_0000);
    assert!(a.tlb_flush_pending);
    assert!(a.tlb_flush_broadcast);
    assert_eq!(a.tlb_flush_va, Some(0x4000_0000));
    assert_eq!(a.tlb_flush_asid, None);
    // A VA with bit 55 set is sign-extended into the top byte.
    sys_exec(&mut a, sys(0, 8, 7, 1, 3), 0x0000_0800_0000_0001);
    assert_eq!(a.tlb_flush_va, Some(0xFF80_0000_0000_1000));
}

#[test]
fn tlbi_aside1_uses_asid_width_from_tcr() {
    let mut a = Aarch64RegState::default();
    // TLBI ASIDE1, Xt: op1=0, CRn=8, CRm=7, op2=2
    sys_exec(&mut a, sys(0, 8, 7, 2, 1), 0xABCD_0000_0000_0000);
    assert_eq!(a.tlb_flush_asid, Some(0x00CD));
    assert_eq!(a.tlb_flush_va, None);
    a.tcr_el1 = 1 << 36;
    sys_exec(&mut a, sys(0, 8, 7, 2, 1), 0xABCD_0000_0000_0000);
    assert_eq!(a.tlb_flush_asid, Some(0xABCD));
    // TLBI VMALLE1: op1=0, CRm=7, op2=0 — a full flush.
    sys_exec(&mut a, sys(0, 8, 7, 0, 31), 0);
    assert_eq!(a.tlb_flush_asid, None);
    assert_eq!(a.tlb_flush_va, None);
}

#[test]
fn at_s1e1r_translates_by_identity_into_par() {
    let mut a = Aarch64RegState::default();
    a.x[2] = 0xFFFF_1234_5678_9ABC;
    // AT S1E1R, X2: op1=0, CRn=7, CRm=8, op2=0
    sys_exec(&mut a, sys(0, 7, 8, 0, 2), 0);
    assert_eq!(a.par_el1, 0x0000_1234_5678_9000);
    assert!(!a.tlb_flush_pending);
}

#[test]
fn other_sys_operations_change_nothing() {
    let mut a = Aarch64RegState::default();
    a.x[0] = 5;
    // DC CIVAC: op1=3, CRn=7, CRm=14, op2=1
    sys_exec(&mut a, sys(3, 7, 14, 1, 0), 0x1234);
    assert!(!a.tlb_flush_pending);
    assert_eq!(a.par_el1, 0);
    assert_eq!(a.x[0], 5);
}

#[test]
fn spsel_write_selects_banked_sp() {
    let mut a = Aarch64RegState::default();
    a.current_el = 1;
    a.sp = 1;
    a.sp_el1 = 2;
    spsel_write(&mut a, 5);
    assert!(a.spsel);
    assert_eq!(a.current_sp(), 2);
    spsel_write(&mut a, 0);
    assert!(!a.spsel);
    assert_eq!(a.current_sp(), 1);
}
