//! Decisions behind the helper functions that JIT-compiled code calls: the
//! SE-mode inline TLB, system-instruction execution (TLB maintenance, address
//! translation) and SPSel writes.
//!
//! The SE-mode TLB is direct-mapped with 256 entries indexed by
//! `(guest_addr >> 12) & 0xFF`; compiled blocks probe it inline and call a
//! fill helper on a miss.

use crate::regs::Aarch64RegState;
use vstd::prelude::*;

verus! {

/// Number of entries of the SE-mode inline TLB.
pub const SE_TLB_ENTRIES: usize = 256;
/// Tag of an invalid TLB entry.
pub const SE_TLB_INVALID_TAG: u64 = u64::MAX;

/// One SE-mode JIT TLB entry (16 bytes).
#[derive(Clone, Copy)]
pub struct JitSeTlbEntry {
    /// Guest virtual page number (`guest_addr >> 12`); `u64::MAX` = invalid.
    pub va_tag: u64,
    /// Host address of the start of the corresponding 4 KiB page.
    pub host_ptr: u64,
}

/// 256-entry direct-mapped TLB for SE-mode JIT memory accesses.
pub struct JitSeTlb {
    pub entries: Box<[JitSeTlbEntry; SE_TLB_ENTRIES]>,
}

/// The TLB slot of a guest address.
pub open spec fn se_tlb_index(addr: u64) -> int {
    ((addr >> 12u64) & 0xFFu64) as int
}

/// The guest page number of a guest address.
pub open spec fn se_tlb_tag(addr: u64) -> u64 {
    addr >> 12u64
}

impl JitSeTlb {
    /// The TLB entries.
    pub open spec fn view_entries(&self) -> Seq<JitSeTlbEntry> {
        (*self.entries)@
    }

    /// Create a TLB with every entry invalid.
    pub fn new() -> (t: Self)
        ensures
            t.view_entries().len() == SE_TLB_ENTRIES,
            forall|i: int|
                0 <= i < SE_TLB_ENTRIES ==> (#[trigger] t.view_entries()[i]).va_tag
                    == SE_TLB_INVALID_TAG && t.view_entries()[i].host_ptr == 0,
    {
        let entries = Box::new([JitSeTlbEntry { va_tag: SE_TLB_INVALID_TAG, host_ptr: 0 }; SE_TLB_ENTRIES]);
        JitSeTlb { entries }
    }

    /// Record that the guest page of `addr` lives at host address `host`
    /// (done on a miss, before the access is performed through the slow path).
    pub fn fill(&mut self, addr: u64, host: u64)
        requires
            old(self).view_entries().len() == SE_TLB_ENTRIES,
        ensures
            final(self).view_entries() == old(self).view_entries().update(
                se_tlb_index(addr),
                JitSeTlbEntry { va_tag: se_tlb_tag(addr), host_ptr: host },
            ),
    {
        let idx = ((addr >> 12u64) & 0xFFu64) as usize;
        assert(((addr >> 12u64) & 0xFFu64) < 256) by (bit_vector);
        self.entries[idx] = JitSeTlbEntry { va_tag: addr >> 12u64, host_ptr: host };
    }

    /// Invalidate every entry (e.g. after `brk`/`mmap` changed the layout).
    pub fn flush(&mut self)
        ensures
            final(self).view_entries().len() == SE_TLB_ENTRIES,
            forall|i: int|
                0 <= i < SE_TLB_ENTRIES ==> (#[trigger] final(self).view_entries()[i]).va_tag
                    == SE_TLB_INVALID_TAG && final(self).view_entries()[i].host_ptr == old(
                    self,
                ).view_entries()[i].host_ptr,
    {
        let mut i: usize = 0;
        while i < SE_TLB_ENTRIES
            invariant
                0 <= i <= SE_TLB_ENTRIES,
                self.view_entries().len() == SE_TLB_ENTRIES,
                old(self).view_entries().len() == SE_TLB_ENTRIES,
                forall|j: int|
                    0 <= j < i ==> (#[trigger] self.view_entries()[j]).va_tag == SE_TLB_INVALID_TAG,
                forall|j: int|
                    0 <= j < SE_TLB_ENTRIES ==> (#[trigger] self.view_entries()[j]).host_ptr == old(
                        self,
                    ).view_entries()[j].host_ptr,
                forall|j: int| i <= j < SE_TLB_ENTRIES ==> #[trigger] self.view_entries()[j] == old(self).view_entries()[j],
            decreases SE_TLB_ENTRIES - i,
        {
            let host_ptr = self.entries[i].host_ptr;
            self.entries[i] = JitSeTlbEntry { va_tag: SE_TLB_INVALID_TAG, host_ptr };
            i += 1;
        }
    }
}


/// The TLB entry for `addr` hits when its tag is the page of `addr`.
pub open spec fn se_tlb_hit(entries: Seq<JitSeTlbEntry>, addr: u64) -> bool {
    entries[se_tlb_index(addr)].va_tag == se_tlb_tag(addr)
}

/// No guest page number equals the invalid tag, so an invalidated entry
/// never hits.
pub proof fn lemma_invalid_tag_never_hits(addr: u64)
    ensures
        se_tlb_tag(addr) != SE_TLB_INVALID_TAG,
        0 <= se_tlb_index(addr) < SE_TLB_ENTRIES,
{
    assert(addr >> 12u64 != 0xFFFF_FFFF_FFFF_FFFFu64) by (bit_vector);
    assert((addr >> 12u64) & 0xFFu64 < 256) by (bit_vector);
}

/// After a fill for `addr`, the TLB hits for every address of the same page
/// and yields the recorded host page.
pub proof fn lemma_fill_then_hit(entries: Seq<JitSeTlbEntry>, addr: u64, host: u64, other: u64)
    requires
        entries.len() == SE_TLB_ENTRIES,
        se_tlb_tag(other) == se_tlb_tag(addr),
    ensures
        se_tlb_hit(
            entries.update(se_tlb_index(addr), JitSeTlbEntry { va_tag: se_tlb_tag(addr), host_ptr: host }),
            other,
        ),
        entries.update(
            se_tlb_index(addr),
            JitSeTlbEntry { va_tag: se_tlb_tag(addr), host_ptr: host },
        )[se_tlb_index(other)].host_ptr == host,
{
    lemma_invalid_tag_never_hits(addr);
    assert((other >> 12u64) == (addr >> 12u64) ==> (other >> 12u64) & 0xFFu64 == (addr >> 12u64) & 0xFFu64)
        by (bit_vector);
}

/// After a flush, no address hits.
pub proof fn lemma_flushed_never_hits(entries: Seq<JitSeTlbEntry>, addr: u64)
    requires
        entries.len() == SE_TLB_ENTRIES,
        forall|i: int| 0 <= i < SE_TLB_ENTRIES ==> (#[trigger] entries[i]).va_tag == SE_TLB_INVALID_TAG,
    ensures
        !se_tlb_hit(entries, addr),
{
    lemma_invalid_tag_never_hits(addr);
}

/// Fields of a SYS instruction encoding: (op0, op1, CRn, CRm, op2).
pub open spec fn sys_op0(raw: u32) -> u32 {
    (raw >> 19u32) & 0x3
}

pub open spec fn sys_op1(raw: u32) -> u32 {
    (raw >> 16u32) & 0x7
}

pub open spec fn sys_crn(raw: u32) -> u32 {
    (raw >> 12u32) & 0xF
}

pub open spec fn sys_crm(raw: u32) -> u32 {
    (raw >> 8u32) & 0xF
}

pub open spec fn sys_op2(raw: u32) -> u32 {
    (raw >> 5u32) & 0x7
}

/// TLBI forms that invalidate by virtual address (VAE1, VALE1, VAAE1,
/// VAALE1 and their inner-shareable, EL2 and EL3 variants).
pub open spec fn tlbi_by_va(op1: u32, crm: u32, op2: u32) -> bool {
    ||| op1 == 0 && (crm == 3 || crm == 7) && (op2 == 1 || op2 == 5 || op2 == 3 || op2 == 7)
    ||| (op1 == 4 || op1 == 6) && (crm == 3 || crm == 7) && (op2 == 1 || op2 == 5)
}

/// TLBI forms that invalidate by ASID (ASIDE1, ASIDE1IS).
pub open spec fn tlbi_by_asid(op1: u32, crm: u32, op2: u32) -> bool {
    op1 == 0 && (crm == 3 || crm == 7) && op2 == 2
}

/// The page address a VA-form TLBI targets: Xt[43:0] are VA[55:12];
/// bit 55 is sign-extended into the top byte.
pub open spec fn tlbi_va(xt: u64) -> u64 {
    let raw_va = xt << 12u64;
    if raw_va & (1u64 << 55u64) != 0 {
        raw_va | 0xFF00_0000_0000_0000
    } else {
        raw_va
    }
}

/// The ASID an ASID-form TLBI targets: Xt[63:48], 16 bits when TCR_EL1.AS is
/// set, 8 bits otherwise.
pub open spec fn tlbi_asid(xt: u64, tcr_el1: u64) -> u16 {
    let mask: u16 = if (tcr_el1 >> 36u64) & 1 != 0 {
        0xFFFF
    } else {
        0x00FF
    };
    ((xt >> 48u64) as u16) & mask
}

/// A VA-form TLBI targets a page-aligned, canonical address: the low 12 bits
/// are clear and the top byte repeats bit 55 (when Xt carries only the VA
/// field, bits 43..0).
pub proof fn lemma_tlbi_va_canonical(xt: u64)
    requires
        xt >> 44u64 == 0,
    ensures
        tlbi_va(xt) & 0xFFF == 0,
        (tlbi_va(xt) & (1u64 << 55u64) != 0) ==> tlbi_va(xt) >> 56u64 == 0xFF,
        (tlbi_va(xt) & (1u64 << 55u64) == 0) ==> tlbi_va(xt) >> 56u64 == 0,
{
    let raw_va = xt << 12u64;
    assert(raw_va & 0xFFF == 0) by (bit_vector)
        requires
            raw_va == xt << 12u64,
    ;
    assert((raw_va | 0xFF00_0000_0000_0000u64) & 0xFFF == 0) by (bit_vector)
        requires
            raw_va & 0xFFF == 0,
    ;
    assert((raw_va | 0xFF00_0000_0000_0000u64) >> 56u64 == 0xFF) by (bit_vector);
    assert(raw_va & (1u64 << 55u64) != 0 ==> (raw_va | 0xFF00_0000_0000_0000u64) & (1u64 << 55u64) != 0)
        by (bit_vector);
    assert(raw_va & (1u64 << 55u64) == 0 ==> raw_va >> 56u64 == 0) by (bit_vector)
        requires
            raw_va == xt << 12u64,
            xt >> 44u64 == 0,
    ;
}

/// The effect of executing a SYS instruction on the architectural state:
/// TLBI raises a broadcast flush request (restricted to a VA or an ASID for
/// those forms); AT S1E1R/W and S1E0R/W translate by identity into PAR_EL1;
/// cache maintenance and other SYS operations change nothing.
pub open spec fn sys_exec_spec(a: Aarch64RegState, raw: u32, xt: u64) -> Aarch64RegState {
    let op0 = sys_op0(raw);
    let op1 = sys_op1(raw);
    let crn = sys_crn(raw);
    let crm = sys_crm(raw);
    let op2 = sys_op2(raw);
    if op0 == 1 && crn == 8 {
        Aarch64RegState {
            tlb_flush_pending: true,
            tlb_flush_broadcast: true,
            tlb_flush_asid: if tlbi_by_asid(op1, crm, op2) {
                Some(tlbi_asid(xt, a.tcr_el1))
            } else {
                None
            },
            tlb_flush_va: if tlbi_by_va(op1, crm, op2) {
                Some(tlbi_va(xt))
            } else {
                None
            },
            ..a
        }
    } else if crn == 7 && crm == 8 && op0 <= 1 {
        let rt = raw & 0x1F;
        let va = if rt == 31 {
            0
        } else {
            a.x@[rt as int]
        };
        Aarch64RegState { par_el1: va & 0x0000_FFFF_FFFF_F000, ..a }
    } else {
        a
    }
}

/// Execute a SYS instruction (TLBI, AT, IC, DC, barriers, hints) on behalf
/// of JIT-compiled code. `xt_value` is the value of the instruction's Xt.
pub fn sys_exec(a: &mut Aarch64RegState, raw: u32, xt_value: u64)
    ensures
        *final(a) == sys_exec_spec(*old(a), raw, xt_value),
{
    let op0 = (raw >> 19u32) & 0x3;
    let op1 = (raw >> 16u32) & 0x7;
    let crn = (raw >> 12u32) & 0xF;
    let crm = (raw >> 8u32) & 0xF;
    let op2 = (raw >> 5u32) & 0x7;

    if op0 == 0b01 && crn == 0b1000 {
        a.tlb_flush_pending = true;
        a.tlb_flush_broadcast = true;
        a.tlb_flush_asid = None;
        let by_va = (op1 == 0 && (crm == 3 || crm == 7) && (op2 == 1 || op2 == 5 || op2 == 3 || op2
            == 7)) || ((op1 == 4 || op1 == 6) && (crm == 3 || crm == 7) && (op2 == 1 || op2 == 5));
        let by_asid = op1 == 0 && (crm == 3 || crm == 7) && op2 == 2;
        if by_va {
            let raw_va = xt_value << 12u64;
            a.tlb_flush_va = Some(
                if raw_va & (1u64 << 55u64) != 0 {
                    raw_va | 0xFF00_0000_0000_0000
                } else {
                    raw_va
                },
            );
        } else if by_asid {
            let asid_mask: u16 = if (a.tcr_el1 >> 36u64) & 1 != 0 {
                0xFFFF
            } else {
                0x00FF
            };
            a.tlb_flush_asid = Some(((xt_value >> 48u64) as u16) & asid_mask);
            a.tlb_flush_va = None;
        } else {
            a.tlb_flush_va = None;
        }
        return;
    }
    if crn == 0b0111 && crm == 0b1000 && op0 <= 0b01 {
        let rt = raw & 0x1F;
        assert(raw & 0x1F < 32) by (bit_vector);
        let va = a.read_x(rt);
        a.par_el1 = va & 0x0000_FFFF_FFFF_F000;
        return;
    }
}

/// Write the SPSel field: any non-zero value selects the banked SP_ELx.
pub fn spsel_write(a: &mut Aarch64RegState, value: u32)
    ensures
        *final(a) == (Aarch64RegState { spsel: value != 0, ..*old(a) }),
{
    a.spsel = value != 0;
}

} // verus!
