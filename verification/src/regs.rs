//! Flat register array layout for JIT code and architectural-state
//! synchronisation.
//!
//! JIT-compiled code accesses guest registers through a flat
//! `[u64; REG_COUNT]` array. Each slot is at byte offset `slot * 8`.
//!
//! | Slot   | Content                                           |
//! |--------|---------------------------------------------------|
//! | 0–30   | X0–X30                                            |
//! | 31     | SP                                                |
//! | 32     | PC                                                |
//! | 33     | NZCV (packed u32 in low bits)                     |
//! | 34     | XZR sentinel (always 0, re-zeroed after writes)   |
//! | 35–47  | DAIF, CurrentEL, SPSel, helper slots, lazy flags  |
//! | 48–111 | V0–V31, two 64-bit halves each                    |

use vstd::prelude::*;

verus! {

pub const REG_X0: usize = 0;
pub const REG_X30: usize = 30;
pub const REG_SP: usize = 31;
pub const REG_PC: usize = 32;
pub const REG_NZCV: usize = 33;
pub const REG_XZR: usize = 34;
pub const REG_DAIF: usize = 35;
pub const REG_CURRENT_EL: usize = 36;
pub const REG_SPSEL: usize = 37;
/// Slot holding the address of the architectural state (system register helpers).
pub const REG_JIT_ARCH_STATE: usize = 39;
/// Slot in which exit paths record how many guest instructions retired.
pub const REG_JIT_RETIRED: usize = 40;
/// Slot for the deferred flag operation code.
pub const REG_FLAG_OP: usize = 41;
/// Slot for the left-hand operand of the deferred flag operation.
pub const REG_FLAG_LHS: usize = 42;
/// Slot for the right-hand operand of the deferred flag operation.
pub const REG_FLAG_RHS: usize = 43;
/// Slot for the SE-mode inline TLB base address.
pub const REG_JIT_SE_TLB: usize = 44;
/// Scratch slot used to preserve pinned guest registers across inline fast paths.
pub const REG_JIT_TMP0: usize = 45;
/// Slot for the memory-read helper address (stencil backend).
pub const REG_JIT_MEM_READ: usize = 46;
/// Slot for the memory-write helper address (stencil backend).
pub const REG_JIT_MEM_WRITE: usize = 47;
/// Base slot for V0. Each Vn occupies two slots: low half, then high half.
pub const REG_V_BASE: usize = 48;
/// Total number of 64-bit slots in the flat array (48 GPR/system + 64 SIMD).
pub const REG_COUNT: usize = 112;

/// Total number of 64-bit slots in the RISC-V flat array.
pub const REG_COUNT_RV64: usize = 40;
/// PC slot index in the RISC-V flat array.
pub const REG_PC_RV64: usize = 32;

/// Byte offset of Vn's low 64-bit half in the flat array.
pub fn vreg_offset_lo(vn: usize) -> (r: i32)
    requires
        (REG_V_BASE + vn * 2) * 8 <= usize::MAX,
    ensures
        r == ((REG_V_BASE + vn * 2) * 8) as i32,
        (REG_V_BASE + vn * 2) * 8 <= i32::MAX ==> r == (REG_V_BASE + vn * 2) * 8,
{
    ((REG_V_BASE + vn * 2) * 8) as i32
}

/// Byte offset of Vn's high 64-bit half in the flat array.
pub fn vreg_offset_hi(vn: usize) -> (r: i32)
    requires
        (REG_V_BASE + vn * 2 + 1) * 8 <= usize::MAX,
    ensures
        r == ((REG_V_BASE + vn * 2 + 1) * 8) as i32,
        (REG_V_BASE + vn * 2 + 1) * 8 <= i32::MAX ==> r == (REG_V_BASE + vn * 2 + 1) * 8,
{
    ((REG_V_BASE + vn * 2 + 1) * 8) as i32
}

/// Byte offset of a register slot (for `[rdi + off]` operands).
pub fn reg_offset(slot: usize) -> (r: i32)
    requires
        slot * 8 <= usize::MAX,
    ensures
        r == (slot * 8) as i32,
        slot * 8 <= i32::MAX ==> r == slot * 8,
{
    (slot * 8) as i32
}


// ── Register pinning ────────────────────────────────────────────────────────
//
// Ten hot guest registers live in host registers for the whole lifetime of a
// compiled block: r8–r11 are caller-saved (the block must save them around C
// helper calls), the rest are callee-saved.

/// An x86-64 host register used to pin a guest register for the block lifetime.
#[derive(Clone, Copy, Debug, PartialEq, Eq, Structural)]
pub enum HostReg {
    R8,
    R9,
    R10,
    R11,
    R12,
    R13,
    R14,
    R15,
    Rbx,
    Rbp,
}

/// The default binding of guest slots to host registers, as a mathematical map
/// from slot to host register (slots absent from it are spilled).
pub open spec fn pinned_reg_of(slot: int) -> Option<HostReg> {
    if slot == REG_X0 {
        Some(HostReg::R8)
    } else if slot == REG_X0 + 1 {
        Some(HostReg::R9)
    } else if slot == REG_X0 + 2 {
        Some(HostReg::R10)
    } else if slot == REG_X0 + 3 {
        Some(HostReg::R11)
    } else if slot == REG_X0 + 4 {
        Some(HostReg::Rbx)
    } else if slot == REG_X0 + 19 {
        Some(HostReg::R12)
    } else if slot == REG_X0 + 20 {
        Some(HostReg::R13)
    } else if slot == REG_X0 + 30 {
        Some(HostReg::R14)
    } else if slot == REG_SP {
        Some(HostReg::R15)
    } else if slot == REG_NZCV {
        Some(HostReg::Rbp)
    } else {
        None
    }
}

/// The binding as the table the prologue/epilogue walk, in table order.
pub open spec fn binding_table() -> Seq<(usize, HostReg)> {
    seq![
        (0usize, HostReg::R8),
        (1usize, HostReg::R9),
        (2usize, HostReg::R10),
        (3usize, HostReg::R11),
        (4usize, HostReg::Rbx),
        (19usize, HostReg::R12),
        (20usize, HostReg::R13),
        (30usize, HostReg::R14),
        (REG_SP, HostReg::R15),
        (REG_NZCV, HostReg::Rbp),
    ]
}

/// Static default binding: 10 guest register slots pinned to host registers.
///
/// On entry to a compiled block the prologue loads these from `[rdi + slot*8]`;
/// on exit the epilogue writes them back.
pub fn default_binding() -> (b: [(usize, HostReg); 10])
    ensures
        b@ == binding_table(),
{
    let b = [
        (REG_X0, HostReg::R8),
        (REG_X0 + 1, HostReg::R9),
        (REG_X0 + 2, HostReg::R10),
        (REG_X0 + 3, HostReg::R11),
        (REG_X0 + 4, HostReg::Rbx),
        (REG_X0 + 19, HostReg::R12),
        (REG_X0 + 20, HostReg::R13),
        (REG_X0 + 30, HostReg::R14),
        (REG_SP, HostReg::R15),
        (REG_NZCV, HostReg::Rbp),
    ];
    assert(b@ =~= binding_table());
    b
}

/// Look up which host register holds a given guest slot.
///
/// Returns `None` if the slot is spilled (lives in `[rdi + slot*8]`).
pub fn pinned_host_reg(slot: usize) -> (r: Option<HostReg>)
    ensures
        r == pinned_reg_of(slot as int),
{
    let binding = default_binding();
    let mut i: usize = 0;
    while i < 10
        invariant
            0 <= i <= 10,
            binding@ == binding_table(),
            forall|j: int| 0 <= j < i ==> (#[trigger] binding@[j]).0 != slot,
        decreases 10 - i,
    {
        if binding[i].0 == slot {
            return Some(binding[i].1);
        }
        i += 1;
    }
    proof {
        assert(binding@[0].0 != slot);
        assert(binding@[1].0 != slot);
        assert(binding@[2].0 != slot);
        assert(binding@[3].0 != slot);
        assert(binding@[4].0 != slot);
        assert(binding@[5].0 != slot);
        assert(binding@[6].0 != slot);
        assert(binding@[7].0 != slot);
        assert(binding@[8].0 != slot);
        assert(binding@[9].0 != slot);
    }
    None
}

/// Returns true if the given guest slot is pinned in a host register.
pub fn is_pinned(slot: usize) -> (r: bool)
    ensures
        r == (pinned_reg_of(slot as int) is Some),
{
    pinned_host_reg(slot).is_some()
}

// ── Lazy NZCV ───────────────────────────────────────────────────────────────

/// Which arithmetic/logical operation produced the flags to be deferred.
///
/// The emitter stores this (by its discriminant, in declaration order starting
/// at 0) in `REG_FLAG_OP` beside the raw operands, so that NZCV can be
/// reconstructed only when a branch reads it.
#[derive(Clone, Copy, Debug, PartialEq, Eq, Structural)]
pub enum FlagOp {
    /// No pending deferred flags (NZCV is already up to date).
    NoFlags,
    /// 64-bit addition: ADDS/CMN.
    Add64,
    /// 64-bit subtraction: SUBS/CMP.
    Sub64,
    /// 64-bit logical AND: ANDS/TST.
    And64,
    /// 32-bit addition.
    Add32,
    /// 32-bit subtraction.
    Sub32,
    /// 32-bit logical AND.
    And32,
}


// ── Architectural state ─────────────────────────────────────────────────────

/// The AArch64 architectural state that the JIT reads and writes back: the
/// general-purpose and SIMD register files, the banked stack pointers, flags,
/// exception-level controls and the TLB-maintenance requests raised by SYS.
pub struct Aarch64RegState {
    /// X0–X30.
    pub x: [u64; 31],
    /// SP_EL0 (also the stack pointer whenever SPSel selects EL0's).
    pub sp: u64,
    pub sp_el1: u64,
    pub sp_el2: u64,
    pub sp_el3: u64,
    pub pc: u64,
    /// NZCV flags in bits 31..28.
    pub nzcv: u32,
    pub daif: u32,
    pub current_el: u8,
    /// SPSel: when set at EL1 or above, the banked SP_ELx is in use.
    pub spsel: bool,
    /// V0–V31.
    pub v: [u128; 32],
    pub tcr_el1: u64,
    pub par_el1: u64,
    /// A TLB flush was requested by a TLBI instruction.
    pub tlb_flush_pending: bool,
    pub tlb_flush_broadcast: bool,
    /// ASID restriction of the requested flush, if any.
    pub tlb_flush_asid: Option<u16>,
    /// Virtual-address restriction of the requested flush, if any.
    pub tlb_flush_va: Option<u64>,
}

impl Aarch64RegState {
    /// Which stack pointer is architecturally visible: 0 for SP_EL0, or the
    /// current exception level when SPSel selects the banked SP_ELx.
    pub open spec fn sp_bank(self) -> int {
        if self.current_el >= 1 && self.spsel && self.current_el <= 3 {
            self.current_el as int
        } else {
            0
        }
    }

    pub open spec fn current_sp_spec(self) -> u64 {
        if self.sp_bank() == 1 {
            self.sp_el1
        } else if self.sp_bank() == 2 {
            self.sp_el2
        } else if self.sp_bank() == 3 {
            self.sp_el3
        } else {
            self.sp
        }
    }

    /// A state with every register and control field zero / clear.
    pub open spec fn is_reset(self) -> bool {
        &&& forall|i: int| 0 <= i < 31 ==> self.x@[i] == 0
        &&& forall|i: int| 0 <= i < 32 ==> self.v@[i] == 0
        &&& self.sp == 0 && self.sp_el1 == 0 && self.sp_el2 == 0 && self.sp_el3 == 0
        &&& self.pc == 0 && self.nzcv == 0 && self.daif == 0 && self.current_el == 0
        &&& !self.spsel
        &&& self.tcr_el1 == 0 && self.par_el1 == 0
        &&& !self.tlb_flush_pending && !self.tlb_flush_broadcast
        &&& self.tlb_flush_asid is None && self.tlb_flush_va is None
    }

    /// Create a state with all registers zero, at EL0.
    pub fn new() -> (s: Self)
        ensures
            s.is_reset(),
    {
        Aarch64RegState {
            x: [0u64; 31],
            sp: 0,
            sp_el1: 0,
            sp_el2: 0,
            sp_el3: 0,
            pc: 0,
            nzcv: 0,
            daif: 0,
            current_el: 0,
            spsel: false,
            v: [0u128; 32],
            tcr_el1: 0,
            par_el1: 0,
            tlb_flush_pending: false,
            tlb_flush_broadcast: false,
            tlb_flush_asid: None,
            tlb_flush_va: None,
        }
    }

    /// The architecturally visible stack pointer (banked by SPSel and EL).
    pub fn current_sp(&self) -> (r: u64)
        ensures
            r == self.current_sp_spec(),
    {
        if self.current_el >= 1 && self.spsel {
            match self.current_el {
                1 => self.sp_el1,
                2 => self.sp_el2,
                3 => self.sp_el3,
                _ => self.sp,
            }
        } else {
            self.sp
        }
    }

    /// Read general-purpose register `n`; register 31 reads as zero (XZR).
    pub fn read_x(&self, n: u32) -> (r: u64)
        requires
            n < 32,
        ensures
            r == (if n == 31 { 0 } else { self.x@[n as int] }),
    {
        if n == 31 {
            0
        } else {
            self.x[n as usize]
        }
    }
}

impl Default for Aarch64RegState {
    fn default() -> (s: Self)
        ensures
            s.is_reset(),
    {
        Self::new()
    }
}

/// `u64::from(b)` for a boolean.
pub open spec fn bool_word(b: bool) -> u64 {
    if b {
        1
    } else {
        0
    }
}

/// Low 64-bit half of a 128-bit SIMD register.
pub open spec fn v_lo(v: u128) -> u64 {
    v as u64
}

/// High 64-bit half of a 128-bit SIMD register.
pub open spec fn v_hi(v: u128) -> u64 {
    (v >> 64u128) as u64
}

/// A 128-bit SIMD register rebuilt from its two flat-array halves.
pub open spec fn v_join(lo: u64, hi: u64) -> u128 {
    (lo as u128) | ((hi as u128) << 64u128)
}

/// The system/control slots (SP, PC, XZR, DAIF, CurrentEL, SPSel) of a flat
/// array hold the values copied from `a`.
pub open spec fn control_slots_match(flat: Seq<u64>, a: Aarch64RegState) -> bool {
    &&& flat[REG_SP as int] == a.current_sp_spec()
    &&& flat[REG_PC as int] == a.pc
    &&& flat[REG_XZR as int] == 0
    &&& flat[REG_DAIF as int] == a.daif as u64
    &&& flat[REG_CURRENT_EL as int] == a.current_el as u64
    &&& flat[REG_SPSEL as int] == bool_word(a.spsel)
}

/// `flat` is exactly the flat-array image of `a`: X0–X30, the visible SP, PC,
/// NZCV, the zero sentinel, the control slots and both halves of V0–V31; the
/// remaining helper slots are zero.
pub open spec fn is_flat_image(flat: Seq<u64>, a: Aarch64RegState) -> bool {
    &&& flat.len() == REG_COUNT
    &&& forall|i: int| 0 <= i < 31 ==> flat[i] == a.x@[i]
    &&& control_slots_match(flat, a)
    &&& flat[REG_NZCV as int] == a.nzcv as u64
    &&& forall|i: int| REG_SPSEL < i < REG_V_BASE ==> flat[i] == 0
    &&& forall|k: int|
        0 <= k < 32 ==> flat[REG_V_BASE + 2 * k] == v_lo(a.v@[k]) && flat[REG_V_BASE + 2 * k + 1]
            == v_hi(a.v@[k])
}

/// `after` is `before` with the register file written back from `flat`:
/// X0–X30, the visible (banked) SP, PC, NZCV and V0–V31 come from `flat`;
/// every other field is unchanged.
pub open spec fn is_flat_writeback(flat: Seq<u64>, before: Aarch64RegState, after: Aarch64RegState) -> bool {
    &&& forall|i: int| 0 <= i < 31 ==> after.x@[i] == flat[i]
    &&& after.sp == (if before.sp_bank() == 0 { flat[REG_SP as int] } else { before.sp })
    &&& after.sp_el1 == (if before.sp_bank() == 1 { flat[REG_SP as int] } else { before.sp_el1 })
    &&& after.sp_el2 == (if before.sp_bank() == 2 { flat[REG_SP as int] } else { before.sp_el2 })
    &&& after.sp_el3 == (if before.sp_bank() == 3 { flat[REG_SP as int] } else { before.sp_el3 })
    &&& after.pc == flat[REG_PC as int]
    &&& after.nzcv == flat[REG_NZCV as int] as u32
    &&& forall|k: int|
        0 <= k < 32 ==> after.v@[k] == v_join(flat[REG_V_BASE + 2 * k], flat[REG_V_BASE + 2 * k + 1])
    &&& after.daif == before.daif
    &&& after.current_el == before.current_el
    &&& after.spsel == before.spsel
    &&& after.tcr_el1 == before.tcr_el1
    &&& after.par_el1 == before.par_el1
    &&& after.tlb_flush_pending == before.tlb_flush_pending
    &&& after.tlb_flush_broadcast == before.tlb_flush_broadcast
    &&& after.tlb_flush_asid == before.tlb_flush_asid
    &&& after.tlb_flush_va == before.tlb_flush_va
}

/// Copy architectural state into the flat array, skipping pinned slots.
///
/// Used at JIT→interpreter boundaries when pinned registers are already live
/// in host registers (the block epilogue writes them back). SP, PC, the zero
/// sentinel and the control slots are always written; NZCV (pinned) and every
/// slot from 38 on are left as they were.
pub fn arch_to_flat_nonpinned(a64: &Aarch64RegState, flat: &mut [u64; REG_COUNT])
    ensures
        forall|i: int|
            0 <= i < 31 ==> final(flat)@[i] == (if pinned_reg_of(i) is Some {
                old(flat)@[i]
            } else {
                a64.x@[i]
            }),
        control_slots_match(final(flat)@, *a64),
        final(flat)@[REG_NZCV as int] == old(flat)@[REG_NZCV as int],
        forall|i: int| REG_SPSEL < i < REG_COUNT ==> final(flat)@[i] == old(flat)@[i],
{
    let ghost orig = flat@;
    let mut i: usize = 0;
    while i < 31
        invariant
            0 <= i <= 31,
            flat@.len() == REG_COUNT,
            forall|j: int|
                0 <= j < i ==> flat@[j] == (if pinned_reg_of(j) is Some {
                    orig[j]
                } else {
                    a64.x@[j]
                }),
            forall|j: int| i <= j < REG_COUNT ==> flat@[j] == orig[j],
        decreases 31 - i,
    {
        if !is_pinned(i) {
            flat[REG_X0 + i] = a64.x[i];
        }
        i += 1;
    }
    flat[REG_SP] = a64.current_sp();
    flat[REG_PC] = a64.pc;
    flat[REG_XZR] = 0;
    flat[REG_DAIF] = a64.daif as u64;
    flat[REG_CURRENT_EL] = a64.current_el as u64;
    flat[REG_SPSEL] = if a64.spsel { 1 } else { 0 };
}

/// Copy architectural state into a fresh flat JIT register array.
pub fn arch_to_flat(a64: &Aarch64RegState) -> (flat: [u64; REG_COUNT])
    ensures
        is_flat_image(flat@, *a64),
{
    let mut flat = [0u64; REG_COUNT];
    let mut i: usize = 0;
    while i < 31
        invariant
            0 <= i <= 31,
            flat@.len() == REG_COUNT,
            forall|j: int| 0 <= j < i ==> flat@[j] == a64.x@[j],
            forall|j: int| i <= j < REG_COUNT ==> flat@[j] == 0,
        decreases 31 - i,
    {
        flat[REG_X0 + i] = a64.x[i];
        i += 1;
    }
    flat[REG_SP] = a64.current_sp();
    flat[REG_PC] = a64.pc;
    flat[REG_NZCV] = a64.nzcv as u64;
    flat[REG_XZR] = 0;
    flat[REG_DAIF] = a64.daif as u64;
    flat[REG_CURRENT_EL] = a64.current_el as u64;
    flat[REG_SPSEL] = if a64.spsel { 1 } else { 0 };
    let mut k: usize = 0;
    while k < 32
        invariant
            0 <= k <= 32,
            flat@.len() == REG_COUNT,
            forall|j: int| 0 <= j < 31 ==> flat@[j] == a64.x@[j],
            control_slots_match(flat@, *a64),
            flat@[REG_NZCV as int] == a64.nzcv as u64,
            forall|j: int| REG_SPSEL < j < REG_V_BASE ==> flat@[j] == 0,
            forall|m: int|
                0 <= m < k ==> flat@[REG_V_BASE + 2 * m] == v_lo(a64.v@[m]) && flat@[REG_V_BASE + 2
                    * m + 1] == v_hi(a64.v@[m]),
            forall|j: int| REG_V_BASE + 2 * k <= j < REG_COUNT ==> flat@[j] == 0,
        decreases 32 - k,
    {
        let v = a64.v[k];
        flat[REG_V_BASE + k * 2] = v as u64;
        flat[REG_V_BASE + k * 2 + 1] = (v >> 64u32) as u64;
        k += 1;
    }
    flat
}

/// Write the flat JIT register array back into architectural state.
///
/// Only touches what JIT code may have modified: X0–X30, the visible SP, PC,
/// NZCV and V0–V31. The XZR sentinel is re-zeroed in the flat array.
pub fn flat_to_arch(regs: &mut [u64; REG_COUNT], a64: &mut Aarch64RegState)
    ensures
        is_flat_writeback(old(regs)@, *old(a64), *final(a64)),
        final(regs)@ == old(regs)@.update(REG_XZR as int, 0),
{
    let mut i: usize = 0;
    while i < 31
        invariant
            0 <= i <= 31,
            regs@.len() == REG_COUNT,
            forall|j: int| 0 <= j < i ==> a64.x@[j] == regs@[j],
            a64.sp == old(a64).sp,
            a64.sp_el1 == old(a64).sp_el1,
            a64.sp_el2 == old(a64).sp_el2,
            a64.sp_el3 == old(a64).sp_el3,
            a64.pc == old(a64).pc,
            a64.nzcv == old(a64).nzcv,
            a64.v == old(a64).v,
            a64.daif == old(a64).daif,
            a64.current_el == old(a64).current_el,
            a64.spsel == old(a64).spsel,
            a64.tcr_el1 == old(a64).tcr_el1,
            a64.par_el1 == old(a64).par_el1,
            a64.tlb_flush_pending == old(a64).tlb_flush_pending,
            a64.tlb_flush_broadcast == old(a64).tlb_flush_broadcast,
            a64.tlb_flush_asid == old(a64).tlb_flush_asid,
            a64.tlb_flush_va == old(a64).tlb_flush_va,
            regs@ == old(regs)@,
        decreases 31 - i,
    {
        a64.x[i] = regs[REG_X0 + i];
        i += 1;
    }
    if a64.current_el >= 1 && a64.spsel {
        match a64.current_el {
            1 => a64.sp_el1 = regs[REG_SP],
            2 => a64.sp_el2 = regs[REG_SP],
            3 => a64.sp_el3 = regs[REG_SP],
            _ => a64.sp = regs[REG_SP],
        }
    } else {
        a64.sp = regs[REG_SP];
    }
    a64.pc = regs[REG_PC];
    a64.nzcv = regs[REG_NZCV] as u32;
    regs[REG_XZR] = 0;
    let ghost mid = *a64;
    let mut k: usize = 0;
    while k < 32
        invariant
            0 <= k <= 32,
            regs@ == old(regs)@.update(REG_XZR as int, 0),
            old(regs)@.len() == REG_COUNT,
            forall|j: int| 0 <= j < 31 ==> a64.x@[j] == old(regs)@[j],
            forall|m: int|
                0 <= m < k ==> a64.v@[m] == v_join(
                    old(regs)@[REG_V_BASE + 2 * m],
                    old(regs)@[REG_V_BASE + 2 * m + 1],
                ),
            a64.sp == mid.sp,
            a64.sp_el1 == mid.sp_el1,
            a64.sp_el2 == mid.sp_el2,
            a64.sp_el3 == mid.sp_el3,
            a64.pc == mid.pc,
            a64.nzcv == mid.nzcv,
            a64.daif == mid.daif,
            a64.current_el == mid.current_el,
            a64.spsel == mid.spsel,
            a64.tcr_el1 == mid.tcr_el1,
            a64.par_el1 == mid.par_el1,
            a64.tlb_flush_pending == mid.tlb_flush_pending,
            a64.tlb_flush_broadcast == mid.tlb_flush_broadcast,
            a64.tlb_flush_asid == mid.tlb_flush_asid,
            a64.tlb_flush_va == mid.tlb_flush_va,
        decreases 32 - k,
    {
        a64.v[k] = (regs[REG_V_BASE + k * 2] as u128) | ((regs[REG_V_BASE + k * 2 + 1] as u128)
            << 64u32);
        k += 1;
    }
}


/// Splitting a SIMD register into its two flat halves and joining them again
/// gives back the register.
pub proof fn lemma_v_split_join(v: u128)
    ensures
        v_join(v_lo(v), v_hi(v)) == v,
{
    assert(((v as u64) as u128) | (((v >> 64u128) as u64) as u128) << 64u128 == v) by (bit_vector);
}

/// Round trip: writing the flat image of a state back into that state leaves
/// the state unchanged (every register, the banked SPs, flags and controls).
pub proof fn lemma_flat_round_trip(a: Aarch64RegState, flat: Seq<u64>, b: Aarch64RegState)
    requires
        is_flat_image(flat, a),
        is_flat_writeback(flat, a, b),
    ensures
        b.x@ == a.x@,
        b.v@ == a.v@,
        b.sp == a.sp && b.sp_el1 == a.sp_el1 && b.sp_el2 == a.sp_el2 && b.sp_el3 == a.sp_el3,
        b.pc == a.pc,
        b.nzcv == a.nzcv,
        b.current_sp_spec() == a.current_sp_spec(),
{
    vstd::array::array_len_matches_n(&a.x);
    vstd::array::array_len_matches_n(&b.x);
    vstd::array::array_len_matches_n(&a.v);
    vstd::array::array_len_matches_n(&b.v);
    assert forall|i: int| 0 <= i < 31 implies b.x@[i] == a.x@[i] by {
        assert(b.x@[i] == flat[i]);
    }
    assert(a.x@.len() == 31);
    assert(b.x@ =~= a.x@);
    assert forall|k: int| 0 <= k < 32 implies b.v@[k] == a.v@[k] by {
        lemma_v_split_join(a.v@[k]);
    }
    assert(b.v@ =~= a.v@);
    assert((a.nzcv as u64) as u32 == a.nzcv);
}

// ── RISC-V64 register sync ──────────────────────────────────────────────────

/// Copy RISC-V integer registers and PC into a fresh flat JIT array.
///
/// Slots 0–31 hold x0–x31 with x0 forced to zero; slot 32 holds PC; the rest
/// are zero.
pub fn arch_to_flat_rv64(iregs: &[u64; 32], pc: u64) -> (flat: [u64; REG_COUNT_RV64])
    ensures
        flat@[0] == 0,
        forall|i: int| 1 <= i < 32 ==> flat@[i] == iregs@[i],
        flat@[REG_PC_RV64 as int] == pc,
        forall|i: int| REG_PC_RV64 < i < REG_COUNT_RV64 ==> flat@[i] == 0,
{
    let mut flat = [0u64; REG_COUNT_RV64];
    let mut i: usize = 0;
    while i < 32
        invariant
            0 <= i <= 32,
            flat@.len() == REG_COUNT_RV64,
            forall|j: int| 0 <= j < i ==> flat@[j] == iregs@[j],
            forall|j: int| i <= j < REG_COUNT_RV64 ==> flat@[j] == 0,
        decreases 32 - i,
    {
        flat[i] = iregs[i];
        i += 1;
    }
    flat[REG_PC_RV64] = pc;
    flat[0] = 0;
    flat
}

/// Write the flat JIT array back into RISC-V integer registers and PC.
///
/// Writes x1–x31 and PC; x0 is re-zeroed both in the flat array and in `iregs`.
pub fn flat_to_arch_rv64(regs: &mut [u64; REG_COUNT_RV64], iregs: &mut [u64; 32], pc: &mut u64)
    ensures
        final(iregs)@[0] == 0,
        forall|i: int| 1 <= i < 32 ==> final(iregs)@[i] == old(regs)@[i],
        *final(pc) == old(regs)@[REG_PC_RV64 as int],
        final(regs)@ == old(regs)@.update(0, 0),
{
    let mut i: usize = 1;
    while i < 32
        invariant
            1 <= i <= 32,
            iregs@.len() == 32,
            regs@ == old(regs)@,
            forall|j: int| 1 <= j < i ==> iregs@[j] == regs@[j],
        decreases 32 - i,
    {
        iregs[i] = regs[i];
        i += 1;
    }
    iregs[0] = 0;
    *pc = regs[REG_PC_RV64];
    regs[0] = 0;
}

/// RISC-V round trip: syncing registers into the flat array and back yields
/// the same registers (with x0 reading as zero) and the same PC.
pub proof fn lemma_flat_round_trip_rv64(
    iregs: Seq<u64>,
    pc: u64,
    flat: Seq<u64>,
    out: Seq<u64>,
    pc_out: u64,
)
    requires
        iregs.len() == 32,
        flat.len() == REG_COUNT_RV64,
        out.len() == 32,
        flat[0] == 0,
        forall|i: int| 1 <= i < 32 ==> flat[i] == iregs[i],
        flat[REG_PC_RV64 as int] == pc,
        out[0] == 0,
        forall|i: int| 1 <= i < 32 ==> out[i] == flat[i],
        pc_out == flat[REG_PC_RV64 as int],
    ensures
        out == iregs.update(0, 0),
        pc_out == pc,
{
    assert(out =~= iregs.update(0, 0));
}

} // verus!
