//! Single-register loads and stores through the SE-mode inline TLB.
//!
//! The emitter computes the guest effective address in `rax`, probes the
//! 256-entry TLB inline (tag `addr >> 12`, entry `(addr >> 12) & 0xFF` of 16
//! bytes, page offset `addr & 0xFFF`) and accesses host memory on a hit; on a
//! miss it calls the fill helper, and with no TLB the memory helper.
//! [`plan_tlb_load`] and [`plan_tlb_store`] decide everything the emitted
//! code depends on; the lemmas below show that the probe finds the entry the
//! TLB keeps for the address and that the planned operations compute the
//! AArch64 address, write-back and loaded value.

use crate::dynasm::bitfield::sign_extend64;
use crate::dynasm::emit::{data_slot_of, sp_slot_of};
use crate::helpers::{se_tlb_index, se_tlb_tag, SE_TLB_ENTRIES};
use crate::insn::{A64Insn, A64Opcode};
use crate::regs::{REG_SP, REG_XZR};
use vstd::prelude::*;

verus! {

/// How the effective address of a load or store is formed.
#[derive(Debug, Clone, Copy, PartialEq, Eq, Structural)]
pub enum AddrMode {
    /// `base + (extend(rm) << amount)`, no write-back.
    RegOffset { rm_slot: usize, extend_type: u32, amount: u32 },
    /// `base + imm`, written back to the base before the access.
    PreIndex { imm: i64 },
    /// `base`; the base becomes `base + imm` after the access.
    PostIndex { imm: i64 },
    /// `base + imm`, no write-back.
    Offset { imm: i64 },
}

/// Everything the emitted code of a single-register load or store depends
/// on.
#[derive(Debug, Clone, Copy, PartialEq, Eq, Structural)]
pub struct TlbAccessPlan {
    /// Access size in bytes (1, 2, 4 or 8).
    pub size: u32,
    /// Slot of the base register (register 31 is SP).
    pub base_slot: usize,
    /// Slot of the data register (register 31 is XZR).
    pub data_slot: usize,
    pub addressing: AddrMode,
    /// Loads: the loaded value is sign-extended to 64 bits.
    pub sign_extend: bool,
    /// Loads: the destination receives all 64 bits (otherwise the low 32,
    /// zero-extended).
    pub wide: bool,
}

/// Access size in bytes of a load or store.
pub open spec fn access_size_spec(insn: A64Insn) -> u32 {
    match insn.opcode {
        A64Opcode::Ldrb | A64Opcode::Strb | A64Opcode::Ldrsb | A64Opcode::Ldurb | A64Opcode::Sturb => 1,
        A64Opcode::Ldrh | A64Opcode::Strh | A64Opcode::Ldrsh | A64Opcode::Ldurh | A64Opcode::Sturh => 2,
        A64Opcode::Ldrsw | A64Opcode::Ldursw => 4,
        A64Opcode::Ldr | A64Opcode::Str | A64Opcode::Ldur | A64Opcode::Stur => if insn.sf {
            8
        } else {
            4
        },
        _ => if insn.size == 0 {
            1
        } else if insn.size == 1 {
            2
        } else if insn.size == 2 {
            4
        } else {
            8
        },
    }
}

/// The load sign-extends what it reads.
pub open spec fn is_signed_load(op: A64Opcode) -> bool {
    match op {
        A64Opcode::Ldrsb | A64Opcode::Ldrsh | A64Opcode::Ldrsw | A64Opcode::Ldursb
        | A64Opcode::Ldursh | A64Opcode::Ldursw => true,
        _ => false,
    }
}

/// The address uses a register offset.
pub open spec fn is_reg_offset_spec(insn: A64Insn) -> bool {
    insn.extend_type != 0 || (insn.rm != 0 && !insn.post_index)
}

/// The addressing of a load or store.
pub open spec fn addr_mode_of(insn: A64Insn) -> AddrMode {
    if is_reg_offset_spec(insn) {
        AddrMode::RegOffset {
            rm_slot: data_slot_of(insn.rm),
            extend_type: insn.extend_type,
            amount: insn.extend_amt,
        }
    } else if insn.pre_index {
        AddrMode::PreIndex { imm: insn.imm }
    } else if insn.post_index {
        AddrMode::PostIndex { imm: insn.imm }
    } else {
        AddrMode::Offset { imm: insn.imm }
    }
}

/// The plan of a load.
pub open spec fn tlb_load_plan(insn: A64Insn) -> TlbAccessPlan {
    TlbAccessPlan {
        size: access_size_spec(insn),
        base_slot: sp_slot_of(insn.rn),
        data_slot: data_slot_of(insn.rd),
        addressing: addr_mode_of(insn),
        sign_extend: is_signed_load(insn.opcode),
        wide: insn.sf || is_signed_load(insn.opcode),
    }
}

/// The plan of a store (the value is never extended).
pub open spec fn tlb_store_plan(insn: A64Insn) -> TlbAccessPlan {
    TlbAccessPlan {
        size: access_size_spec(insn),
        base_slot: sp_slot_of(insn.rn),
        data_slot: data_slot_of(insn.rd),
        addressing: addr_mode_of(insn),
        sign_extend: false,
        wide: true,
    }
}

/// The register-offset fields are ones the emitter encodes: an extend type
/// of the eight AArch64 ones and a shift below 64.
pub open spec fn ldst_fields_ok(insn: A64Insn) -> bool {
    is_reg_offset_spec(insn) ==> insn.extend_type < 8 && insn.extend_amt < 64
}

fn access_size(insn: &A64Insn) -> (r: u32)
    ensures
        r == access_size_spec(*insn),
{
    match insn.opcode {
        A64Opcode::Ldrb | A64Opcode::Strb | A64Opcode::Ldrsb | A64Opcode::Ldurb | A64Opcode::Sturb => 1,
        A64Opcode::Ldrh | A64Opcode::Strh | A64Opcode::Ldrsh | A64Opcode::Ldurh | A64Opcode::Sturh => 2,
        A64Opcode::Ldrsw | A64Opcode::Ldursw => 4,
        A64Opcode::Ldr | A64Opcode::Str | A64Opcode::Ldur | A64Opcode::Stur => if insn.sf {
            8
        } else {
            4
        },
        _ => if insn.size == 0 {
            1
        } else if insn.size == 1 {
            2
        } else if insn.size == 2 {
            4
        } else {
            8
        },
    }
}

fn addr_mode(insn: &A64Insn) -> (r: AddrMode)
    ensures
        r == addr_mode_of(*insn),
{
    if insn.extend_type != 0 || (insn.rm != 0 && !insn.post_index) {
        let rm_slot = if insn.rm == 31 {
            REG_XZR
        } else {
            insn.rm as usize
        };
        AddrMode::RegOffset { rm_slot, extend_type: insn.extend_type, amount: insn.extend_amt }
    } else if insn.pre_index {
        AddrMode::PreIndex { imm: insn.imm }
    } else if insn.post_index {
        AddrMode::PostIndex { imm: insn.imm }
    } else {
        AddrMode::Offset { imm: insn.imm }
    }
}

fn base_and_data(insn: &A64Insn) -> (r: (usize, usize))
    ensures
        r == (sp_slot_of(insn.rn), data_slot_of(insn.rd)),
{
    let base = if insn.rn == 31 {
        REG_SP
    } else {
        insn.rn as usize
    };
    let data = if insn.rd == 31 {
        REG_XZR
    } else {
        insn.rd as usize
    };
    (base, data)
}

/// Plan a load through the inline TLB.
pub fn plan_tlb_load(insn: &A64Insn) -> (p: TlbAccessPlan)
    ensures
        p == tlb_load_plan(*insn),
{
    let (base_slot, data_slot) = base_and_data(insn);
    let signed = match insn.opcode {
        A64Opcode::Ldrsb | A64Opcode::Ldrsh | A64Opcode::Ldrsw | A64Opcode::Ldursb
        | A64Opcode::Ldursh | A64Opcode::Ldursw => true,
        _ => false,
    };
    TlbAccessPlan {
        size: access_size(insn),
        base_slot,
        data_slot,
        addressing: addr_mode(insn),
        sign_extend: signed,
        wide: insn.sf || signed,
    }
}

/// Plan a store through the inline TLB.
pub fn plan_tlb_store(insn: &A64Insn) -> (p: TlbAccessPlan)
    ensures
        p == tlb_store_plan(*insn),
{
    let (base_slot, data_slot) = base_and_data(insn);
    TlbAccessPlan {
        size: access_size(insn),
        base_slot,
        data_slot,
        addressing: addr_mode(insn),
        sign_extend: false,
        wide: true,
    }
}

// ── The inline TLB probe ────────────────────────────────────────────────────

/// Byte offset of the probed entry inside the TLB: `shr rcx, 12; and ecx,
/// 0xFF; shl rcx, 4` (the 32-bit `and` clears the upper half).
pub open spec fn probe_entry_offset(addr: u64) -> u64 {
    (((((addr >> 12u64) as u32) & 0xFFu32) as u64) << 4u64) as u64
}

/// The tag compared with the entry: `addr >> 12`.
pub open spec fn probe_tag(addr: u64) -> u64 {
    addr >> 12u64
}

/// The page offset added to the entry's host page: `and r9d, 0xFFF`.
pub open spec fn probe_page_offset(addr: u64) -> u64 {
    ((addr as u32) & 0xFFFu32) as u64
}

/// The inline probe reads the entry the TLB keeps for the address (entries
/// are 16 bytes) and compares it with the address's page number, and the
/// host address it forms on a hit is the host page plus the address's
/// offset in its guest page: page number and offset together are the
/// address.
pub proof fn lemma_tlb_probe_matches_tlb(addr: u64)
    ensures
        probe_entry_offset(addr) == se_tlb_index(addr) * 16,
        0 <= se_tlb_index(addr) < SE_TLB_ENTRIES,
        probe_tag(addr) == se_tlb_tag(addr),
        probe_page_offset(addr) == addr % 4096,
        se_tlb_tag(addr) * 4096 + probe_page_offset(addr) == addr,
{
    assert(probe_entry_offset(addr) == ((addr >> 12u64) & 0xFFu64) * 16 && ((addr >> 12u64)
        & 0xFFu64) < 256 && probe_page_offset(addr) == addr % 4096 && (addr >> 12u64) * 4096 + ((
    addr as u32) & 0xFFFu32) as u64 == addr) by (bit_vector);
}

// ── Addresses and loaded values ─────────────────────────────────────────────

/// The register offset the emitter forms: `movzx`/`mov`/`movsx` of `rcx`
/// for the extend type, then `shl rcx, amount`.
pub open spec fn x86_extend(rm: u64, extend_type: u32, amount: u32) -> u64 {
    let e = if extend_type == 0 {
        ((rm as u8) as u64)
    } else if extend_type == 1 {
        ((rm as u16) as u64)
    } else if extend_type == 2 {
        ((rm as u32) as u64)
    } else if extend_type == 4 {
        (((rm as u8) as i8) as i64) as u64
    } else if extend_type == 5 {
        (((rm as u16) as i16) as i64) as u64
    } else if extend_type == 6 {
        (((rm as u32) as i32) as i64) as u64
    } else {
        rm
    };
    if amount == 0 {
        e
    } else {
        e << amount
    }
}

/// AArch64 `ExtendReg`: the low 8, 16, 32 or 64 bits of the register,
/// zero-extended (types 0 to 3) or sign-extended (4 to 7), shifted left.
pub open spec fn a64_extend_reg(rm: u64, extend_type: u32, amount: u32) -> u64 {
    let bits: u32 = if extend_type % 4 == 0 {
        8
    } else if extend_type % 4 == 1 {
        16
    } else if extend_type % 4 == 2 {
        32
    } else {
        64
    };
    let low = if bits == 64 {
        rm
    } else {
        rm & (((1u64 << bits) - 1) as u64)
    };
    let e = if extend_type >= 4 {
        sign_extend64(rm, bits)
    } else {
        low
    };
    e << amount
}

/// The emitted register offset is the AArch64 extended register.
pub proof fn lemma_extend_matches_architecture(rm: u64, extend_type: u32, amount: u32)
    requires
        extend_type < 8,
        amount < 64,
    ensures
        x86_extend(rm, extend_type, amount) == a64_extend_reg(rm, extend_type, amount),
{
    lemma_masks();
    let e = x86_extend(rm, extend_type, 0);
    assert(e << 0u32 == e && ((rm as u8) as u64) == rm & 0xFFu64 && ((rm as u16) as u64) == rm
        & 0xFFFFu64 && ((rm as u32) as u64) == rm & 0xFFFF_FFFFu64 && (((rm as u8) as i8) as i64) as u64
        == sign_extend64(rm, 8) && (((rm as u16) as i16) as i64) as u64 == sign_extend64(rm, 16)
        && (((rm as u32) as i32) as i64) as u64 == sign_extend64(rm, 32) && sign_extend64(rm, 64)
        == rm) by (bit_vector);
}

/// The effective address the emitted code accesses, from the base and
/// offset-register values (64-bit wrapping addition, as `add rax, ...`).
pub open spec fn planned_address(p: TlbAccessPlan, base: u64, rm: u64) -> u64 {
    match p.addressing {
        AddrMode::RegOffset { extend_type, amount, .. } => (base + x86_extend(
            rm,
            extend_type,
            amount,
        )) as u64,
        AddrMode::PreIndex { imm } => (base + imm) as u64,
        AddrMode::PostIndex { .. } => base,
        AddrMode::Offset { imm } => (base + imm) as u64,
    }
}

/// The base register after the access, if it is written back.
pub open spec fn planned_writeback(p: TlbAccessPlan, base: u64) -> Option<u64> {
    match p.addressing {
        AddrMode::PreIndex { imm } => Some((base + imm) as u64),
        AddrMode::PostIndex { imm } => Some((base + imm) as u64),
        _ => None,
    }
}

/// AArch64 addressing of a single-register load or store: the address
/// accessed and the written-back base (additions wrap at 64 bits).
pub open spec fn a64_address(insn: A64Insn, base: u64, rm: u64) -> (u64, Option<u64>) {
    let wrap_add = |off: int| (base + off) as u64;
    if is_reg_offset_spec(insn) {
        (wrap_add(a64_extend_reg(rm, insn.extend_type, insn.extend_amt) as int), None)
    } else if insn.pre_index {
        (wrap_add(insn.imm as int), Some(wrap_add(insn.imm as int)))
    } else if insn.post_index {
        (base, Some(wrap_add(insn.imm as int)))
    } else {
        (wrap_add(insn.imm as int), None)
    }
}

/// The value the emitted load leaves in the destination, from the 64-bit
/// little-endian word `raw` at the address: `movzx`/`mov` of `size` bytes,
/// `movsx` when sign-extending, and the 32-bit store (zero-extending) for a
/// narrow destination.
pub open spec fn planned_load_value(p: TlbAccessPlan, raw: u64) -> u64 {
    let loaded: u64 = if p.size == 1 {
        (raw as u8) as u64
    } else if p.size == 2 {
        (raw as u16) as u64
    } else if p.size == 4 {
        (raw as u32) as u64
    } else {
        raw
    };
    let extended: u64 = if !p.sign_extend {
        loaded
    } else if p.size == 1 {
        (((loaded as u8) as i8) as i64) as u64
    } else if p.size == 2 {
        (((loaded as u16) as i16) as i64) as u64
    } else if p.size == 4 {
        (((loaded as u32) as i32) as i64) as u64
    } else {
        loaded
    };
    if p.wide {
        extended
    } else {
        (extended as u32) as u64
    }
}

/// AArch64 load of `size` bytes into the destination: the bytes,
/// sign-extended for a signed load, into a 64-bit (X) or 32-bit (W,
/// zero-extended) register.
pub open spec fn a64_load_value(insn: A64Insn, raw: u64) -> u64 {
    let bits: u32 = (access_size_spec(insn) * 8) as u32;
    let mem = if bits == 64 {
        raw
    } else {
        raw & (((1u64 << bits) - 1) as u64)
    };
    let extended = if is_signed_load(insn.opcode) {
        sign_extend64(mem, bits)
    } else {
        mem
    };
    if insn.sf {
        extended
    } else {
        extended & 0xFFFF_FFFFu64
    }
}

/// The emitted load computes the AArch64 address, write-back and loaded
/// value, except for a signed load into a W register: there the emitter
/// keeps all 64 sign-extended bits, the value the X form of the load gives,
/// where AArch64 zeroes the upper half.
pub proof fn lemma_tlb_load_matches_architecture(insn: A64Insn, base: u64, rm: u64, raw: u64)
    requires
        ldst_fields_ok(insn),
    ensures
        (
            planned_address(tlb_load_plan(insn), base, rm),
            planned_writeback(tlb_load_plan(insn), base),
        ) == a64_address(insn, base, rm),
        !(is_signed_load(insn.opcode) && !insn.sf) ==> planned_load_value(tlb_load_plan(insn), raw)
            == a64_load_value(insn, raw),
        is_signed_load(insn.opcode) && !insn.sf ==> planned_load_value(tlb_load_plan(insn), raw)
            == a64_load_value(A64Insn { sf: true, ..insn }, raw),
{
    lemma_address_matches(insn, base, rm);
    lemma_masks();
    let v = planned_load_value(TlbAccessPlan { wide: true, ..tlb_load_plan(insn) }, raw);
    assert(((v as u32) as u64) == v & 0xFFFF_FFFFu64) by (bit_vector);
    let size = access_size_spec(insn);
    assert(size == 1 || size == 2 || size == 4 || size == 8);
    assert(((raw as u8) as u64) == raw & 0xFFu64 && (((((raw as u8) as u64) as u8) as i8) as i64)
        as u64 == sign_extend64(raw & 0xFFu64, 8) && ((((raw as u8) as u64) as u32) as u64) == (raw
        & 0xFFu64) & 0xFFFF_FFFFu64 && ((raw as u16) as u64) == raw & 0xFFFFu64 && (((((raw as u16)
        as u64) as u16) as i16) as i64) as u64 == sign_extend64(raw & 0xFFFFu64, 16) && ((((raw
        as u16) as u64) as u32) as u64) == (raw & 0xFFFFu64) & 0xFFFF_FFFFu64 && ((raw as u32)
        as u64) == raw & 0xFFFF_FFFFu64 && (((((raw as u32) as u64) as u32) as i32) as i64) as u64
        == sign_extend64(raw & 0xFFFF_FFFFu64, 32) && ((((raw as u32) as u64) as u32) as u64) == (
    raw & 0xFFFF_FFFFu64) & 0xFFFF_FFFFu64 && sign_extend64(raw, 64) == raw) by (bit_vector);
}

/// The emitted store computes the AArch64 address and write-back, and
/// writes the low `size` bytes of the data register.
pub proof fn lemma_tlb_store_matches_architecture(insn: A64Insn, base: u64, rm: u64)
    requires
        ldst_fields_ok(insn),
    ensures
        (
            planned_address(tlb_store_plan(insn), base, rm),
            planned_writeback(tlb_store_plan(insn), base),
        ) == a64_address(insn, base, rm),
        tlb_store_plan(insn).size == access_size_spec(insn),
{
    lemma_address_matches(insn, base, rm);
}

/// Each load and store moves the bytes its AArch64 form names: `B` forms 1,
/// `H` forms 2, `LDRSW`/`LDURSW` 4, `LDR`/`STR`/`LDUR`/`STUR` 8 for an X
/// register and 4 for a W register, and any other access `2^size` bytes of
/// its size field; a load and a store of the same instruction agree. Only
/// the `LDRS*`/`LDURS*` loads sign-extend; a load fills all 64 bits of an X
/// destination or of a sign-extending load, otherwise the low 32; a store
/// writes its data register unextended. Register 31 is SP as the base and
/// XZR as the data register.
pub proof fn lemma_access_size_by_form(insn: A64Insn)
    ensures
        tlb_store_plan(insn).size == tlb_load_plan(insn).size,
        ({
            let op = insn.opcode;
            let signed = op == A64Opcode::Ldrsb || op == A64Opcode::Ldrsh || op == A64Opcode::Ldrsw
                || op == A64Opcode::Ldursb || op == A64Opcode::Ldursh || op == A64Opcode::Ldursw;
            &&& tlb_load_plan(insn).sign_extend == signed
            &&& tlb_load_plan(insn).wide == (insn.sf || signed)
            &&& !tlb_store_plan(insn).sign_extend && tlb_store_plan(insn).wide
        }),
        tlb_load_plan(insn).base_slot == (if insn.rn == 31 {
            REG_SP
        } else {
            insn.rn as usize
        }),
        tlb_load_plan(insn).data_slot == (if insn.rd == 31 {
            REG_XZR
        } else {
            insn.rd as usize
        }),
        tlb_store_plan(insn).base_slot == tlb_load_plan(insn).base_slot,
        tlb_store_plan(insn).data_slot == tlb_load_plan(insn).data_slot,
        ({
            let n = tlb_store_plan(insn).size;
            let op = insn.opcode;
            if op == A64Opcode::Ldrb || op == A64Opcode::Strb || op == A64Opcode::Ldrsb || op
                == A64Opcode::Ldurb || op == A64Opcode::Sturb {
                n == 1
            } else if op == A64Opcode::Ldrh || op == A64Opcode::Strh || op == A64Opcode::Ldrsh || op
                == A64Opcode::Ldurh || op == A64Opcode::Sturh {
                n == 2
            } else if op == A64Opcode::Ldrsw || op == A64Opcode::Ldursw {
                n == 4
            } else if op == A64Opcode::Ldr || op == A64Opcode::Str || op == A64Opcode::Ldur || op
                == A64Opcode::Stur {
                n == (if insn.sf {
                    8u32
                } else {
                    4u32
                })
            } else {
                n == (if insn.size >= 3 {
                    8u32
                } else if insn.size == 2 {
                    4u32
                } else if insn.size == 1 {
                    2u32
                } else {
                    1u32
                })
            }
        }),
{
}

proof fn lemma_masks()
    ensures
        ((1u64 << 8u32) - 1) as u64 == 0xFFu64,
        ((1u64 << 16u32) - 1) as u64 == 0xFFFFu64,
        ((1u64 << 32u32) - 1) as u64 == 0xFFFF_FFFFu64,
{
    assert(((1u64 << 8u32) - 1) as u64 == 0xFFu64 && ((1u64 << 16u32) - 1) as u64 == 0xFFFFu64
        && ((1u64 << 32u32) - 1) as u64 == 0xFFFF_FFFFu64) by (bit_vector);
}

proof fn lemma_address_matches(insn: A64Insn, base: u64, rm: u64)
    requires
        ldst_fields_ok(insn),
    ensures
        (
            planned_address(tlb_load_plan(insn), base, rm),
            planned_writeback(tlb_load_plan(insn), base),
        ) == a64_address(insn, base, rm),
        (
            planned_address(tlb_store_plan(insn), base, rm),
            planned_writeback(tlb_store_plan(insn), base),
        ) == a64_address(insn, base, rm),
{
    if is_reg_offset_spec(insn) {
        lemma_extend_matches_architecture(rm, insn.extend_type, insn.extend_amt);
    }
}

} // verus!
