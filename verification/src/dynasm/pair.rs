//! Load and store pairs (`LDP`/`STP` of general registers) through the
//! SE-mode inline TLB.
//!
//! The emitter forms the first element's address as a single-register
//! access with an immediate does (offset, pre-index or post-index), keeps it
//! in the scratch slot 38 across the first access and reaches the second
//! element `size` bytes above it; a post-indexed base is written back after
//! both accesses. [`plan_pair`] decides everything the emitted code depends
//! on; [`lemma_pair_matches_architecture`] shows that the planned accesses,
//! write-back and loaded values are the AArch64 ones.

use crate::dynasm::emit::{data_slot_of, dst_slot, sp_slot, sp_slot_of};
use crate::dynasm::memory::AddrMode;
use crate::insn::A64Insn;
use vstd::prelude::*;

verus! {

/// Everything the emitted code of a load or store pair depends on.
#[derive(Debug, Clone, Copy, PartialEq, Eq, Structural)]
pub struct PairAccessPlan {
    /// Size of each element in bytes (8 for X registers, 4 for W).
    pub size: u32,
    /// Slot of the base register (register 31 is SP).
    pub base_slot: usize,
    /// Slot of the first data register (register 31 is XZR).
    pub first_slot: usize,
    /// Slot of the second data register (register 31 is XZR).
    pub second_slot: usize,
    /// Immediate addressing: offset, pre-index or post-index.
    pub addressing: AddrMode,
    /// Loads: the destinations receive all 64 bits (otherwise the low 32,
    /// zero-extended).
    pub wide: bool,
}

/// The addressing of a pair access.
pub open spec fn pair_addr_mode(insn: A64Insn) -> AddrMode {
    if insn.pre_index {
        AddrMode::PreIndex { imm: insn.imm }
    } else if insn.post_index {
        AddrMode::PostIndex { imm: insn.imm }
    } else {
        AddrMode::Offset { imm: insn.imm }
    }
}

/// The plan of a pair access.
pub open spec fn pair_plan(insn: A64Insn) -> PairAccessPlan {
    PairAccessPlan {
        size: if insn.sf {
            8
        } else {
            4
        },
        base_slot: sp_slot_of(insn.rn),
        first_slot: data_slot_of(insn.rd),
        second_slot: data_slot_of(insn.pair_second),
        addressing: pair_addr_mode(insn),
        wide: insn.sf,
    }
}

/// Plan a load or store pair through the inline TLB.
pub fn plan_pair(insn: &A64Insn) -> (p: PairAccessPlan)
    ensures
        p == pair_plan(*insn),
{
    let addressing = if insn.pre_index {
        AddrMode::PreIndex { imm: insn.imm }
    } else if insn.post_index {
        AddrMode::PostIndex { imm: insn.imm }
    } else {
        AddrMode::Offset { imm: insn.imm }
    };
    PairAccessPlan {
        size: if insn.sf {
            8
        } else {
            4
        },
        base_slot: sp_slot(insn.rn),
        first_slot: dst_slot(insn.rd),
        second_slot: dst_slot(insn.pair_second),
        addressing,
        wide: insn.sf,
    }
}

/// The two addresses the emitted code accesses, from the base register's
/// value: the first as the addressing forms it, the second `size` bytes
/// above (64-bit wrapping additions, as `add rax, ...`).
pub open spec fn planned_pair_addresses(p: PairAccessPlan, base: u64) -> (u64, u64) {
    let first: u64 = match p.addressing {
        AddrMode::PreIndex { imm } => (base + imm) as u64,
        AddrMode::Offset { imm } => (base + imm) as u64,
        _ => base,
    };
    (first, (first + p.size) as u64)
}

/// The base register after the accesses, if it is written back: `base +
/// imm` for both pre- and post-index.
pub open spec fn planned_pair_writeback(p: PairAccessPlan, base: u64) -> Option<u64> {
    match p.addressing {
        AddrMode::PreIndex { imm } => Some((base + imm) as u64),
        AddrMode::PostIndex { imm } => Some((base + imm) as u64),
        _ => None,
    }
}

/// The value the emitted load leaves in a destination, from the 64-bit
/// little-endian word `raw` at the element's address: `mov` of `size` bytes
/// (a 4-byte load zero-extends) and the 32-bit store for a narrow
/// destination.
pub open spec fn planned_pair_value(p: PairAccessPlan, raw: u64) -> u64 {
    let loaded: u64 = if p.size == 4 {
        (raw as u32) as u64
    } else {
        raw
    };
    if p.wide {
        loaded
    } else {
        (loaded as u32) as u64
    }
}

/// AArch64 `LDP`/`STP` of general registers: with `dbytes` = 8 (X) or 4 (W)
/// and the address `base + imm` (only `base` when post-indexed), the
/// elements lie at the address and `dbytes` above it; the base becomes the
/// address when pre-indexed and `address + imm` when post-indexed
/// (additions wrap at 64 bits).
pub open spec fn a64_pair_access(insn: A64Insn, base: u64) -> (u64, u64, Option<u64>) {
    let dbytes: int = if insn.sf {
        8
    } else {
        4
    };
    let address: u64 = if insn.post_index && !insn.pre_index {
        base
    } else {
        (base + insn.imm) as u64
    };
    let writeback = if insn.pre_index {
        Some(address)
    } else if insn.post_index {
        Some((address + insn.imm) as u64)
    } else {
        None
    };
    (address, (address + dbytes) as u64, writeback)
}

/// AArch64 `LDP` of general registers: each element's `dbytes` bytes,
/// zero-extended into the register.
pub open spec fn a64_pair_load_value(insn: A64Insn, raw: u64) -> u64 {
    if insn.sf {
        raw
    } else {
        raw & 0xFFFF_FFFFu64
    }
}

/// The emitted pair access reaches the AArch64 addresses, writes back the
/// AArch64 base, stores `size` bytes per element (the element size) and
/// loads the AArch64 value into each destination.
pub proof fn lemma_pair_matches_architecture(insn: A64Insn, base: u64, raw: u64)
    ensures
        ({
            let (first, second) = planned_pair_addresses(pair_plan(insn), base);
            (first, second, planned_pair_writeback(pair_plan(insn), base))
        }) == a64_pair_access(insn, base),
        pair_plan(insn).size == (if insn.sf {
            8u32
        } else {
            4u32
        }),
        planned_pair_value(pair_plan(insn), raw) == a64_pair_load_value(insn, raw),
{
    assert((((raw as u32) as u64) as u32) as u64 == raw & 0xFFFF_FFFFu64) by (bit_vector);
}

} // verus!
