//! `DC ZVA Xt`: zero the 64-byte block that holds the address in `Xt`.
//!
//! The emitted code aligns the address down with `and rax, -64` (the
//! immediate sign-extends to `!63`), keeps the block's base in scratch slot
//! 38 and makes eight 8-byte zero writes through the memory-write helper, at
//! the offsets [`zva_write_offsets`] gives. [`lemma_zva_writes_cover_block`]
//! shows that those writes cover exactly the aligned block that holds the
//! address, the block AArch64 zeroes.

use crate::dynasm::emit::{data_slot_of, dst_slot};
use crate::insn::A64Insn;
use vstd::prelude::*;

verus! {

/// Size in bytes of the block `DC ZVA` zeroes.
pub const DC_ZVA_BLOCK_SIZE: u64 = 64;

/// Number of 8-byte writes that zero a block.
pub const DC_ZVA_WRITES: usize = 8;

/// The slot holding the address operand of `DC ZVA` (register 31 is XZR).
pub fn plan_dc_zva(insn: &A64Insn) -> (slot: usize)
    ensures
        slot == data_slot_of(insn.rd),
{
    dst_slot(insn.rd)
}

/// The block base the emitted `and rax, -64` leaves: the address with its
/// low six bits cleared.
pub open spec fn zva_block_base(va: u64) -> u64 {
    va & 0xFFFF_FFFF_FFFF_FFC0u64
}

/// The byte offsets, from the block base, of the eight zero writes.
pub fn zva_write_offsets() -> (r: Vec<i32>)
    ensures
        r@.len() == DC_ZVA_WRITES,
        forall|i: int| 0 <= i < DC_ZVA_WRITES ==> r@[i] == 8 * i,
{
    let mut r: Vec<i32> = Vec::new();
    let mut i: usize = 0;
    while i < DC_ZVA_WRITES
        invariant
            i <= DC_ZVA_WRITES,
            r@.len() == i,
            forall|j: int| 0 <= j < i ==> r@[j] == 8 * j,
        decreases DC_ZVA_WRITES - i,
    {
        r.push((8 * i) as i32);
        i += 1;
    }
    r
}

/// The address of the `i`-th zero write of the block holding `va`.
pub open spec fn zva_write_address(va: u64, i: int) -> int {
    zva_block_base(va) + 8 * i
}

/// Byte address `b` lies in the block the emitted code zeroes for `va`.
pub open spec fn in_zva_block(va: u64, b: int) -> bool {
    zva_block_base(va) <= b < zva_block_base(va) + DC_ZVA_BLOCK_SIZE
}

/// The block base is 64-byte aligned, the block holds the address and lies
/// below 2^64 (so no write address wraps), and the eight 8-byte writes at
/// `base + 8 * i` cover exactly its bytes.
pub proof fn lemma_zva_writes_cover_block(va: u64)
    ensures
        zva_block_base(va) % DC_ZVA_BLOCK_SIZE == 0,
        zva_block_base(va) <= va < zva_block_base(va) + DC_ZVA_BLOCK_SIZE,
        zva_block_base(va) + DC_ZVA_BLOCK_SIZE <= u64::MAX + 1,
        forall|b: int|
            #[trigger] in_zva_block(va, b) <==> exists|i: int|
                #![trigger zva_write_address(va, i)]
                0 <= i < DC_ZVA_WRITES && zva_write_address(va, i) <= b < zva_write_address(va, i) + 8,
{
    let base = zva_block_base(va);
    assert(base % 64 == 0 && base <= va && va - base < 64) by (bit_vector)
        requires
            base == va & 0xFFFF_FFFF_FFFF_FFC0u64,
    ;
    assert forall|b: int| #[trigger] in_zva_block(va, b) implies exists|i: int|
        #![trigger zva_write_address(va, i)]
        0 <= i < DC_ZVA_WRITES && zva_write_address(va, i) <= b < zva_write_address(va, i) + 8 by {
        let i = (b - base) / 8;
        assert(zva_write_address(va, i) <= b < zva_write_address(va, i) + 8);
    }
}

} // verus!
