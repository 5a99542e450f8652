//! Direct-mapped JIT block cache with tiered compilation support and block
//! chaining.
//!
//! The cache has 4096 slots indexed by `(pc >> 2) & 0xFFF` (guest
//! instructions are 4-byte aligned). On collision the previous entry is
//! evicted. Each entry counts its executions so that blocks compiled by the
//! fast baseline tier can be promoted to the optimising tier once hot.

use crate::arena::{jmp_arith_ok, jmp_rel32_bytes, ret_nop4_bytes, splice, CodeArena};
use crate::block::{sites_fit, CompiledBlock, PatchSite};
use vstd::prelude::*;

verus! {

/// Number of slots in the direct-mapped cache (a power of 2).
pub const CACHE_SIZE: usize = 4096;
/// Mask selecting a slot from a word-aligned PC.
pub const CACHE_MASK: u64 = 4095;
/// Execution count at which a stencil block is promoted to dynasm.
pub const PROMOTE_THRESHOLD: u32 = 64;

/// Which JIT tier compiled a cached block.
#[derive(Debug, Clone, Copy, PartialEq, Eq, Structural)]
pub enum JitTier {
    /// Fast-compile baseline (stencil copy-and-patch).
    Stencil,
    /// Optimised hot tier (runtime code generation).
    Dynasm,
}

/// A cached block with the full guest PC used as its tag.
pub struct CacheEntry<O> {
    pub guest_pc: u64,
    pub block: CompiledBlock<O>,
    /// Number of times this block has been executed.
    pub exec_count: u32,
    /// Which tier compiled this block.
    pub tier: JitTier,
}

/// Result of a cache lookup with heat tracking.
pub struct CacheLookup<'a, O> {
    /// The compiled block.
    pub block: &'a CompiledBlock<O>,
    /// Number of executions (after incrementing).
    pub exec_count: u32,
    /// Which tier compiled this block.
    pub tier: JitTier,
}

/// The slot a guest PC maps to.
pub open spec fn cache_index(pc: u64) -> int {
    ((pc >> 2u64) & CACHE_MASK) as int
}

/// Number of occupied slots.
pub open spec fn occupied<T>(s: Seq<Option<T>>) -> nat
    decreases s.len(),
{
    if s.len() == 0 {
        0
    } else {
        occupied(s.drop_last()) + (if s.last() is Some {
            1nat
        } else {
            0nat
        })
    }
}

/// `u32` saturating increment.
pub open spec fn sat_inc(x: u32) -> u32 {
    if x == u32::MAX {
        x
    } else {
        (x + 1) as u32
    }
}

/// The `jmp rel32` of exit `s` of a block whose entry is at `entry` can be
/// encoded towards `target_rx`: the slot's address and the displacement
/// arithmetic fit in 64 bits.
pub open spec fn jmp_encodable(entry: u64, s: PatchSite, target_rx: u64) -> bool {
    &&& entry + s.byte_offset <= u64::MAX
    &&& jmp_arith_ok((entry + s.byte_offset) as u64, target_rx)
}

/// Exit `s` is one that the rewrite writes: when linking towards `pc`, an
/// unlinked exit to `pc` whose jump can be encoded; when unlinking `pc`, a
/// linked exit to `pc`.
pub open spec fn site_rewritten(s: PatchSite, pc: u64, target_rx: u64, entry: u64, linking: bool) -> bool {
    if linking {
        !s.linked && s.target_pc == pc && jmp_encodable(entry, s, target_rx)
    } else {
        s.linked && s.target_pc == pc
    }
}

/// The five bytes the rewrite writes into exit `s`: `jmp rel32` from the
/// slot to `target_rx` when linking, `ret + nop×4` when unlinking.
pub open spec fn exit_bytes(s: PatchSite, target_rx: u64, entry: u64, linking: bool) -> Seq<u8> {
    if linking {
        jmp_rel32_bytes((entry + s.byte_offset) as u64, target_rx)
    } else {
        ret_nop4_bytes()
    }
}

/// Exit `s` after the rewrite: its link flag is set (or cleared) when it is
/// rewritten; otherwise it is unchanged.
pub open spec fn rewritten_site(s: PatchSite, pc: u64, target_rx: u64, entry: u64, linking: bool) -> PatchSite {
    if site_rewritten(s, pc, target_rx, entry, linking) {
        PatchSite { linked: linking, ..s }
    } else {
        s
    }
}

/// The code `code` after the exits `sites[0..j]` that are rewritten got
/// their new bytes, in order.
pub open spec fn rewritten_code(
    code: Seq<u8>,
    sites: Seq<PatchSite>,
    pc: u64,
    target_rx: u64,
    entry: u64,
    linking: bool,
    j: int,
) -> Seq<u8>
    decreases j,
{
    if j <= 0 {
        code
    } else {
        let prev = rewritten_code(code, sites, pc, target_rx, entry, linking, j - 1);
        let s = sites[j - 1];
        if site_rewritten(s, pc, target_rx, entry, linking) {
            splice(prev, s.byte_offset as int, exit_bytes(s, target_rx, entry, linking))
        } else {
            prev
        }
    }
}

/// The exits `sites` with the first `j` of them rewritten.
pub open spec fn rewritten_sites(
    sites: Seq<PatchSite>,
    pc: u64,
    target_rx: u64,
    entry: u64,
    linking: bool,
    j: int,
) -> Seq<PatchSite> {
    Seq::new(
        sites.len(),
        |k: int|
            if k < j {
                rewritten_site(sites[k], pc, target_rx, entry, linking)
            } else {
                sites[k]
            },
    )
}

/// Block `after` is block `before` with its exits rewritten (linked towards
/// `pc` at `target_rx`, or unlinked from `pc`): a patchable block gets every
/// such exit's bytes written and its flag changed; any other block keeps its
/// exits. Identity, entry offset and inline caches are kept.
pub open spec fn block_rewritten<O>(
    before: CompiledBlock<O>,
    after: CompiledBlock<O>,
    pc: u64,
    target_rx: u64,
    linking: bool,
) -> bool {
    let n = before.patch_sites@.len() as int;
    &&& after.guest_pc == before.guest_pc
    &&& after.insn_count == before.insn_count
    &&& after.is_patchable() == before.is_patchable()
    &&& after.ic_patches@ == before.ic_patches@
    &&& if before.is_patchable() {
        &&& after.patch_sites@ == rewritten_sites(
            before.patch_sites@,
            pc,
            target_rx,
            before.entry,
            linking,
            n,
        )
        &&& after.code_bytes() == rewritten_code(
            before.code_bytes(),
            before.patch_sites@,
            pc,
            target_rx,
            before.entry,
            linking,
            n,
        )
        &&& after.entry_offset() == before.entry_offset()
    } else {
        after.patch_sites@ == before.patch_sites@
    }
}

/// The rewrite has bytes to write into `b`: it is patchable and one of its
/// exits is rewritten.
pub open spec fn block_needs_rewrite<O>(b: CompiledBlock<O>, pc: u64, target_rx: u64, linking: bool) -> bool {
    &&& b.is_patchable()
    &&& exists|j: int|
        0 <= j < b.patch_sites@.len() && #[trigger] site_rewritten(
            b.patch_sites@[j],
            pc,
            target_rx,
            b.entry,
            linking,
        )
}

/// One cache slot after rewriting exits: an empty slot stays empty; a cached
/// block is rewritten by `block_rewritten` and keeps its tag, count and
/// tier, or leaves the cache only when it had bytes to write and its buffer
/// could not be remapped (its code is then gone).
pub open spec fn slot_rewritten<O>(
    before: Option<CacheEntry<O>>,
    after: Option<CacheEntry<O>>,
    pc: u64,
    target_rx: u64,
    linking: bool,
) -> bool {
    match before {
        None => after is None,
        Some(b) => match after {
            Some(a) => a.guest_pc == b.guest_pc && a.exec_count == b.exec_count && a.tier == b.tier
                && block_rewritten(b.block, a.block, pc, target_rx, linking),
            None => block_needs_rewrite(b.block, pc, target_rx, linking),
        },
    }
}

/// The cache slots after rewriting exits in every cached block.
pub open spec fn cache_rewritten<O>(
    before: Seq<Option<CacheEntry<O>>>,
    after: Seq<Option<CacheEntry<O>>>,
    pc: u64,
    target_rx: u64,
    linking: bool,
) -> bool {
    &&& after.len() == before.len()
    &&& forall|i: int|
        0 <= i < before.len() ==> #[trigger] slot_rewritten(before[i], after[i], pc, target_rx, linking)
}

/// The entry the slots hold for `pc`, if its slot holds it.
pub open spec fn slot_entry<O>(slots: Seq<Option<CacheEntry<O>>>, pc: u64) -> Option<CacheEntry<O>> {
    match slots[cache_index(pc)] {
        Some(e) => if e.guest_pc == pc {
            Some(e)
        } else {
            None
        },
        None => None,
    }
}

/// The slots after the exits waiting for `pc` were linked: when `pc` is
/// cached, every block's unlinked exits to it are linked to its entry;
/// otherwise nothing changes.
pub open spec fn waiters_linked<O>(
    before: Seq<Option<CacheEntry<O>>>,
    after: Seq<Option<CacheEntry<O>>>,
    pc: u64,
) -> bool {
    match slot_entry(before, pc) {
        Some(e) => cache_rewritten(before, after, pc, e.block.entry, true),
        None => after == before,
    }
}

/// Splicing five bytes inside a sequence keeps its length.
proof fn lemma_splice_len(s: Seq<u8>, at: int, data: Seq<u8>)
    requires
        0 <= at,
        at + data.len() <= s.len(),
    ensures
        splice(s, at, data).len() == s.len(),
{
}

/// Rewrite the exits of `block` (see `block_rewritten`): link those that
/// target `pc` to `target_rx`, or unlink those that target `pc`. Returns
/// `false` if a buffer could not be remapped (the block is then unusable),
/// which can only happen when there were bytes to write.
fn rewrite_block_sites<O>(block: &mut CompiledBlock<O>, pc: u64, target_rx: u64, linking: bool) -> (ok: bool)
    requires
        old(block).wf(),
    ensures
        ok ==> final(block).wf() && block_rewritten(*old(block), *final(block), pc, target_rx, linking),
        !ok ==> block_needs_rewrite(*old(block), pc, target_rx, linking),
{
    let n = block.patch_sites.len();
    let entry = block.entry;
    let ghost b0 = *block;
    let ghost patchable = b0.is_patchable();
    let mut j: usize = 0;
    while j < n
        invariant
            0 <= j <= n,
            n == b0.patch_sites@.len(),
            b0 == *old(block),
            entry == b0.entry,
            patchable == b0.is_patchable(),
            b0.wf(),
            block.wf(),
            block.guest_pc == b0.guest_pc,
            block.insn_count == b0.insn_count,
            block.ic_patches@ == b0.ic_patches@,
            block.is_patchable() == patchable,
            patchable ==> block.patch_sites@ == rewritten_sites(
                b0.patch_sites@,
                pc,
                target_rx,
                entry,
                linking,
                j as int,
            ),
            !patchable ==> block.patch_sites@ == b0.patch_sites@,
            patchable ==> block.code_bytes() == rewritten_code(
                b0.code_bytes(),
                b0.patch_sites@,
                pc,
                target_rx,
                entry,
                linking,
                j as int,
            ),
            patchable ==> block.entry_offset() == b0.entry_offset(),
            patchable ==> block.code_bytes().len() == b0.code_bytes().len(),
        decreases n - j,
    {
        let site = block.patch_sites[j];
        proof {
            assert(site == b0.patch_sites@[j as int]);
        }
        let wanted = if linking {
            !site.linked && site.target_pc == pc
        } else {
            site.linked && site.target_pc == pc
        };
        if wanted {
            let ghost before = *block;
            match block.take_buffer() {
                None => {
                    proof {
                        assert(!patchable);
                    }
                },
                Some((buf, entry_offset)) => {
                    proof {
                        assert(sites_fit(before.patch_sites@, before.code_bytes().len()));
                        assert(before.patch_sites@[j as int] == site);
                    }
                    let written = if linking {
                        let site_rx = entry.checked_add(site.byte_offset as u64);
                        let encodable = match site_rx {
                            Some(a) => {
                                let s64 = a as i64;
                                let t64 = target_rx as i64;
                                s64 <= i64::MAX - 5 && (if s64 + 5 >= 0 {
                                    t64 >= i64::MIN + (s64 + 5)
                                } else {
                                    t64 <= i64::MAX + (s64 + 5)
                                })
                            },
                            None => false,
                        };
                        if encodable {
                            let a = site_rx.unwrap();
                            assert(jmp_arith_ok(a, target_rx));
                            assert(jmp_encodable(entry, site, target_rx));
                            Some(CodeArena::write_jmp_rel32(buf, site.byte_offset, a, target_rx))
                        } else {
                            assert(!jmp_encodable(entry, site, target_rx));
                            block.restore_buffer(buf, entry_offset);
                            None
                        }
                    } else {
                        Some(CodeArena::write_ret_nop4(buf, site.byte_offset))
                    };
                    assert(written is Some ==> site_rewritten(site, pc, target_rx, entry, linking));
                    match written {
                        Some(Some(patched)) => {
                            proof {
                                assert(site_rewritten(site, pc, target_rx, entry, linking));
                                lemma_splice_len(
                                    before.code_bytes(),
                                    site.byte_offset as int,
                                    exit_bytes(site, target_rx, entry, linking),
                                );
                            }
                            block.restore_buffer(patched, entry_offset);
                            block.patch_sites.set(j, PatchSite { linked: linking, ..site });
                            proof {
                                assert(block.patch_sites@ =~= rewritten_sites(
                                    b0.patch_sites@,
                                    pc,
                                    target_rx,
                                    entry,
                                    linking,
                                    j + 1,
                                ));
                            }
                        },
                        Some(None) => {
                            proof {
                                assert(b0.is_patchable());
                                assert(site_rewritten(b0.patch_sites@[j as int], pc, target_rx, b0.entry, linking));
                            }
                            return false;
                        },
                        None => {
                            proof {
                                assert(block.patch_sites@ =~= rewritten_sites(
                                    b0.patch_sites@,
                                    pc,
                                    target_rx,
                                    entry,
                                    linking,
                                    j + 1,
                                ));
                            }
                        },
                    }
                },
            }
        } else {
            proof {
                if patchable {
                    assert(block.patch_sites@ =~= rewritten_sites(
                        b0.patch_sites@,
                        pc,
                        target_rx,
                        entry,
                        linking,
                        j + 1,
                    ));
                }
            }
        }
        j += 1;
    }
    proof {
        if patchable {
            assert(rewritten_sites(b0.patch_sites@, pc, target_rx, entry, linking, n as int)
                =~= rewritten_sites(b0.patch_sites@, pc, target_rx, b0.entry, linking, n as int));
        }
    }
    true
}

/// Link the unlinked exits of `block` that target `target_pc` to the code at
/// `target_rx`. Returns `false` if a buffer could not be remapped (the block
/// is then unusable); exits whose jump cannot be encoded stay unlinked.
fn link_block_sites<O>(block: &mut CompiledBlock<O>, target_pc: u64, target_rx: u64) -> (ok: bool)
    requires
        old(block).wf(),
    ensures
        ok ==> final(block).wf() && block_rewritten(*old(block), *final(block), target_pc, target_rx, true),
        !ok ==> block_needs_rewrite(*old(block), target_pc, target_rx, true),
{
    rewrite_block_sites(block, target_pc, target_rx, true)
}

/// Restore `ret + nop×4` in the linked exits of `block` that target
/// `evicted_pc`. Returns `false` if a buffer could not be remapped.
fn unlink_block_sites<O>(block: &mut CompiledBlock<O>, evicted_pc: u64) -> (ok: bool)
    requires
        old(block).wf(),
    ensures
        ok ==> final(block).wf() && block_rewritten(*old(block), *final(block), evicted_pc, 0, false),
        !ok ==> block_needs_rewrite(*old(block), evicted_pc, 0, false),
{
    rewrite_block_sites(block, evicted_pc, 0, false)
}

/// `u64` saturating increment.
pub open spec fn sat_inc64(x: u64) -> u64 {
    if x == u64::MAX {
        x
    } else {
        (x + 1) as u64
    }
}

/// A 4096-slot direct-mapped cache for compiled translation blocks.
pub struct JitCache<O> {
    entries: Vec<Option<CacheEntry<O>>>,
    count: usize,
    promotions: u64,
    evictions: u64,
}

impl<O> JitCache<O> {
    /// The cache's slots.
    pub closed spec fn slots(&self) -> Seq<Option<CacheEntry<O>>> {
        self.entries@
    }

    /// Number of blocks currently cached.
    pub closed spec fn cached(&self) -> usize {
        self.count
    }

    /// Number of promotions so far.
    pub closed spec fn promotion_count(&self) -> u64 {
        self.promotions
    }

    /// Number of collision evictions so far.
    pub closed spec fn eviction_count(&self) -> u64 {
        self.evictions
    }

    /// Every entry sits in the slot its PC maps to, holds a well-formed block,
    /// and the block count is the number of occupied slots.
    pub open spec fn wf(&self) -> bool {
        &&& self.slots().len() == CACHE_SIZE
        &&& forall|i: int|
            0 <= i < CACHE_SIZE ==> (#[trigger] self.slots()[i] matches Some(e) ==> cache_index(
                e.guest_pc,
            ) == i && e.block.wf())
        &&& self.cached() == occupied(self.slots())
    }

    /// The entry cached for `pc`, if the slot `pc` maps to holds it.
    pub open spec fn entry_for(&self, pc: u64) -> Option<CacheEntry<O>> {
        slot_entry(self.slots(), pc)
    }

    /// Create an empty JIT cache.
    pub fn new() -> (c: Self)
        ensures
            c.wf(),
            forall|i: int| 0 <= i < CACHE_SIZE ==> #[trigger] c.slots()[i] is None,
            c.cached() == 0,
            c.promotion_count() == 0,
            c.eviction_count() == 0,
    {
        let mut entries: Vec<Option<CacheEntry<O>>> = Vec::with_capacity(CACHE_SIZE);
        let mut i: usize = 0;
        while i < CACHE_SIZE
            invariant
                0 <= i <= CACHE_SIZE,
                entries@.len() == i,
                forall|j: int| 0 <= j < i ==> #[trigger] entries@[j] is None,
            decreases CACHE_SIZE - i,
        {
            entries.push(None);
            i += 1;
        }
        proof {
            lemma_occupied_all_none(entries@);
        }
        JitCache { entries, count: 0, promotions: 0, evictions: 0 }
    }

    /// Compute the cache slot of a guest PC.
    pub fn index(pc: u64) -> (r: usize)
        ensures
            r as int == cache_index(pc),
            r < CACHE_SIZE,
    {
        proof {
            lemma_cache_index_bound(pc);
        }
        ((pc >> 2u64) & CACHE_MASK) as usize
    }

    /// Look up a compiled block by guest PC (no heat tracking).
    pub fn lookup(&self, pc: u64) -> (r: Option<&CompiledBlock<O>>)
        requires
            self.wf(),
        ensures
            match self.entry_for(pc) {
                Some(e) => r matches Some(b) && *b == e.block,
                None => r is None,
            },
    {
        let idx = Self::index(pc);
        match &self.entries[idx] {
            Some(e) => if e.guest_pc == pc {
                Some(&e.block)
            } else {
                None
            },
            None => None,
        }
    }

    /// Take the entry out of slot `idx`, leaving it empty.
    fn take_slot(&mut self, idx: usize) -> (r: Option<CacheEntry<O>>)
        requires
            idx < old(self).slots().len(),
        ensures
            r == old(self).slots()[idx as int],
            final(self).slots() == old(self).slots().update(idx as int, None),
            final(self).cached() == old(self).cached(),
            final(self).promotion_count() == old(self).promotion_count(),
            final(self).eviction_count() == old(self).eviction_count(),
    {
        let mut tmp: Option<CacheEntry<O>> = None;
        std::mem::swap(&mut self.entries[idx], &mut tmp);
        tmp
    }

    /// Look up a compiled block and increment its execution count
    /// (saturating). Returns the block, the updated count and the tier.
    pub fn lookup_hot(&mut self, pc: u64) -> (r: Option<CacheLookup<'_, O>>)
        requires
            old(self).wf(),
        ensures
            final(self).wf(),
            final(self).cached() == old(self).cached(),
            final(self).promotion_count() == old(self).promotion_count(),
            final(self).eviction_count() == old(self).eviction_count(),
            match old(self).entry_for(pc) {
                Some(e) => {
                    let e2 = CacheEntry { exec_count: sat_inc(e.exec_count), ..e };
                    &&& final(self).slots() == old(self).slots().update(cache_index(pc), Some(e2))
                    &&& r matches Some(hit) && *hit.block == e.block && hit.exec_count == e2.exec_count
                        && hit.tier == e.tier
                },
                None => r is None && final(self).slots() == old(self).slots(),
            },
    {
        let idx = Self::index(pc);
        let hit = match &self.entries[idx] {
            Some(e) => e.guest_pc == pc,
            None => false,
        };
        if !hit {
            return None;
        }
        let slot = self.take_slot(idx);
        match slot {
            Some(mut e) => {
                e.exec_count = e.exec_count.saturating_add(1);
                self.entries.set(idx, Some(e));
            },
            None => {},
        }
        proof {
            assert(self.slots() =~= old(self).slots().update(cache_index(pc), self.slots()[idx as int]));
            lemma_occupied_update(old(self).slots(), idx as int, self.slots()[idx as int]);
        }
        match &self.entries[idx] {
            Some(e) => Some(CacheLookup { block: &e.block, exec_count: e.exec_count, tier: e.tier }),
            None => None,
        }
    }

    /// Insert a compiled block into the cache as a baseline (stencil) block.
    ///
    /// On collision, the previous entry at this slot is evicted.
    pub fn insert(&mut self, block: CompiledBlock<O>)
        requires
            old(self).wf(),
            block.wf(),
        ensures
            final(self).wf(),
            final(self).slots() == old(self).slots().update(
                cache_index(block.guest_pc),
                Some(CacheEntry { guest_pc: block.guest_pc, block, exec_count: 0, tier: JitTier::Stencil }),
            ),
            final(self).cached() == old(self).cached() + (if old(self).slots()[cache_index(block.guest_pc)] is None {
                1int
            } else {
                0
            }),
            final(self).eviction_count() == (if old(self).slots()[cache_index(block.guest_pc)] matches Some(e) && e.guest_pc != block.guest_pc {
                sat_inc64(old(self).eviction_count())
            } else {
                old(self).eviction_count()
            }),
            final(self).promotion_count() == old(self).promotion_count(),
    {
        self.insert_with_tier(block, JitTier::Stencil);
    }

    /// Insert a compiled block with an explicit tier tag, with a fresh
    /// execution count. A different block in its slot is evicted (and counted);
    /// a block for the same PC is replaced.
    pub fn insert_with_tier(&mut self, block: CompiledBlock<O>, tier: JitTier)
        requires
            old(self).wf(),
            block.wf(),
        ensures
            final(self).wf(),
            final(self).slots() == old(self).slots().update(
                cache_index(block.guest_pc),
                Some(CacheEntry { guest_pc: block.guest_pc, block, exec_count: 0, tier }),
            ),
            final(self).cached() == old(self).cached() + (if old(self).slots()[cache_index(block.guest_pc)] is None {
                1int
            } else {
                0
            }),
            final(self).eviction_count() == (if old(self).slots()[cache_index(block.guest_pc)] matches Some(e) && e.guest_pc != block.guest_pc {
                sat_inc64(old(self).eviction_count())
            } else {
                old(self).eviction_count()
            }),
            final(self).promotion_count() == old(self).promotion_count(),
    {
        let pc = block.guest_pc;
        let idx = Self::index(pc);
        let occupied_now = match &self.entries[idx] {
            Some(existing) => {
                if existing.guest_pc != pc {
                    self.evictions = self.evictions.saturating_add(1);
                }
                true
            },
            None => false,
        };
        proof {
            lemma_occupied_bound(self.slots());
            lemma_occupied_update(
                self.slots(),
                idx as int,
                Some(CacheEntry { guest_pc: pc, block, exec_count: 0, tier }),
            );
        }
        if !occupied_now {
            self.count = self.count + 1;
        }
        self.entries.set(idx, Some(CacheEntry { guest_pc: pc, block, exec_count: 0, tier }));
    }

    /// Replace a cached block with a promoted version, keeping its execution
    /// count. Returns `true` if the slot held the block for `pc`.
    pub fn promote(&mut self, pc: u64, block: CompiledBlock<O>, tier: JitTier) -> (r: bool)
        requires
            old(self).wf(),
            block.wf(),
        ensures
            final(self).wf(),
            r == (old(self).entry_for(pc) is Some),
            final(self).cached() == old(self).cached(),
            final(self).eviction_count() == old(self).eviction_count(),
            match old(self).entry_for(pc) {
                Some(e) => {
                    &&& final(self).slots() == old(self).slots().update(
                        cache_index(pc),
                        Some(CacheEntry { guest_pc: pc, block, exec_count: e.exec_count, tier }),
                    )
                    &&& final(self).promotion_count() == sat_inc64(old(self).promotion_count())
                },
                None => final(self).slots() == old(self).slots() && final(self).promotion_count()
                    == old(self).promotion_count(),
            },
    {
        let idx = Self::index(pc);
        let old_count = match &self.entries[idx] {
            Some(entry) => if entry.guest_pc == pc {
                Some(entry.exec_count)
            } else {
                None
            },
            None => None,
        };
        match old_count {
            Some(exec_count) => {
                proof {
                    lemma_occupied_update(
                        self.slots(),
                        idx as int,
                        Some(CacheEntry { guest_pc: pc, block, exec_count, tier }),
                    );
                }
                self.entries.set(idx, Some(CacheEntry { guest_pc: pc, block, exec_count, tier }));
                self.promotions = self.promotions.saturating_add(1);
                true
            },
            None => false,
        }
    }

    /// Flush all entries from the cache (counters of promotions and evictions
    /// are kept).
    pub fn flush(&mut self)
        requires
            old(self).wf(),
        ensures
            final(self).wf(),
            forall|i: int| 0 <= i < CACHE_SIZE ==> #[trigger] final(self).slots()[i] is None,
            final(self).cached() == 0,
            final(self).promotion_count() == old(self).promotion_count(),
            final(self).eviction_count() == old(self).eviction_count(),
    {
        let mut i: usize = 0;
        while i < CACHE_SIZE
            invariant
                0 <= i <= CACHE_SIZE,
                self.slots().len() == CACHE_SIZE,
                forall|j: int| 0 <= j < i ==> #[trigger] self.slots()[j] is None,
                forall|j: int|
                    0 <= j < CACHE_SIZE ==> (#[trigger] self.slots()[j] matches Some(e) ==> cache_index(
                        e.guest_pc,
                    ) == j && e.block.wf()),
                self.promotion_count() == old(self).promotion_count(),
                self.eviction_count() == old(self).eviction_count(),
            decreases CACHE_SIZE - i,
        {
            self.entries.set(i, None);
            i += 1;
        }
        self.count = 0;
        proof {
            lemma_occupied_all_none(self.slots());
        }
    }

    /// After the block for `new_block_pc` was inserted, patch every cached
    /// block's unlinked exits to `new_block_pc` with `jmp rel32` to its entry.
    ///
    /// Does nothing when `new_block_pc` is not cached. A block whose buffer
    /// cannot be remapped is dropped from the cache.
    pub fn link_waiters(&mut self, new_block_pc: u64)
        requires
            old(self).wf(),
        ensures
            final(self).wf(),
            waiters_linked(old(self).slots(), final(self).slots(), new_block_pc),
            final(self).promotion_count() == old(self).promotion_count(),
            final(self).eviction_count() == old(self).eviction_count(),
    {
        let idx = Self::index(new_block_pc);
        let target_rx = match &self.entries[idx] {
            Some(e) => if e.guest_pc == new_block_pc {
                e.block.entry
            } else {
                return;
            },
            None => {
                return;
            },
        };
        self.rewrite_sites(new_block_pc, target_rx, true);
    }

    /// Restore `ret + nop×4` at every linked exit to `evicted_pc` (before
    /// that block is evicted). A block whose buffer cannot be remapped is
    /// dropped from the cache.
    pub fn unlink_block(&mut self, evicted_pc: u64)
        requires
            old(self).wf(),
        ensures
            final(self).wf(),
            cache_rewritten(old(self).slots(), final(self).slots(), evicted_pc, 0, false),
            final(self).promotion_count() == old(self).promotion_count(),
            final(self).eviction_count() == old(self).eviction_count(),
    {
        self.rewrite_sites(evicted_pc, 0, false);
    }

    /// Rewrite the exits of every cached block (see `cache_rewritten`).
    fn rewrite_sites(&mut self, pc: u64, target_rx: u64, linking: bool)
        requires
            old(self).wf(),
            !linking ==> target_rx == 0,
        ensures
            final(self).wf(),
            cache_rewritten(old(self).slots(), final(self).slots(), pc, target_rx, linking),
            final(self).promotion_count() == old(self).promotion_count(),
            final(self).eviction_count() == old(self).eviction_count(),
    {
        let mut i: usize = 0;
        while i < CACHE_SIZE
            invariant
                0 <= i <= CACHE_SIZE,
                self.wf(),
                !linking ==> target_rx == 0,
                old(self).slots().len() == CACHE_SIZE,
                forall|k: int|
                    0 <= k < i ==> #[trigger] slot_rewritten(
                        old(self).slots()[k],
                        self.slots()[k],
                        pc,
                        target_rx,
                        linking,
                    ),
                forall|k: int| i <= k < CACHE_SIZE ==> #[trigger] self.slots()[k] == old(self).slots()[k],
                self.promotion_count() == old(self).promotion_count(),
                self.eviction_count() == old(self).eviction_count(),
            decreases CACHE_SIZE - i,
        {
            let ghost mid = self.slots();
            let slot = self.take_slot(i);
            match slot {
                None => {
                    proof {
                        assert(mid.update(i as int, None) =~= mid);
                    }
                },
                Some(mut e) => {
                    let ghost b0 = e.block;
                    let ok = if linking {
                        link_block_sites(&mut e.block, pc, target_rx)
                    } else {
                        unlink_block_sites(&mut e.block, pc)
                    };
                    proof {
                        lemma_occupied_update(mid, i as int, None);
                    }
                    if ok {
                        proof {
                            lemma_occupied_update(mid.update(i as int, None), i as int, Some(e));
                            assert(mid.update(i as int, None).update(i as int, Some(e)) =~= mid.update(
                                i as int,
                                Some(e),
                            ));
                        }
                        self.entries.set(i, Some(e));
                    } else {
                        self.count = self.count - 1;
                    }
                    proof {
                        assert(mid[i as int] == old(self).slots()[i as int]);
                        assert(slot_rewritten(
                            old(self).slots()[i as int],
                            self.slots()[i as int],
                            pc,
                            target_rx,
                            linking,
                        ));
                    }
                },
            }
            proof {
                assert forall|k: int| 0 <= k < i + 1 implies #[trigger] slot_rewritten(
                    old(self).slots()[k],
                    self.slots()[k],
                    pc,
                    target_rx,
                    linking,
                ) by {
                    if k < i {
                        assert(self.slots()[k] == mid[k]);
                    }
                }
            }
            i += 1;
        }
    }

    /// Number of blocks currently in the cache.
    pub fn len(&self) -> (r: usize)
        ensures
            r == self.cached(),
    {
        self.count
    }

    /// Returns `true` if the cache is empty.
    pub fn is_empty(&self) -> (r: bool)
        ensures
            r == (self.cached() == 0),
    {
        self.count == 0
    }

    /// Number of blocks promoted from one tier to another.
    pub fn promotions(&self) -> (r: u64)
        ensures
            r == self.promotion_count(),
    {
        self.promotions
    }

    /// Number of cache entries evicted due to index collisions.
    pub fn evictions(&self) -> (r: u64)
        ensures
            r == self.eviction_count(),
    {
        self.evictions
    }
}

/// The cache entry an insertion stores.
pub open spec fn inserted_entry<O>(block: CompiledBlock<O>, tier: JitTier) -> CacheEntry<O> {
    CacheEntry { guest_pc: block.guest_pc, block, exec_count: 0, tier }
}

/// Read after write: after inserting a block, looking up its PC finds that
/// block, with a fresh execution count and the given tier; PCs of other
/// slots are unaffected.
pub proof fn lemma_lookup_after_insert<O>(
    before: JitCache<O>,
    after: JitCache<O>,
    block: CompiledBlock<O>,
    tier: JitTier,
    other: u64,
)
    requires
        before.wf(),
        after.slots() == before.slots().update(cache_index(block.guest_pc), Some(inserted_entry(block, tier))),
    ensures
        after.entry_for(block.guest_pc) == Some(inserted_entry(block, tier)),
        cache_index(other) != cache_index(block.guest_pc) ==> after.entry_for(other) == before.entry_for(
            other,
        ),
{
    lemma_cache_index_bound(block.guest_pc);
    lemma_cache_index_bound(other);
}

/// Collision: inserting a block whose PC maps to the slot of another cached
/// PC evicts that PC.
pub proof fn lemma_collision_evicts<O>(
    before: JitCache<O>,
    after: JitCache<O>,
    block: CompiledBlock<O>,
    tier: JitTier,
    evicted: u64,
)
    requires
        before.wf(),
        after.slots() == before.slots().update(cache_index(block.guest_pc), Some(inserted_entry(block, tier))),
        cache_index(evicted) == cache_index(block.guest_pc),
        evicted != block.guest_pc,
    ensures
        after.entry_for(evicted) is None,
{
    lemma_cache_index_bound(block.guest_pc);
}

/// Two PCs 4096 instructions apart share a slot.
pub proof fn lemma_index_period(pc: u64)
    requires
        pc + 4 * CACHE_SIZE <= u64::MAX,
    ensures
        cache_index((pc + 4 * CACHE_SIZE) as u64) == cache_index(pc),
{
    let q = (pc + 16384) as u64;
    assert((q >> 2u64) & 4095u64 == (pc >> 2u64) & 4095u64) by (bit_vector)
        requires
            q == pc + 16384,
    ;
}

/// After a flush no PC is cached.
pub proof fn lemma_flush_forgets<O>(c: JitCache<O>, pc: u64)
    requires
        c.wf(),
        forall|i: int| 0 <= i < CACHE_SIZE ==> #[trigger] c.slots()[i] is None,
    ensures
        c.entry_for(pc) is None,
{
    lemma_cache_index_bound(pc);
}

/// A well-formed cache never holds more blocks than it has slots.
pub proof fn lemma_cached_bound<O>(c: JitCache<O>)
    requires
        c.wf(),
    ensures
        c.cached() <= CACHE_SIZE,
{
    lemma_occupied_bound(c.slots());
}

/// The slot of a PC is one of the cache's slots.
pub proof fn lemma_cache_index_bound(pc: u64)
    ensures
        0 <= cache_index(pc) < CACHE_SIZE,
{
    assert((pc >> 2u64) & 4095u64 <= 4095u64) by (bit_vector);
}

/// A slot sequence with nothing in it has no occupied slot.
pub proof fn lemma_occupied_all_none<T>(s: Seq<Option<T>>)
    requires
        forall|j: int| 0 <= j < s.len() ==> #[trigger] s[j] is None,
    ensures
        occupied(s) == 0,
    decreases s.len(),
{
    if s.len() > 0 {
        assert forall|j: int| 0 <= j < s.drop_last().len() implies #[trigger] s.drop_last()[j] is None by {
            assert(s.drop_last()[j] == s[j]);
        }
        lemma_occupied_all_none(s.drop_last());
    }
}

/// Replacing one slot changes the occupied count by the change of that slot.
pub proof fn lemma_occupied_update<T>(s: Seq<Option<T>>, i: int, v: Option<T>)
    requires
        0 <= i < s.len(),
    ensures
        occupied(s.update(i, v)) + (if s[i] is Some {
            1int
        } else {
            0
        }) == occupied(s) + (if v is Some {
            1int
        } else {
            0
        }),
    decreases s.len(),
{
    if i == s.len() - 1 {
        assert(s.update(i, v).drop_last() =~= s.drop_last());
    } else {
        lemma_occupied_update(s.drop_last(), i, v);
        assert(s.update(i, v).drop_last() =~= s.drop_last().update(i, v));
    }
}

/// At most every slot is occupied.
pub proof fn lemma_occupied_bound<T>(s: Seq<Option<T>>)
    ensures
        occupied(s) <= s.len(),
    decreases s.len(),
{
    if s.len() > 0 {
        lemma_occupied_bound(s.drop_last());
    }
}

} // verus!
