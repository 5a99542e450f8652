//! Runtime policy of the JIT dispatch loop: configuration, backend selection,
//! block-cache probing, compile-on-miss, hot-tier promotion, block-exit
//! accounting, trace-recording decisions and the bounded interpreter
//! fallback.
//!
//! Running compiled code is outside work: the host calls the block's entry
//! between `prepare_block_entry` and `finish_block_exit`.

use crate::backend::JitBackend;
use crate::block::CompiledBlock;
use crate::cache::{
    cache_index, sat_inc64, waiters_linked, CacheEntry, CacheLookup, JitCache, JitTier, PROMOTE_THRESHOLD,
};
use crate::regs::{REG_COUNT, REG_JIT_MEM_READ, REG_JIT_MEM_WRITE, REG_JIT_RETIRED, REG_JIT_SE_TLB, REG_XZR};
use crate::stencil::types::HelperAddresses;
use crate::dynasm::DynasmBackend;
use crate::stencil::backend::{StencilBackend, StencilBackendRv64, StencilIsa};
use vstd::prelude::*;
use vstd::string::StringSliceAdditionalSpecFns;

verus! {

/// JIT runtime policy knobs shared between host and executor.
#[derive(Debug, Clone, Copy, PartialEq, Eq)]
pub struct JitRuntimeConfig {
    /// Maximum interpreter instructions to run after a JIT fallback before
    /// re-entering the JIT loop.
    pub interp_fallback_batch_insns: u64,
    /// Whether compiled traces may execute ahead of block-JIT dispatch.
    pub trace_dispatch_enabled: bool,
}

impl Default for JitRuntimeConfig {
    fn default() -> (c: Self)
        ensures
            c.interp_fallback_batch_insns == 256,
            !c.trace_dispatch_enabled,
    {
        JitRuntimeConfig { interp_fallback_batch_insns: 256, trace_dispatch_enabled: false }
    }
}

/// Backend activation policy for AArch64 JIT execution.
#[derive(Debug, Clone, Copy, PartialEq, Eq, Structural)]
pub enum Aarch64JitBackendPolicy {
    /// Use dynasm as the sole AArch64 backend.
    DynasmOnly,
    /// Use stencil as the sole AArch64 backend.
    StencilOnly,
    /// Use stencil for baseline blocks and dynasm for hot-tier promotion.
    Tiered,
}

/// Which AArch64 JIT execution mode is active.
#[derive(Debug, Clone, Copy, PartialEq, Eq, Structural)]
pub enum Aarch64JitBackendMode {
    /// The requested backend policy is not available in the current build.
    Unavailable,
    DynasmOnly,
    StencilOnly,
    Tiered,
}

/// The execution mode a backend policy yields, given which backends the
/// build provides.
pub open spec fn backend_mode_spec(
    policy: Aarch64JitBackendPolicy,
    dynasm_available: bool,
    stencil_available: bool,
) -> Aarch64JitBackendMode {
    match policy {
        Aarch64JitBackendPolicy::DynasmOnly => if dynasm_available {
            Aarch64JitBackendMode::DynasmOnly
        } else {
            Aarch64JitBackendMode::Unavailable
        },
        Aarch64JitBackendPolicy::StencilOnly => if stencil_available {
            Aarch64JitBackendMode::StencilOnly
        } else {
            Aarch64JitBackendMode::Unavailable
        },
        Aarch64JitBackendPolicy::Tiered => if dynasm_available && stencil_available {
            Aarch64JitBackendMode::Tiered
        } else {
            Aarch64JitBackendMode::Unavailable
        },
    }
}

/// Decide the execution mode for a backend policy: a policy is available
/// only when every backend it needs is.
pub fn backend_mode(
    policy: Aarch64JitBackendPolicy,
    dynasm_available: bool,
    stencil_available: bool,
) -> (r: Aarch64JitBackendMode)
    ensures
        r == backend_mode_spec(policy, dynasm_available, stencil_available),
{
    match policy {
        Aarch64JitBackendPolicy::DynasmOnly => if dynasm_available {
            Aarch64JitBackendMode::DynasmOnly
        } else {
            Aarch64JitBackendMode::Unavailable
        },
        Aarch64JitBackendPolicy::StencilOnly => if stencil_available {
            Aarch64JitBackendMode::StencilOnly
        } else {
            Aarch64JitBackendMode::Unavailable
        },
        Aarch64JitBackendPolicy::Tiered => if dynasm_available && stencil_available {
            Aarch64JitBackendMode::Tiered
        } else {
            Aarch64JitBackendMode::Unavailable
        },
    }
}

/// An AArch64 backend the runtime can hold.
pub enum Aarch64Backend {
    /// The stencil (copy-and-patch) baseline backend.
    Stencil(StencilBackend),
    /// The dynasm hot-tier backend.
    Dynasm(DynasmBackend),
}

/// The stencil backend as freshly configured for AArch64.
pub open spec fn fresh_stencil_a64() -> Aarch64Backend {
    Aarch64Backend::Stencil(StencilBackend { isa: StencilIsa::Aarch64, mem_read_fn: 0, mem_write_fn: 0 })
}

/// The dynasm backend as freshly created.
pub open spec fn fresh_dynasm() -> Aarch64Backend {
    Aarch64Backend::Dynasm(DynasmBackend {})
}

impl Aarch64Backend {
    /// Human-readable name of the held backend.
    pub fn name(&self) -> (r: &'static str)
        ensures
            self is Stencil ==> r@ == "stencil"@,
            self is Dynasm ==> r@ == "dynasm"@,
    {
        match self {
            Aarch64Backend::Stencil(b) => b.name(),
            Aarch64Backend::Dynasm(b) => b.name(),
        }
    }
}

/// `slot` after creating `fresh` in it when it was empty.
pub open spec fn created_if_missing<T>(before: Option<T>, fresh: T) -> Option<T> {
    match before {
        Some(b) => Some(b),
        None => Some(fresh),
    }
}

/// Ensure the runtime state for AArch64 JIT execution exists for a backend
/// policy (this build provides both backends): a block cache, and the
/// backends the policy runs — dynasm alone, stencil alone, or stencil as the
/// baseline with dynasm as the hot tier. Existing state is kept.
pub fn ensure_aarch64_jit_runtime_state<O>(
    cache: &mut Option<JitCache<O>>,
    backend: &mut Option<Aarch64Backend>,
    hot_backend: &mut Option<Aarch64Backend>,
    policy: Aarch64JitBackendPolicy,
) -> (r: Aarch64JitBackendMode)
    requires
        *old(cache) matches Some(c) ==> c.wf(),
    ensures
        r == backend_mode_spec(policy, true, true),
        *final(cache) matches Some(c) && c.wf(),
        (*old(cache)) is Some ==> *final(cache) == *old(cache),
        *final(backend) == created_if_missing(
            *old(backend),
            if policy == Aarch64JitBackendPolicy::DynasmOnly {
                fresh_dynasm()
            } else {
                fresh_stencil_a64()
            },
        ),
        *final(hot_backend) == (if policy == Aarch64JitBackendPolicy::Tiered {
            created_if_missing(*old(hot_backend), fresh_dynasm())
        } else {
            *old(hot_backend)
        }),
{
    if cache.is_none() {
        *cache = Some(JitCache::new());
    }
    match policy {
        Aarch64JitBackendPolicy::DynasmOnly => {
            if backend.is_none() {
                *backend = Some(Aarch64Backend::Dynasm(DynasmBackend::new()));
            }
        },
        Aarch64JitBackendPolicy::StencilOnly => {
            if backend.is_none() {
                *backend = Some(Aarch64Backend::Stencil(StencilBackend::new_aarch64()));
            }
        },
        Aarch64JitBackendPolicy::Tiered => {
            if backend.is_none() {
                *backend = Some(Aarch64Backend::Stencil(StencilBackend::new_aarch64()));
            }
            if hot_backend.is_none() {
                *hot_backend = Some(Aarch64Backend::Dynasm(DynasmBackend::new()));
            }
        },
    }
    backend_mode(policy, true, true)
}

/// Ensure the runtime state for RISC-V64 stencil JIT exists: a block cache
/// and a backend are created when missing; existing ones are kept.
pub fn ensure_rv64_jit_runtime_state<O>(
    cache: &mut Option<JitCache<O>>,
    backend: &mut Option<Box<StencilBackendRv64>>,
) -> (r: bool)
    requires
        *old(cache) matches Some(c) ==> c.wf(),
    ensures
        r,
        *final(cache) matches Some(c) && c.wf(),
        (*old(cache)) is Some ==> *final(cache) == *old(cache),
        (*final(backend)) is Some,
{
    if cache.is_none() {
        *cache = Some(JitCache::new());
    }
    if backend.is_none() {
        *backend = Some(Box::new(StencilBackendRv64::new()));
    }
    true
}


/// Counters of the JIT runtime.
#[derive(Debug, Clone, Copy, Default)]
pub struct JitPerfStats {
    pub block_cache_hits: u64,
    pub block_cache_misses: u64,
    pub blocks_compiled: u64,
    pub compiled_guest_insns: u64,
    pub blocks_executed: u64,
    pub fallback_count: u64,
    pub unsupported_block_starts: u64,
    pub fallback_insns: u64,
    pub promotions_executed: u64,
}

/// `u64` saturating addition.
pub open spec fn sat_add(a: u64, b: u64) -> u64 {
    if a + b > u64::MAX {
        u64::MAX
    } else {
        (a + b) as u64
    }
}

/// `u64` saturating subtraction.
pub open spec fn sat_sub(a: u64, b: u64) -> u64 {
    if a < b {
        0
    } else {
        (a - b) as u64
    }
}

/// How compiled code reaches guest memory during one dispatch step.
#[derive(Debug, Clone, Copy, PartialEq, Eq, Structural)]
pub enum JitMemoryMode {
    /// Syscall emulation: flat guest memory with the inline TLB whose entries
    /// start at `tlb_base`.
    Se { tlb_base: u64 },
    /// Full system: accesses go through the MMU helpers (no inline TLB).
    Fs,
}

/// Host addresses of the memory helpers of each memory mode.
#[derive(Debug, Clone, Copy, PartialEq, Eq, Structural)]
pub struct MemoryModeHelpers {
    pub se: HelperAddresses,
    pub fs: HelperAddresses,
}

/// The helper-slot contents of the flat register array for a memory mode:
/// the mode's read and write helpers, and the inline-TLB base (0 without one).
pub open spec fn dispatch_slots(flat: Seq<u64>, mode: JitMemoryMode, helpers: MemoryModeHelpers) -> Seq<u64> {
    let (h, tlb) = match mode {
        JitMemoryMode::Se { tlb_base } => (helpers.se, tlb_base),
        JitMemoryMode::Fs => (helpers.fs, 0u64),
    };
    flat.update(REG_JIT_MEM_READ as int, h.mem_read).update(REG_JIT_MEM_WRITE as int, h.mem_write).update(
        REG_JIT_SE_TLB as int,
        tlb,
    )
}

/// Populate the flat-register helper slots for one AArch64 dispatch step.
pub fn prepare_dispatch_slots(flat_regs: &mut [u64; REG_COUNT], mode: JitMemoryMode, helpers: &MemoryModeHelpers)
    ensures
        final(flat_regs)@ == dispatch_slots(old(flat_regs)@, mode, *helpers),
{
    match mode {
        JitMemoryMode::Se { tlb_base } => {
            flat_regs[REG_JIT_MEM_READ] = helpers.se.mem_read;
            flat_regs[REG_JIT_MEM_WRITE] = helpers.se.mem_write;
            flat_regs[REG_JIT_SE_TLB] = tlb_base;
        },
        JitMemoryMode::Fs => {
            flat_regs[REG_JIT_MEM_READ] = helpers.fs.mem_read;
            flat_regs[REG_JIT_MEM_WRITE] = helpers.fs.mem_write;
            flat_regs[REG_JIT_SE_TLB] = 0;
        },
    }
}

/// Result of probing the block cache with hotness tracking.
pub enum BlockCacheProbe<'a, O> {
    /// A compiled block was found in the cache.
    Hit(CacheLookup<'a, O>),
    /// No compiled block exists for the requested guest PC.
    Miss,
}

/// Probe the JIT block cache (counting the execution on a hit) and update
/// the hit/miss counters.
pub fn probe_block_cache<'a, O>(cache: &'a mut JitCache<O>, stats: &mut JitPerfStats, pc: u64) -> (r:
    BlockCacheProbe<'a, O>)
    requires
        old(cache).wf(),
    ensures
        final(cache).wf(),
        match old(cache).entry_for(pc) {
            Some(e) => {
                &&& r matches BlockCacheProbe::Hit(hit) && *hit.block == e.block && hit.exec_count
                    == crate::cache::sat_inc(e.exec_count) && hit.tier == e.tier
                &&& final(stats).block_cache_hits == sat_add(old(stats).block_cache_hits, 1)
                &&& final(stats).block_cache_misses == old(stats).block_cache_misses
            },
            None => {
                &&& r is Miss
                &&& final(cache).slots() == old(cache).slots()
                &&& final(stats).block_cache_misses == sat_add(old(stats).block_cache_misses, 1)
                &&& final(stats).block_cache_hits == old(stats).block_cache_hits
            },
        },
        final(cache).cached() == old(cache).cached(),
{
    match cache.lookup_hot(pc) {
        Some(hit) => {
            stats.block_cache_hits = stats.block_cache_hits.saturating_add(1);
            BlockCacheProbe::Hit(hit)
        },
        None => {
            stats.block_cache_misses = stats.block_cache_misses.saturating_add(1);
            BlockCacheProbe::Miss
        },
    }
}

/// Result of compiling a block after a cache miss.
#[derive(Debug, Clone, Copy, PartialEq, Eq)]
pub enum CompileOnMiss {
    /// A block was compiled, inserted into the cache, and waiters were linked.
    Cached {
        /// Number of guest instructions compiled into the cached block.
        insn_count: u32,
    },
    /// The backend could not compile the first instruction in the block.
    UnsupportedStart {
        /// Why the backend rejected the first instruction.
        reason: Option<&'static str>,
    },
}

/// What installing the outcome `compiled` of a compilation at `pc` does
/// (see `install_compiled_block`).
pub open spec fn install_outcome<O>(
    cache_before: JitCache<O>,
    cache_after: JitCache<O>,
    stats_before: JitPerfStats,
    stats_after: JitPerfStats,
    compiled: Option<CompiledBlock<O>>,
    reject_reason: Option<&'static str>,
    tier: JitTier,
    pc: u64,
    r: CompileOnMiss,
) -> bool {
    match compiled {
        Some(block) if block.wf() => {
            let slot = cache_index(block.guest_pc);
            &&& r == (CompileOnMiss::Cached { insn_count: block.insn_count })
            &&& stats_after == (JitPerfStats {
                blocks_compiled: sat_add(stats_before.blocks_compiled, 1),
                compiled_guest_insns: sat_add(stats_before.compiled_guest_insns, block.insn_count as u64),
                ..stats_before
            })
            &&& waiters_linked(
                cache_before.slots().update(
                    slot,
                    Some(CacheEntry { guest_pc: block.guest_pc, block, exec_count: 0, tier }),
                ),
                cache_after.slots(),
                pc,
            )
            &&& cache_after.promotion_count() == cache_before.promotion_count()
            &&& cache_after.eviction_count() == (if cache_before.slots()[slot] matches Some(e)
                && e.guest_pc != block.guest_pc {
                sat_inc64(cache_before.eviction_count())
            } else {
                cache_before.eviction_count()
            })
        },
        _ => r == (CompileOnMiss::UnsupportedStart { reason: reject_reason }) && cache_after
            == cache_before && stats_after == stats_before,
    }
}

/// The block of a compilation result that the runtime can install: a
/// well-formed one (a malformed block counts as a rejection).
pub open spec fn usable_block<O>(compiled: Option<CompiledBlock<O>>) -> Option<CompiledBlock<O>> {
    match compiled {
        Some(b) if b.wf() => Some(b),
        _ => None,
    }
}

/// Some backend result installed at `pc` (with some reject reason and tier)
/// turned the cache and counters `before` into `after` and cached a block of
/// `insn_count` instructions.
pub open spec fn compiled_into<O>(
    cache_before: JitCache<O>,
    cache_after: JitCache<O>,
    stats_before: JitPerfStats,
    stats_after: JitPerfStats,
    pc: u64,
    insn_count: u32,
) -> bool {
    exists|compiled: Option<CompiledBlock<O>>, reason: Option<&'static str>, tier: JitTier|
        #[trigger] install_outcome(
            cache_before,
            cache_after,
            stats_before,
            stats_after,
            compiled,
            reason,
            tier,
            pc,
            CompileOnMiss::Cached { insn_count },
        )
}

/// Insert a block compiled after a cache miss (or record that the start was
/// unsupported): the block is cached under `tier`, exits waiting for `pc` are
/// linked to it, and the compile counters grow. A malformed block is treated
/// as unsupported.
pub fn install_compiled_block<O>(
    cache: &mut JitCache<O>,
    stats: &mut JitPerfStats,
    compiled: Option<CompiledBlock<O>>,
    reject_reason: Option<&'static str>,
    tier: JitTier,
    pc: u64,
) -> (r: CompileOnMiss)
    requires
        old(cache).wf(),
        compiled matches Some(b) ==> b.code_in_bounds(),
    ensures
        final(cache).wf(),
        install_outcome(
            *old(cache),
            *final(cache),
            *old(stats),
            *final(stats),
            compiled,
            reject_reason,
            tier,
            pc,
            r,
        ),
{
    match compiled {
        Some(block) => {
            if !block.check_wf() {
                return CompileOnMiss::UnsupportedStart { reason: reject_reason };
            }
            let insn_count = block.insn_count;
            stats.blocks_compiled = stats.blocks_compiled.saturating_add(1);
            stats.compiled_guest_insns = stats.compiled_guest_insns.saturating_add(insn_count as u64);
            cache.insert_with_tier(block, tier);
            cache.link_waiters(pc);
            CompileOnMiss::Cached { insn_count }
        },
        None => CompileOnMiss::UnsupportedStart { reason: reject_reason },
    }
}

/// Compile a decoded block after a cache miss with `backend` and insert it
/// into the cache under `tier` (see `install_compiled_block`).
pub fn compile_block_on_miss<Insn, O, B: JitBackend<Insn, O>>(
    cache: &mut JitCache<O>,
    stats: &mut JitPerfStats,
    backend: &mut B,
    tier: JitTier,
    pc: u64,
    insns: &[Insn],
) -> (r: CompileOnMiss)
    requires
        old(cache).wf(),
    ensures
        final(cache).wf(),
        r is UnsupportedStart ==> *final(cache) == *old(cache) && *final(stats) == *old(stats),
        final(backend).outputs() == old(backend).outputs().push(final(backend).outputs().last()),
        install_outcome(
            *old(cache),
            *final(cache),
            *old(stats),
            *final(stats),
            final(backend).outputs().last(),
            final(backend).rejection(),
            tier,
            pc,
            r,
        ),
{
    let compiled = backend.compile_block(pc, insns);
    let reason = backend.last_reject_reason();
    install_compiled_block(cache, stats, compiled, reason, tier, pc)
}

/// The tier a backend's blocks belong to: the runtime code generator is the
/// hot tier, every other backend the baseline.
pub open spec fn tier_of_name(name_bytes: Seq<u8>) -> JitTier {
    if name_bytes == seq![0x64u8, 0x79u8, 0x6Eu8, 0x61u8, 0x73u8, 0x6Du8] {
        JitTier::Dynasm
    } else {
        JitTier::Stencil
    }
}

/// The tier of a backend, from its name (`"dynasm"` is the hot tier).
pub fn tier_for_backend_name(name: &str) -> (r: JitTier)
    ensures
        r == tier_of_name(name.spec_bytes()),
{
    let b = name.as_bytes();
    let is_dynasm = b.len() == 6 && b[0] == 0x64 && b[1] == 0x79 && b[2] == 0x6E && b[3] == 0x61
        && b[4] == 0x73 && b[5] == 0x6D;
    proof {
        if is_dynasm {
            assert(b@ =~= seq![0x64u8, 0x79u8, 0x6Eu8, 0x61u8, 0x73u8, 0x6Du8]);
        }
    }
    if is_dynasm {
        JitTier::Dynasm
    } else {
        JitTier::Stencil
    }
}

/// Clear the retired-instruction slot before a block runs, so that a stale
/// count from an earlier block cannot be read back (if the array has the slot).
pub fn prepare_block_entry(flat_regs: &mut [u64])
    ensures
        final(flat_regs)@ == (if REG_JIT_RETIRED < old(flat_regs)@.len() {
            old(flat_regs)@.update(REG_JIT_RETIRED as int, 0)
        } else {
            old(flat_regs)@
        }),
{
    if REG_JIT_RETIRED < flat_regs.len() {
        flat_regs[REG_JIT_RETIRED] = 0;
    }
}

/// Guest instructions a block retired: the count its exit path recorded, or
/// the block's compiled count when none was recorded.
pub open spec fn block_retired(flat: Seq<u64>, insn_count: u32) -> u64 {
    let recorded = if REG_JIT_RETIRED < flat.len() {
        flat[REG_JIT_RETIRED as int]
    } else {
        0
    };
    if recorded > 0 {
        recorded
    } else {
        insn_count as u64
    }
}

/// Account for a block that just returned: re-zero the XZR sentinel (a
/// stencil may have written it; a register file too short to hold it is
/// left alone), and add the instructions it retired to `retired` and take
/// them from `budget_remaining` (both saturating).
pub fn finish_block_exit(
    stats: &mut JitPerfStats,
    flat_regs: &mut [u64],
    insn_count: u32,
    retired: &mut u64,
    budget_remaining: &mut u64,
)
    ensures
        final(flat_regs)@ == (if REG_XZR < old(flat_regs)@.len() {
            old(flat_regs)@.update(REG_XZR as int, 0)
        } else {
            old(flat_regs)@
        }),
        *final(stats) == (JitPerfStats {
            blocks_executed: sat_add(old(stats).blocks_executed, 1),
            ..*old(stats)
        }),
        *final(retired) == sat_add(*old(retired), block_retired(final(flat_regs)@, insn_count)),
        *final(budget_remaining) == sat_sub(
            *old(budget_remaining),
            block_retired(final(flat_regs)@, insn_count),
        ),
{
    stats.blocks_executed = stats.blocks_executed.saturating_add(1);
    if REG_XZR < flat_regs.len() {
        flat_regs[REG_XZR] = 0;
    }
    let actual_retired = if REG_JIT_RETIRED < flat_regs.len() {
        flat_regs[REG_JIT_RETIRED]
    } else {
        0
    };
    let block_insns = if actual_retired > 0 {
        actual_retired
    } else {
        insn_count as u64
    };
    *retired = retired.saturating_add(block_insns);
    *budget_remaining = budget_remaining.saturating_sub(block_insns);
}

/// Whether a cache hit should be recompiled by the hot tier: exactly when a
/// baseline block reaches the promotion threshold and its instructions are
/// available.
pub open spec fn should_promote(exec_count: u32, tier: JitTier, n_insns: nat) -> bool {
    exec_count == PROMOTE_THRESHOLD && tier == JitTier::Stencil && n_insns > 0
}

/// Recompile a hot baseline block with the hot-tier backend and replace the
/// cached block with it. Returns `true` if the block was promoted.
pub fn promote_hot_block<Insn, O, B: JitBackend<Insn, O>>(
    cache: &mut JitCache<O>,
    hot_backend: Option<&mut B>,
    pc: u64,
    exec_count: u32,
    tier: JitTier,
    decoded_insns: &[Insn],
) -> (r: bool)
    requires
        old(cache).wf(),
    ensures
        final(cache).wf(),
        !should_promote(exec_count, tier, decoded_insns@.len()) ==> !r && *final(cache) == *old(cache),
        r ==> old(cache).entry_for(pc) is Some,
        r ==> (final(cache).entry_for(pc) matches Some(e) && e.tier == JitTier::Dynasm && e.exec_count
            == old(cache).entry_for(pc)->Some_0.exec_count),
        !r ==> final(cache).slots() == old(cache).slots(),
        hot_backend is None ==> !r,
        should_promote(exec_count, tier, decoded_insns@.len()) && hot_backend is Some ==> {
            let compiled = final(hot_backend->Some_0).outputs().last();
            &&& final(hot_backend->Some_0).outputs() == old(hot_backend->Some_0).outputs().push(compiled)
            &&& r == (usable_block(compiled) is Some && old(cache).entry_for(pc) is Some)
            &&& r ==> final(cache).slots() == old(cache).slots().update(
                cache_index(pc),
                Some(
                    CacheEntry {
                        guest_pc: pc,
                        block: compiled->Some_0,
                        exec_count: old(cache).entry_for(pc)->Some_0.exec_count,
                        tier: JitTier::Dynasm,
                    },
                ),
            )
        },
        final(cache).promotion_count() == (if r {
            sat_inc64(old(cache).promotion_count())
        } else {
            old(cache).promotion_count()
        }),
        final(cache).eviction_count() == old(cache).eviction_count(),
        final(cache).cached() == old(cache).cached(),
{
    if exec_count != PROMOTE_THRESHOLD || tier != JitTier::Stencil || decoded_insns.len() == 0 {
        return false;
    }
    let hot_backend = match hot_backend {
        Some(b) => b,
        None => return false,
    };
    let promoted = match hot_backend.compile_block(pc, decoded_insns) {
        Some(b) => b,
        None => return false,
    };
    if !promoted.check_wf() {
        return false;
    }
    proof {
        crate::cache::lemma_cache_index_bound(pc);
    }
    cache.promote(pc, promoted, JitTier::Dynasm)
}

/// Decision for whether the current executed block should be decoded and
/// fed into the trace recorder.
#[derive(Debug, Clone, Copy, PartialEq, Eq, Structural)]
pub enum TraceRecordPlan {
    /// The current block does not participate in trace recording.
    Ignore,
    /// Decode the current block and feed it into the active trace recording.
    DecodeCurrentBlock,
}

/// The recording decision: a block joins the trace when a recording was
/// already active, or when this backward edge just started one and the block
/// branches to its own start (a self loop).
pub open spec fn trace_record_plan_spec(was_recording: bool, started_now: bool, start_pc: u64, next_pc: u64) -> TraceRecordPlan {
    if was_recording || (started_now && start_pc == next_pc) {
        TraceRecordPlan::DecodeCurrentBlock
    } else {
        TraceRecordPlan::Ignore
    }
}

/// The part of a hot-trace recorder the dispatch loop drives.
///
/// An implementation describes itself by three spec functions (which it
/// overrides; callers never rely on the defaults): whether it is recording,
/// whether a backward branch to a target would start a recording, and the
/// targets of the backward branches reported to it so far; its methods
/// answer and record accordingly.
pub trait TraceRecording {
    /// The recorder is recording a trace.
    open spec fn recording(&self) -> bool {
        vstd::pervasive::arbitrary()
    }

    /// Reporting a backward branch to `target_pc` now would start a
    /// recording.
    open spec fn starts_on(&self, target_pc: u64) -> bool {
        vstd::pervasive::arbitrary()
    }

    /// The targets of the backward branches reported so far, in order.
    open spec fn reported(&self) -> Seq<u64> {
        vstd::pervasive::arbitrary()
    }

    /// Whether a trace is being recorded.
    fn is_recording(&self) -> (r: bool)
        ensures
            r == self.recording(),
    ;

    /// Note a backward branch to `target_pc`; returns `true` if this started
    /// a recording.
    fn on_backward_branch(&mut self, target_pc: u64) -> (r: bool)
        ensures
            r == old(self).starts_on(target_pc),
            final(self).reported() == old(self).reported().push(target_pc),
    ;
}

/// The recording decision, from what the recorder reported: whether it was
/// recording before the block, and whether this block's backward edge
/// started a recording.
pub fn decide_trace_record_plan(was_recording: bool, started_now: bool, start_pc: u64, next_pc: u64) -> (r:
    TraceRecordPlan)
    ensures
        r == trace_record_plan_spec(was_recording, started_now, start_pc, next_pc),
{
    if was_recording || (started_now && start_pc == next_pc) {
        TraceRecordPlan::DecodeCurrentBlock
    } else {
        TraceRecordPlan::Ignore
    }
}

/// Decide whether the executed block `start_pc -> next_pc` should be decoded
/// and recorded as part of a hot-trace candidate. Only a backward (or self)
/// edge is reported to the recorder; a forward edge leaves it untouched.
pub fn plan_aarch64_trace_recording<R: TraceRecording>(recorder: &mut R, start_pc: u64, next_pc: u64) -> (r:
    TraceRecordPlan)
    ensures
        r == trace_record_plan_spec(
            old(recorder).recording(),
            next_pc <= start_pc && old(recorder).starts_on(next_pc),
            start_pc,
            next_pc,
        ),
        final(recorder).reported() == (if next_pc <= start_pc {
            old(recorder).reported().push(next_pc)
        } else {
            old(recorder).reported()
        }),
        next_pc > start_pc ==> *final(recorder) == *old(recorder),
{
    let was_recording = recorder.is_recording();
    let started_now = next_pc <= start_pc && recorder.on_backward_branch(next_pc);
    decide_trace_record_plan(was_recording, started_now, start_pc, next_pc)
}

/// Result of executing a bounded interpreter fallback batch.
#[derive(Debug, Clone, PartialEq, Eq)]
pub enum InterpreterFallback<S> {
    /// The interpreter consumed a bounded batch and the JIT loop may resume.
    Resume {
        /// Number of instructions retired by the interpreter batch.
        consumed: u64,
        /// Remaining JIT budget after the interpreter batch completed.
        budget_remaining: u64,
    },
    /// The host produced a terminal or non-resumable stop reason.
    Stop {
        /// Host-specific stop reason returned by the interpreter batch.
        stop: S,
        /// Number of instructions retired by the interpreter batch.
        consumed: u64,
        /// Remaining JIT budget after the interpreter batch completed.
        budget_remaining: u64,
    },
}

/// The outcome of an interpreter batch that retired `consumed`
/// instructions: the JIT loop resumes only after a resumable stop with budget
/// left.
pub open spec fn fallback_outcome_spec<S>(stop: S, resumable: bool, consumed: u64, budget: u64) -> InterpreterFallback<S> {
    let left = sat_sub(budget, consumed);
    if resumable && left > 0 {
        InterpreterFallback::Resume { consumed, budget_remaining: left }
    } else {
        InterpreterFallback::Stop { stop, consumed, budget_remaining: left }
    }
}

/// The outcome of an interpreter batch (see `fallback_outcome_spec`).
pub fn fallback_outcome<S>(stop: S, resumable: bool, consumed: u64, budget_remaining: u64) -> (r:
    InterpreterFallback<S>)
    ensures
        r == fallback_outcome_spec(stop, resumable, consumed, budget_remaining),
{
    let budget_remaining = budget_remaining.saturating_sub(consumed);
    if resumable && budget_remaining > 0 {
        InterpreterFallback::Resume { consumed, budget_remaining }
    } else {
        InterpreterFallback::Stop { stop, consumed, budget_remaining }
    }
}

/// The size of an interpreter batch: the configured batch, but never more
/// than the remaining budget.
pub fn fallback_batch(config: JitRuntimeConfig, budget_remaining: u64) -> (r: u64)
    ensures
        r == fallback_batch_spec(config, budget_remaining),
{
    if config.interp_fallback_batch_insns <= budget_remaining {
        config.interp_fallback_batch_insns
    } else {
        budget_remaining
    }
}

/// A call the JIT runtime makes into its host, as the host records it.
#[derive(Clone, Copy)]
pub enum HostCall {
    /// The JIT register file `regs` was flushed into the host and `retired`
    /// instructions retired by JIT code were committed.
    Commit { regs: Ghost<Seq<u64>>, retired: u64 },
    /// An interpreter batch of at most `max_insns` instructions was run.
    Batch { max_insns: u64 },
    /// The JIT state was rebuilt from the host after a batch.
    Restore,
    /// An interpreter fallback of `consumed` instructions was recorded.
    Record { consumed: u64, reason: Option<&'static str> },
}

/// Host-side hooks for JIT/interpreter cooperation.
///
/// An implementation describes what it observes by spec functions (which it
/// overrides; callers never rely on the defaults): the calls made into it so
/// far, its retired-instruction count and which stop reasons let the JIT
/// loop resume; each method records its call.
pub trait JitRuntimeHost {
    /// Host-specific stop-reason type returned by interpreter batches.
    type StopReason;

    /// The calls made into the host so far, in order.
    open spec fn calls(&self) -> Seq<HostCall> {
        vstd::pervasive::arbitrary()
    }

    /// The host's retired-instruction count.
    open spec fn retired_count(&self) -> u64 {
        vstd::pervasive::arbitrary()
    }

    /// The stop reason lets the JIT loop resume.
    open spec fn resumable(stop: &Self::StopReason) -> bool {
        vstd::pervasive::arbitrary()
    }

    /// Total retired instructions visible to the host.
    fn insns_retired(&self) -> (r: u64)
        ensures
            r == self.retired_count(),
    ;

    /// Run a bounded interpreter batch from the current architectural state.
    fn run_interpreter_batch(&mut self, max_insns: u64) -> (r: Self::StopReason)
        ensures
            final(self).calls() == old(self).calls().push(HostCall::Batch { max_insns }),
    ;

    /// Whether the stop reason allows the JIT loop to resume.
    fn is_resumable_stop(stop: &Self::StopReason) -> (r: bool)
        ensures
            r == Self::resumable(stop),
    ;

    /// Flush JIT-side state into the host before interpreter fallback and
    /// commit the instructions already retired by JIT code.
    fn prepare_interpreter_fallback(&mut self, flat_regs: &mut [u64], retired_insns: u64)
        ensures
            final(self).calls() == old(self).calls().push(HostCall::Commit { regs: Ghost(old(flat_regs)@), retired: retired_insns }),
    ;

    /// Rebuild JIT-side state from the host after a resumable batch.
    fn restore_jit_state_after_interpreter(&mut self, flat_regs: &mut [u64]) -> (r: Result<(), Self::StopReason>)
        ensures
            final(self).calls() == old(self).calls().push(HostCall::Restore),
    ;

    /// Record an interpreter fallback batch for observability.
    fn record_interpreter_fallback(&mut self, consumed: u64, reason: Option<&'static str>)
        ensures
            final(self).calls() == old(self).calls().push(HostCall::Record { consumed, reason }),
    ;
}

/// The size of an interpreter batch: the configured batch, but never more
/// than the remaining budget.
pub open spec fn fallback_batch_spec(config: JitRuntimeConfig, budget_remaining: u64) -> u64 {
    if config.interp_fallback_batch_insns <= budget_remaining {
        config.interp_fallback_batch_insns
    } else {
        budget_remaining
    }
}

/// Run one bounded interpreter batch (at most the configured batch and the
/// remaining budget) and decide whether the JIT loop may resume: the
/// instructions it consumed are the growth of the host's retired count
/// across the batch, and it resumes after a stop the host calls resumable
/// with budget left.
pub fn run_bounded_interpreter_fallback<H: JitRuntimeHost>(
    host: &mut H,
    budget_remaining: u64,
    config: JitRuntimeConfig,
) -> (r: InterpreterFallback<H::StopReason>)
    ensures
        final(host).calls() == old(host).calls().push(
            HostCall::Batch { max_insns: fallback_batch_spec(config, budget_remaining) },
        ),
        exists|stop: H::StopReason|
            r == fallback_outcome_spec(
                stop,
                H::resumable(&stop),
                sat_sub(final(host).retired_count(), old(host).retired_count()),
                budget_remaining,
            ),
{
    let batch = fallback_batch(config, budget_remaining);
    let before = host.insns_retired();
    let stop = host.run_interpreter_batch(batch);
    let consumed = host.insns_retired().saturating_sub(before);
    let resumable = H::is_resumable_stop(&stop);
    fallback_outcome(stop, resumable, consumed, budget_remaining)
}

/// Exit the JIT loop and hand the whole remaining budget to the interpreter:
/// the retired count is committed to the host and reset, then one batch of
/// the whole budget runs.
pub fn handoff_to_interpreter<H: JitRuntimeHost>(
    host: &mut H,
    flat_regs: &mut [u64],
    retired: &mut u64,
    budget_remaining: u64,
) -> (r: H::StopReason)
    ensures
        *final(retired) == 0,
        final(host).calls() == old(host).calls().push(HostCall::Commit { regs: Ghost(old(flat_regs)@), retired: *old(retired) }).push(
            HostCall::Batch { max_insns: budget_remaining },
        ),
{
    host.prepare_interpreter_fallback(flat_regs, *retired);
    *retired = 0;
    host.run_interpreter_batch(budget_remaining)
}

/// The host calls that rebuild the JIT state after a batch: one when it was
/// rebuilt, none otherwise.
pub open spec fn restore_calls(restored: bool) -> Seq<HostCall> {
    if restored {
        seq![HostCall::Restore]
    } else {
        Seq::empty()
    }
}

/// The instructions an interpreter fallback consumed.
pub open spec fn fallback_consumed<S>(r: InterpreterFallback<S>) -> u64 {
    match r {
        InterpreterFallback::Resume { consumed, .. } => consumed,
        InterpreterFallback::Stop { consumed, .. } => consumed,
    }
}

/// The reason an unsupported-start fallback is recorded under: the
/// backend's reject reason, or "unsupported-start" when it gave none.
pub open spec fn fallback_reason(reject_reason: Option<&'static str>) -> Option<&'static str> {
    match reject_reason {
        Some(r) => Some(r),
        None => Some("unsupported-start"),
    }
}

/// The host calls of an unsupported-start fallback: the commit of the JIT
/// registers `regs` and `retired` instructions, the batch, the record of the
/// `consumed` instructions under the reason for `reject_reason`, and the
/// rebuild of the JIT state when it was `restored`.
pub open spec fn unsupported_start_calls(
    regs: Seq<u64>,
    retired: u64,
    batch: u64,
    consumed: u64,
    reject_reason: Option<&'static str>,
    restored: bool,
) -> Seq<HostCall> {
    seq![
        HostCall::Commit { regs: Ghost(regs), retired },
        HostCall::Batch { max_insns: batch },
        HostCall::Record { consumed, reason: fallback_reason(reject_reason) },
    ] + restore_calls(restored)
}

/// Handle a block whose first instruction could not be compiled: commit the
/// retired count, count the fallback, run one bounded interpreter batch and,
/// if it may resume, rebuild the JIT state (a failure to do so stops).
pub fn handle_unsupported_start_fallback<H: JitRuntimeHost>(
    host: &mut H,
    stats: &mut JitPerfStats,
    flat_regs: &mut [u64],
    retired: &mut u64,
    budget_remaining: u64,
    reject_reason: Option<&'static str>,
    config: JitRuntimeConfig,
) -> (r: InterpreterFallback<H::StopReason>)
    ensures
        *final(retired) == 0,
        final(stats).fallback_count == sat_add(old(stats).fallback_count, 1),
        final(stats).unsupported_block_starts == sat_add(old(stats).unsupported_block_starts, 1),
        final(stats).block_cache_hits == old(stats).block_cache_hits,
        final(stats).block_cache_misses == old(stats).block_cache_misses,
        final(stats).blocks_compiled == old(stats).blocks_compiled,
        final(stats).compiled_guest_insns == old(stats).compiled_guest_insns,
        final(stats).blocks_executed == old(stats).blocks_executed,
        final(stats).promotions_executed == old(stats).promotions_executed,
        exists|restored: bool|
            final(host).calls() == old(host).calls() + #[trigger] unsupported_start_calls(
                old(flat_regs)@,
                *old(retired),
                fallback_batch_spec(config, budget_remaining),
                fallback_consumed(r),
                reject_reason,
                restored,
            ) && (r is Resume ==> restored),
        exists|consumed: u64|
            #![trigger sat_sub(budget_remaining, consumed)]
            {
                &&& final(stats).fallback_insns == sat_add(old(stats).fallback_insns, consumed)
                &&& match r {
                    InterpreterFallback::Resume { consumed: c, budget_remaining: left } => c == consumed
                        && left == sat_sub(budget_remaining, consumed) && left > 0,
                    InterpreterFallback::Stop { consumed: c, budget_remaining: left, .. } => c == consumed
                        && left == sat_sub(budget_remaining, consumed),
                }
            },
{
    host.prepare_interpreter_fallback(flat_regs, *retired);
    *retired = 0;
    let reason = match reject_reason {
        Some(r) => Some(r),
        None => Some("unsupported-start"),
    };
    stats.fallback_count = stats.fallback_count.saturating_add(1);
    stats.unsupported_block_starts = stats.unsupported_block_starts.saturating_add(1);
    let ghost head = old(host).calls() + seq![
        HostCall::Commit { regs: Ghost(old(flat_regs)@), retired: *old(retired) },
        HostCall::Batch { max_insns: fallback_batch_spec(config, budget_remaining) },
    ];
    let outcome = run_bounded_interpreter_fallback(host, budget_remaining, config);
    assert(host.calls() =~= head);
    match outcome {
        InterpreterFallback::Resume { consumed, budget_remaining: left } => {
            stats.fallback_insns = stats.fallback_insns.saturating_add(consumed);
            host.record_interpreter_fallback(consumed, reason);
            let r = match host.restore_jit_state_after_interpreter(flat_regs) {
                Ok(()) => InterpreterFallback::Resume { consumed, budget_remaining: left },
                Err(stop) => InterpreterFallback::Stop { stop, consumed, budget_remaining: left },
            };
            assert(host.calls() =~= old(host).calls() + unsupported_start_calls(
                old(flat_regs)@,
                *old(retired),
                fallback_batch_spec(config, budget_remaining),
                fallback_consumed(r),
                reject_reason,
                true,
            ));
            r
        },
        InterpreterFallback::Stop { stop, consumed, budget_remaining: left } => {
            stats.fallback_insns = stats.fallback_insns.saturating_add(consumed);
            host.record_interpreter_fallback(consumed, reason);
            let r = InterpreterFallback::Stop { stop, consumed, budget_remaining: left };
            assert(host.calls() =~= old(host).calls() + unsupported_start_calls(
                old(flat_regs)@,
                *old(retired),
                fallback_batch_spec(config, budget_remaining),
                fallback_consumed(r),
                reject_reason,
                false,
            ));
            r
        },
    }
}


/// Result of resolving a decoded block cache miss.
#[derive(Debug, Clone, Copy, PartialEq, Eq)]
pub enum CompileMissResolution<S> {
    /// The block was compiled and inserted into the cache.
    Cached {
        /// Number of guest instructions compiled into the cached block.
        insn_count: u32,
    },
    /// The host resumed JIT execution after a bounded interpreter batch.
    Resume {
        /// Remaining JIT budget after interpreter fallback.
        budget_remaining: u64,
    },
    /// The miss path terminated JIT execution and returned a stop reason.
    Stop {
        /// Host-specific stop reason.
        stop: S,
    },
}

/// Result of attempting hot-tier promotion for a cached block.
#[derive(Debug, Clone, Copy, PartialEq, Eq)]
pub enum PromotionResolution {
    /// No promotion was attempted or completed.
    NotPromoted,
    /// A promoted block was executed and returned an exit code.
    Executed {
        /// Exit code returned by the promoted block.
        exit_code: u64,
    },
}

/// Additional metadata for a trace guard exit.
#[derive(Debug, Clone, Copy, PartialEq, Eq)]
pub struct TraceGuardInfo {
    /// Recorder-assigned identifier of the guard that fired.
    pub guard_id: u32,
    /// Guest PC where block-JIT execution resumes after the side exit.
    pub resume_pc: u64,
    /// Misses recorded for this guard after applying the current exit.
    pub miss_count: u32,
    /// Whether the runtime marked the parent trace for retirement.
    pub retiring: bool,
    /// Guest instructions retired by the trace before the guard exit.
    pub retired_guest_insns: u32,
}

/// Result of probing the trace cache before block-JIT dispatch.
#[derive(Debug, Clone, Copy, PartialEq, Eq)]
pub enum TraceDispatch {
    /// Trace dispatch is not available at the current call site.
    NotAvailable,
    /// No compiled trace is cached for the requested guest PC.
    Miss,
    /// A compiled trace exists, but live dispatch is disabled.
    SkippedDisabled,
    /// A compiled trace executed and returned an exit code.
    Executed {
        /// Exit code returned by the trace body.
        exit_code: u64,
        /// Guard-exit metadata when the trace side-exited through a guard.
        guard: Option<TraceGuardInfo>,
    },
}

/// Result of feeding a decoded block into the trace recorder.
#[derive(Debug, Clone, Copy, PartialEq, Eq)]
pub enum TraceRecordResult {
    /// Recording is still in progress.
    Pending,
    /// The recorded path could not be compiled into a trace.
    CompileMiss,
    /// A trace was compiled from the recorded path.
    Compiled {
        /// Guest PC at the start of the trace.
        start_pc: u64,
        /// Number of guest instructions compiled into the trace.
        insn_count: u32,
    },
}

/// Resolve a decoded block cache miss: compile with the primary backend,
/// then with the fallback backend; if neither can compile the first
/// instruction, run a bounded interpreter batch. With no instructions or no
/// backend, hand the whole budget to the interpreter.
pub fn resolve_aarch64_compile_miss<H: JitRuntimeHost, Insn, O, B: JitBackend<Insn, O>>(
    host: &mut H,
    stats: &mut JitPerfStats,
    cache: &mut JitCache<O>,
    backend: Option<&mut B>,
    fallback_backend: Option<&mut B>,
    pc: u64,
    decoded_insns: &[Insn],
    flat_regs: &mut [u64],
    retired: &mut u64,
    budget_remaining: u64,
    config: JitRuntimeConfig,
) -> (r: CompileMissResolution<H::StopReason>)
    requires
        old(cache).wf(),
    ensures
        final(cache).wf(),
        (decoded_insns@.len() == 0 || backend is None) ==> r is Stop && *final(retired) == 0
            && *final(cache) == *old(cache) && final(host).calls() == old(host).calls().push(
            HostCall::Commit { regs: Ghost(old(flat_regs)@), retired: *old(retired) },
        ).push(HostCall::Batch { max_insns: budget_remaining }),
        r is Cached ==> final(host).calls() == old(host).calls(),
        r matches CompileMissResolution::Resume { budget_remaining: left } ==> 0 < left
            <= budget_remaining && *final(retired) == 0,
        r is Cached ==> *final(retired) == *old(retired),
        decoded_insns@.len() > 0 && backend is Some ==> (r is Cached || ({
            &&& final(stats).unsupported_block_starts == sat_add(
                old(stats).unsupported_block_starts,
                1,
            )
            &&& final(stats).fallback_count == sat_add(old(stats).fallback_count, 1)
            &&& final(stats).blocks_compiled == old(stats).blocks_compiled
            &&& *final(cache) == *old(cache)
            &&& *final(retired) == 0
        })),
        backend is Some && decoded_insns@.len() > 0 ==> {
            let primary = final(backend->Some_0).outputs().last();
            &&& final(backend->Some_0).outputs() == old(backend->Some_0).outputs().push(primary)
            &&& usable_block(primary) matches Some(b) ==> r == (CompileMissResolution::<H::StopReason>::Cached {
                insn_count: b.insn_count,
            }) && (fallback_backend is Some ==> *final(fallback_backend->Some_0) == *old(
                fallback_backend->Some_0,
            ))
            &&& usable_block(primary) is None && fallback_backend is Some ==> {
                let second = final(fallback_backend->Some_0).outputs().last();
                &&& final(fallback_backend->Some_0).outputs() == old(fallback_backend->Some_0).outputs().push(
                    second,
                )
                &&& r is Cached <==> usable_block(second) is Some
                &&& usable_block(second) matches Some(b) ==> r == (
                CompileMissResolution::<H::StopReason>::Cached { insn_count: b.insn_count })
            }
            &&& usable_block(primary) is None && fallback_backend is None ==> !(r is Cached)
            &&& !(r is Cached) ==> exists|consumed: u64, restored: bool|
                final(host).calls() == old(host).calls() + #[trigger] unsupported_start_calls(
                    old(flat_regs)@,
                    *old(retired),
                    fallback_batch_spec(config, budget_remaining),
                    consumed,
                    final(backend->Some_0).rejection(),
                    restored,
                ) && (r matches CompileMissResolution::Resume { budget_remaining: left } ==> restored
                    && left == sat_sub(budget_remaining, consumed))
        },
        r matches CompileMissResolution::Cached { insn_count } ==> compiled_into(
            *old(cache),
            *final(cache),
            *old(stats),
            *final(stats),
            pc,
            insn_count,
        ),
{
    if decoded_insns.len() == 0 {
        return CompileMissResolution::Stop {
            stop: handoff_to_interpreter(host, flat_regs, retired, budget_remaining),
        };
    }
    let backend = match backend {
        Some(b) => b,
        None => {
            return CompileMissResolution::Stop {
                stop: handoff_to_interpreter(host, flat_regs, retired, budget_remaining),
            };
        },
    };
    let primary_tier = tier_for_backend_name(backend.name());
    let first = compile_block_on_miss(cache, stats, backend, primary_tier, pc, decoded_insns);
    match first {
        CompileOnMiss::Cached { insn_count } => {
            CompileMissResolution::Cached { insn_count }
        },
        CompileOnMiss::UnsupportedStart { reason } => {
            if let Some(fallback_backend) = fallback_backend {
                let fallback_tier = tier_for_backend_name(fallback_backend.name());
                let second = compile_block_on_miss(
                    cache,
                    stats,
                    fallback_backend,
                    fallback_tier,
                    pc,
                    decoded_insns,
                );
                if let CompileOnMiss::Cached { insn_count } = second {
                    return CompileMissResolution::Cached { insn_count };
                }
            }
            let outcome = handle_unsupported_start_fallback(
                host,
                stats,
                flat_regs,
                retired,
                budget_remaining,
                reason,
                config,
            );
            match outcome {
                InterpreterFallback::Resume { consumed: _, budget_remaining } => {
                    CompileMissResolution::Resume { budget_remaining }
                },
                InterpreterFallback::Stop { stop, consumed: _, budget_remaining: _ } => {
                    CompileMissResolution::Stop { stop }
                },
            }
        },
    }
}

} // verus!
