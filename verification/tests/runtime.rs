use helm_jit::backend::JitBackend;
use helm_jit::block::CompiledBlock;
use helm_jit::cache::{JitCache, JitTier, PROMOTE_THRESHOLD};
use helm_jit::regs::{REG_COUNT, REG_JIT_MEM_READ, REG_JIT_MEM_WRITE, REG_JIT_RETIRED, REG_JIT_SE_TLB, REG_XZR};
use helm_jit::stencil::types::HelperAddresses;
use helm_jit::runtime::{
    backend_mode, compile_block_on_miss, ensure_aarch64_jit_runtime_state, Aarch64Backend, decide_trace_record_plan, ensure_rv64_jit_runtime_state,
    fallback_batch, fallback_outcome, finish_block_exit, handle_unsupported_start_fallback,
    handoff_to_interpreter, install_compiled_block, plan_aarch64_trace_recording, prepare_block_entry,
    probe_block_cache, promote_hot_block, resolve_aarch64_compile_miss, run_bounded_interpreter_fallback,
    tier_for_backend_name, Aarch64JitBackendMode, Aarch64JitBackendPolicy, BlockCacheProbe,
    CompileMissResolution, CompileOnMiss, InterpreterFallback, JitPerfStats, JitRuntimeConfig,
    JitRuntimeHost, TraceRecordPlan, TraceRecording,
};
use helm_jit::runtime::{prepare_dispatch_slots, JitMemoryMode, MemoryModeHelpers};
use helm_jit::helpers::JitSeTlb;

/// Backward edges a target must see before a recording starts.
const TRACE_THRESHOLD: u32 = 50;

/// A hot-trace recorder: counts backward edges per target and starts
/// recording when one target reaches the threshold.
#[derive(Default)]
struct TraceRecorder {
    hits: std::collections::HashMap<u64, u32>,
    recording: bool,
}

impl TraceRecording for TraceRecorder {
    fn is_recording(&self) -> bool {
        self.recording
    }

    fn on_backward_branch(&mut self, target_pc: u64) -> bool {
        if self.recording {
            return false;
        }
        let n = self.hits.entry(target_pc).or_insert(0);
        *n += 1;
        if *n >= TRACE_THRESHOLD {
            self.recording = true;
            return true;
        }
        false
    }
}

fn make_test_block(pc: u64, insn_count: u32) -> CompiledBlock<()> {
    CompiledBlock::new((), 0x7000_0000, pc, insn_count)
}

#[derive(Debug, Clone, Copy, PartialEq, Eq)]
enum Stop {
    Quantum,
    Exit,
}

struct MockHost {
    retired: u64,
    batch_result: Stop,
    batch_consumed: u64,
    last_batch_limit: Option<u64>,
    prepare_calls: u32,
    restore_calls: u32,
    restore_result: Result<(), Stop>,
    recorded: Vec<(u64, Option<&'static str>)>,
}

impl MockHost {
    fn new(retired: u64, batch_result: Stop, batch_consumed: u64, restore_result: Result<(), Stop>) -> Self {
        MockHost {
            retired,
            batch_result,
            batch_consumed,
            last_batch_limit: None,
            prepare_calls: 0,
            restore_calls: 0,
            restore_result,
            recorded: Vec::new(),
        }
    }
}

impl JitRuntimeHost for MockHost {
    type StopReason = Stop;

    fn insns_retired(&self) -> u64 {
        self.retired
    }

    fn run_interpreter_batch(&mut self, max_insns: u64) -> Self::StopReason {
        self.last_batch_limit = Some(max_insns);
        self.retired = self.retired.saturating_add(self.batch_consumed.min(max_insns));
        self.batch_result
    }

    fn is_resumable_stop(stop: &Self::StopReason) -> bool {
        matches!(stop, Stop::Quantum)
    }

    fn prepare_interpreter_fallback(&mut self, flat_regs: &mut [u64], retired_insns: u64) {
        self.prepare_calls = self.prepare_calls.saturating_add(1);
        self.retired = self.retired.saturating_add(retired_insns);
        flat_regs[0] = 0xCAFE;
    }

    fn restore_jit_state_after_interpreter(&mut self, flat_regs: &mut [u64]) -> Result<(), Self::StopReason> {
        self.restore_calls = self.restore_calls.saturating_add(1);
        if self.restore_result.is_ok() {
            flat_regs[0] = 0xBEEF;
        }
        self.restore_result
    }

    fn record_interpreter_fallback(&mut self, consumed: u64, reason: Option<&'static str>) {
        self.recorded.push((consumed, reason));
    }
}

struct MockBackend {
    result: Option<CompiledBlock<()>>,
    name: &'static str,
    reason: Option<&'static str>,
}

impl MockBackend {
    fn new(result: Option<CompiledBlock<()>>) -> Self {
        MockBackend {
            result,
            name: "mock",
            reason: None,
        }
    }
}

impl JitBackend<u32, ()> for MockBackend {
    fn compile_block(&mut self, _pc: u64, _insns: &[u32]) -> Option<CompiledBlock<()>> {
        self.result.take()
    }

    fn name(&self) -> &str {
        self.name
    }

    fn last_reject_reason(&self) -> Option<&'static str> {
        self.reason
    }
}

fn config(batch: u64) -> JitRuntimeConfig {
    JitRuntimeConfig {
        interp_fallback_batch_insns: batch,
        ..Default::default()
    }
}

#[test]
fn plan_trace_recording_ignores_cold_or_forward_edges() {
    let mut recorder = TraceRecorder::default();

    assert_eq!(
        plan_aarch64_trace_recording(&mut recorder, 0x1000, 0x1004),
        TraceRecordPlan::Ignore
    );
    assert_eq!(
        plan_aarch64_trace_recording(&mut recorder, 0x1000, 0x1000),
        TraceRecordPlan::Ignore
    );
    assert!(!recorder.is_recording());
}

#[test]
fn plan_trace_recording_requests_decode_on_threshold_hit_and_active_recording() {
    let mut recorder = TraceRecorder::default();
    for _ in 0..TRACE_THRESHOLD {
        let plan = plan_aarch64_trace_recording(&mut recorder, 0x1000, 0x1000);
        if recorder.is_recording() {
            assert_eq!(plan, TraceRecordPlan::DecodeCurrentBlock);
            break;
        }
        assert_eq!(plan, TraceRecordPlan::Ignore);
    }

    assert!(recorder.is_recording());
    assert_eq!(
        plan_aarch64_trace_recording(&mut recorder, 0x1008, 0x100c),
        TraceRecordPlan::DecodeCurrentBlock
    );
}

#[test]
fn trace_record_plan_from_recorder_answers() {
    assert_eq!(decide_trace_record_plan(true, false, 0x10, 0x20), TraceRecordPlan::DecodeCurrentBlock);
    assert_eq!(decide_trace_record_plan(false, true, 0x10, 0x10), TraceRecordPlan::DecodeCurrentBlock);
    // A recording started by a loop that does not close on this block waits
    // for the next block.
    assert_eq!(decide_trace_record_plan(false, true, 0x20, 0x10), TraceRecordPlan::Ignore);
    assert_eq!(decide_trace_record_plan(false, false, 0x10, 0x10), TraceRecordPlan::Ignore);
}

#[test]
fn bounded_fallback_resumes_when_quantum_and_budget_remains() {
    let mut host = MockHost::new(10, Stop::Quantum, 8, Ok(()));
    let result = run_bounded_interpreter_fallback(&mut host, 32, config(16));
    assert_eq!(
        result,
        InterpreterFallback::Resume {
            consumed: 8,
            budget_remaining: 24,
        }
    );
}

#[test]
fn bounded_fallback_stops_on_non_resumable_reason() {
    let mut host = MockHost::new(4, Stop::Exit, 6, Ok(()));
    let result = run_bounded_interpreter_fallback(&mut host, 32, config(16));
    assert_eq!(
        result,
        InterpreterFallback::Stop {
            stop: Stop::Exit,
            consumed: 6,
            budget_remaining: 26,
        }
    );
}

#[test]
fn bounded_fallback_batch_is_capped_by_budget() {
    let mut host = MockHost::new(0, Stop::Quantum, 100, Ok(()));
    let result = run_bounded_interpreter_fallback(&mut host, 5, config(16));
    assert_eq!(host.last_batch_limit, Some(5));
    // The whole budget was used: the loop does not resume.
    assert_eq!(
        result,
        InterpreterFallback::Stop {
            stop: Stop::Quantum,
            consumed: 5,
            budget_remaining: 0,
        }
    );
    assert_eq!(fallback_batch(config(16), 100), 16);
    assert_eq!(fallback_batch(config(16), 3), 3);
    assert_eq!(
        fallback_outcome(Stop::Exit, true, 40, 10),
        InterpreterFallback::Stop {
            stop: Stop::Exit,
            consumed: 40,
            budget_remaining: 0,
        }
    );
}

#[test]
fn cache_probe_tracks_hits_and_misses() {
    let mut cache = JitCache::new();
    let mut stats = JitPerfStats::default();
    cache.insert(make_test_block(0x1000, 3));

    match probe_block_cache(&mut cache, &mut stats, 0x1000) {
        BlockCacheProbe::Hit(hit) => {
            assert_eq!(hit.block.guest_pc, 0x1000);
            assert_eq!(hit.exec_count, 1);
        }
        BlockCacheProbe::Miss => panic!("expected cache hit"),
    }
    assert_eq!(stats.block_cache_hits, 1);
    assert_eq!(stats.block_cache_misses, 0);

    match probe_block_cache(&mut cache, &mut stats, 0x2000) {
        BlockCacheProbe::Hit(_) => panic!("expected cache miss"),
        BlockCacheProbe::Miss => {}
    }
    assert_eq!(stats.block_cache_hits, 1);
    assert_eq!(stats.block_cache_misses, 1);
}

#[test]
fn compile_on_miss_caches_compiled_block() {
    let mut cache = JitCache::new();
    let mut stats = JitPerfStats::default();
    let mut backend = MockBackend::new(Some(make_test_block(0x3000, 5)));
    let insns = [0u32];

    let result = compile_block_on_miss(&mut cache, &mut stats, &mut backend, JitTier::Stencil, 0x3000, &insns);

    assert_eq!(result, CompileOnMiss::Cached { insn_count: 5 });
    assert_eq!(stats.blocks_compiled, 1);
    assert_eq!(stats.compiled_guest_insns, 5);
    assert!(cache.lookup(0x3000).is_some());
}

#[test]
fn compile_on_miss_reports_unsupported_start() {
    let mut cache = JitCache::new();
    let mut stats = JitPerfStats::default();
    let mut backend = MockBackend::new(None);
    backend.reason = Some("w-register");
    let insns = [0u32];

    let result = compile_block_on_miss(&mut cache, &mut stats, &mut backend, JitTier::Stencil, 0x3000, &insns);

    assert_eq!(
        result,
        CompileOnMiss::UnsupportedStart {
            reason: Some("w-register")
        }
    );
    assert_eq!(stats.blocks_compiled, 0);
    assert_eq!(stats.compiled_guest_insns, 0);
    assert!(cache.lookup(0x3000).is_none());
}

#[test]
fn execute_compiled_block_updates_stats_and_budget() {
    let block = make_test_block(0x4000, 3);
    let mut stats = JitPerfStats::default();
    let mut flat_regs = [0u64; 8];
    let mut retired = 2;
    let mut budget_remaining = 10;

    // The block runs between these two steps; it records no retired count.
    prepare_block_entry(&mut flat_regs);
    finish_block_exit(&mut stats, &mut flat_regs, block.insn_count, &mut retired, &mut budget_remaining);

    assert_eq!(stats.blocks_executed, 1);
    assert_eq!(retired, 5);
    assert_eq!(budget_remaining, 7);
    assert_eq!(flat_regs, [0u64; 8]);
}

#[test]
fn block_exit_rezeroes_the_xzr_sentinel() {
    let mut stats = JitPerfStats::default();
    let mut flat_regs = [0u64; 48];
    let mut retired = 0;
    let mut budget_remaining = 10;
    prepare_block_entry(&mut flat_regs);
    flat_regs[REG_XZR] = 9;
    finish_block_exit(&mut stats, &mut flat_regs, 1, &mut retired, &mut budget_remaining);
    assert_eq!(flat_regs[REG_XZR], 0);
    assert_eq!(retired, 1);
}

#[test]
fn block_exit_prefers_the_count_the_exit_path_recorded() {
    let mut stats = JitPerfStats::default();
    let mut flat_regs = [0u64; 48];
    flat_regs[REG_JIT_RETIRED] = 99;
    prepare_block_entry(&mut flat_regs);
    assert_eq!(flat_regs[REG_JIT_RETIRED], 0);
    flat_regs[REG_JIT_RETIRED] = 2;
    let mut retired = u64::MAX - 1;
    let mut budget = 1;
    finish_block_exit(&mut stats, &mut flat_regs, 7, &mut retired, &mut budget);
    assert_eq!(retired, u64::MAX);
    assert_eq!(budget, 0);
}

#[test]
fn unsupported_start_fallback_updates_stats_and_restores_state_on_resume() {
    let mut host = MockHost::new(10, Stop::Quantum, 5, Ok(()));
    let mut stats = JitPerfStats::default();
    let mut flat_regs = [0u64; 4];
    let mut retired = 7;

    let result = handle_unsupported_start_fallback(
        &mut host,
        &mut stats,
        &mut flat_regs,
        &mut retired,
        32,
        None,
        config(16),
    );

    assert_eq!(
        result,
        InterpreterFallback::Resume {
            consumed: 5,
            budget_remaining: 27,
        }
    );
    assert_eq!(retired, 0);
    assert_eq!(flat_regs[0], 0xBEEF);
    assert_eq!(host.retired, 22);
    assert_eq!(host.prepare_calls, 1);
    assert_eq!(host.restore_calls, 1);
    assert_eq!(stats.fallback_count, 1);
    assert_eq!(stats.fallback_insns, 5);
    assert_eq!(stats.unsupported_block_starts, 1);
    assert_eq!(host.recorded, vec![(5, Some("unsupported-start"))]);
}

#[test]
fn unsupported_start_fallback_stops_when_restore_fails() {
    let mut host = MockHost::new(2, Stop::Quantum, 4, Err(Stop::Exit));
    let mut stats = JitPerfStats::default();
    let mut flat_regs = [0u64; 4];
    let mut retired = 3;

    let result = handle_unsupported_start_fallback(
        &mut host,
        &mut stats,
        &mut flat_regs,
        &mut retired,
        20,
        Some("shifted-register"),
        config(8),
    );

    assert_eq!(
        result,
        InterpreterFallback::Stop {
            stop: Stop::Exit,
            consumed: 4,
            budget_remaining: 16,
        }
    );
    assert_eq!(retired, 0);
    assert_eq!(flat_regs[0], 0xCAFE);
    assert_eq!(host.prepare_calls, 1);
    assert_eq!(host.restore_calls, 1);
    assert_eq!(stats.fallback_count, 1);
    assert_eq!(stats.fallback_insns, 4);
    assert_eq!(stats.unsupported_block_starts, 1);
    assert_eq!(host.recorded, vec![(4, Some("shifted-register"))]);
}

#[test]
fn handoff_to_interpreter_commits_retired_and_runs_remaining_budget() {
    let mut host = MockHost::new(5, Stop::Exit, 11, Ok(()));
    let mut flat_regs = [0u64; 4];
    let mut retired = 7;

    let stop = handoff_to_interpreter(&mut host, &mut flat_regs, &mut retired, 13);

    assert_eq!(stop, Stop::Exit);
    assert_eq!(retired, 0);
    assert_eq!(flat_regs[0], 0xCAFE);
    assert_eq!(host.retired, 23);
    assert_eq!(host.last_batch_limit, Some(13));
    assert_eq!(host.prepare_calls, 1);
    assert_eq!(host.restore_calls, 0);
}

#[test]
fn resolve_compile_miss_hands_off_when_decode_is_empty() {
    let mut host = MockHost::new(9, Stop::Exit, 6, Ok(()));
    let mut stats = JitPerfStats::default();
    let mut cache: JitCache<()> = JitCache::new();
    let mut flat_regs = [0u64; 4];
    let mut retired = 5;

    let result = resolve_aarch64_compile_miss::<_, u32, (), MockBackend>(
        &mut host,
        &mut stats,
        &mut cache,
        None,
        None,
        0x1000,
        &[],
        &mut flat_regs,
        &mut retired,
        17,
        config(8),
    );

    assert_eq!(result, CompileMissResolution::Stop { stop: Stop::Exit });
    assert_eq!(retired, 0);
    assert_eq!(flat_regs[0], 0xCAFE);
    assert_eq!(host.prepare_calls, 1);
    assert_eq!(host.last_batch_limit, Some(17));
}

#[test]
fn resolve_compile_miss_compiles_supported_block() {
    let mut host = MockHost::new(0, Stop::Quantum, 0, Ok(()));
    let mut stats = JitPerfStats::default();
    let mut cache = JitCache::new();
    let mut backend = MockBackend::new(Some(make_test_block(0x3000, 5)));
    let mut flat_regs = [0u64; 4];
    let mut retired = 0;
    let insns = [0u32];

    let result = resolve_aarch64_compile_miss(
        &mut host,
        &mut stats,
        &mut cache,
        Some(&mut backend),
        None,
        0x3000,
        &insns,
        &mut flat_regs,
        &mut retired,
        20,
        config(8),
    );

    assert_eq!(result, CompileMissResolution::Cached { insn_count: 5 });
    assert_eq!(stats.blocks_compiled, 1);
    assert!(cache.lookup(0x3000).is_some());
    assert_eq!(host.prepare_calls, 0);
}

#[test]
fn resolve_compile_miss_resumes_after_unsupported_start() {
    let mut host = MockHost::new(3, Stop::Quantum, 4, Ok(()));
    let mut stats = JitPerfStats::default();
    let mut cache = JitCache::new();
    let mut backend = MockBackend::new(None);
    let mut flat_regs = [0u64; 4];
    let mut retired = 2;
    let insns = [0u32];

    let result = resolve_aarch64_compile_miss(
        &mut host,
        &mut stats,
        &mut cache,
        Some(&mut backend),
        None,
        0x4000,
        &insns,
        &mut flat_regs,
        &mut retired,
        19,
        config(8),
    );

    assert_eq!(
        result,
        CompileMissResolution::Resume {
            budget_remaining: 15,
        }
    );
    assert_eq!(retired, 0);
    assert_eq!(flat_regs[0], 0xBEEF);
    assert_eq!(host.prepare_calls, 1);
    assert_eq!(host.restore_calls, 1);
    assert_eq!(stats.fallback_count, 1);
}

#[test]
fn resolve_compile_miss_uses_fallback_backend_before_interpreter() {
    let mut host = MockHost::new(0, Stop::Exit, 0, Ok(()));
    let mut stats = JitPerfStats::default();
    let mut cache = JitCache::new();
    let mut primary = MockBackend::new(None);
    let mut fallback = MockBackend::new(Some(make_test_block(0x6000, 4)));
    let mut flat_regs = [0u64; 4];
    let mut retired = 0;
    let insns = [0u32];

    let result = resolve_aarch64_compile_miss(
        &mut host,
        &mut stats,
        &mut cache,
        Some(&mut primary),
        Some(&mut fallback),
        0x6000,
        &insns,
        &mut flat_regs,
        &mut retired,
        32,
        JitRuntimeConfig::default(),
    );

    assert_eq!(result, CompileMissResolution::Cached { insn_count: 4 });
    assert_eq!(host.prepare_calls, 0);
    assert!(cache.lookup(0x6000).is_some());
}

#[test]
fn resolve_compile_miss_caches_under_the_backends_tier() {
    let mut host = MockHost::new(0, Stop::Exit, 0, Ok(()));
    let mut stats = JitPerfStats::default();
    let mut cache = JitCache::new();
    let mut backend = MockBackend::new(Some(make_test_block(0x6000, 4)));
    backend.name = "dynasm";
    let mut flat_regs = [0u64; 4];
    let mut retired = 0;
    let insns = [0u32];
    resolve_aarch64_compile_miss(
        &mut host,
        &mut stats,
        &mut cache,
        Some(&mut backend),
        None,
        0x6000,
        &insns,
        &mut flat_regs,
        &mut retired,
        32,
        JitRuntimeConfig::default(),
    );
    assert_eq!(cache.lookup_hot(0x6000).unwrap().tier, JitTier::Dynasm);
}

#[test]
fn promotion_happens_exactly_at_threshold() {
    let mut cache = JitCache::new();
    cache.insert(make_test_block(0x5000, 2));
    let mut hot = MockBackend::new(Some(make_test_block(0x5000, 5)));
    let insns = [0u32, 1];
    // Below the threshold nothing happens.
    assert!(!promote_hot_block(&mut cache, Some(&mut hot), 0x5000, PROMOTE_THRESHOLD - 1, JitTier::Stencil, &insns));
    // Already hot-tier blocks are not recompiled.
    assert!(!promote_hot_block(&mut cache, Some(&mut hot), 0x5000, PROMOTE_THRESHOLD, JitTier::Dynasm, &insns));
    assert!(promote_hot_block(&mut cache, Some(&mut hot), 0x5000, PROMOTE_THRESHOLD, JitTier::Stencil, &insns));
    let hit = cache.lookup_hot(0x5000).unwrap();
    assert_eq!(hit.tier, JitTier::Dynasm);
    assert_eq!(hit.block.insn_count, 5);
    assert_eq!(cache.promotions(), 1);
}

#[test]
fn install_rejects_nothing_but_missing_blocks() {
    let mut cache = JitCache::new();
    let mut stats = JitPerfStats::default();
    assert_eq!(
        install_compiled_block(&mut cache, &mut stats, None, Some("opcode-unimplemented"), JitTier::Stencil, 0x10),
        CompileOnMiss::UnsupportedStart {
            reason: Some("opcode-unimplemented")
        }
    );
    assert!(cache.is_empty());
    assert_eq!(
        install_compiled_block(&mut cache, &mut stats, Some(make_test_block(0x10, 1)), None, JitTier::Stencil, 0x10),
        CompileOnMiss::Cached { insn_count: 1 }
    );
    assert_eq!(cache.len(), 1);
}

#[test]
fn backend_modes_and_tiers() {
    assert_eq!(
        backend_mode(Aarch64JitBackendPolicy::Tiered, true, true),
        Aarch64JitBackendMode::Tiered
    );
    assert_eq!(
        backend_mode(Aarch64JitBackendPolicy::Tiered, true, false),
        Aarch64JitBackendMode::Unavailable
    );
    assert_eq!(
        backend_mode(Aarch64JitBackendPolicy::StencilOnly, false, true),
        Aarch64JitBackendMode::StencilOnly
    );
    assert_eq!(
        backend_mode(Aarch64JitBackendPolicy::DynasmOnly, false, true),
        Aarch64JitBackendMode::Unavailable
    );
    assert_eq!(tier_for_backend_name("dynasm"), JitTier::Dynasm);
    assert_eq!(tier_for_backend_name("stencil"), JitTier::Stencil);
    assert_eq!(tier_for_backend_name("dynasm-rv64"), JitTier::Stencil);
    let c = JitRuntimeConfig::default();
    assert_eq!(c.interp_fallback_batch_insns, 256);
    assert!(!c.trace_dispatch_enabled);
}

#[test]
fn rv64_runtime_state_is_created_once() {
    let mut cache: Option<JitCache<()>> = None;
    let mut backend = None;
    assert!(ensure_rv64_jit_runtime_state(&mut cache, &mut backend));
    assert!(cache.is_some() && backend.is_some());
    cache.as_mut().unwrap().insert(make_test_block(0x40, 1));
    assert!(ensure_rv64_jit_runtime_state(&mut cache, &mut backend));
    assert_eq!(cache.as_ref().unwrap().len(), 1);
}

#[test]
fn ensure_aarch64_runtime_state_initializes_dynasm_mode() {
    let mut cache: Option<JitCache<()>> = None;
    let mut backend: Option<Aarch64Backend> = None;
    let mut hot_backend: Option<Aarch64Backend> = None;

    let mode = ensure_aarch64_jit_runtime_state(
        &mut cache,
        &mut backend,
        &mut hot_backend,
        Aarch64JitBackendPolicy::DynasmOnly,
    );

    assert_eq!(mode, Aarch64JitBackendMode::DynasmOnly);
    assert!(cache.is_some());
    assert_eq!(backend.as_ref().map(|b| b.name()), Some("dynasm"));
    assert!(hot_backend.is_none());
}

#[test]
fn ensure_aarch64_runtime_state_initializes_tiered_mode() {
    let mut cache: Option<JitCache<()>> = None;
    let mut backend: Option<Aarch64Backend> = None;
    let mut hot_backend: Option<Aarch64Backend> = None;

    let mode = ensure_aarch64_jit_runtime_state(
        &mut cache,
        &mut backend,
        &mut hot_backend,
        Aarch64JitBackendPolicy::Tiered,
    );

    assert_eq!(mode, Aarch64JitBackendMode::Tiered);
    assert_eq!(backend.as_ref().map(|b| b.name()), Some("stencil"));
    assert_eq!(hot_backend.as_ref().map(|b| b.name()), Some("dynasm"));
    assert!(cache.is_some());
}

#[test]
fn ensure_aarch64_runtime_state_initializes_stencil_mode() {
    let mut cache: Option<JitCache<()>> = None;
    let mut backend: Option<Aarch64Backend> = None;
    let mut hot_backend: Option<Aarch64Backend> = None;

    let mode = ensure_aarch64_jit_runtime_state(
        &mut cache,
        &mut backend,
        &mut hot_backend,
        Aarch64JitBackendPolicy::StencilOnly,
    );

    assert_eq!(mode, Aarch64JitBackendMode::StencilOnly);
    assert_eq!(backend.as_ref().map(|b| b.name()), Some("stencil"));
    assert!(hot_backend.is_none());
    assert!(cache.is_some());
}

#[test]
fn ensure_aarch64_runtime_state_keeps_existing_backend() {
    let mut cache: Option<JitCache<()>> = None;
    let mut backend = Some(Aarch64Backend::Dynasm(helm_jit::dynasm::DynasmBackend::new()));
    let mut hot_backend: Option<Aarch64Backend> = None;
    ensure_aarch64_jit_runtime_state(&mut cache, &mut backend, &mut hot_backend, Aarch64JitBackendPolicy::StencilOnly);
    assert_eq!(backend.as_ref().map(|b| b.name()), Some("dynasm"));
}

#[test]
fn ensure_rv64_runtime_state_initializes_cache_and_backend() {
    let mut cache: Option<JitCache<()>> = None;
    let mut backend = None;

    assert!(ensure_rv64_jit_runtime_state(&mut cache, &mut backend));
    assert!(cache.is_some());
    assert!(backend.is_some());
}

fn mode_helpers() -> MemoryModeHelpers {
    MemoryModeHelpers {
        se: HelperAddresses {
            mem_read: 0x1000_0010,
            mem_write: 0x1000_0020,
        },
        fs: HelperAddresses {
            mem_read: 0x2000_0010,
            mem_write: 0x2000_0020,
        },
    }
}

#[test]
fn prepare_aarch64_dispatch_context_sets_se_helper_slots() {
    let mut flat_regs = [0u64; REG_COUNT];
    let se_tlb = JitSeTlb::new();
    let tlb_base = se_tlb.entries.as_ptr() as u64;
    prepare_dispatch_slots(&mut flat_regs, JitMemoryMode::Se { tlb_base }, &mode_helpers());
    assert_eq!(flat_regs[REG_JIT_MEM_READ], 0x1000_0010);
    assert_eq!(flat_regs[REG_JIT_MEM_WRITE], 0x1000_0020);
    assert_eq!(flat_regs[REG_JIT_SE_TLB], tlb_base);
}

#[test]
fn prepare_aarch64_dispatch_context_builds_fs_context() {
    let mut flat_regs = [u64::MAX; REG_COUNT];
    prepare_dispatch_slots(&mut flat_regs, JitMemoryMode::Fs, &mode_helpers());
    assert_eq!(flat_regs[REG_JIT_MEM_READ], 0x2000_0010);
    assert_eq!(flat_regs[REG_JIT_MEM_WRITE], 0x2000_0020);
    assert_eq!(flat_regs[REG_JIT_SE_TLB], 0);
    // Other slots are untouched.
    assert_eq!(flat_regs[0], u64::MAX);
}
