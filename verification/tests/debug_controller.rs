use helm_jit::debug::{DispatchDecision, JitDebugController, JitTraceWindow};

#[test]
fn no_debug_features_returns_execute() {
    let mut ctrl = JitDebugController::new();
    assert!(!ctrl.is_active());
    assert_eq!(ctrl.on_block_entry(0x1000), DispatchDecision::Execute);
    assert!(ctrl.is_window_active());
}

#[test]
fn breakpoint_fires_at_exact_pc() {
    let mut ctrl = JitDebugController::new();
    ctrl.add_breakpoint(0x2000);
    assert!(ctrl.is_active());
    assert_eq!(ctrl.on_block_entry(0x1000), DispatchDecision::Execute);
    assert_eq!(ctrl.on_block_entry(0x2000), DispatchDecision::Breakpoint);
}

#[test]
fn remove_breakpoint() {
    let mut ctrl = JitDebugController::new();
    ctrl.add_breakpoint(0x2000);
    assert!(ctrl.remove_breakpoint(0x2000));
    assert_eq!(ctrl.on_block_entry(0x2000), DispatchDecision::Execute);
}

#[test]
fn force_interpreter_overrides_execute() {
    let mut ctrl = JitDebugController::new();
    ctrl.force_interpreter = true;
    assert_eq!(
        ctrl.on_block_entry(0x1000),
        DispatchDecision::FallbackToInterpreter
    );
}

#[test]
fn breakpoint_takes_priority_over_force_interpreter() {
    let mut ctrl = JitDebugController::new();
    ctrl.force_interpreter = true;
    ctrl.add_breakpoint(0x1000);
    assert_eq!(ctrl.on_block_entry(0x1000), DispatchDecision::Breakpoint);
}

#[test]
fn trace_window_pc_range() {
    let mut ctrl = JitDebugController::new();
    ctrl.set_trace_window(JitTraceWindow {
        start_pc: Some(0x2000),
        stop_pc: Some(0x3000),
        ..Default::default()
    });
    assert!(ctrl.is_active());

    // Before window opens.
    ctrl.on_block_entry(0x1000);
    assert!(!ctrl.is_window_active());

    // Inside window.
    ctrl.on_block_entry(0x2000);
    assert!(ctrl.is_window_active());

    ctrl.on_block_entry(0x2800);
    assert!(ctrl.is_window_active());

    // Past stop PC.
    ctrl.on_block_entry(0x3000);
    assert!(!ctrl.is_window_active());

    // Stays closed.
    ctrl.on_block_entry(0x2500);
    assert!(!ctrl.is_window_active());
}

#[test]
fn trace_window_insn_count_range() {
    let mut ctrl = JitDebugController::new();
    ctrl.set_trace_window(JitTraceWindow {
        start_insn: Some(10),
        stop_insn: Some(20),
        ..Default::default()
    });

    // Before threshold.
    ctrl.on_block_entry(0x1000);
    assert!(!ctrl.is_window_active());

    // Simulate 12 insns retired.
    ctrl.on_block_exit(0x1000, 12);
    ctrl.on_block_entry(0x1030);
    assert!(ctrl.is_window_active());

    // Simulate 10 more (total 22) -- past stop.
    ctrl.on_block_exit(0x1030, 10);
    ctrl.on_block_entry(0x1060);
    assert!(!ctrl.is_window_active());
}

#[test]
fn trace_window_max_events() {
    let mut ctrl = JitDebugController::new();
    ctrl.set_trace_window(JitTraceWindow {
        max_events: Some(3),
        ..Default::default()
    });

    for i in 0..3 {
        ctrl.on_block_entry(0x1000 + i * 4);
        assert!(ctrl.is_window_active());
        assert!(ctrl.on_block_exit(0x1000 + i * 4, 1));
    }

    // 4th event: window closed.
    ctrl.on_block_entry(0x100c);
    assert!(!ctrl.is_window_active());
}

#[test]
fn max_block_insns_truncates_at_breakpoint() {
    let mut ctrl = JitDebugController::new();
    ctrl.add_breakpoint(0x1010);
    ctrl.add_breakpoint(0x1020);

    // Block starting at 0x1000: nearest BP is 0x1010, delta=16 bytes = 4 insns.
    assert_eq!(ctrl.max_block_insns(0x1000), Some(4));

    // Block starting at 0x1010: nearest BP ahead is 0x1020, delta=16 bytes = 4 insns.
    assert_eq!(ctrl.max_block_insns(0x1010), Some(4));

    // No breakpoints ahead of 0x1020.
    assert_eq!(ctrl.max_block_insns(0x1020), None);
}

#[test]
fn max_block_insns_none_without_breakpoints() {
    let ctrl = JitDebugController::new();
    assert_eq!(ctrl.max_block_insns(0x1000), None);
}

#[test]
fn clear_trace_window_makes_all_events_pass() {
    let mut ctrl = JitDebugController::new();
    ctrl.set_trace_window(JitTraceWindow {
        start_pc: Some(0x9000),
        ..Default::default()
    });
    ctrl.on_block_entry(0x1000);
    assert!(!ctrl.is_window_active());

    ctrl.clear_trace_window();
    ctrl.on_block_entry(0x1000);
    assert!(ctrl.is_window_active());
}

#[test]
fn verify_field_activates_controller() {
    let mut ctrl = JitDebugController::new();
    assert!(!ctrl.verify);
    assert!(!ctrl.is_active());
    ctrl.verify = true;
    assert!(ctrl.is_active());
    // verify does not change dispatch decision
    assert_eq!(ctrl.on_block_entry(0x1000), DispatchDecision::Execute);
}

#[test]
fn insn_counter_tracks_across_blocks() {
    let mut ctrl = JitDebugController::new();
    assert_eq!(ctrl.insns_retired(), 0);
    ctrl.on_block_exit(0x1000, 5);
    ctrl.on_block_exit(0x1014, 3);
    assert_eq!(ctrl.insns_retired(), 8);
    ctrl.reset_insns_retired();
    assert_eq!(ctrl.insns_retired(), 0);
}

// ── Further scenarios ───────────────────────────────────────────────────────

#[test]
fn breakpoints_are_a_set() {
    let mut ctrl = JitDebugController::new();
    assert!(ctrl.add_breakpoint(0x40));
    assert!(!ctrl.add_breakpoint(0x40));
    assert!(ctrl.add_breakpoint(0x80));
    assert_eq!(ctrl.breakpoint_count(), 2);
    assert!(ctrl.has_breakpoint(0x40));
    assert!(!ctrl.has_breakpoint(0x44));
    let mut all = ctrl.breakpoints();
    all.sort();
    assert_eq!(all, vec![0x40, 0x80]);
    assert!(!ctrl.remove_breakpoint(0x44));
    ctrl.clear_breakpoints();
    assert_eq!(ctrl.breakpoint_count(), 0);
    assert!(!ctrl.is_active());
}

#[test]
fn breakpoint_exactly_one_insn_ahead_limits_block_to_one() {
    let mut ctrl = JitDebugController::new();
    ctrl.add_breakpoint(0x1004);
    assert_eq!(ctrl.max_block_insns(0x1000), Some(1));
    // A breakpoint behind the block start is irrelevant.
    assert_eq!(ctrl.max_block_insns(0x1008), None);
}

#[test]
fn closed_window_stays_closed_after_clear_and_reset() {
    let mut ctrl = JitDebugController::new();
    ctrl.set_trace_window(JitTraceWindow {
        stop_pc: Some(0x2000),
        ..Default::default()
    });
    assert!(ctrl.has_trace_window());
    ctrl.on_block_entry(0x1000);
    assert!(ctrl.is_window_active());
    ctrl.on_block_entry(0x2000);
    assert!(!ctrl.is_window_active());
    ctrl.on_block_entry(0x1000);
    assert!(!ctrl.is_window_active());
    // Events outside the window are not counted.
    assert!(!ctrl.on_block_exit(0x1000, 1));
    ctrl.clear_trace_window();
    assert!(!ctrl.has_trace_window());
}

#[test]
fn default_controller_is_inactive() {
    let ctrl = JitDebugController::default();
    assert!(!ctrl.is_active());
    assert!(!ctrl.force_interpreter);
    assert_eq!(ctrl.insns_retired(), 0);
}

#[test]
fn window_check_passes_without_a_trace_window() {
    let mut ctrl = JitDebugController::new();
    assert!(ctrl.is_window_active());
    ctrl.set_trace_window(JitTraceWindow {
        start_pc: Some(0x2000),
        ..Default::default()
    });
    assert!(!ctrl.is_window_active());
    ctrl.on_block_entry(0x1000);
    assert!(!ctrl.is_window_active());
    ctrl.clear_trace_window();
    assert!(ctrl.is_window_active());
}
