//! Backend-agnostic JIT debug/trace controller.
//!
//! Provides breakpoints, trace windows gated by guest PC or retired
//! instruction count, and interpreter-fallback policy, at block granularity.
//! The controller works at the dispatch level, between the block-cache lookup
//! and the execution of a compiled block, so it does not depend on which
//! backend produced the code.
//!
//! A *trace window* gates event emission to a (start, stop) range defined by
//! guest PC and/or retired instruction count. Outside the window, per-block
//! events are not emitted.

use std::collections::HashSet;
use vstd::prelude::*;
use vstd::std_specs::hash::*;
use vstd::std_specs::iter::IteratorSpec;

verus! {

broadcast use vstd::std_specs::hash::group_hash_axioms;

/// Defines when JIT trace/debug events are emitted.
///
/// An unset field means "no constraint on that axis". The window is active
/// when all set start conditions have been met and no stop condition has
/// fired yet.
#[derive(Debug, Clone, Copy, Default)]
pub struct JitTraceWindow {
    /// Start emitting events when PC reaches this address.
    pub start_pc: Option<u64>,
    /// Start emitting events after this many guest instructions have retired.
    pub start_insn: Option<u64>,
    /// Stop emitting events when PC reaches this address.
    pub stop_pc: Option<u64>,
    /// Stop emitting events after this many guest instructions have retired.
    pub stop_insn: Option<u64>,
    /// Maximum number of block-execute events to emit (then auto-close).
    pub max_events: Option<u64>,
}

/// Runtime state of a configured trace window.
#[derive(Debug, Clone, Copy)]
pub struct WindowState {
    pub window: JitTraceWindow,
    /// Whether the window has been opened (all start conditions met).
    pub opened: bool,
    /// Whether the window has been permanently closed (a stop condition fired).
    pub closed: bool,
    /// Number of block-execute events emitted so far.
    pub events_emitted: u64,
}

/// The state of a freshly configured window: open at once when it has no
/// start condition, never closed, no events.
pub open spec fn window_init(w: JitTraceWindow) -> WindowState {
    WindowState {
        window: w,
        opened: w.start_pc is None && w.start_insn is None,
        closed: false,
        events_emitted: 0,
    }
}

/// Whether an optional lower bound is met (`None` always is).
pub open spec fn bound_met(bound: Option<u64>, value: u64) -> bool {
    match bound {
        Some(b) => value >= b,
        None => true,
    }
}

/// Whether an optional limit has been reached (`None` never is).
pub open spec fn limit_hit(limit: Option<u64>, value: u64) -> bool {
    match limit {
        Some(l) => value >= l,
        None => false,
    }
}

/// One activity check of a window at guest PC `pc` with `retired`
/// instructions retired: the new window state and whether it is active.
pub open spec fn window_step(ws: WindowState, pc: u64, retired: u64) -> (WindowState, bool) {
    if ws.closed {
        (ws, false)
    } else {
        let opened = ws.opened || (bound_met(ws.window.start_pc, pc) && bound_met(
            ws.window.start_insn,
            retired,
        ));
        let ws1 = WindowState { opened, ..ws };
        if !opened {
            (ws1, false)
        } else if limit_hit(ws.window.stop_pc, pc) || limit_hit(ws.window.stop_insn, retired)
            || limit_hit(ws.window.max_events, ws.events_emitted) {
            (WindowState { closed: true, ..ws1 }, false)
        } else {
            (ws1, true)
        }
    }
}

impl WindowState {
    fn new(window: JitTraceWindow) -> (s: Self)
        ensures
            s == window_init(window),
    {
        let opened = window.start_pc.is_none() && window.start_insn.is_none();
        WindowState { window, opened, closed: false, events_emitted: 0 }
    }

    /// Check whether the window is currently active for the given state.
    fn is_active(&mut self, pc: u64, insns_retired: u64) -> (r: bool)
        ensures
            (*final(self), r) == window_step(*old(self), pc, insns_retired),
    {
        if self.closed {
            return false;
        }
        if !self.opened {
            let pc_ok = match self.window.start_pc {
                Some(spc) => pc >= spc,
                None => true,
            };
            let insn_ok = match self.window.start_insn {
                Some(si) => insns_retired >= si,
                None => true,
            };
            if pc_ok && insn_ok {
                self.opened = true;
            }
        }
        if !self.opened {
            return false;
        }
        let stop_pc_hit = match self.window.stop_pc {
            Some(spc) => pc >= spc,
            None => false,
        };
        if stop_pc_hit {
            self.closed = true;
            return false;
        }
        let stop_insn_hit = match self.window.stop_insn {
            Some(si) => insns_retired >= si,
            None => false,
        };
        if stop_insn_hit {
            self.closed = true;
            return false;
        }
        let max_hit = match self.window.max_events {
            Some(m) => self.events_emitted >= m,
            None => false,
        };
        if max_hit {
            self.closed = true;
            return false;
        }
        true
    }

    fn note_event(&mut self)
        requires
            old(self).events_emitted < u64::MAX,
        ensures
            *final(self) == (WindowState { events_emitted: (old(self).events_emitted + 1) as u64, ..*old(self) }),
    {
        self.events_emitted += 1;
    }
}

/// Outcome of checking whether dispatch should proceed for a given PC.
#[derive(Debug, Clone, Copy, PartialEq, Eq, Structural)]
pub enum DispatchDecision {
    /// Execute the compiled block normally.
    Execute,
    /// A breakpoint matched: the dispatch loop should stop.
    Breakpoint,
    /// Debug policy requires interpreter fallback for this block.
    FallbackToInterpreter,
}

/// The dispatch decision at `pc`: breakpoints first, then forced
/// interpreter fallback, else execution.
pub open spec fn entry_decision(breakpoints: Set<u64>, force_interpreter: bool, pc: u64) -> DispatchDecision {
    if breakpoints.contains(pc) {
        DispatchDecision::Breakpoint
    } else if force_interpreter {
        DispatchDecision::FallbackToInterpreter
    } else {
        DispatchDecision::Execute
    }
}

/// `bp` is the nearest element of `s` strictly after `start`.
pub open spec fn is_nearest_after(s: Set<u64>, start: u64, bp: u64) -> bool {
    &&& s.contains(bp)
    &&& bp > start
    &&& forall|b: u64| s.contains(b) && b > start ==> bp <= b
}

/// `u64` saturating addition, as a mathematical function.
pub open spec fn sat_add(a: u64, b: u64) -> u64 {
    if a + b > u64::MAX {
        u64::MAX
    } else {
        (a + b) as u64
    }
}

/// A breakpoint at `pc` wins over every other dispatch policy, forced
/// interpreter fallback included.
pub proof fn lemma_breakpoint_takes_priority(breakpoints: Set<u64>, force_interpreter: bool, pc: u64)
    requires
        breakpoints.contains(pc),
    ensures
        entry_decision(breakpoints, force_interpreter, pc) == DispatchDecision::Breakpoint,
{
}

/// With no breakpoint at `pc`, forcing the interpreter always yields fallback,
/// and with no debug features at all every block executes.
pub proof fn lemma_entry_without_breakpoint(breakpoints: Set<u64>, force_interpreter: bool, pc: u64)
    requires
        !breakpoints.contains(pc),
    ensures
        force_interpreter ==> entry_decision(breakpoints, force_interpreter, pc)
            == DispatchDecision::FallbackToInterpreter,
        !force_interpreter ==> entry_decision(breakpoints, force_interpreter, pc)
            == DispatchDecision::Execute,
{
}

/// Once a window has closed it stays closed and is never active again,
/// whatever PC and instruction count it is checked with.
pub proof fn lemma_closed_window_stays_closed(ws: WindowState, pc: u64, retired: u64)
    requires
        ws.closed,
    ensures
        window_step(ws, pc, retired) == (ws, false),
{
}

/// A window that a check reports inactive although every set start
/// condition held has closed (a stop condition or the event limit fired):
/// every later check, with any PC and instruction count, is inactive too.
pub proof fn lemma_inactive_open_window_never_reopens(
    ws: WindowState,
    pc: u64,
    retired: u64,
    later_pc: u64,
    later_retired: u64,
)
    requires
        bound_met(ws.window.start_pc, pc),
        bound_met(ws.window.start_insn, retired),
        !window_step(ws, pc, retired).1,
    ensures
        window_step(window_step(ws, pc, retired).0, later_pc, later_retired) == (
            window_step(ws, pc, retired).0,
            false,
        ),
{
}

/// A window whose stop condition is met is closed by the check and reported
/// inactive (if it was open or opens at this check).
pub proof fn lemma_stop_condition_closes(ws: WindowState, pc: u64, retired: u64)
    requires
        limit_hit(ws.window.stop_pc, pc) || limit_hit(ws.window.stop_insn, retired),
    ensures
        !window_step(ws, pc, retired).1,
        window_step(ws, pc, retired).0.opened ==> window_step(ws, pc, retired).0.closed,
{
}

/// A window emits at most `max_events` events: when the count is within the
/// limit before a check, it is still within the limit after the check and the
/// event it may count.
pub proof fn lemma_max_events_bound(ws: WindowState, pc: u64, retired: u64, m: u64)
    requires
        ws.window.max_events == Some(m),
        ws.events_emitted <= m,
    ensures
        window_step(ws, pc, retired).1 ==> window_step(ws, pc, retired).0.events_emitted < m,
        window_step(ws, pc, retired).0.events_emitted == ws.events_emitted,
{
}

/// A window with no start condition is open from the start, and a window with
/// no condition at all is active at every check.
pub proof fn lemma_unconstrained_window_always_active(w: JitTraceWindow, pc: u64, retired: u64)
    requires
        w.start_pc is None,
        w.start_insn is None,
    ensures
        window_init(w).opened,
        (w.stop_pc is None && w.stop_insn is None && w.max_events is None) ==> window_step(
            window_init(w),
            pc,
            retired,
        ) == (window_init(w), true),
{
}

/// Backend-agnostic controller for JIT-level debug and trace features.
///
/// The dispatch loop calls `on_block_entry` before executing each compiled
/// block to decide whether to execute, break, or fall back to the
/// interpreter, and `on_block_exit` afterwards to update counters and window
/// state. The controller only advises; the dispatch loop acts.
pub struct JitDebugController {
    breakpoints: HashSet<u64>,
    trace_window: Option<WindowState>,
    /// When true, every block dispatches to the interpreter instead of
    /// running compiled code.
    pub force_interpreter: bool,
    /// When true, each JIT block is checked against the interpreter.
    pub verify: bool,
    insns_retired: u64,
    window_active: bool,
}

impl JitDebugController {
    /// The set of PC breakpoints.
    pub closed spec fn breakpoint_set(&self) -> Set<u64> {
        self.breakpoints@
    }

    /// The `force_interpreter` flag.
    pub closed spec fn forced(&self) -> bool {
        self.force_interpreter
    }

    /// The `verify` flag.
    pub closed spec fn verifying(&self) -> bool {
        self.verify
    }

    /// The configured trace window and its runtime state, if any.
    pub closed spec fn window(&self) -> Option<WindowState> {
        self.trace_window
    }

    /// Guest instructions retired through the JIT path so far.
    pub closed spec fn retired(&self) -> u64 {
        self.insns_retired
    }

    /// The cached "trace window active" flag set by the last block entry.
    pub closed spec fn window_flag(&self) -> bool {
        self.window_active
    }

    /// Create a new controller with no breakpoints and no trace window.
    pub fn new() -> (c: Self)
        ensures
            c.breakpoint_set() == Set::<u64>::empty(),
            c.window() is None,
            !c.forced(),
            !c.verifying(),
            c.retired() == 0,
            !c.window_flag(),
    {
        JitDebugController {
            breakpoints: HashSet::new(),
            trace_window: None,
            force_interpreter: false,
            verify: false,
            insns_retired: 0,
            window_active: false,
        }
    }

    /// Add a PC breakpoint. Returns `true` if newly inserted.
    pub fn add_breakpoint(&mut self, pc: u64) -> (r: bool)
        ensures
            final(self).breakpoint_set() == old(self).breakpoint_set().insert(pc),
            r == !old(self).breakpoint_set().contains(pc),
            final(self).window() == old(self).window(),
            final(self).forced() == old(self).forced(),
            final(self).verifying() == old(self).verifying(),
            final(self).retired() == old(self).retired(),
            final(self).window_flag() == old(self).window_flag(),
    {
        self.breakpoints.insert(pc)
    }

    /// Remove a PC breakpoint. Returns `true` if it existed.
    pub fn remove_breakpoint(&mut self, pc: u64) -> (r: bool)
        ensures
            final(self).breakpoint_set() == old(self).breakpoint_set().remove(pc),
            r == old(self).breakpoint_set().contains(pc),
            final(self).window() == old(self).window(),
            final(self).forced() == old(self).forced(),
            final(self).verifying() == old(self).verifying(),
            final(self).retired() == old(self).retired(),
            final(self).window_flag() == old(self).window_flag(),
    {
        self.breakpoints.remove(&pc)
    }

    /// Remove all breakpoints.
    pub fn clear_breakpoints(&mut self)
        ensures
            final(self).breakpoint_set() == Set::<u64>::empty(),
            final(self).window() == old(self).window(),
            final(self).forced() == old(self).forced(),
            final(self).verifying() == old(self).verifying(),
            final(self).retired() == old(self).retired(),
            final(self).window_flag() == old(self).window_flag(),
    {
        self.breakpoints.clear();
    }

    /// Returns `true` if `pc` is a breakpoint address.
    pub fn has_breakpoint(&self, pc: u64) -> (r: bool)
        ensures
            r == self.breakpoint_set().contains(pc),
    {
        !self.breakpoints.is_empty() && self.breakpoints.contains(&pc)
    }

    /// Number of active breakpoints.
    pub fn breakpoint_count(&self) -> (r: usize)
        ensures
            r == self.breakpoint_set().len(),
    {
        self.breakpoints.len()
    }

    /// All breakpoint addresses, each once, in the hash set's iteration order.
    pub fn breakpoints(&self) -> (r: Vec<u64>)
        ensures
            r@.to_set() == self.breakpoint_set(),
            r@.no_duplicates(),
    {
        let mut out: Vec<u64> = Vec::new();
        let keys = self.breakpoints.iter();
        let ghost all = keys.remaining();
        for bp in it: keys
            invariant
                it.seq() == all,
                all == spec_hash_keys_iter(&self.breakpoints).remaining(),
                out@ == all.take(it.index()).unref(),
        {
            proof {
                assert(all.take(it.index() + 1) =~= all.take(it.index()).push(bp));
            }
            out.push(*bp);
        }
        proof {
            assert(all.take(all.len() as int) =~= all);
        }
        out
    }

    /// Maximum number of guest instructions a block starting at `start_pc`
    /// may contain before it must end: the distance, in 4-byte instructions,
    /// to the nearest breakpoint strictly after `start_pc` (truncated to
    /// `u32`). `None` when no breakpoint lies after `start_pc`.
    pub fn max_block_insns(&self, start_pc: u64) -> (r: Option<u32>)
        ensures
            r is None <==> !(exists|b: u64| self.breakpoint_set().contains(b) && b > start_pc),
            r matches Some(n) ==> exists|bp: u64|
                is_nearest_after(self.breakpoint_set(), start_pc, bp) && n == ((bp - start_pc) / 4) as u32,
    {
        if self.breakpoints.is_empty() {
            return None;
        }
        let mut nearest: Option<u64> = None;
        let keys = self.breakpoints.iter();
        let ghost all = keys.remaining().unref();
        for bp in it: keys
            invariant
                it.seq().unref() == all,
                all == spec_hash_keys_iter(&self.breakpoints).remaining().unref(),
                0 <= it.index() <= all.len(),
                nearest matches Some(n) ==> is_nearest_after(all.take(it.index()).to_set(), start_pc, n),
                nearest is None ==> forall|j: int| 0 <= j < it.index() ==> all[j] <= start_pc,
        {
            let ghost i = it.index();
            let b = *bp;
            proof {
                assert(all[i] == b);
                assert(all.take(i + 1) =~= all.take(i).push(b));
                assert forall|x: u64| #[trigger] all.take(i + 1).to_set().contains(x) implies
                    all.take(i).to_set().contains(x) || x == b by {
                    let k = choose|k: int| 0 <= k < i + 1 && #[trigger] all.take(i + 1)[k] == x;
                    if k < i {
                        assert(all.take(i)[k] == x);
                    }
                }
                assert(all.take(i).to_set().subset_of(all.take(i + 1).to_set())) by {
                    assert forall|x: u64| #[trigger] all.take(i).to_set().contains(x) implies
                        all.take(i + 1).to_set().contains(x) by {
                        let k = choose|k: int| 0 <= k < i && #[trigger] all.take(i)[k] == x;
                        assert(all.take(i + 1)[k] == x);
                    }
                }
                assert(all.take(i + 1)[i] == b);
                assert(all.take(i + 1).to_set().contains(b));
            }
            if b > start_pc {
                nearest = Some(
                    match nearest {
                        Some(prev) => if prev < b {
                            prev
                        } else {
                            b
                        },
                        None => b,
                    },
                );
            }
            proof {
                if nearest is None {
                    assert forall|j: int| 0 <= j < i + 1 implies all[j] <= start_pc by {
                        if j == i {
                        }
                    }
                } else {
                    let n = nearest->Some_0;
                    assert forall|x: u64|
                        #[trigger] all.take(i + 1).to_set().contains(x) && x > start_pc implies n <= x by {
                        if x != b {
                            assert(all.take(i).to_set().contains(x));
                            let k = choose|k: int| 0 <= k < i && #[trigger] all.take(i)[k] == x;
                            assert(all[k] == x);
                        }
                    }
                }
            }
        }
        proof {
            assert(all.take(all.len() as int) =~= all);
            assert(all.to_set() == self.breakpoint_set());
        }
        match nearest {
            Some(bp_pc) => {
                let delta_bytes = bp_pc - start_pc;
                Some((delta_bytes / 4) as u32)
            },
            None => {
                proof {
                    assert forall|b: u64| self.breakpoint_set().contains(b) implies b <= start_pc by {
                        assert(all.to_set().contains(b));
                        let k = choose|k: int| 0 <= k < all.len() && #[trigger] all[k] == b;
                    }
                }
                None
            },
        }
    }

    /// Set or replace the trace window.
    pub fn set_trace_window(&mut self, window: JitTraceWindow)
        ensures
            final(self).window() == Some(window_init(window)),
            !final(self).window_flag(),
            final(self).breakpoint_set() == old(self).breakpoint_set(),
            final(self).forced() == old(self).forced(),
            final(self).verifying() == old(self).verifying(),
            final(self).retired() == old(self).retired(),
    {
        self.trace_window = Some(WindowState::new(window));
        self.window_active = false;
    }

    /// Remove the trace window (events then always pass).
    pub fn clear_trace_window(&mut self)
        ensures
            final(self).window() is None,
            !final(self).window_flag(),
            final(self).breakpoint_set() == old(self).breakpoint_set(),
            final(self).forced() == old(self).forced(),
            final(self).verifying() == old(self).verifying(),
            final(self).retired() == old(self).retired(),
    {
        self.trace_window = None;
        self.window_active = false;
    }

    /// Returns `true` if a trace window has been configured.
    pub fn has_trace_window(&self) -> (r: bool)
        ensures
            r == (self.window() is Some),
    {
        self.trace_window.is_some()
    }

    /// Returns `true` if events should be emitted: always when no trace
    /// window is set, otherwise whether the window was active at the last
    /// block entry.
    pub fn is_window_active(&self) -> (r: bool)
        ensures
            r == (self.window() is None || self.window_flag()),
    {
        self.trace_window.is_none() || self.window_active
    }

    /// Total guest instructions retired through the JIT path.
    pub fn insns_retired(&self) -> (r: u64)
        ensures
            r == self.retired(),
    {
        self.insns_retired
    }

    /// Reset the instruction counter.
    pub fn reset_insns_retired(&mut self)
        ensures
            final(self).retired() == 0,
            final(self).breakpoint_set() == old(self).breakpoint_set(),
            final(self).window() == old(self).window(),
            final(self).forced() == old(self).forced(),
            final(self).verifying() == old(self).verifying(),
            final(self).window_flag() == old(self).window_flag(),
    {
        self.insns_retired = 0;
    }

    /// Called before dispatching a compiled block at `pc`.
    ///
    /// A breakpoint at `pc` wins over forced interpreter fallback; in both of
    /// those cases nothing changes. Otherwise the trace window (if any) is
    /// stepped, the cached window flag records whether it is active (always
    /// true without a window), and the block is to be executed.
    pub fn on_block_entry(&mut self, pc: u64) -> (r: DispatchDecision)
        ensures
            r == entry_decision(old(self).breakpoint_set(), old(self).forced(), pc),
            r != DispatchDecision::Execute ==> *final(self) == *old(self),
            r == DispatchDecision::Execute ==> {
                &&& final(self).window() == (match old(self).window() {
                    Some(ws) => Some(window_step(ws, pc, old(self).retired()).0),
                    None => None,
                })
                &&& final(self).window_flag() == (match old(self).window() {
                    Some(ws) => window_step(ws, pc, old(self).retired()).1,
                    None => true,
                })
                &&& final(self).breakpoint_set() == old(self).breakpoint_set()
                &&& final(self).forced() == old(self).forced()
                &&& final(self).verifying() == old(self).verifying()
                &&& final(self).retired() == old(self).retired()
            },
    {
        if self.has_breakpoint(pc) {
            return DispatchDecision::Breakpoint;
        }
        if self.force_interpreter {
            return DispatchDecision::FallbackToInterpreter;
        }
        let retired = self.insns_retired;
        let active = match &mut self.trace_window {
            Some(ws) => ws.is_active(pc, retired),
            None => true,
        };
        self.window_active = active;
        DispatchDecision::Execute
    }

    /// Called after a compiled block finishes: adds `insns_retired` to the
    /// counter (saturating) and, with a trace window, steps the window and
    /// counts an event when it is active.
    ///
    /// Returns `true` if the caller should emit a block-execute event (always
    /// without a trace window).
    pub fn on_block_exit(&mut self, pc: u64, insns_retired: u32) -> (r: bool)
        requires
            old(self).window() matches Some(ws) ==> (window_step(
                ws,
                pc,
                sat_add(old(self).retired(), insns_retired as u64),
            ).1 ==> ws.events_emitted < u64::MAX),
        ensures
            final(self).retired() == sat_add(old(self).retired(), insns_retired as u64),
            final(self).breakpoint_set() == old(self).breakpoint_set(),
            final(self).forced() == old(self).forced(),
            final(self).verifying() == old(self).verifying(),
            final(self).window_flag() == old(self).window_flag(),
            match old(self).window() {
                None => r && final(self).window() is None,
                Some(ws) => {
                    let (ws1, active) = window_step(ws, pc, final(self).retired());
                    &&& r == active
                    &&& final(self).window() == Some(
                        if active {
                            WindowState { events_emitted: (ws1.events_emitted + 1) as u64, ..ws1 }
                        } else {
                            ws1
                        },
                    )
                },
            },
    {
        self.insns_retired = self.insns_retired.saturating_add(insns_retired as u64);
        let retired = self.insns_retired;
        match &mut self.trace_window {
            Some(ws) => {
                if ws.is_active(pc, retired) {
                    ws.note_event();
                    true
                } else {
                    false
                }
            },
            None => true,
        }
    }

    /// Returns `true` if any debug feature is active (breakpoints, trace
    /// window, forced interpreter or verification).
    pub fn is_active(&self) -> (r: bool)
        ensures
            r == (!self.breakpoint_set().is_empty() || self.window() is Some || self.forced()
                || self.verifying()),
    {
        !self.breakpoints.is_empty() || self.trace_window.is_some() || self.force_interpreter
            || self.verify
    }
}

impl Default for JitDebugController {
    fn default() -> (c: Self)
        ensures
            c.breakpoint_set() == Set::<u64>::empty(),
            c.window() is None,
            !c.forced(),
            !c.verifying(),
            c.retired() == 0,
            !c.window_flag(),
    {
        Self::new()
    }
}

} // verus!
