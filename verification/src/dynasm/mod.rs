//! The dynasm JIT backend: its identity, guest-operand mapping and the
//! block-formation policy that drives its per-instruction emitters.
//!
//! The x86-64 bytes themselves are produced by the emitters outside the
//! library; what is decided here is how many guest instructions a block
//! takes, where it stops, and which flat-array slot each operand names.
//!
//! Block formation, for both guest ISAs, walks the decoded instructions in
//! order, at most [`MAX_BLOCK_INSNS`] of them:
//! - an emitted instruction (or fused pair) that does not terminate the block
//!   adds its instructions and the walk goes on;
//! - one that terminates the block (such as an unconditional branch) adds its
//!   instructions and ends it;
//! - an unsupported instruction ends the block without being counted.
//!
//! A block that counted no instruction is not compiled; otherwise its
//! fall-through exit sets the guest PC just past the last counted instruction.

pub mod arith;
pub mod bitfield;
pub mod branch;
pub mod carry;
pub mod dispatch;
pub mod divide;
pub mod emit;
pub mod fusion;
pub mod imm;
pub mod logic;
pub mod memory;
pub mod multiply;
pub mod nzcv;
pub mod pair;
pub mod pinned;
pub mod rv64;
pub mod select;
pub mod zva;

use vstd::prelude::*;

verus! {

/// Maximum number of guest instructions the walk may start in one block.
pub const MAX_BLOCK_INSNS: usize = 64;

/// Dynasm JIT backend for AArch64 guests.
pub struct DynasmBackend;

impl DynasmBackend {
    /// Create a new dynasm backend instance.
    pub fn new() -> (r: Self)
        ensures
            r == (DynasmBackend {}),
    {
        DynasmBackend
    }

    /// Human-readable backend name.
    pub fn name(&self) -> (r: &'static str)
        ensures
            r@ == "dynasm"@,
    {
        "dynasm"
    }
}

impl Default for DynasmBackend {
    fn default() -> (r: Self)
        ensures
            r == (DynasmBackend {}),
    {
        Self::new()
    }
}

/// What the emitter did with the instruction (or fused pair) at the walk's
/// current position.
#[derive(Debug, Clone, Copy, PartialEq, Eq, Structural)]
pub enum EmitOutcome {
    /// `consumed` guest instructions were emitted; `terminates` when they
    /// end the block (the emitter wrote the exit itself).
    Emitted { consumed: usize, terminates: bool },
    /// The instruction cannot be compiled: the block ends before it.
    Unsupported,
}

/// State of a block-formation walk.
#[derive(Debug, Clone, Copy, PartialEq, Eq, Structural)]
pub struct BlockFormation {
    /// Guest instructions counted so far (also the index of the next one).
    pub insn_count: usize,
    /// The walk has ended (terminator or unsupported instruction).
    pub finished: bool,
}

/// The walk may look at another instruction of a slice of `n` decoded
/// instructions: it has not ended and is below both the slice length and
/// the block-size limit.
pub open spec fn walk_continues(s: BlockFormation, n: nat) -> bool {
    !s.finished && s.insn_count < n && s.insn_count < MAX_BLOCK_INSNS
}

/// The state after the emitter reported `outcome`.
pub open spec fn walk_step(s: BlockFormation, outcome: EmitOutcome) -> BlockFormation {
    match outcome {
        EmitOutcome::Emitted { consumed, terminates } => BlockFormation {
            insn_count: (s.insn_count + consumed) as usize,
            finished: terminates,
        },
        EmitOutcome::Unsupported => BlockFormation { finished: true, ..s },
    }
}

/// An outcome the emitter can report at the walk's position in a slice of
/// `n` instructions: at least one instruction, and no more than remain.
pub open spec fn outcome_fits(s: BlockFormation, outcome: EmitOutcome, n: nat) -> bool {
    match outcome {
        EmitOutcome::Emitted { consumed, .. } => 1 <= consumed && s.insn_count + consumed <= n,
        EmitOutcome::Unsupported => true,
    }
}

impl BlockFormation {
    /// The state before the first instruction.
    pub fn start() -> (r: Self)
        ensures
            r.insn_count == 0,
            !r.finished,
    {
        BlockFormation { insn_count: 0, finished: false }
    }

    /// Whether the walk goes on to the next of the `n` decoded instructions.
    pub fn wants_more(&self, n: usize) -> (r: bool)
        ensures
            r == walk_continues(*self, n as nat),
    {
        !self.finished && self.insn_count < n && self.insn_count < MAX_BLOCK_INSNS
    }

    /// Record what the emitter did at the current position.
    pub fn step(&self, outcome: EmitOutcome, n: usize) -> (r: Self)
        requires
            self.insn_count <= n,
            outcome_fits(*self, outcome, n as nat),
        ensures
            r == walk_step(*self, outcome),
            r.insn_count <= n,
    {
        match outcome {
            EmitOutcome::Emitted { consumed, terminates } => BlockFormation {
                insn_count: self.insn_count + consumed,
                finished: terminates,
            },
            EmitOutcome::Unsupported => BlockFormation {
                insn_count: self.insn_count,
                finished: true,
            },
        }
    }
}

/// Guest PC just past `count` 4-byte instructions starting at `pc`.
pub open spec fn fallthrough_pc_spec(pc: u64, count: nat) -> int {
    pc + count * 4
}

/// Finish a walk that started at guest PC `pc`: `None` when no instruction
/// was counted (the block is not compiled), otherwise the instruction count
/// and the PC its fall-through exit sets.
pub fn finish_block(s: BlockFormation, pc: u64) -> (r: Option<(u32, u64)>)
    requires
        s.insn_count <= u32::MAX,
        fallthrough_pc_spec(pc, s.insn_count as nat) <= u64::MAX,
    ensures
        s.insn_count == 0 ==> r is None,
        s.insn_count > 0 ==> r == Some(
            (s.insn_count as u32, fallthrough_pc_spec(pc, s.insn_count as nat) as u64),
        ),
{
    if s.insn_count == 0 {
        None
    } else {
        let count = s.insn_count as u32;
        Some((count, pc + (count as u64) * 4))
    }
}

/// The outcomes `outcomes[0..]` drive a walk over `n` instructions from
/// state `s` to the state it ends in.
pub open spec fn walk_from(s: BlockFormation, outcomes: Seq<EmitOutcome>, n: nat) -> BlockFormation
    decreases outcomes.len(),
{
    if !walk_continues(s, n) || outcomes.len() == 0 {
        s
    } else {
        walk_from(walk_step(s, outcomes[0]), outcomes.drop_first(), n)
    }
}

/// A walk never counts more instructions than the slice holds, and a new
/// instruction is only started below the block-size limit: when the emitter
/// consumes at most `max_consumed` instructions at a time, a block holds at
/// most `MAX_BLOCK_INSNS + max_consumed - 1` of them (exactly the limit when
/// instructions are emitted one by one).
pub proof fn lemma_walk_bounded(s: BlockFormation, outcomes: Seq<EmitOutcome>, n: nat, max_consumed: nat)
    requires
        s.insn_count <= n,
        s.insn_count <= MAX_BLOCK_INSNS + max_consumed - 1,
        max_consumed >= 1,
        forall|i: int|
            0 <= i < outcomes.len() ==> match #[trigger] outcomes[i] {
                EmitOutcome::Emitted { consumed, .. } => 1 <= consumed <= max_consumed,
                EmitOutcome::Unsupported => true,
            },
        forall|t: BlockFormation, i: int|
            #![trigger outcome_fits(t, outcomes[i], n)]
            0 <= i < outcomes.len() && walk_continues(t, n) ==> outcome_fits(t, outcomes[i], n),
    ensures
        walk_from(s, outcomes, n).insn_count <= n,
        walk_from(s, outcomes, n).insn_count <= MAX_BLOCK_INSNS + max_consumed - 1,
    decreases outcomes.len(),
{
    if walk_continues(s, n) && outcomes.len() > 0 {
        let o = outcomes[0];
        assert(outcome_fits(s, o, n));
        let rest = outcomes.drop_first();
        assert forall|i: int| 0 <= i < rest.len() implies match #[trigger] rest[i] {
            EmitOutcome::Emitted { consumed, .. } => 1 <= consumed <= max_consumed,
            EmitOutcome::Unsupported => true,
        } by {
            assert(rest[i] == outcomes[i + 1]);
        }
        assert forall|t: BlockFormation, i: int|
            #![trigger outcome_fits(t, rest[i], n)]
            0 <= i < rest.len() && walk_continues(t, n) implies outcome_fits(t, rest[i], n) by {
            assert(rest[i] == outcomes[i + 1]);
            assert(outcome_fits(t, outcomes[i + 1], n));
        }
        lemma_walk_bounded(walk_step(s, o), rest, n, max_consumed);
    }
}

} // verus!
