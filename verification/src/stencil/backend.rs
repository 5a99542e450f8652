//! Stencil backend configuration and its block-formation policy.
//!
//! A block is formed from consecutive guest instructions whose stencils were
//! looked up: chaining continues across leaf stencils and stops at a
//! terminator or a non-leaf stencil (which cannot be chained past), at a
//! rejected instruction, or at an instruction whose 32-bit holes cannot hold
//! its operands. An instruction whose opcode is unknown aborts the block.

use super::data::aarch64::{a64_lookup_result, A64_STENCIL_COUNT};
use super::data::reject::OPCODE_UNIMPLEMENTED;
use super::data::riscv64::RV64_STENCIL_COUNT;
use super::data::{lookup_stencil_a64, lookup_stencil_rv64, rv64_lookup_result, StencilLookup};
use super::fields::riscv64::{extract_fields_rv64, rv64_fields, rv64_fields_in_range};
use super::fields::aarch64::{a64_fields, a64_fields_in_range, extract_fields_a64};
use crate::insn::{A64Insn, Rv64Insn};
use vstd::string::StringSliceAdditionalSpecFns;
use super::types::{DecodedFields, Stencil};
use vstd::prelude::*;

verus! {

/// Which guest ISA a stencil backend is configured for.
#[derive(Debug, Clone, Copy, PartialEq, Eq, Structural)]
pub enum StencilIsa {
    Aarch64,
    Riscv64,
}

/// Stencil (copy-and-patch) JIT backend configuration.
pub struct StencilBackend {
    pub isa: StencilIsa,
    /// Runtime-selected memory-read helper (0 = use the default SE helper).
    pub mem_read_fn: u64,
    /// Runtime-selected memory-write helper (0 = use the default SE helper).
    pub mem_write_fn: u64,
}

/// Whether a 64-bit value survives a round trip through a signed 32-bit
/// relocation field (it is in `[0, 0x7FFF_FFFF]` or sign-extends from 32 bits).
pub open spec fn fits_i32_spec(val: u64) -> bool {
    i32::MIN <= (val as i64) <= i32::MAX
}

/// Check if a 64-bit value fits in a signed 32-bit relocation.
pub fn fits_i32(val: u64) -> (r: bool)
    ensures
        r == fits_i32_spec(val),
{
    let signed = val as i64;
    signed >= i32::MIN as i64 && signed <= i32::MAX as i64
}

/// The helper address a hole uses: the configured one when set, otherwise
/// the default helper.
pub open spec fn helper_address(configured: u64, default: u64) -> u64 {
    if configured != 0 {
        configured
    } else {
        default
    }
}

/// Whether a found stencil's 32-bit holes can hold the instruction's
/// operands: terminators need the branch target to fit, the others the
/// immediate.
pub open spec fn operands_fit(s: Stencil, f: DecodedFields) -> bool {
    if s.is_terminator {
        fits_i32_spec(f.branch_target)
    } else {
        fits_i32_spec(f.imm as u64)
    }
}

/// Number of leading instructions (from `i` on) that form the block, or
/// `None` when an unknown opcode aborts it.
pub open spec fn plan_len(lookups: Seq<Option<StencilLookup>>, fields: Seq<DecodedFields>, i: int) -> Option<int>
    decreases lookups.len() - i,
{
    if i < 0 || i >= lookups.len() || i >= fields.len() {
        Some(0)
    } else {
        match lookups[i] {
            None => None,
            Some(StencilLookup::Rejected(_)) => Some(0),
            Some(StencilLookup::Found(s)) => {
                if !operands_fit(*s, fields[i]) {
                    Some(0)
                } else if s.is_terminator || !s.is_leaf {
                    Some(1)
                } else {
                    match plan_len(lookups, fields, i + 1) {
                        None => None,
                        Some(k) => Some(k + 1),
                    }
                }
            },
        }
    }
}

/// Instruction lookup `l` found a leaf, non-terminator stencil whose operands
/// fit: the block continues past it.
pub open spec fn chainable(l: Option<StencilLookup>, f: DecodedFields) -> bool {
    match l {
        Some(StencilLookup::Found(s)) => s.is_leaf && !s.is_terminator && operands_fit(*s, f),
        _ => false,
    }
}

/// The fields of an entry with the memory helpers the stencil must call.
pub open spec fn with_helpers(f: DecodedFields, read_fn: u64, write_fn: u64) -> DecodedFields {
    DecodedFields { mem_read_fn: read_fn, mem_write_fn: write_fn, ..f }
}

/// `entries` is the block planned from `lookups`/`fields`: its first `k`
/// instructions, each with its stencil and its fields completed with the
/// helper addresses.
pub open spec fn is_planned_block(
    entries: Seq<(&'static Stencil, DecodedFields)>,
    lookups: Seq<Option<StencilLookup>>,
    fields: Seq<DecodedFields>,
    k: int,
    read_fn: u64,
    write_fn: u64,
) -> bool {
    &&& entries.len() == k
    &&& forall|j: int|
        0 <= j < k ==> (#[trigger] lookups[j]) == Some(StencilLookup::Found(entries[j].0))
            && entries[j].1 == with_helpers(fields[j], read_fn, write_fn)
}

/// Form a block from per-instruction stencil lookups (`None` = unknown
/// opcode) and decoded fields.
///
/// Returns `None` when an unknown opcode is met before the block ends or when
/// not even the first instruction can be compiled; otherwise the block's
/// entries, whose fields carry the given helper addresses.
pub fn plan_block(
    lookups: &[Option<StencilLookup>],
    fields: &[DecodedFields],
    read_fn: u64,
    write_fn: u64,
) -> (r: Option<Vec<(&'static Stencil, DecodedFields)>>)
    requires
        lookups@.len() == fields@.len(),
    ensures
        match plan_len(lookups@, fields@, 0) {
            Some(k) if k > 0 => r matches Some(entries) && is_planned_block(
                entries@,
                lookups@,
                fields@,
                k,
                read_fn,
                write_fn,
            ),
            _ => r is None,
        },
{
    let n = lookups.len();
    let mut entries: Vec<(&'static Stencil, DecodedFields)> = Vec::new();
    let mut i: usize = 0;
    while i < n
        invariant_except_break
            0 <= i <= n,
            n == lookups@.len(),
            n == fields@.len(),
            is_planned_block(entries@, lookups@, fields@, i as int, read_fn, write_fn),
            forall|j: int|
                0 <= j < i ==> chainable(#[trigger] lookups@[j], fields@[j]),
        ensures
            0 <= i <= n,
            is_planned_block(entries@, lookups@, fields@, i as int, read_fn, write_fn),
            forall|j: int|
                0 <= j < i ==> chainable(#[trigger] lookups@[j], fields@[j]),
            (i == n || plan_len(lookups@, fields@, i as int) == Some(0int)) ==> plan_len(
                lookups@,
                fields@,
                i as int,
            ) == Some(0int),
            i < n && plan_len(lookups@, fields@, i as int) != Some(0int) ==> false,
        decreases n - i,
    {
        let ghost old_entries = entries@;
        match lookups[i] {
            None => {
                proof {
                    lemma_plan_prefix(lookups@, fields@, i as int);
                }
                return None;
            },
            Some(StencilLookup::Rejected(_)) => {
                break;
            },
            Some(StencilLookup::Found(s)) => {
                let mut f = fields[i];
                let fits = if s.is_terminator {
                    fits_i32(f.branch_target)
                } else {
                    fits_i32(f.imm as u64)
                };
                if !fits {
                    break;
                }
                f.mem_read_fn = read_fn;
                f.mem_write_fn = write_fn;
                entries.push((s, f));
                if s.is_terminator || !s.is_leaf {
                    proof {
                        lemma_plan_prefix(lookups@, fields@, i as int);
                    }
                    return Some(entries);
                }
            },
        }
        i += 1;
    }
    proof {
        lemma_plan_prefix(lookups@, fields@, i as int);
    }
    if entries.len() == 0 {
        None
    } else {
        Some(entries)
    }
}

/// Chaining leaf stencils from instruction 0 to `i` means the plan from 0 is
/// the plan from `i` shifted by `i`.
proof fn lemma_plan_prefix(lookups: Seq<Option<StencilLookup>>, fields: Seq<DecodedFields>, i: int)
    requires
        0 <= i <= lookups.len(),
        lookups.len() == fields.len(),
        forall|j: int|
            0 <= j < i ==> chainable(#[trigger] lookups[j], fields[j]),
    ensures
        plan_len(lookups, fields, 0) == (match plan_len(lookups, fields, i) {
            None => None,
            Some(k) => Some(k + i),
        }),
    decreases i,
{
    if i > 0 {
        lemma_plan_prefix_from(lookups, fields, 0, i);
    }
}

proof fn lemma_plan_prefix_from(lookups: Seq<Option<StencilLookup>>, fields: Seq<DecodedFields>, a: int, i: int)
    requires
        0 <= a <= i <= lookups.len(),
        lookups.len() == fields.len(),
        forall|j: int|
            0 <= j < i ==> chainable(#[trigger] lookups[j], fields[j]),
    ensures
        plan_len(lookups, fields, a) == (match plan_len(lookups, fields, i) {
            None => None,
            Some(k) => Some(k + (i - a)),
        }),
    decreases i - a,
{
    if a < i {
        lemma_plan_prefix_from(lookups, fields, a + 1, i);
        assert(chainable(lookups[a], fields[a]));
    }
}

/// A plan from instruction `i` takes no more instructions than remain.
proof fn lemma_plan_len_bound(lookups: Seq<Option<StencilLookup>>, fields: Seq<DecodedFields>, i: int)
    requires
        0 <= i <= lookups.len(),
    ensures
        plan_len(lookups, fields, i) matches Some(k) ==> 0 <= k <= lookups.len() - i,
    decreases lookups.len() - i,
{
    if i < lookups.len() && i < fields.len() {
        lemma_plan_len_bound(lookups, fields, i + 1);
    }
}

/// Plans from the same first `c` chaining instructions that stop alike at
/// instruction `c` are equal.
proof fn lemma_plan_stops_alike(
    l1: Seq<Option<StencilLookup>>,
    f1: Seq<DecodedFields>,
    l2: Seq<Option<StencilLookup>>,
    f2: Seq<DecodedFields>,
    c: int,
)
    requires
        l1.len() == f1.len(),
        l2.len() == f2.len(),
        0 <= c <= l1.len(),
        c <= l2.len(),
        forall|j: int| 0 <= j < c ==> l1[j] == l2[j] && f1[j] == f2[j],
        forall|j: int| 0 <= j < c ==> chainable(#[trigger] l1[j], f1[j]),
        plan_len(l1, f1, c) == plan_len(l2, f2, c),
    ensures
        plan_len(l1, f1, 0) == plan_len(l2, f2, 0),
{
    lemma_plan_prefix(l1, f1, c);
    assert forall|j: int| 0 <= j < c implies chainable(#[trigger] l2[j], f2[j]) by {
        assert(chainable(l1[j], f1[j]));
    }
    lemma_plan_prefix(l2, f2, c);
}

/// The stencil lookups of a block's AArch64 instructions.
pub open spec fn a64_block_lookups(insns: Seq<A64Insn>, table: &'static [Stencil]) -> Seq<Option<StencilLookup>> {
    Seq::new(insns.len(), |i: int| a64_lookup_result(insns[i], table))
}

/// The fields of a block's AArch64 instructions, each extracted at its own
/// address.
pub open spec fn a64_block_fields(insns: Seq<A64Insn>) -> Seq<DecodedFields> {
    Seq::new(insns.len(), |i: int| a64_fields(insns[i], insns[i].pc))
}

/// Every instruction that block formation reaches (all before it chain) and
/// finds a stencil for has its fields in range.
pub open spec fn a64_block_extractable(insns: Seq<A64Insn>, table: &'static [Stencil]) -> bool {
    forall|i: int|
        #![trigger a64_block_lookups(insns, table)[i]]
        0 <= i < insns.len() && (forall|j: int|
            0 <= j < i ==> chainable(
                #[trigger] a64_block_lookups(insns, table)[j],
                a64_block_fields(insns)[j],
            )) && (a64_block_lookups(insns, table)[i] matches Some(StencilLookup::Found(_)))
            ==> a64_fields_in_range(insns[i], insns[i].pc)
}

impl StencilBackend {
    /// Create a new stencil backend for the given ISA, using the default
    /// memory helpers.
    pub fn new(isa: StencilIsa) -> (b: Self)
        ensures
            b.isa == isa,
            b.mem_read_fn == 0,
            b.mem_write_fn == 0,
    {
        StencilBackend { isa, mem_read_fn: 0, mem_write_fn: 0 }
    }

    /// Create a new stencil backend for AArch64.
    pub fn new_aarch64() -> (b: Self)
        ensures
            b.isa == StencilIsa::Aarch64,
            b.mem_read_fn == 0,
            b.mem_write_fn == 0,
    {
        Self::new(StencilIsa::Aarch64)
    }

    /// Create a new stencil backend for RISC-V64.
    pub fn new_riscv64() -> (b: Self)
        ensures
            b.isa == StencilIsa::Riscv64,
            b.mem_read_fn == 0,
            b.mem_write_fn == 0,
    {
        Self::new(StencilIsa::Riscv64)
    }

    /// Human-readable backend name.
    pub fn name(&self) -> (r: &'static str)
        ensures
            r@ == "stencil"@,
    {
        "stencil"
    }

    /// Select the memory helpers the stencils call (0 = default helper).
    pub fn set_mem_helpers(&mut self, read_fn: u64, write_fn: u64)
        ensures
            final(self).isa == old(self).isa,
            final(self).mem_read_fn == read_fn,
            final(self).mem_write_fn == write_fn,
    {
        self.mem_read_fn = read_fn;
        self.mem_write_fn = write_fn;
    }

    /// Form an AArch64 block: only an AArch64-configured backend compiles;
    /// the entries call the configured helpers, or the given defaults.
    pub fn plan_block_a64(
        &self,
        lookups: &[Option<StencilLookup>],
        fields: &[DecodedFields],
        default_read_fn: u64,
        default_write_fn: u64,
    ) -> (r: Option<Vec<(&'static Stencil, DecodedFields)>>)
        requires
            lookups@.len() == fields@.len(),
        ensures
            self.isa != StencilIsa::Aarch64 ==> r is None,
            self.isa == StencilIsa::Aarch64 ==> match plan_len(lookups@, fields@, 0) {
                Some(k) if k > 0 => r matches Some(entries) && is_planned_block(
                    entries@,
                    lookups@,
                    fields@,
                    k,
                    helper_address(self.mem_read_fn, default_read_fn),
                    helper_address(self.mem_write_fn, default_write_fn),
                ),
                _ => r is None,
            },
    {
        if self.isa != StencilIsa::Aarch64 {
            return None;
        }
        let read_fn = if self.mem_read_fn != 0 { self.mem_read_fn } else { default_read_fn };
        let write_fn = if self.mem_write_fn != 0 { self.mem_write_fn } else { default_write_fn };
        plan_block(lookups, fields, read_fn, write_fn)
    }

    /// Form an AArch64 block from decoded instructions: each is looked up in
    /// the generated stencil table and its fields are extracted at its own
    /// address, up to where block formation stops.
    pub fn plan_insns_a64(
        &self,
        insns: &[A64Insn],
        table: &'static [Stencil],
        default_read_fn: u64,
        default_write_fn: u64,
    ) -> (r: Option<Vec<(&'static Stencil, DecodedFields)>>)
        requires
            table@.len() == A64_STENCIL_COUNT,
            self.isa == StencilIsa::Aarch64 && insns@.len() > 0 ==> a64_block_extractable(insns@, table),
        ensures
            self.isa != StencilIsa::Aarch64 ==> r is None,
            self.isa == StencilIsa::Aarch64 ==> match plan_len(
                a64_block_lookups(insns@, table),
                a64_block_fields(insns@),
                0,
            ) {
                Some(k) if k > 0 => r matches Some(entries) && is_planned_block(
                    entries@,
                    a64_block_lookups(insns@, table),
                    a64_block_fields(insns@),
                    k,
                    helper_address(self.mem_read_fn, default_read_fn),
                    helper_address(self.mem_write_fn, default_write_fn),
                ),
                _ => r is None,
            },
            r matches Some(entries) ==> 1 <= entries@.len() <= insns@.len(),
    {
        if self.isa != StencilIsa::Aarch64 || insns.len() == 0 {
            return None;
        }
        let ghost ls = a64_block_lookups(insns@, table);
        let ghost fs = a64_block_fields(insns@);
        let n = insns.len();
        let mut lv: Vec<Option<StencilLookup>> = Vec::new();
        let mut fv: Vec<DecodedFields> = Vec::new();
        let mut i: usize = 0;
        let mut done = false;
        while i < n && !done
            invariant
                0 <= i <= n,
                n == insns@.len(),
                table@.len() == A64_STENCIL_COUNT,
                a64_block_extractable(insns@, table),
                ls == a64_block_lookups(insns@, table),
                fs == a64_block_fields(insns@),
                forall|j: int| 0 <= j < i ==> chainable(#[trigger] ls[j], fs[j]),
                !done ==> lv@ == ls.take(i as int) && fv@ == fs.take(i as int),
                done ==> i < n && ({
                    ||| ((ls[i as int] matches Some(StencilLookup::Rejected(_))) && lv@ == ls.take(i as int)
                        && fv@ == fs.take(i as int))
                    ||| ((ls[i as int] matches Some(StencilLookup::Found(_))) && !chainable(
                        ls[i as int],
                        fs[i as int],
                    ) && lv@ == ls.take(i as int + 1) && fv@ == fs.take(i as int + 1))
                }),
            decreases n - i + (if done { 0int } else { 1int }),
        {
            let insn = &insns[i];
            let l = lookup_stencil_a64(insn, table);
            assert(l == ls[i as int]);
            match l {
                Some(StencilLookup::Found(s)) => {
                    assert(a64_fields_in_range(insns@[i as int], insns@[i as int].pc));
                    let f = extract_fields_a64(insn, insn.pc);
                    assert(f == fs[i as int]);
                    lv.push(l);
                    fv.push(f);
                    proof {
                        assert(lv@ =~= ls.take(i as int + 1));
                        assert(fv@ =~= fs.take(i as int + 1));
                    }
                    let fits = if s.is_terminator {
                        fits_i32(f.branch_target)
                    } else {
                        fits_i32(f.imm as u64)
                    };
                    if fits && s.is_leaf && !s.is_terminator {
                        i += 1;
                    } else {
                        done = true;
                    }
                },
                Some(StencilLookup::Rejected(_)) => {
                    done = true;
                },
                None => {
                    proof {
                        assert(ls.len() == fs.len());
                        lemma_plan_prefix(ls, fs, i as int);
                    }
                    return None;
                },
            }
        }
        proof {
            assert(lv@.len() == fv@.len());
            lemma_plan_len_bound(lv@, fv@, 0);
            if !done {
                assert(lv@ =~= ls);
                assert(fv@ =~= fs);
            } else {
                lemma_plan_stops_alike(lv@, fv@, ls, fs, i as int);
                lemma_plan_prefix(lv@, fv@, i as int);
            }
        }
        let r = self.plan_block_a64(&lv, &fv, default_read_fn, default_write_fn);
        proof {
            lemma_plan_len_bound(ls, fs, 0);
            if self.isa == StencilIsa::Aarch64 {
                if let Some(k) = plan_len(ls, fs, 0) {
                    if k > 0 {
                        assert(k <= lv@.len());
                        let entries = r->Some_0;
                        assert forall|j: int| 0 <= j < k implies (#[trigger] ls[j]) == Some(
                            StencilLookup::Found(entries@[j].0),
                        ) && entries@[j].1 == with_helpers(
                            fs[j],
                            helper_address(self.mem_read_fn, default_read_fn),
                            helper_address(self.mem_write_fn, default_write_fn),
                        ) by {
                            assert(lv@[j] == ls[j]);
                            assert(fv@[j] == fs[j]);
                        }
                    }
                }
            }
        }
        r
    }
}

/// The stencil lookups of a block's RISC-V64 instructions from their names:
/// an instruction without a name aborts the block, one whose name has no
/// stencil stops it.
pub open spec fn rv64_block_lookups(names: Seq<Option<&str>>, table: &'static [Stencil]) -> Seq<
    Option<StencilLookup>,
> {
    Seq::new(
        names.len(),
        |i: int|
            match names[i] {
                None => None,
                Some(name) => match rv64_lookup_result(name.spec_bytes(), table) {
                    Some(s) => Some(StencilLookup::Found(s)),
                    None => Some(StencilLookup::Rejected(OPCODE_UNIMPLEMENTED)),
                },
            },
    )
}

/// Guest address of instruction `i` of a block starting at `pc`.
pub open spec fn rv64_insn_pc(pc: u64, i: int) -> int {
    pc + 4 * i
}

/// The fields of a block's RISC-V64 instructions, instruction `i` at
/// `pc + 4 * i`.
pub open spec fn rv64_block_fields(insns: Seq<Rv64Insn>, pc: u64) -> Seq<DecodedFields> {
    Seq::new(insns.len(), |i: int| rv64_fields(insns[i], rv64_insn_pc(pc, i) as u64))
}

/// Every instruction that block formation reaches (all before it chain) and
/// finds a stencil for has its address and fields in range.
pub open spec fn rv64_block_extractable(
    names: Seq<Option<&str>>,
    insns: Seq<Rv64Insn>,
    pc: u64,
    table: &'static [Stencil],
) -> bool {
    forall|i: int|
        #![trigger rv64_block_lookups(names, table)[i]]
        0 <= i < insns.len() && (forall|j: int|
            0 <= j < i ==> chainable(
                #[trigger] rv64_block_lookups(names, table)[j],
                rv64_block_fields(insns, pc)[j],
            )) && (rv64_block_lookups(names, table)[i] matches Some(StencilLookup::Found(_)))
            ==> rv64_insn_pc(pc, i) <= u64::MAX && rv64_fields_in_range(
            insns[i],
            rv64_insn_pc(pc, i) as u64,
        )
}

/// Stencil JIT backend for RISC-V64 (its instructions are looked up by name).
pub struct StencilBackendRv64;

impl StencilBackendRv64 {
    pub fn new() -> (b: Self) {
        StencilBackendRv64
    }

    /// Form a RISC-V64 block; its stencils call the default helpers.
    pub fn plan_block_rv64(
        &self,
        lookups: &[Option<StencilLookup>],
        fields: &[DecodedFields],
        default_read_fn: u64,
        default_write_fn: u64,
    ) -> (r: Option<Vec<(&'static Stencil, DecodedFields)>>)
        requires
            lookups@.len() == fields@.len(),
        ensures
            match plan_len(lookups@, fields@, 0) {
                Some(k) if k > 0 => r matches Some(entries) && is_planned_block(
                    entries@,
                    lookups@,
                    fields@,
                    k,
                    default_read_fn,
                    default_write_fn,
                ),
                _ => r is None,
            },
    {
        plan_block(lookups, fields, default_read_fn, default_write_fn)
    }

    /// Form a RISC-V64 block from decoded instructions and their names: each
    /// is looked up by name in the generated stencil table and its fields are
    /// extracted at `pc + 4 * i`, up to where block formation stops; the
    /// stencils call the default helpers.
    pub fn plan_insns_rv64(
        &self,
        names: &[Option<&str>],
        insns: &[Rv64Insn],
        pc: u64,
        table: &'static [Stencil],
        default_read_fn: u64,
        default_write_fn: u64,
    ) -> (r: Option<Vec<(&'static Stencil, DecodedFields)>>)
        requires
            names@.len() == insns@.len(),
            table@.len() == RV64_STENCIL_COUNT,
            rv64_block_extractable(names@, insns@, pc, table),
        ensures
            match plan_len(rv64_block_lookups(names@, table), rv64_block_fields(insns@, pc), 0) {
                Some(k) if k > 0 => r matches Some(entries) && is_planned_block(
                    entries@,
                    rv64_block_lookups(names@, table),
                    rv64_block_fields(insns@, pc),
                    k,
                    default_read_fn,
                    default_write_fn,
                ),
                _ => r is None,
            },
            r matches Some(entries) ==> 1 <= entries@.len() <= insns@.len(),
    {
        let ghost ls = rv64_block_lookups(names@, table);
        let ghost fs = rv64_block_fields(insns@, pc);
        let n = insns.len();
        let mut lv: Vec<Option<StencilLookup>> = Vec::new();
        let mut fv: Vec<DecodedFields> = Vec::new();
        let mut i: usize = 0;
        let mut done = false;
        while i < n && !done
            invariant
                0 <= i <= n,
                n == insns@.len(),
                n == names@.len(),
                table@.len() == RV64_STENCIL_COUNT,
                rv64_block_extractable(names@, insns@, pc, table),
                ls == rv64_block_lookups(names@, table),
                fs == rv64_block_fields(insns@, pc),
                forall|j: int| 0 <= j < i ==> chainable(#[trigger] ls[j], fs[j]),
                !done ==> lv@ == ls.take(i as int) && fv@ == fs.take(i as int),
                done ==> i < n && ({
                    ||| ((ls[i as int] matches Some(StencilLookup::Rejected(_))) && lv@ == ls.take(i as int)
                        && fv@ == fs.take(i as int))
                    ||| ((ls[i as int] matches Some(StencilLookup::Found(_))) && !chainable(
                        ls[i as int],
                        fs[i as int],
                    ) && lv@ == ls.take(i as int + 1) && fv@ == fs.take(i as int + 1))
                }),
            decreases n - i + (if done { 0int } else { 1int }),
        {
            let found = match names[i] {
                Some(name) => lookup_stencil_rv64(name, table),
                None => {
                    proof {
                        lemma_plan_prefix(ls, fs, i as int);
                    }
                    return None;
                },
            };
            match found {
                Some(s) => {
                    assert(ls[i as int] == Some(StencilLookup::Found(s)));
                    assert(rv64_insn_pc(pc, i as int) <= u64::MAX);
                    let insn_pc = pc + 4 * (i as u64);
                    let f = extract_fields_rv64(&insns[i], insn_pc);
                    assert(f == fs[i as int]);
                    let l = Some(StencilLookup::Found(s));
                    lv.push(l);
                    fv.push(f);
                    proof {
                        assert(lv@ =~= ls.take(i as int + 1));
                        assert(fv@ =~= fs.take(i as int + 1));
                    }
                    let fits = if s.is_terminator {
                        fits_i32(f.branch_target)
                    } else {
                        fits_i32(f.imm as u64)
                    };
                    if fits && s.is_leaf && !s.is_terminator {
                        i += 1;
                    } else {
                        done = true;
                    }
                },
                None => {
                    done = true;
                },
            }
        }
        proof {
            assert(lv@.len() == fv@.len());
            lemma_plan_len_bound(lv@, fv@, 0);
            if !done {
                assert(lv@ =~= ls);
                assert(fv@ =~= fs);
            } else {
                lemma_plan_stops_alike(lv@, fv@, ls, fs, i as int);
            }
        }
        let r = self.plan_block_rv64(&lv, &fv, default_read_fn, default_write_fn);
        proof {
            lemma_plan_len_bound(ls, fs, 0);
            if let Some(k) = plan_len(ls, fs, 0) {
                if k > 0 {
                    let entries = r->Some_0;
                    assert forall|j: int| 0 <= j < k implies (#[trigger] ls[j]) == Some(
                        StencilLookup::Found(entries@[j].0),
                    ) && entries@[j].1 == with_helpers(fs[j], default_read_fn, default_write_fn) by {
                        assert(lv@[j] == ls[j]);
                        assert(fv@[j] == fs[j]);
                    }
                }
            }
        }
        r
    }

    /// Human-readable backend name.
    pub fn name(&self) -> (r: &'static str)
        ensures
            r@ == "stencil-rv64"@,
    {
        "stencil-rv64"
    }
}

impl Default for StencilBackendRv64 {
    fn default() -> Self {
        Self::new()
    }
}

} // verus!
