//! Stencil block compiler: lays out, copies and patches stencil templates
//! into the byte image of an executable block.
//!
//! **Leaf stencils** (no stack frame, no helper calls) are concatenated with
//! their trailing `ret` stripped. The last entry of a block is either a
//! **terminator** (copied whole: it sets PC and returns itself), a leaf
//! followed by the end-of-block epilogue, or a **non-leaf** stencil wrapped in
//! a call trampoline that keeps the register-array pointer in r12.
//!
//! AArch64 W-register writes zero-extend to 64 bits; the 64-bit stencils are
//! followed by a clear of the destination's upper half for `sf == 0`. Writes
//! to the XZR slot are undone by re-zeroing it.

use super::types::{
    DecodedFields, HelperAddresses, HelperFn, HoleKind, RegField, RelocKind, Stencil, StencilReloc,
};
use crate::regs::{reg_offset, REG_JIT_RETIRED, REG_PC, REG_XZR};
use vstd::prelude::*;

verus! {

/// x86-64 near return instruction (`ret`).
pub const X86_RET_OPCODE: u8 = 0xC3;
/// Length of `mov qword [rdi + XZR_OFF], 0`.
pub const XZR_REZERO_LEN: usize = 11;
/// Length of `mov dword [rdi + rd_off + 4], 0`.
pub const W_REZERO_LEN: usize = 10;
/// Length of `mov dword [r12 + rd_off + 4], 0`.
pub const W_REZERO_TRAMPOLINE_LEN: usize = 12;
/// Length of the end-of-block epilogue: retired-count add (8), PC store via
/// rax (10 + 7), `mov eax, 0` (5) and `ret` (1).
pub const EPILOGUE_LEN: usize = 31;
/// Exit code of a block that ran to its end.
pub const EXIT_END_OF_BLOCK: u64 = 0;

// ── Byte-level specifications ──────────────────────────────────────────────

/// Little-endian bytes of a 32-bit value.
pub open spec fn le32(v: u32) -> Seq<u8> {
    seq![v as u8, (v >> 8u32) as u8, (v >> 16u32) as u8, (v >> 24u32) as u8]
}

/// Little-endian bytes of a 64-bit value.
pub open spec fn le64(v: u64) -> Seq<u8> {
    seq![
        v as u8,
        (v >> 8u64) as u8,
        (v >> 16u64) as u8,
        (v >> 24u64) as u8,
        (v >> 32u64) as u8,
        (v >> 40u64) as u8,
        (v >> 48u64) as u8,
        (v >> 56u64) as u8,
    ]
}

/// `s` with the four bytes at `at` replaced by the little-endian bytes of `v`.
pub open spec fn write_le32(s: Seq<u8>, at: int, v: u32) -> Seq<u8> {
    s.update(at, le32(v)[0]).update(at + 1, le32(v)[1]).update(at + 2, le32(v)[2]).update(
        at + 3,
        le32(v)[3],
    )
}

pub open spec fn zero4() -> Seq<u8> {
    seq![0u8, 0u8, 0u8, 0u8]
}

/// Byte offset of the XZR sentinel slot (34 * 8).
pub open spec fn xzr_off() -> u32 {
    272
}

/// Byte offset of the PC slot (32 * 8).
pub open spec fn pc_off() -> u32 {
    256
}

/// Byte offset of the retired-instruction slot.
pub open spec fn retired_off() -> u32 {
    (REG_JIT_RETIRED * 8) as u32
}

/// Byte offset of the upper 32 bits of register `rd` in the flat array.
pub open spec fn upper_half_off(rd: u8) -> u32 {
    (rd * 8 + 4) as u32
}

/// `mov qword [rdi + XZR_OFF], 0`.
pub open spec fn xzr_rezero_bytes() -> Seq<u8> {
    seq![0x48u8, 0xC7u8, 0x87u8] + le32(xzr_off()) + zero4()
}

/// `mov dword [rdi + rd_off + 4], 0`.
pub open spec fn w_rezero_bytes(rd: u8) -> Seq<u8> {
    seq![0xC7u8, 0x87u8] + le32(upper_half_off(rd)) + zero4()
}

/// `mov dword [r12 + rd_off + 4], 0`.
pub open spec fn w_rezero_r12_bytes(rd: u8) -> Seq<u8> {
    seq![0x41u8, 0xC7u8, 0x84u8, 0x24u8] + le32(upper_half_off(rd)) + zero4()
}

/// End-of-block epilogue: `add qword [rdi + RETIRED_OFF], insn_count`;
/// `movabs rax, next_pc`; `mov [rdi + PC_OFF], rax`; `mov eax, 0`; `ret`.
pub open spec fn epilogue_bytes(next_pc: u64, insn_count: u32) -> Seq<u8> {
    seq![0x48u8, 0x83u8, 0x87u8] + le32(retired_off()) + seq![insn_count as u8] + seq![0x48u8, 0xB8u8]
        + le64(next_pc) + seq![0x48u8, 0x89u8, 0x87u8] + le32(pc_off()) + seq![0xB8u8] + le32(
        EXIT_END_OF_BLOCK as u32,
    ) + seq![X86_RET_OPCODE]
}

pub open spec fn writes_xzr_spec(f: DecodedFields) -> bool {
    f.rd as int == REG_XZR as int
}

pub open spec fn needs_w_rezero_spec(f: DecodedFields) -> bool {
    f.sf == 0
}

/// Bytes appended after a chained leaf body: the XZR re-zero and the
/// W-register upper-half clear, when needed.
pub open spec fn fixup_bytes(f: DecodedFields) -> Seq<u8> {
    (if writes_xzr_spec(f) {
        xzr_rezero_bytes()
    } else {
        Seq::<u8>::empty()
    }) + (if needs_w_rezero_spec(f) {
        w_rezero_bytes(f.rd)
    } else {
        Seq::<u8>::empty()
    })
}

/// Length of the trampoline's post-call epilogue.
pub open spec fn trampoline_epilogue_len(f: DecodedFields) -> int {
    10 + 8 + (if writes_xzr_spec(f) {
        12int
    } else {
        0
    }) + (if needs_w_rezero_spec(f) {
        W_REZERO_TRAMPOLINE_LEN as int
    } else {
        0
    }) + 9 + 5 + 2 + 1
}

/// Trampoline prologue and epilogue: `push r12`; `mov r12, rdi`;
/// `call stencil`; then (after the call returns) `movabs rax, next_pc`;
/// `mov [r12 + PC_OFF], rax`; optional XZR re-zero and W clear via r12;
/// `add qword [r12 + RETIRED_OFF], insn_count`; `mov eax, 0`; `pop r12`;
/// `ret`. The stencil itself follows these bytes.
pub open spec fn trampoline_head(f: DecodedFields, insn_count: u32) -> Seq<u8> {
    trampoline_prologue(f) + trampoline_pc_store(f) + trampoline_fixups(f) + trampoline_exit(
        insn_count,
    )
}

/// `push r12`; `mov r12, rdi`; `call rel32` to the stencil placed after the
/// trampoline's epilogue.
pub open spec fn trampoline_prologue(f: DecodedFields) -> Seq<u8> {
    seq![0x41u8, 0x54u8, 0x49u8, 0x89u8, 0xFCu8, 0xE8u8] + le32(trampoline_epilogue_len(f) as u32)
}

/// `movabs rax, next_pc`; `mov [r12 + PC_OFF], rax`.
pub open spec fn trampoline_pc_store(f: DecodedFields) -> Seq<u8> {
    seq![0x48u8, 0xB8u8] + le64(f.next_pc) + seq![0x49u8, 0x89u8, 0x84u8, 0x24u8] + le32(pc_off())
}

/// XZR re-zero and W upper-half clear through r12, when needed.
pub open spec fn trampoline_fixups(f: DecodedFields) -> Seq<u8> {
    (if writes_xzr_spec(f) {
        seq![0x49u8, 0xC7u8, 0x84u8, 0x24u8] + le32(xzr_off()) + zero4()
    } else {
        Seq::<u8>::empty()
    }) + (if needs_w_rezero_spec(f) {
        w_rezero_r12_bytes(f.rd)
    } else {
        Seq::<u8>::empty()
    })
}

/// `add qword [r12 + RETIRED_OFF], insn_count`; `mov eax, 0`; `pop r12`; `ret`.
pub open spec fn trampoline_exit(insn_count: u32) -> Seq<u8> {
    seq![0x49u8, 0x83u8, 0x84u8, 0x24u8] + le32(retired_off()) + seq![insn_count as u8] + seq![0xB8u8]
        + le32(EXIT_END_OF_BLOCK as u32) + seq![0x41u8, 0x5Cu8] + seq![X86_RET_OPCODE]
}

/// The register index a register hole refers to.
pub open spec fn reg_field_value(rf: RegField, f: DecodedFields) -> u8 {
    match rf {
        RegField::Rd => f.rd,
        RegField::Rn => f.rn,
        RegField::Rm => f.rm,
        RegField::Ra => f.ra,
        RegField::Rt => f.rt,
        RegField::Rt2 => f.rt2,
    }
}

/// `imm` sign-extended from its low `from_bits` bits, as a 64-bit pattern.
pub open spec fn sign_extend(imm: i64, from_bits: u8) -> u64 {
    let shift = (64 - from_bits) as u32;
    ((imm << shift) >> shift) as u64
}

/// The holes a resolver can fill: sign extension needs a width in 1..=64.
pub open spec fn hole_ok(hole: HoleKind) -> bool {
    hole matches HoleKind::ImmSext { from_bits } ==> 1 <= from_bits <= 64
}

/// The value a hole resolves to for the given decoded fields.
pub open spec fn hole_value(hole: HoleKind, f: DecodedFields) -> u64 {
    match hole {
        HoleKind::RegOffset(rf) => (reg_field_value(rf, f) * 8) as u64,
        HoleKind::ImmSext { from_bits } => sign_extend(f.imm, from_bits),
        HoleKind::ImmZext => f.imm as u64,
        HoleKind::Helper(HelperFn::MemRead) => f.mem_read_fn,
        HoleKind::Helper(HelperFn::MemWrite) => f.mem_write_fn,
        HoleKind::BranchTarget => f.branch_target,
        HoleKind::NextPc => f.next_pc,
        HoleKind::Simm => f.simm as u64,
        HoleKind::Shamt => f.shamt as u64,
    }
}

/// The 32-bit word written into a relocation whose field sits at absolute
/// buffer position `dst`, for a buffer that will live at address `base`.
pub open spec fn reloc_word(r: StencilReloc, f: DecodedFields, base: u64, dst: int) -> u32 {
    match r.kind {
        RelocKind::Abs32 => hole_value(r.hole, f) as u32,
        RelocKind::PcRel32 => vstd::wrapping::u64_specs::wrapping_sub(
            hole_value(r.hole, f),
            (base + dst + 4) as u64,
        ) as u32,
    }
}

/// Apply the relocations `relocs` (in order) of a stencil copied to `start`
/// whose full code is `code_len` bytes long; relocations that do not fit in
/// the code are skipped.
pub open spec fn apply_relocs(
    buf: Seq<u8>,
    start: int,
    code_len: int,
    relocs: Seq<StencilReloc>,
    f: DecodedFields,
    base: u64,
) -> Seq<u8>
    decreases relocs.len(),
{
    if relocs.len() == 0 {
        buf
    } else {
        let prev = apply_relocs(buf, start, code_len, relocs.drop_last(), f, base);
        let r = relocs.last();
        if r.byte_offset + 4 <= code_len {
            write_le32(prev, start + r.byte_offset, reloc_word(r, f, base, start + r.byte_offset))
        } else {
            prev
        }
    }
}

/// Bytes of one entry, appended to the bytes `pre` emitted so far.
pub open spec fn emit_entry(
    pre: Seq<u8>,
    s: Stencil,
    f: DecodedFields,
    is_last: bool,
    base: u64,
    insn_count: u32,
) -> Seq<u8> {
    let pos = pre.len() as int;
    if !is_last || (!s.is_terminator && s.is_leaf) {
        let body = apply_relocs(
            pre + s.bytes@.take(s.body_len as int),
            pos,
            s.bytes@.len() as int,
            s.relocs@,
            f,
            base,
        ) + fixup_bytes(f);
        if is_last {
            body + epilogue_bytes(f.next_pc, insn_count)
        } else {
            body
        }
    } else if s.is_terminator {
        apply_relocs(pre + s.bytes@, pos, s.bytes@.len() as int, s.relocs@, f, base)
    } else {
        let head = pre + trampoline_head(f, insn_count);
        apply_relocs(head + s.bytes@, head.len() as int, s.bytes@.len() as int, s.relocs@, f, base)
    }
}

/// Number of bytes one entry occupies.
pub open spec fn entry_len(s: Stencil, f: DecodedFields, is_last: bool) -> int {
    if !is_last || (!s.is_terminator && s.is_leaf) {
        s.body_len + fixup_bytes(f).len() + (if is_last {
            EPILOGUE_LEN as int
        } else {
            0
        })
    } else if s.is_terminator {
        s.bytes@.len() as int
    } else {
        10 + trampoline_epilogue_len(f) + s.bytes@.len()
    }
}

/// Bytes of the first `k` entries of a block.
pub open spec fn block_prefix(entries: Seq<(&Stencil, DecodedFields)>, k: int, base: u64) -> Seq<u8>
    decreases k,
{
    if k <= 0 {
        Seq::<u8>::empty()
    } else {
        emit_entry(
            block_prefix(entries, k - 1, base),
            *entries[k - 1].0,
            entries[k - 1].1,
            k - 1 == entries.len() - 1,
            base,
            entries.len() as u32,
        )
    }
}

/// Number of bytes of the first `k` entries of a block.
pub open spec fn block_size_upto(entries: Seq<(&Stencil, DecodedFields)>, k: int) -> int
    decreases k,
{
    if k <= 0 {
        0
    } else {
        block_size_upto(entries, k - 1) + entry_len(
            *entries[k - 1].0,
            entries[k - 1].1,
            k - 1 == entries.len() - 1,
        )
    }
}

/// The complete byte image of a block compiled from `entries` into a buffer
/// that will live at address `base`.
pub open spec fn block_bytes(entries: Seq<(&Stencil, DecodedFields)>, base: u64) -> Seq<u8> {
    block_prefix(entries, entries.len() as int, base)
}

/// The number of bytes a block compiled from `entries` occupies.
pub open spec fn block_size(entries: Seq<(&Stencil, DecodedFields)>) -> int {
    block_size_upto(entries, entries.len() as int)
}

/// Every entry's stencil is well formed and its holes can be resolved.
pub open spec fn entries_ok(entries: Seq<(&Stencil, DecodedFields)>) -> bool {
    forall|i: int|
        0 <= i < entries.len() ==> {
            &&& (#[trigger] entries[i]).0.wf()
            &&& forall|j: int|
                0 <= j < entries[i].0.relocs@.len() ==> hole_ok(
                    (#[trigger] entries[i].0.relocs@[j]).hole,
                )
        }
}


/// Check that a stencil is well formed and all its holes can be resolved.
fn check_stencil(s: &Stencil) -> (r: bool)
    ensures
        r == (s.wf() && forall|j: int| 0 <= j < s.relocs@.len() ==> hole_ok((#[trigger] s.relocs@[j]).hole)),
{
    if s.body_len > s.bytes.len() {
        return false;
    }
    let n = s.relocs.len();
    let mut j: usize = 0;
    while j < n
        invariant
            0 <= j <= n,
            n == s.relocs@.len(),
            s.body_len <= s.bytes@.len(),
            forall|k: int|
                0 <= k < j ==> ((#[trigger] s.relocs@[k]).byte_offset + 4 <= s.bytes@.len() ==> s.relocs@[k].byte_offset
                    + 4 <= s.body_len) && hole_ok(s.relocs@[k].hole),
        decreases n - j,
    {
        let r = &s.relocs[j];
        let off = r.byte_offset as usize;
        let in_code = off <= s.bytes.len() && s.bytes.len() - off >= 4;
        let in_body = off <= s.body_len && s.body_len - off >= 4;
        if in_code && !in_body {
            return false;
        }
        match r.hole {
            HoleKind::ImmSext { from_bits } => {
                if from_bits < 1 || from_bits > 64 {
                    return false;
                }
            },
            _ => {},
        }
        j += 1;
    }
    true
}

/// Check that every entry's stencil is well formed and its holes can be
/// resolved (what block assembly requires).
pub fn check_entries(entries: &[(&Stencil, DecodedFields)]) -> (r: bool)
    ensures
        r == entries_ok(entries@),
{
    let n = entries.len();
    let mut i: usize = 0;
    while i < n
        invariant
            0 <= i <= n,
            n == entries@.len(),
            forall|k: int|
                0 <= k < i ==> {
                    &&& (#[trigger] entries@[k]).0.wf()
                    &&& forall|j: int|
                        0 <= j < entries@[k].0.relocs@.len() ==> hole_ok(
                            (#[trigger] entries@[k].0.relocs@[j]).hole,
                        )
                },
        decreases n - i,
    {
        if !check_stencil(entries[i].0) {
            return false;
        }
        i += 1;
    }
    true
}

// ── Byte writers ────────────────────────────────────────────────────────────

fn push_le32(buf: &mut Vec<u8>, v: u32)
    ensures
        final(buf)@ == old(buf)@ + le32(v),
{
    buf.push(v as u8);
    buf.push((v >> 8u32) as u8);
    buf.push((v >> 16u32) as u8);
    buf.push((v >> 24u32) as u8);
    assert(buf@ =~= old(buf)@ + le32(v));
}

fn push_le64(buf: &mut Vec<u8>, v: u64)
    ensures
        final(buf)@ == old(buf)@ + le64(v),
{
    buf.push(v as u8);
    buf.push((v >> 8u64) as u8);
    buf.push((v >> 16u64) as u8);
    buf.push((v >> 24u64) as u8);
    buf.push((v >> 32u64) as u8);
    buf.push((v >> 40u64) as u8);
    buf.push((v >> 48u64) as u8);
    buf.push((v >> 56u64) as u8);
    assert(buf@ =~= old(buf)@ + le64(v));
}

fn push_zero4(buf: &mut Vec<u8>)
    ensures
        final(buf)@ == old(buf)@ + zero4(),
{
    buf.push(0);
    buf.push(0);
    buf.push(0);
    buf.push(0);
    assert(buf@ =~= old(buf)@ + zero4());
}

fn patch_le32(buf: &mut Vec<u8>, at: usize, v: u32)
    requires
        at + 4 <= old(buf).len(),
    ensures
        final(buf)@ == write_le32(old(buf)@, at as int, v),
{
    buf.set(at, v as u8);
    buf.set(at + 1, (v >> 8u32) as u8);
    buf.set(at + 2, (v >> 16u32) as u8);
    buf.set(at + 3, (v >> 24u32) as u8);
}

/// Append the first `n` bytes of `src`.
fn push_prefix(buf: &mut Vec<u8>, src: &[u8], n: usize)
    requires
        n <= src@.len(),
    ensures
        final(buf)@ == old(buf)@ + src@.take(n as int),
{
    let mut i: usize = 0;
    while i < n
        invariant
            0 <= i <= n,
            n <= src@.len(),
            buf@ == old(buf)@ + src@.take(i as int),
        decreases n - i,
    {
        buf.push(src[i]);
        assert(src@.take(i as int + 1) =~= src@.take(i as int).push(src@[i as int]));
        i += 1;
    }
}

// ── Emitters ───────────────────────────────────────────────────────────────

/// Returns true when the instruction writes the XZR sentinel slot.
pub fn writes_xzr(f: &DecodedFields) -> (r: bool)
    ensures
        r == writes_xzr_spec(*f),
{
    f.rd as usize == REG_XZR
}

/// Returns true when the instruction uses the 32-bit (W) register form.
pub fn needs_w_rezero(f: &DecodedFields) -> (r: bool)
    ensures
        r == needs_w_rezero_spec(*f),
{
    f.sf == 0
}

/// Append `mov qword [rdi + XZR_OFF], 0`.
pub fn emit_xzr_rezero(buf: &mut Vec<u8>)
    ensures
        final(buf)@ == old(buf)@ + xzr_rezero_bytes(),
{
    let xzr_off = reg_offset(REG_XZR) as u32;
    buf.push(0x48);
    buf.push(0xC7);
    buf.push(0x87);
    push_le32(buf, xzr_off);
    push_zero4(buf);
    assert(buf@ =~= old(buf)@ + xzr_rezero_bytes());
}

/// Append `mov dword [rdi + rd_off + 4], 0`, clearing the upper half of Rd.
pub fn emit_w_rezero(buf: &mut Vec<u8>, rd: u8)
    ensures
        final(buf)@ == old(buf)@ + w_rezero_bytes(rd),
{
    let upper_off = (reg_offset(rd as usize) as u32) + 4;
    buf.push(0xC7);
    buf.push(0x87);
    push_le32(buf, upper_off);
    push_zero4(buf);
    assert(buf@ =~= old(buf)@ + w_rezero_bytes(rd));
}

/// Append `mov dword [r12 + rd_off + 4], 0` (trampoline variant).
pub fn emit_w_rezero_r12(buf: &mut Vec<u8>, rd: u8)
    ensures
        final(buf)@ == old(buf)@ + w_rezero_r12_bytes(rd),
{
    let upper_off = (reg_offset(rd as usize) as u32) + 4;
    buf.push(0x41);
    buf.push(0xC7);
    buf.push(0x84);
    buf.push(0x24);
    push_le32(buf, upper_off);
    push_zero4(buf);
    assert(buf@ =~= old(buf)@ + w_rezero_r12_bytes(rd));
}

/// Append the end-of-block epilogue: add the block's instruction count to the
/// retired slot, store `next_pc` into PC and return `EXIT_END_OF_BLOCK`.
pub fn emit_epilogue(buf: &mut Vec<u8>, fields: &DecodedFields, insn_count: u32)
    ensures
        final(buf)@ == old(buf)@ + epilogue_bytes(fields.next_pc, insn_count),
{
    let retired_off = reg_offset(REG_JIT_RETIRED) as u32;
    let pc_off = reg_offset(REG_PC) as u32;
    buf.push(0x48);
    buf.push(0x83);
    buf.push(0x87);
    push_le32(buf, retired_off);
    buf.push(insn_count as u8);
    buf.push(0x48);
    buf.push(0xB8);
    push_le64(buf, fields.next_pc);
    buf.push(0x48);
    buf.push(0x89);
    buf.push(0x87);
    push_le32(buf, pc_off);
    buf.push(0xB8);
    push_le32(buf, EXIT_END_OF_BLOCK as u32);
    buf.push(X86_RET_OPCODE);
    assert(buf@ =~= old(buf)@ + epilogue_bytes(fields.next_pc, insn_count));
}


/// Resolve a hole from fields whose helper addresses are filled in.
fn resolve_filled_hole(hole: &HoleKind, fields: &DecodedFields) -> (r: u64)
    requires
        hole_ok(*hole),
    ensures
        r == hole_value(*hole, *fields),
{
    match hole {
        HoleKind::RegOffset(reg_field) => {
            let reg_index = match reg_field {
                RegField::Rd => fields.rd,
                RegField::Rn => fields.rn,
                RegField::Rm => fields.rm,
                RegField::Ra => fields.ra,
                RegField::Rt => fields.rt,
                RegField::Rt2 => fields.rt2,
            };
            (reg_index as u64) * 8
        },
        HoleKind::ImmSext { from_bits } => {
            let val = fields.imm;
            let shift = 64 - *from_bits as u32;
            ((val << shift) >> shift) as u64
        },
        HoleKind::ImmZext => fields.imm as u64,
        HoleKind::Helper(helper) => match helper {
            HelperFn::MemRead => fields.mem_read_fn,
            HelperFn::MemWrite => fields.mem_write_fn,
        },
        HoleKind::BranchTarget => fields.branch_target,
        HoleKind::NextPc => fields.next_pc,
        HoleKind::Simm => fields.simm as u64,
        HoleKind::Shamt => fields.shamt as u64,
    }
}

/// The value a hole resolves to, where a helper hole uses the helper the
/// instruction's fields select, or the host's default helper when they
/// select none (0).
pub open spec fn resolved_hole(hole: HoleKind, f: DecodedFields, helpers: HelperAddresses) -> u64 {
    match hole {
        HoleKind::Helper(HelperFn::MemRead) => if f.mem_read_fn != 0 {
            f.mem_read_fn
        } else {
            helpers.mem_read
        },
        HoleKind::Helper(HelperFn::MemWrite) => if f.mem_write_fn != 0 {
            f.mem_write_fn
        } else {
            helpers.mem_write
        },
        _ => hole_value(hole, f),
    }
}

/// Resolve a hole's value from the decoded instruction fields; a helper
/// hole without a selected helper resolves to the host's default helper.
pub fn resolve_hole(hole: &HoleKind, fields: &DecodedFields, helpers: &HelperAddresses) -> (r: u64)
    requires
        hole_ok(*hole),
    ensures
        r == resolved_hole(*hole, *fields, *helpers),
{
    match hole {
        HoleKind::Helper(helper) => {
            let selected = match helper {
                HelperFn::MemRead => fields.mem_read_fn,
                HelperFn::MemWrite => fields.mem_write_fn,
            };
            if selected != 0 {
                selected
            } else {
                helper.address(helpers)
            }
        },
        _ => resolve_filled_hole(hole, fields),
    }
}

/// Patch the relocation holes of a stencil copied to `stencil_start` in a
/// buffer that will live at address `buf_base` (4 bytes each).
///
/// An absolute hole receives the low 32 bits of the resolved value; a
/// PC-relative hole receives `target - (buf_base + field + 4)` (wrapping).
fn patch_holes(
    buf: &mut Vec<u8>,
    stencil_start: usize,
    stencil: &Stencil,
    fields: &DecodedFields,
    buf_base: u64,
)
    requires
        stencil.wf(),
        stencil_start + stencil.body_len <= old(buf).len(),
        buf_base + stencil_start + stencil.body_len + 4 <= u64::MAX,
        forall|j: int| 0 <= j < stencil.relocs@.len() ==> hole_ok((#[trigger] stencil.relocs@[j]).hole),
    ensures
        final(buf)@ == apply_relocs(
            old(buf)@,
            stencil_start as int,
            stencil.bytes@.len() as int,
            stencil.relocs@,
            *fields,
            buf_base,
        ),
{
    let n = stencil.relocs.len();
    let mut i: usize = 0;
    while i < n
        invariant
            0 <= i <= n,
            n == stencil.relocs@.len(),
            buf.len() == old(buf).len(),
            stencil.wf(),
            stencil_start + stencil.body_len <= old(buf).len(),
            buf_base + stencil_start + stencil.body_len + 4 <= u64::MAX,
            forall|j: int| 0 <= j < stencil.relocs@.len() ==> hole_ok((#[trigger] stencil.relocs@[j]).hole),
            buf@ == apply_relocs(
                old(buf)@,
                stencil_start as int,
                stencil.bytes@.len() as int,
                stencil.relocs@.take(i as int),
                *fields,
                buf_base,
            ),
        decreases n - i,
    {
        let reloc = stencil.relocs[i];
        proof {
            assert(stencil.relocs@.take(i as int + 1).drop_last() =~= stencil.relocs@.take(i as int));
            assert(stencil.relocs@.take(i as int + 1).last() == reloc);
        }
        let bo = reloc.byte_offset as usize;
        proof {
            assert(stencil.relocs@[i as int] == reloc);
        }
        if bo <= stencil.bytes.len() && stencil.bytes.len() - bo >= 4 {
            let val = resolve_filled_hole(&reloc.hole, fields);
            let dst = stencil_start + bo;
            let patched: u32 = match reloc.kind {
                RelocKind::Abs32 => val as u32,
                RelocKind::PcRel32 => {
                    let rip = buf_base + dst as u64 + 4;
                    val.wrapping_sub(rip) as u32
                },
            };
            patch_le32(buf, dst, patched);
        }
        i += 1;
    }
    proof {
        assert(stencil.relocs@.take(n as int) =~= stencil.relocs@);
    }
}

/// Size of a non-leaf trampoline wrapper around a single stencil.
pub fn trampoline_size(s: &Stencil, f: &DecodedFields, insn_count: u32) -> (r: usize)
    requires
        10 + trampoline_epilogue_len(*f) + s.bytes@.len() <= usize::MAX,
    ensures
        r == 10 + trampoline_epilogue_len(*f) + s.bytes@.len(),
{
    let xzr_len: usize = if writes_xzr(f) { 12 } else { 0 };
    let w_rezero_len: usize = if needs_w_rezero(f) { W_REZERO_TRAMPOLINE_LEN } else { 0 };
    let prologue: usize = 2 + 3 + 5;
    let epilogue: usize = 10 + 8 + xzr_len + w_rezero_len + 9 + 5 + 2 + 1;
    prologue + epilogue + s.bytes.len()
}

fn emit_trampoline_prologue(buf: &mut Vec<u8>, fields: &DecodedFields)
    ensures
        final(buf)@ == old(buf)@ + trampoline_prologue(*fields),
{
    let xzr_len: usize = if writes_xzr(fields) { 12 } else { 0 };
    let w_len: usize = if needs_w_rezero(fields) { W_REZERO_TRAMPOLINE_LEN } else { 0 };
    let prologue_len: usize = 10;
    let epilogue_len: usize = 10 + 8 + xzr_len + w_len + 9 + 5 + 2 + 1;
    let stencil_offset = prologue_len + epilogue_len;
    let rel32: i32 = (stencil_offset as i32) - 10;
    buf.push(0x41);
    buf.push(0x54);
    buf.push(0x49);
    buf.push(0x89);
    buf.push(0xFC);
    buf.push(0xE8);
    push_le32(buf, rel32 as u32);
    assert(buf@ =~= old(buf)@ + trampoline_prologue(*fields));
}

fn emit_trampoline_pc_store(buf: &mut Vec<u8>, fields: &DecodedFields)
    ensures
        final(buf)@ == old(buf)@ + trampoline_pc_store(*fields),
{
    buf.push(0x48);
    buf.push(0xB8);
    push_le64(buf, fields.next_pc);
    let pc_off = reg_offset(REG_PC) as u32;
    buf.push(0x49);
    buf.push(0x89);
    buf.push(0x84);
    buf.push(0x24);
    push_le32(buf, pc_off);
    assert(buf@ =~= old(buf)@ + trampoline_pc_store(*fields));
}

fn emit_trampoline_fixups(buf: &mut Vec<u8>, fields: &DecodedFields)
    ensures
        final(buf)@ == old(buf)@ + trampoline_fixups(*fields),
{
    let ghost start = buf@;
    if writes_xzr(fields) {
        let xzr_off = reg_offset(REG_XZR) as u32;
        buf.push(0x49);
        buf.push(0xC7);
        buf.push(0x84);
        buf.push(0x24);
        push_le32(buf, xzr_off);
        push_zero4(buf);
    }
    let ghost mid = buf@;
    assert(mid =~= start + (if writes_xzr_spec(*fields) {
        seq![0x49u8, 0xC7u8, 0x84u8, 0x24u8] + le32(xzr_off()) + zero4()
    } else {
        Seq::<u8>::empty()
    }));
    if needs_w_rezero(fields) {
        emit_w_rezero_r12(buf, fields.rd);
    }
    assert(buf@ =~= old(buf)@ + trampoline_fixups(*fields));
}

fn emit_trampoline_exit(buf: &mut Vec<u8>, insn_count: u32)
    ensures
        final(buf)@ == old(buf)@ + trampoline_exit(insn_count),
{
    let retired_off = reg_offset(REG_JIT_RETIRED) as u32;
    buf.push(0x49);
    buf.push(0x83);
    buf.push(0x84);
    buf.push(0x24);
    push_le32(buf, retired_off);
    buf.push(insn_count as u8);
    buf.push(0xB8);
    push_le32(buf, EXIT_END_OF_BLOCK as u32);
    buf.push(0x41);
    buf.push(0x5C);
    buf.push(X86_RET_OPCODE);
    assert(buf@ =~= old(buf)@ + trampoline_exit(insn_count));
}

/// Append a call trampoline for a non-leaf stencil: the trampoline saves r12,
/// keeps the register-array pointer in it, calls the stencil (placed right
/// after the trampoline), then updates PC, re-zeroes XZR / clears the W upper
/// half through r12, adds the retired count and returns `EXIT_END_OF_BLOCK`.
fn emit_trampoline(
    buf: &mut Vec<u8>,
    stencil: &Stencil,
    fields: &DecodedFields,
    buf_base: u64,
    insn_count: u32,
)
    requires
        stencil.wf(),
        old(buf).len() + 10 + trampoline_epilogue_len(*fields) + stencil.bytes@.len() <= usize::MAX,
        buf_base + old(buf).len() + 10 + trampoline_epilogue_len(*fields) + stencil.bytes@.len() + 4
            <= u64::MAX,
        forall|j: int| 0 <= j < stencil.relocs@.len() ==> hole_ok((#[trigger] stencil.relocs@[j]).hole),
    ensures
        final(buf)@ == ({
            let head = old(buf)@ + trampoline_head(*fields, insn_count);
            apply_relocs(
                head + stencil.bytes@,
                head.len() as int,
                stencil.bytes@.len() as int,
                stencil.relocs@,
                *fields,
                buf_base,
            )
        }),
{
    let ghost start = buf@;
    emit_trampoline_prologue(buf, fields);
    let ghost s1 = buf@;
    emit_trampoline_pc_store(buf, fields);
    let ghost s2 = buf@;
    emit_trampoline_fixups(buf, fields);
    let ghost s3 = buf@;
    emit_trampoline_exit(buf, insn_count);
    assert(buf@ =~= start + trampoline_head(*fields, insn_count));
    let stencil_start = buf.len();
    let sl = stencil.bytes.len();
    push_prefix(buf, stencil.bytes, sl);
    assert(stencil.bytes@.take(sl as int) =~= stencil.bytes@);
    patch_holes(buf, stencil_start, stencil, fields, buf_base);
}


// ── Block layout and assembly ──────────────────────────────────────────────

/// Number of bytes the block compiled from `entries` occupies: middle entries
/// contribute their body plus fix-ups, the last entry its full terminator, its
/// body plus fix-ups and the epilogue, or a trampoline around its code.
pub fn block_code_size(entries: &[(&Stencil, DecodedFields)]) -> (total: usize)
    requires
        entries_ok(entries@),
        block_size(entries@) <= usize::MAX,
    ensures
        total == block_size(entries@),
{
    let n = entries.len();
    let mut total: usize = 0;
    let mut i: usize = 0;
    while i < n
        invariant
            0 <= i <= n,
            n == entries@.len(),
            entries_ok(entries@),
            block_size(entries@) <= usize::MAX,
            total == block_size_upto(entries@, i as int),
        decreases n - i,
    {
        proof {
            lemma_block_size_monotonic(entries@, i as int + 1, n as int);
        }
        let s = entries[i].0;
        let f = &entries[i].1;
        let is_last = i == n - 1;
        if !is_last || (!s.is_terminator && s.is_leaf) {
            total = total + s.body_len;
            if writes_xzr(f) {
                total = total + XZR_REZERO_LEN;
            }
            if needs_w_rezero(f) {
                total = total + W_REZERO_LEN;
            }
            if is_last {
                total = total + EPILOGUE_LEN;
            }
        } else if s.is_terminator {
            total = total + s.bytes.len();
        } else {
            total = total + trampoline_size(s, f, n as u32);
        }
        i += 1;
    }
    total
}

/// Append one entry (copied stencil, patched holes, fix-ups, and the epilogue
/// or trampoline for the last entry).
fn emit_one_entry(
    buf: &mut Vec<u8>,
    s: &Stencil,
    f: &DecodedFields,
    is_last: bool,
    buf_base: u64,
    insn_count: u32,
)
    requires
        s.wf(),
        forall|j: int| 0 <= j < s.relocs@.len() ==> hole_ok((#[trigger] s.relocs@[j]).hole),
        old(buf).len() + entry_len(*s, *f, is_last) <= usize::MAX,
        buf_base + old(buf).len() + entry_len(*s, *f, is_last) + 4 <= u64::MAX,
    ensures
        final(buf)@ == emit_entry(old(buf)@, *s, *f, is_last, buf_base, insn_count),
{
    let pos = buf.len();
    if !is_last || (!s.is_terminator && s.is_leaf) {
        let copy_len = s.body_len;
        push_prefix(buf, s.bytes, copy_len);
        patch_holes(buf, pos, s, f, buf_base);
        let ghost patched = buf@;
        if writes_xzr(f) {
            emit_xzr_rezero(buf);
        }
        if needs_w_rezero(f) {
            emit_w_rezero(buf, f.rd);
        }
        assert(buf@ =~= patched + fixup_bytes(*f));
        if is_last {
            emit_epilogue(buf, f, insn_count);
        }
    } else if s.is_terminator {
        let copy_len = s.bytes.len();
        push_prefix(buf, s.bytes, copy_len);
        assert(s.bytes@.take(copy_len as int) =~= s.bytes@);
        patch_holes(buf, pos, s, f, buf_base);
    } else {
        emit_trampoline(buf, s, f, buf_base, insn_count);
    }
}

/// Assemble the byte image of a block compiled from `entries`, for a buffer
/// that will live at address `buf_base` (PC-relative holes depend on it).
///
/// The image is exactly `block_code_size(entries)` bytes long.
pub fn assemble_block(entries: &[(&Stencil, DecodedFields)], buf_base: u64) -> (code: Vec<u8>)
    requires
        entries_ok(entries@),
        block_size(entries@) <= usize::MAX,
        buf_base + block_size(entries@) + 4 <= u64::MAX,
    ensures
        code@ == block_bytes(entries@, buf_base),
        code@.len() == block_size(entries@),
{
    let n = entries.len();
    let insn_count = n as u32;
    let mut buf: Vec<u8> = Vec::new();
    let mut i: usize = 0;
    while i < n
        invariant
            0 <= i <= n,
            n == entries@.len(),
            insn_count == n as u32,
            entries_ok(entries@),
            block_size(entries@) <= usize::MAX,
            buf_base + block_size(entries@) + 4 <= u64::MAX,
            buf@ == block_prefix(entries@, i as int, buf_base),
            buf@.len() == block_size_upto(entries@, i as int),
        decreases n - i,
    {
        proof {
            lemma_block_size_monotonic(entries@, i as int + 1, n as int);
            lemma_block_prefix_len(entries@, i as int + 1, buf_base);
            assert(entries@[i as int].0.wf());
        }
        let s = entries[i].0;
        let f = &entries[i].1;
        emit_one_entry(&mut buf, s, f, i == n - 1, buf_base, insn_count);
        i += 1;
    }
    buf
}

/// Page size used for executable-buffer alignment.
pub fn page_size() -> (r: usize)
    ensures
        r == 4096,
{
    4096
}

/// Round `size` up to the next page boundary.
pub fn page_align(size: usize) -> (r: usize)
    requires
        size + 4095 <= usize::MAX,
    ensures
        r % 4096 == 0,
        size <= r < size + 4096,
{
    let ps = page_size();
    let t = size + (ps - 1);
    let r = t & !(ps - 1);
    assert(r % 4096 == 0 && size <= r && r < size + 4096) by (bit_vector)
        requires
            t == size + 4095,
            r == t & !4095usize,
    ;
    r
}

/// Sign extension leaves a value that already fits in `from_bits` signed
/// bits unchanged (as a 64-bit pattern).
pub proof fn lemma_sign_extend_in_range(imm: i64, from_bits: u8)
    requires
        1 <= from_bits <= 64,
        -(1i64 << ((from_bits - 1) as u64)) <= imm < (1i64 << ((from_bits - 1) as u64)),
    ensures
        sign_extend(imm, from_bits) == imm as u64,
{
    let shift = (64 - from_bits) as u32;
    let b = (from_bits - 1) as u64;
    assert((imm << shift) >> shift == imm) by (bit_vector)
        requires
            shift < 64,
            b < 64,
            b + shift as u64 == 63,
            -(1i64 << b) <= imm < (1i64 << b),
    ;
}

// ── Layout lemmas ──────────────────────────────────────────────────────────

/// Patching relocations that all land inside the buffer keeps its length.
pub proof fn lemma_apply_relocs_len(
    buf: Seq<u8>,
    start: int,
    code_len: int,
    relocs: Seq<StencilReloc>,
    f: DecodedFields,
    base: u64,
)
    requires
        0 <= start,
        forall|i: int|
            0 <= i < relocs.len() ==> (#[trigger] relocs[i]).byte_offset + 4 <= code_len ==> start
                + relocs[i].byte_offset + 4 <= buf.len(),
    ensures
        apply_relocs(buf, start, code_len, relocs, f, base).len() == buf.len(),
    decreases relocs.len(),
{
    if relocs.len() > 0 {
        let rest = relocs.drop_last();
        assert forall|i: int|
            0 <= i < rest.len() && (#[trigger] rest[i]).byte_offset + 4 <= code_len implies start
                + rest[i].byte_offset + 4 <= buf.len() by {
            assert(rest[i] == relocs[i]);
        }
        lemma_apply_relocs_len(buf, start, code_len, rest, f, base);
        assert(relocs.last() == relocs[relocs.len() - 1]);
    }
}

/// Patching only touches bytes at or after `start`: the bytes before it
/// are unchanged.
pub proof fn lemma_apply_relocs_keeps_prefix(
    buf: Seq<u8>,
    start: int,
    code_len: int,
    relocs: Seq<StencilReloc>,
    f: DecodedFields,
    base: u64,
)
    requires
        0 <= start <= buf.len(),
        forall|i: int|
            0 <= i < relocs.len() ==> (#[trigger] relocs[i]).byte_offset + 4 <= code_len ==> start
                + relocs[i].byte_offset + 4 <= buf.len(),
    ensures
        apply_relocs(buf, start, code_len, relocs, f, base).subrange(0, start) == buf.subrange(0, start),
    decreases relocs.len(),
{
    if relocs.len() > 0 {
        let rest = relocs.drop_last();
        assert forall|i: int|
            0 <= i < rest.len() && (#[trigger] rest[i]).byte_offset + 4 <= code_len implies start
                + rest[i].byte_offset + 4 <= buf.len() by {
            assert(rest[i] == relocs[i]);
        }
        lemma_apply_relocs_keeps_prefix(buf, start, code_len, rest, f, base);
        lemma_apply_relocs_len(buf, start, code_len, rest, f, base);
        assert(relocs.last() == relocs[relocs.len() - 1]);
        let prev = apply_relocs(buf, start, code_len, rest, f, base);
        assert(apply_relocs(buf, start, code_len, relocs, f, base).subrange(0, start) =~= prev.subrange(
            0,
            start,
        ));
    }
}

/// The bytes one entry emits are exactly `entry_len` long, and the bytes
/// emitted before it are left as they were.
pub proof fn lemma_emit_entry_len(
    pre: Seq<u8>,
    s: Stencil,
    f: DecodedFields,
    is_last: bool,
    base: u64,
    insn_count: u32,
)
    requires
        s.wf(),
    ensures
        emit_entry(pre, s, f, is_last, base, insn_count).len() == pre.len() + entry_len(s, f, is_last),
        emit_entry(pre, s, f, is_last, base, insn_count).subrange(0, pre.len() as int) == pre,
{
    let pos = pre.len() as int;
    let relocs = s.relocs@;
    if !is_last || (!s.is_terminator && s.is_leaf) {
        let copied = pre + s.bytes@.take(s.body_len as int);
        lemma_apply_relocs_len(copied, pos, s.bytes@.len() as int, relocs, f, base);
        lemma_apply_relocs_keeps_prefix(copied, pos, s.bytes@.len() as int, relocs, f, base);
        assert(copied.subrange(0, pos) =~= pre);
        let patched = apply_relocs(copied, pos, s.bytes@.len() as int, relocs, f, base);
        let body = patched + fixup_bytes(f);
        assert(body.subrange(0, pos) =~= patched.subrange(0, pos));
        if is_last {
            assert((body + epilogue_bytes(f.next_pc, insn_count)).subrange(0, pos) =~= body.subrange(0, pos));
        }
    } else if s.is_terminator {
        let copied = pre + s.bytes@;
        lemma_apply_relocs_len(copied, pos, s.bytes@.len() as int, relocs, f, base);
        lemma_apply_relocs_keeps_prefix(copied, pos, s.bytes@.len() as int, relocs, f, base);
        assert(copied.subrange(0, pos) =~= pre);
    } else {
        let head = pre + trampoline_head(f, insn_count);
        let copied = head + s.bytes@;
        assert(trampoline_head(f, insn_count).len() == 10 + trampoline_epilogue_len(f));
        lemma_apply_relocs_len(copied, head.len() as int, s.bytes@.len() as int, relocs, f, base);
        lemma_apply_relocs_keeps_prefix(copied, head.len() as int, s.bytes@.len() as int, relocs, f, base);
        let patched = apply_relocs(copied, head.len() as int, s.bytes@.len() as int, relocs, f, base);
        assert(patched.subrange(0, head.len() as int).subrange(0, pos) =~= patched.subrange(0, pos));
        assert(copied.subrange(0, head.len() as int) =~= head);
        assert(head.subrange(0, pos) =~= pre);
    }
}

/// The block image built from the first `k` entries is exactly
/// `block_size_upto(k)` bytes long: the computed size and the bytes emitted
/// always agree, so the buffer is never overrun nor left with a gap.
pub proof fn lemma_block_prefix_len(entries: Seq<(&Stencil, DecodedFields)>, k: int, base: u64)
    requires
        entries_ok(entries),
        0 <= k <= entries.len(),
    ensures
        block_prefix(entries, k, base).len() == block_size_upto(entries, k),
    decreases k,
{
    if k > 0 {
        lemma_block_prefix_len(entries, k - 1, base);
        assert(entries[k - 1].0.wf());
        lemma_emit_entry_len(
            block_prefix(entries, k - 1, base),
            *entries[k - 1].0,
            entries[k - 1].1,
            k - 1 == entries.len() - 1,
            base,
            entries.len() as u32,
        );
    }
}

/// Block sizes only grow as entries are added.
pub proof fn lemma_block_size_monotonic(entries: Seq<(&Stencil, DecodedFields)>, i: int, j: int)
    requires
        0 <= i <= j <= entries.len(),
    ensures
        block_size_upto(entries, i) <= block_size_upto(entries, j),
    decreases j - i,
{
    if i < j {
        lemma_block_size_monotonic(entries, i, j - 1);
    }
}

// ── Where patched relocations lead ─────────────────────────────────────────

/// The unsigned 32-bit little-endian word stored at `at`.
pub open spec fn read_le32(s: Seq<u8>, at: int) -> int {
    s[at] as int + 256 * s[at + 1] + 65536 * s[at + 2] + 16777216 * s[at + 3]
}

/// No relocation applied after the `j`-th overwrites any byte of its field.
pub open spec fn field_kept(relocs: Seq<StencilReloc>, code_len: int, j: int) -> bool {
    forall|k: int|
        #![trigger relocs[k]]
        j < k < relocs.len() && relocs[k].byte_offset + 4 <= code_len ==> relocs[k].byte_offset + 4
            <= relocs[j].byte_offset || relocs[j].byte_offset + 4 <= relocs[k].byte_offset
}

proof fn lemma_word_bytes(v: u32, x: u64)
    ensures
        (v as u8) as int + 256 * ((v >> 8u32) as u8) as int + 65536 * ((v >> 16u32) as u8) as int
            + 16777216 * ((v >> 24u32) as u8) as int == v as int,
        (x as u32) as int == x as int % 0x1_0000_0000,
{
    assert(((v as u8) as u64) + 256 * (((v >> 8u32) as u8) as u64) + 65536 * (((v >> 16u32) as u8)
        as u64) + 16777216 * (((v >> 24u32) as u8) as u64) == v as u64 && (x as u32) as u64 == x
        % 0x1_0000_0000u64) by (bit_vector);
}

/// Reading back a word written at `at` gives the word; bytes outside
/// `at..at + 4` are unchanged.
proof fn lemma_write_le32(s: Seq<u8>, at: int, v: u32)
    requires
        0 <= at,
        at + 4 <= s.len(),
    ensures
        write_le32(s, at, v).len() == s.len(),
        read_le32(write_le32(s, at, v), at) == v as int,
        forall|i: int| 0 <= i < s.len() && !(at <= i < at + 4) ==> #[trigger] write_le32(s, at, v)[i] == s[i],
{
    lemma_word_bytes(v, 0);
}

/// Every relocation whose field no later relocation overwrites leads where
/// its hole resolves: an absolute field holds the low 32 bits of the
/// resolved value, and a PC-relative field, taken as a signed offset from
/// the end of the field (the next x86 instruction), reaches the resolved
/// target modulo 2^32. The buffer is assumed to live at `base` with every
/// address of the stencil below 2^64.
pub proof fn lemma_relocation_reaches_target(
    buf: Seq<u8>,
    start: int,
    code_len: int,
    relocs: Seq<StencilReloc>,
    f: DecodedFields,
    base: u64,
    j: int,
)
    requires
        0 <= start,
        0 <= j < relocs.len(),
        relocs[j].byte_offset + 4 <= code_len,
        start + code_len <= buf.len(),
        base + start + code_len <= u64::MAX,
        field_kept(relocs, code_len, j),
    ensures
        ({
            let r = relocs[j];
            let at = start + r.byte_offset;
            let w = read_le32(apply_relocs(buf, start, code_len, relocs, f, base), at);
            let target = hole_value(r.hole, f) as int;
            &&& r.kind == RelocKind::Abs32 ==> w == target % 0x1_0000_0000
            &&& r.kind == RelocKind::PcRel32 ==> (base + at + 4 + w - target) % 0x1_0000_0000 == 0
        }),
    decreases relocs.len(),
{
    let n = relocs.len() as int;
    let prev = apply_relocs(buf, start, code_len, relocs.drop_last(), f, base);
    lemma_apply_relocs_len(buf, start, code_len, relocs.drop_last(), f, base);
    let last = relocs.last();
    let r = relocs[j];
    let at = start + r.byte_offset;
    if j == n - 1 {
        let v = reloc_word(r, f, base, at);
        lemma_write_le32(prev, at, v);
        let t = hole_value(r.hole, f);
        lemma_word_bytes(0, t);
        if r.kind == RelocKind::PcRel32 {
            let a4: int = base + at + 4;
            assert(a4 <= u64::MAX);
            assert((a4 as u64) as int == a4);
            let d: int = t - a4;
            let ws = vstd::wrapping::u64_specs::wrapping_sub(t, a4 as u64);
            assert(ws as int == (if d < 0 {
                d + 0x1_0000_0000_0000_0000
            } else {
                d
            }));
            lemma_word_bytes(0, ws);
            let small: int = 0x1_0000_0000;
            let q = ws as int / small;
            vstd::arithmetic::div_mod::lemma_fundamental_div_mod(ws as int, small);
            let w = ws as int % small;
            if d < 0 {
                assert(a4 + w - t == -(small * (q - small)));
                vstd::arithmetic::div_mod::lemma_mod_multiples_basic(-(q - small), small);
                assert(-(small * (q - small)) == (-(q - small)) * small) by (nonlinear_arith);
            } else {
                assert(a4 + w - t == -(small * q));
                vstd::arithmetic::div_mod::lemma_mod_multiples_basic(-q, small);
                assert(-(small * q) == (-q) * small) by (nonlinear_arith);
            }
        }
    } else {
        let rest = relocs.drop_last();
        assert(rest[j] == r);
        assert(field_kept(rest, code_len, j)) by {
            assert forall|k: int|
                #![trigger rest[k]]
                j < k < rest.len() && rest[k].byte_offset + 4 <= code_len implies rest[k].byte_offset
                    + 4 <= r.byte_offset || r.byte_offset + 4 <= rest[k].byte_offset by {
                assert(rest[k] == relocs[k]);
            }
        }
        lemma_relocation_reaches_target(buf, start, code_len, rest, f, base, j);
        if last.byte_offset + 4 <= code_len {
            assert(relocs[n - 1] == last);
            let at2 = start + last.byte_offset;
            lemma_write_le32(prev, at2, reloc_word(last, f, base, at2));
            let res = write_le32(prev, at2, reloc_word(last, f, base, at2));
            assert(res[at] == prev[at] && res[at + 1] == prev[at + 1] && res[at + 2] == prev[at + 2]
                && res[at + 3] == prev[at + 3]);
        }
    }
}

/// Byte `i` lies in the field of a relocation that applies (one that fits
/// in the code).
pub open spec fn in_applied_field(relocs: Seq<StencilReloc>, start: int, code_len: int, i: int) -> bool {
    exists|k: int|
        0 <= k < relocs.len() && #[trigger] relocs[k].byte_offset + 4 <= code_len && start
            + relocs[k].byte_offset <= i < start + relocs[k].byte_offset + 4
}

/// Patching changes only relocation fields: the buffer keeps its length and
/// every byte outside the fields of the relocations that apply is the byte
/// that was copied there.
pub proof fn lemma_relocs_touch_only_fields(
    buf: Seq<u8>,
    start: int,
    code_len: int,
    relocs: Seq<StencilReloc>,
    f: DecodedFields,
    base: u64,
    i: int,
)
    requires
        0 <= start,
        start + code_len <= buf.len(),
        0 <= i < buf.len(),
        !in_applied_field(relocs, start, code_len, i),
    ensures
        apply_relocs(buf, start, code_len, relocs, f, base).len() == buf.len(),
        apply_relocs(buf, start, code_len, relocs, f, base)[i] == buf[i],
    decreases relocs.len(),
{
    if relocs.len() > 0 {
        let rest = relocs.drop_last();
        assert(!in_applied_field(rest, start, code_len, i)) by {
            if in_applied_field(rest, start, code_len, i) {
                let k = choose|k: int|
                    0 <= k < rest.len() && #[trigger] rest[k].byte_offset + 4 <= code_len && start
                        + rest[k].byte_offset <= i < start + rest[k].byte_offset + 4;
                assert(relocs[k] == rest[k]);
                assert(in_applied_field(relocs, start, code_len, i));
            }
        }
        lemma_relocs_touch_only_fields(buf, start, code_len, rest, f, base, i);
        let prev = apply_relocs(buf, start, code_len, rest, f, base);
        let last = relocs.last();
        if last.byte_offset + 4 <= code_len {
            let k = relocs.len() - 1;
            assert(relocs[k] == last);
            if start + last.byte_offset <= i < start + last.byte_offset + 4 {
                assert(in_applied_field(relocs, start, code_len, i));
            }
            let at = start + last.byte_offset;
            lemma_write_le32(prev, at, reloc_word(last, f, base, at));
        }
    }
}

/// The unsigned 64-bit little-endian word stored at `at`.
pub open spec fn read_le64(s: Seq<u8>, at: int) -> int {
    read_le32(s, at) + 0x1_0000_0000 * read_le32(s, at + 4)
}

proof fn lemma_qword_bytes(v: u64)
    ensures
        (v as u8) as int + 256 * ((v >> 8u64) as u8) as int + 65536 * ((v >> 16u64) as u8) as int
            + 16777216 * ((v >> 24u64) as u8) as int + 0x1_0000_0000 * ((v >> 32u64) as u8) as int
            + 0x100_0000_0000 * ((v >> 40u64) as u8) as int + 0x1_0000_0000_0000 * ((v >> 48u64)
            as u8) as int + 0x100_0000_0000_0000 * ((v >> 56u64) as u8) as int == v as int,
{
    assert(((v as u8) as u64) + 256 * (((v >> 8u64) as u8) as u64) + 65536 * (((v >> 16u64) as u8)
        as u64) + 16777216 * (((v >> 24u64) as u8) as u64) + 0x1_0000_0000 * (((v >> 32u64) as u8)
        as u64) + 0x100_0000_0000 * (((v >> 40u64) as u8) as u64) + 0x1_0000_0000_0000 * (((v
        >> 48u64) as u8) as u64) + 0x100_0000_0000_0000 * (((v >> 56u64) as u8) as u64) == v)
        by (bit_vector);
}

/// A block whose last stencil is a chainable leaf ends in the epilogue that
/// leaves it: `add qword [rdi + 8 * REG_JIT_RETIRED], n` with `n` the
/// number of instructions, `movabs rax, next_pc` with the last
/// instruction's fall-through address, `mov [rdi + 8 * REG_PC], rax`,
/// `mov eax, EXIT_END_OF_BLOCK` and `ret`, as its last 31 bytes.
pub proof fn lemma_block_exit(entries: Seq<(&Stencil, DecodedFields)>, base: u64)
    requires
        entries.len() > 0,
        !entries.last().0.is_terminator,
        entries.last().0.is_leaf,
    ensures
        ({
            let code = block_bytes(entries, base);
            let l = code.len() as int;
            let next_pc = entries.last().1.next_pc;
            &&& l >= 31
            &&& code[l - 31] == 0x48 && code[l - 30] == 0x83 && code[l - 29] == 0x87
            &&& read_le32(code, l - 28) == REG_JIT_RETIRED * 8
            &&& code[l - 24] == (entries.len() as u32) as u8
            &&& code[l - 23] == 0x48 && code[l - 22] == 0xB8
            &&& read_le64(code, l - 21) == next_pc
            &&& code[l - 13] == 0x48 && code[l - 12] == 0x89 && code[l - 11] == 0x87
            &&& read_le32(code, l - 10) == REG_PC * 8
            &&& code[l - 6] == 0xB8
            &&& read_le32(code, l - 5) == EXIT_END_OF_BLOCK
            &&& code[l - 1] == 0xC3
        }),
{
    let n = entries.len() as int;
    let s = *entries[n - 1].0;
    let f = entries[n - 1].1;
    let pre = block_prefix(entries, n - 1, base);
    let body = apply_relocs(
        pre + s.bytes@.take(s.body_len as int),
        pre.len() as int,
        s.bytes@.len() as int,
        s.relocs@,
        f,
        base,
    ) + fixup_bytes(f);
    let e = epilogue_bytes(f.next_pc, n as u32);
    assert(block_bytes(entries, base) == body + e);
    let code = body + e;
    let l = code.len() as int;
    assert(e.len() == 31);
    assert forall|i: int| 0 <= i < 31 implies code[l - 31 + i] == #[trigger] e[i] by {}
    lemma_word_bytes(retired_off(), 0);
    lemma_word_bytes(pc_off(), 0);
    lemma_word_bytes(EXIT_END_OF_BLOCK as u32, 0);
    lemma_qword_bytes(f.next_pc);
    assert(code[l - 28] == e[3] && code[l - 27] == e[4] && code[l - 26] == e[5] && code[l - 25] == e[6]);
    assert(code[l - 10] == e[21] && code[l - 9] == e[22] && code[l - 8] == e[23] && code[l - 7] == e[24]);
    assert(code[l - 5] == e[26] && code[l - 4] == e[27] && code[l - 3] == e[28] && code[l - 2] == e[29]);
    assert(code[l - 21] == e[10] && code[l - 20] == e[11] && code[l - 19] == e[12] && code[l - 18] == e[13]);
    assert(code[l - 17] == e[14] && code[l - 16] == e[15] && code[l - 15] == e[16] && code[l - 14] == e[17]);
}

} // verus!
