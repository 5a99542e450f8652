//! W^X code arena for JIT-compiled blocks.
//!
//! Block chaining rewrites a 5-byte exit slot of an already executable block:
//! the buffer is remapped writable, the bytes are written, and it is remapped
//! executable again (one `mprotect` pair per patch). An unlinked slot holds
//! `ret` followed by four `nop`s; a linked slot holds `jmp rel32` to the
//! target block's entry.

use crate::stencil::compiler::le32;
use dynasmrt::mmap::{ExecutableBuffer, MutableBuffer};
use dynasmrt::AssemblyOffset;
use vstd::prelude::*;

verus! {

/// x86-64 near return instruction (`ret`).
pub const X86_RET_OPCODE: u8 = 0xC3;
/// x86-64 one-byte `nop`.
pub const X86_NOP_OPCODE: u8 = 0x90;
/// x86-64 `jmp rel32` opcode.
pub const X86_JMP_REL32_OPCODE: u8 = 0xE9;
/// Default arena capacity in bytes (64 MiB).
pub const DEFAULT_ARENA_CAPACITY: usize = 64 * 1024 * 1024;

#[verifier::external_type_specification]
#[verifier::external_body]
pub struct ExExecutableBuffer(ExecutableBuffer);

#[verifier::external_type_specification]
#[verifier::external_body]
pub struct ExMutableBuffer(MutableBuffer);

/// The bytes an executable buffer holds (what it dereferences to: the part
/// of the mapping that was written).
pub uninterp spec fn executable_bytes(buf: ExecutableBuffer) -> Seq<u8>;

/// The bytes a mutable buffer holds (what it dereferences to).
pub uninterp spec fn mutable_bytes(buf: MutableBuffer) -> Seq<u8>;

/// The size of the mapping behind an executable buffer (what its `size()`
/// reports; 0 without a mapping).
pub uninterp spec fn executable_size(buf: ExecutableBuffer) -> usize;

/// The size of the mapping behind a mutable buffer.
pub uninterp spec fn mutable_size(buf: MutableBuffer) -> usize;

/// The written part of an executable buffer lies inside its mapping, so
/// dereferencing it cannot fail. Every buffer dynasmrt hands out is so,
/// unless its length was set past the mapping with `MutableBuffer::set_len`.
pub open spec fn executable_in_bounds(buf: ExecutableBuffer) -> bool {
    executable_bytes(buf).len() <= executable_size(buf)
}

/// The written part of a mutable buffer lies inside its mapping.
pub open spec fn mutable_in_bounds(buf: MutableBuffer) -> bool {
    mutable_bytes(buf).len() <= mutable_size(buf)
}

/// Number of bytes an executable buffer holds.
///
/// Calls `ExecutableBuffer`'s `Deref<Target = [u8]>`, which slices the
/// mapping up to the written length (hence the requirement: past the mapping
/// it panics); the contract claims the length is that of the bytes it holds.
#[verifier::external_body]
pub(crate) fn executable_len(buf: &ExecutableBuffer) -> (r: usize)
    requires
        executable_in_bounds(*buf),
    ensures
        r == executable_bytes(*buf).len(),
{
    (**buf).len()
}

/// Turn an executable buffer into a writable one over the same bytes.
///
/// Calls `ExecutableBuffer::make_mut`, which remaps the same mapping writable
/// and keeps its written length; the contract claims the bytes and the
/// mapping's size are unchanged. It returns `None` when the remapping
/// (`mprotect`) fails, which depends on the operating system and is not
/// stated.
#[verifier::external_body]
fn executable_make_mut(buf: ExecutableBuffer) -> (r: Option<MutableBuffer>)
    ensures
        r matches Some(m) ==> mutable_bytes(m) == executable_bytes(buf) && mutable_size(m)
            == executable_size(buf),
{
    buf.make_mut().ok()
}

/// Overwrite `data.len()` bytes at `offset` of a writable buffer.
///
/// Calls `MutableBuffer`'s `DerefMut<Target = [u8]>` (which slices the
/// mapping up to the written length, hence the requirement that it fits)
/// and copies `data` into the sub-slice; the contract claims exactly those
/// bytes change and the mapping stays.
#[verifier::external_body]
fn mutable_write(m: &mut MutableBuffer, offset: usize, data: &[u8])
    requires
        mutable_in_bounds(*old(m)),
        offset + data@.len() <= mutable_bytes(*old(m)).len(),
    ensures
        mutable_bytes(*final(m)) == splice(mutable_bytes(*old(m)), offset as int, data@),
        mutable_size(*final(m)) == mutable_size(*old(m)),
{
    (**m)[offset..offset + data.len()].copy_from_slice(data);
}

/// Turn a writable buffer back into an executable one over the same bytes.
///
/// Calls `MutableBuffer::make_exec`, which remaps the same mapping
/// executable and keeps its written length; the contract claims the bytes
/// and the mapping's size are unchanged. It returns `None` when the
/// remapping fails (not stated when).
#[verifier::external_body]
fn mutable_make_exec(m: MutableBuffer) -> (r: Option<ExecutableBuffer>)
    ensures
        r matches Some(b) ==> executable_bytes(b) == mutable_bytes(m) && executable_size(b)
            == mutable_size(m),
{
    m.make_exec().ok()
}

/// Address of the byte at `offset` of an executable buffer.
///
/// Calls `ExecutableBuffer::ptr`, which indexes the written bytes through
/// `Deref` (hence the requirements). The address depends on where the
/// mapping lives, so nothing is stated about the value.
#[verifier::external_body]
pub(crate) fn executable_address(buf: &ExecutableBuffer, offset: usize) -> (r: u64)
    requires
        executable_in_bounds(*buf),
        offset < executable_bytes(*buf).len(),
{
    buf.ptr(AssemblyOffset(offset)) as usize as u64
}

/// `s` with `data` written over it from `at` on.
pub open spec fn splice(s: Seq<u8>, at: int, data: Seq<u8>) -> Seq<u8> {
    s.subrange(0, at) + data + s.subrange(at + data.len(), s.len() as int)
}

/// The signed 32-bit displacement of a `jmp rel32` at `site` to `target`.
pub open spec fn jmp_rel32(site: u64, target: u64) -> i32 {
    ((target as i64) - ((site as i64) + 5)) as i32
}

/// `jmp rel32` from the slot at `site` to `target`.
pub open spec fn jmp_rel32_bytes(site: u64, target: u64) -> Seq<u8> {
    seq![X86_JMP_REL32_OPCODE] + le32(jmp_rel32(site, target) as u32)
}

/// The unlinked exit slot: `ret` then four `nop`s.
pub open spec fn ret_nop4_bytes() -> Seq<u8> {
    seq![X86_RET_OPCODE, X86_NOP_OPCODE, X86_NOP_OPCODE, X86_NOP_OPCODE, X86_NOP_OPCODE]
}

/// The i64 arithmetic of a `jmp rel32` from `site` to `target` does not
/// overflow.
pub open spec fn jmp_arith_ok(site: u64, target: u64) -> bool {
    &&& (site as i64) + 5 <= i64::MAX
    &&& i64::MIN <= (target as i64) - ((site as i64) + 5) <= i64::MAX
}

/// Writer of executable buffers, for patching chained exits.
pub struct CodeArena;

impl CodeArena {
    /// Overwrite `data.len()` bytes at `byte_offset` inside `buf`: the buffer
    /// is made writable, written and made executable again.
    ///
    /// Returns `None` when the buffer cannot be remapped.
    pub fn patch(buf: ExecutableBuffer, byte_offset: usize, data: &[u8]) -> (r: Option<ExecutableBuffer>)
        requires
            executable_in_bounds(buf),
            byte_offset + data@.len() <= executable_bytes(buf).len(),
        ensures
            r matches Some(b) ==> executable_bytes(b) == splice(
                executable_bytes(buf),
                byte_offset as int,
                data@,
            ) && executable_size(b) == executable_size(buf) && executable_in_bounds(b),
    {
        let mut mutable = match executable_make_mut(buf) {
            Some(m) => m,
            None => return None,
        };
        mutable_write(&mut mutable, byte_offset, data);
        mutable_make_exec(mutable)
    }

    /// Write `jmp rel32` at `byte_offset` in `buf`, jumping from the slot
    /// whose runtime address is `site_rx` to `target_rx`.
    pub fn write_jmp_rel32(buf: ExecutableBuffer, byte_offset: usize, site_rx: u64, target_rx: u64) -> (r:
        Option<ExecutableBuffer>)
        requires
            executable_in_bounds(buf),
            byte_offset + 5 <= executable_bytes(buf).len(),
            jmp_arith_ok(site_rx, target_rx),
        ensures
            r matches Some(b) ==> executable_bytes(b) == splice(
                executable_bytes(buf),
                byte_offset as int,
                jmp_rel32_bytes(site_rx, target_rx),
            ) && executable_size(b) == executable_size(buf) && executable_in_bounds(b),
    {
        let from = site_rx as i64 + 5;
        let to = target_rx as i64;
        let rel = (to - from) as i32;
        let rel_bits = rel as u32;
        let patch = [
            X86_JMP_REL32_OPCODE,
            rel_bits as u8,
            (rel_bits >> 8u32) as u8,
            (rel_bits >> 16u32) as u8,
            (rel_bits >> 24u32) as u8,
        ];
        assert(patch@ =~= jmp_rel32_bytes(site_rx, target_rx));
        Self::patch(buf, byte_offset, patch.as_slice())
    }

    /// Restore the unlinked `ret + nop×4` sequence at `byte_offset`.
    pub fn write_ret_nop4(buf: ExecutableBuffer, byte_offset: usize) -> (r: Option<ExecutableBuffer>)
        requires
            executable_in_bounds(buf),
            byte_offset + 5 <= executable_bytes(buf).len(),
        ensures
            r matches Some(b) ==> executable_bytes(b) == splice(
                executable_bytes(buf),
                byte_offset as int,
                ret_nop4_bytes(),
            ) && executable_size(b) == executable_size(buf) && executable_in_bounds(b),
    {
        let patch = [X86_RET_OPCODE, X86_NOP_OPCODE, X86_NOP_OPCODE, X86_NOP_OPCODE, X86_NOP_OPCODE];
        assert(patch@ =~= ret_nop4_bytes());
        Self::patch(buf, byte_offset, patch.as_slice())
    }
}

/// A linked exit lands on its target: the `jmp rel32` written for a slot at
/// `site` jumps (end of the 5-byte instruction plus the sign-extended
/// displacement) exactly to `target`, whenever the distance fits in 32 bits.
pub proof fn lemma_jmp_rel32_reaches_target(site: u64, target: u64)
    requires
        jmp_arith_ok(site, target),
        i32::MIN <= (target as i64) - ((site as i64) + 5) <= i32::MAX,
    ensures
        (site as i64) + 5 + (jmp_rel32(site, target) as i64) == target as i64,
{
}

} // verus!
