//! Compiled translation block wrapper.
//!
//! A block owns its executable code. Two storage variants exist: an opaque
//! code owner (any backend buffer, such as the stencil backend's mapping) and
//! a patchable `ExecutableBuffer` with the entry offset, which block chaining
//! can rewrite. The entry point is kept as an address; the code that calls a
//! block turns it into a function pointer.

use crate::arena::{executable_address, executable_bytes, executable_in_bounds, executable_len};
use dynasmrt::mmap::ExecutableBuffer;
use vstd::prelude::*;

verus! {

/// Exit codes returned by JIT-compiled blocks in `rax`.
pub const EXIT_END_OF_BLOCK: u64 = 0;
pub const EXIT_SYSCALL: u64 = 1;
pub const EXIT_EXCEPTION: u64 = 2;

/// A patchable 5-byte exit slot at the end of a compiled block.
///
/// Unlinked, the slot holds `ret + nop×4`; once the target block is compiled
/// it is overwritten with `jmp rel32` to the target's entry.
#[derive(Debug, Clone, Copy)]
pub struct PatchSite {
    /// Byte offset of the 5-byte slot within the block's buffer.
    pub byte_offset: usize,
    /// Guest PC this exit jumps to when linked.
    pub target_pc: u64,
    /// Whether the slot currently holds `jmp rel32`.
    pub linked: bool,
}

/// An inline-cache site in a compiled block (reserved for speculative
/// memory specialisation).
#[derive(Debug, Clone, Copy)]
pub struct IcPatch {
    /// Byte offset of the 8-byte host-pointer immediate.
    pub imm64_offset: usize,
    /// Whether this cache has been specialised.
    pub specialized: bool,
    /// Guest page (`guest_addr >> 12`) this cache is valid for.
    pub guest_page: u64,
}

/// Storage of a block's code.
pub enum BlockInner<O> {
    /// Opaque code owner.
    Opaque(O),
    /// Executable buffer with the entry offset.
    Patchable { buf: ExecutableBuffer, entry_offset: usize },
    /// The buffer has been taken out for patching.
    Detached,
}

/// Every exit slot of `sites` lies inside a buffer of `len` bytes.
pub open spec fn sites_fit(sites: Seq<PatchSite>, len: nat) -> bool {
    forall|j: int| 0 <= j < sites.len() ==> (#[trigger] sites[j]).byte_offset + 5 <= len
}

/// A compiled translation block with chaining and inline-cache metadata.
pub struct CompiledBlock<O> {
    /// The code storage.
    pub inner: BlockInner<O>,
    /// Address of the entry point.
    pub entry: u64,
    /// Guest PC at which this block starts.
    pub guest_pc: u64,
    /// Number of guest instructions compiled into this block.
    pub insn_count: u32,
    /// Patchable exit slots for block chaining.
    pub patch_sites: Vec<PatchSite>,
    /// Inline-cache sites.
    pub ic_patches: Vec<IcPatch>,
}

impl<O> CompiledBlock<O> {
    /// The block's code is a patchable executable buffer.
    pub open spec fn is_patchable(&self) -> bool {
        self.inner is Patchable
    }

    /// The block's buffer has been taken out for patching.
    pub open spec fn is_detached(&self) -> bool {
        self.inner is Detached
    }

    /// The bytes of the patchable buffer (empty for other variants).
    pub open spec fn code_bytes(&self) -> Seq<u8> {
        match self.inner {
            BlockInner::Patchable { buf, .. } => executable_bytes(buf),
            _ => Seq::empty(),
        }
    }

    /// The entry offset inside the patchable buffer (0 for other variants).
    pub open spec fn entry_offset(&self) -> usize {
        match self.inner {
            BlockInner::Patchable { entry_offset, .. } => entry_offset,
            _ => 0,
        }
    }

    /// The patchable buffer's written bytes lie inside its mapping (true of
    /// the other variants).
    pub open spec fn code_in_bounds(&self) -> bool {
        match self.inner {
            BlockInner::Patchable { buf, .. } => executable_in_bounds(buf),
            _ => true,
        }
    }

    /// A patchable block's entry and its 5-byte exit slots lie inside its
    /// buffer, whose written bytes lie inside its mapping.
    pub open spec fn wf(&self) -> bool {
        self.is_patchable() ==> {
            &&& self.code_in_bounds()
            &&& self.entry_offset() < self.code_bytes().len()
            &&& sites_fit(self.patch_sites@, self.code_bytes().len())
        }
    }

    /// Create a block from an opaque code owner whose entry point is `entry`.
    pub fn new(buf: O, entry: u64, guest_pc: u64, insn_count: u32) -> (b: Self)
        ensures
            !b.is_patchable(),
            !b.is_detached(),
            b.wf(),
            b.entry == entry,
            b.guest_pc == guest_pc,
            b.insn_count == insn_count,
            b.patch_sites@ == Seq::<PatchSite>::empty(),
            b.ic_patches@ == Seq::<IcPatch>::empty(),
    {
        CompiledBlock {
            inner: BlockInner::Opaque(buf),
            entry,
            guest_pc,
            insn_count,
            patch_sites: Vec::new(),
            ic_patches: Vec::new(),
        }
    }

    /// Create a patchable block from an executable buffer whose entry is at
    /// `entry_offset`.
    pub fn new_patchable(buf: ExecutableBuffer, entry_offset: usize, guest_pc: u64, insn_count: u32) -> (b:
        Self)
        requires
            executable_in_bounds(buf),
            entry_offset < executable_bytes(buf).len(),
        ensures
            b.is_patchable(),
            b.wf(),
            b.code_bytes() == executable_bytes(buf),
            b.entry_offset() == entry_offset,
            b.guest_pc == guest_pc,
            b.insn_count == insn_count,
            b.patch_sites@ == Seq::<PatchSite>::empty(),
            b.ic_patches@ == Seq::<IcPatch>::empty(),
    {
        let entry = executable_address(&buf, entry_offset);
        CompiledBlock {
            inner: BlockInner::Patchable { buf, entry_offset },
            entry,
            guest_pc,
            insn_count,
            patch_sites: Vec::new(),
            ic_patches: Vec::new(),
        }
    }

    /// The executable buffer of a patchable block.
    pub fn executable_buffer(&self) -> (r: Option<&ExecutableBuffer>)
        ensures
            r is Some <==> self.is_patchable(),
            r matches Some(b) ==> executable_bytes(*b) == self.code_bytes(),
    {
        match &self.inner {
            BlockInner::Patchable { buf, .. } => Some(buf),
            _ => None,
        }
    }

    /// Take the executable buffer out of a patchable block for patching; the
    /// block is detached (not callable) until `restore_buffer`.
    pub fn take_buffer(&mut self) -> (r: Option<(ExecutableBuffer, usize)>)
        ensures
            old(self).is_patchable() ==> (r matches Some((buf, off)) && executable_bytes(buf)
                == old(self).code_bytes() && off == old(self).entry_offset() && final(self).is_detached()
                && (old(self).code_in_bounds() ==> executable_in_bounds(buf))),
            !old(self).is_patchable() ==> r is None && final(self).is_patchable() == old(
                self,
            ).is_patchable() && final(self).is_detached() == old(self).is_detached(),
            final(self).wf(),
            final(self).entry == old(self).entry,
            final(self).guest_pc == old(self).guest_pc,
            final(self).insn_count == old(self).insn_count,
            final(self).patch_sites@ == old(self).patch_sites@,
            final(self).ic_patches@ == old(self).ic_patches@,
    {
        if let BlockInner::Patchable { .. } = &self.inner {
            let mut old_inner = BlockInner::Detached;
            std::mem::swap(&mut self.inner, &mut old_inner);
            match old_inner {
                BlockInner::Patchable { buf, entry_offset } => Some((buf, entry_offset)),
                _ => None,
            }
        } else {
            None
        }
    }

    /// Put an executable buffer (back) into the block, with its entry at
    /// `entry_offset`; the entry address is recomputed.
    pub fn restore_buffer(&mut self, buf: ExecutableBuffer, entry_offset: usize)
        requires
            executable_in_bounds(buf),
            entry_offset < executable_bytes(buf).len(),
            sites_fit(old(self).patch_sites@, executable_bytes(buf).len()),
        ensures
            final(self).is_patchable(),
            final(self).wf(),
            final(self).code_bytes() == executable_bytes(buf),
            final(self).entry_offset() == entry_offset,
            final(self).guest_pc == old(self).guest_pc,
            final(self).insn_count == old(self).insn_count,
            final(self).patch_sites@ == old(self).patch_sites@,
            final(self).ic_patches@ == old(self).ic_patches@,
    {
        self.entry = executable_address(&buf, entry_offset);
        self.inner = BlockInner::Patchable { buf, entry_offset };
    }

    /// Address of the first byte of a patchable block's executable buffer.
    pub fn rx_base(&self) -> (r: Option<u64>)
        requires
            self.wf(),
        ensures
            r is Some <==> self.is_patchable(),
    {
        match &self.inner {
            BlockInner::Patchable { buf, .. } => Some(executable_address(buf, 0)),
            _ => None,
        }
    }

    /// Check that the block is well formed (entry and exit slots inside a
    /// patchable block's buffer), e.g. after exit slots were recorded.
    pub fn check_wf(&self) -> (r: bool)
        requires
            self.code_in_bounds(),
        ensures
            r == self.wf(),
    {
        match &self.inner {
            BlockInner::Patchable { buf, entry_offset } => {
                let len = executable_len(buf);
                if *entry_offset >= len {
                    return false;
                }
                let n = self.patch_sites.len();
                let mut j: usize = 0;
                while j < n
                    invariant
                        0 <= j <= n,
                        n == self.patch_sites@.len(),
                        self.is_patchable(),
                        self.entry_offset() < len,
                        len == self.code_bytes().len(),
                        forall|k: int| 0 <= k < j ==> (#[trigger] self.patch_sites@[k]).byte_offset + 5 <= len,
                    decreases n - j,
                {
                    let off = self.patch_sites[j].byte_offset;
                    if off > len || len - off < 5 {
                        assert(!(self.patch_sites@[j as int].byte_offset + 5 <= len));
                        assert(!sites_fit(self.patch_sites@, self.code_bytes().len()));
                        assert(self.is_patchable());
                        return false;
                    }
                    j += 1;
                }
                true
            },
            _ => true,
        }
    }

    /// Number of bytes of a patchable block's buffer (0 otherwise).
    pub fn code_len(&self) -> (r: usize)
        requires
            self.code_in_bounds(),
        ensures
            r == self.code_bytes().len(),
    {
        match &self.inner {
            BlockInner::Patchable { buf, .. } => executable_len(buf),
            _ => 0,
        }
    }
}

} // verus!
