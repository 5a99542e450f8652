//! Core types for the stencil (copy-and-patch) JIT backend.
//!
//! Stencils are pre-compiled x86-64 code templates with holes: relocations
//! patched at JIT time with instruction-specific values.

use vstd::prelude::*;

verus! {

/// Which register field a hole refers to.
#[derive(Debug, Clone, Copy, PartialEq, Eq, Structural)]
pub enum RegField {
    Rd,
    Rn,
    Rm,
    Ra,
    Rt,
    Rt2,
}

/// Runtime helper functions that stencils can call via function-pointer holes.
#[derive(Debug, Clone, Copy, PartialEq, Eq, Structural)]
pub enum HelperFn {
    MemRead,
    MemWrite,
}

/// Where the host process placed the runtime helpers that stencils call.
#[derive(Debug, Clone, Copy, PartialEq, Eq, Structural)]
pub struct HelperAddresses {
    /// Address of the memory-read helper.
    pub mem_read: u64,
    /// Address of the memory-write helper.
    pub mem_write: u64,
}

/// The address of `f` among the host's helpers.
pub open spec fn helper_fn_address(f: HelperFn, helpers: HelperAddresses) -> u64 {
    match f {
        HelperFn::MemRead => helpers.mem_read,
        HelperFn::MemWrite => helpers.mem_write,
    }
}

impl HelperFn {
    /// Get the function address of this helper.
    pub fn address(self, helpers: &HelperAddresses) -> (r: u64)
        ensures
            r == helper_fn_address(self, *helpers),
    {
        match self {
            HelperFn::MemRead => helpers.mem_read,
            HelperFn::MemWrite => helpers.mem_write,
        }
    }
}

/// What value to patch into a relocation hole.
#[derive(Debug, Clone, Copy, PartialEq, Eq, Structural)]
pub enum HoleKind {
    /// Byte offset of a register in the flat array: `field_value * 8`.
    RegOffset(RegField),
    /// Sign-extend the immediate from `from_bits` to 64 bits.
    ImmSext { from_bits: u8 },
    /// Zero-extend the immediate to 64 bits.
    ImmZext,
    /// Address of a runtime helper function.
    Helper(HelperFn),
    /// Absolute guest PC of a branch target.
    BranchTarget,
    /// Fall-through PC (current PC + instruction size).
    NextPc,
    /// Signed pre/post-index immediate.
    Simm,
    /// Shift amount (zero-extended).
    Shamt,
}

/// How a relocation is applied.
#[derive(Debug, Clone, Copy, PartialEq, Eq, Structural)]
pub enum RelocKind {
    /// Absolute 32-bit value (displacement / immediate): the low 32 bits.
    Abs32,
    /// PC-relative 32-bit value (for `call`): target minus the address just
    /// past the 4-byte field.
    PcRel32,
}

/// A single relocation record within a stencil.
#[derive(Debug, Clone, Copy)]
pub struct StencilReloc {
    /// Byte offset within the stencil's code where the 4-byte value goes.
    pub byte_offset: u32,
    /// What value to write at this offset.
    pub hole: HoleKind,
    /// How to apply the relocation.
    pub kind: RelocKind,
}

/// A pre-compiled x86-64 code template for a single guest instruction.
pub struct Stencil {
    /// Raw x86-64 machine code bytes (ending in `ret` for non-terminators).
    pub bytes: &'static [u8],
    /// Number of bytes to copy when the stencil is chained (trailing `ret`
    /// stripped). For terminators this equals `bytes.len()`.
    pub body_len: usize,
    /// Relocation holes to patch after copying.
    pub relocs: &'static [StencilReloc],
    /// Whether this stencil ends a basic block (branch, syscall, ...).
    pub is_terminator: bool,
    /// Whether the stencil needs no stack frame and calls no helper, so its
    /// body can be chained with the next one.
    pub is_leaf: bool,
}

impl Stencil {
    /// Every relocation that is applied (it fits in `bytes`) lies inside the
    /// body, and the body is a prefix of the code.
    pub open spec fn wf(&self) -> bool {
        &&& self.body_len <= self.bytes@.len()
        &&& forall|i: int|
            0 <= i < self.relocs@.len() ==> (#[trigger] self.relocs@[i]).byte_offset + 4
                <= self.bytes@.len() ==> self.relocs@[i].byte_offset + 4 <= self.body_len
    }
}

/// All fields extracted from a decoded guest instruction, ready for hole
/// patching. AArch64 and RISC-V instructions are both normalised into it.
#[derive(Debug, Clone, Copy, Default)]
pub struct DecodedFields {
    pub rd: u8,
    pub rn: u8,
    pub rm: u8,
    pub ra: u8,
    pub rt: u8,
    pub rt2: u8,
    pub imm: i64,
    pub simm: i64,
    pub shamt: u8,
    /// 0 = 32-bit (W) form, 1 = 64-bit (X) form.
    pub sf: u8,
    /// Shift type (0 = LSL, 1 = LSR, 2 = ASR, 3 = ROR).
    pub shift: u8,
    /// 4-bit condition code.
    pub cond: u8,
    pub branch_target: u64,
    pub next_pc: u64,
    /// Address of the memory-read helper the stencil must call.
    pub mem_read_fn: u64,
    /// Address of the memory-write helper the stencil must call.
    pub mem_write_fn: u64,
}

} // verus!
