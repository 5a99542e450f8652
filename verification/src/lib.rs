//! Verified core of a JIT framework that translates guest (AArch64 / RISC-V64)
//! basic blocks into host x86-64 code.
//!
//! The library holds the parts of the JIT that decide and compute: the flat
//! register-array layout and its synchronisation with architectural state,
//! the debug/trace controller, the direct-mapped block cache with block
//! chaining, the copy-and-patch (stencil) backend from stencil selection and
//! operand extraction to byte-exact block assembly, the decisions of the
//! runtime code-generation (dynasm) backend, the SE-mode TLB and
//! system-instruction helpers, and the runtime dispatch policy.

pub mod arena;
pub mod backend;
pub mod block;
pub mod cache;
pub mod debug;
pub mod dynasm;
pub mod helpers;
pub mod insn;
pub mod regs;
pub mod runtime;
pub mod stencil;
