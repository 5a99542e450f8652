//! Stencil (copy-and-patch) JIT backend.
//!
//! Guest instructions are compiled by copying pre-compiled x86-64 code
//! templates and patching their relocation holes with instruction-specific
//! values (register offsets, immediates, branch targets, helper addresses).
//!
//! - `types`: stencil, hole and decoded-field types
//! - `data`: stencil selection (AArch64 by opcode, RISC-V64 by name)
//! - `fields`: operand extraction from decoded instructions
//! - `compiler`: block layout, hole resolution and byte assembly
//! - `backend`: backend configuration and block-formation policy
//! - `regs_rv64`: flat register layout for RISC-V64

pub mod backend;
pub mod compiler;
pub mod data;
pub mod fields;
pub mod regs_rv64;
pub mod types;
