//! Dynasm JIT backend for RISC-V64 guests.
//!
//! The flat register array of a RISC-V64 guest has 40 slots: x0–x31 in slots
//! 0–31 (x0 always reads as zero: emitters skip writes to it) and the PC in
//! slot 32. Blocks are formed by the walk of [`crate::dynasm`], one
//! instruction at a time.

pub mod emit;

use vstd::prelude::*;

verus! {

/// Dynasm JIT backend for RISC-V64.
pub struct DynasmBackendRv64;

impl DynasmBackendRv64 {
    /// Create a new RV64 dynasm backend instance.
    pub fn new() -> (r: Self)
        ensures
            r == (DynasmBackendRv64 {}),
    {
        DynasmBackendRv64
    }

    /// Human-readable name of this backend.
    pub fn name(&self) -> (r: &'static str)
        ensures
            r@ == "dynasm-rv64"@,
    {
        "dynasm-rv64"
    }
}

impl Default for DynasmBackendRv64 {
    fn default() -> (r: Self)
        ensures
            r == (DynasmBackendRv64 {}),
    {
        Self::new()
    }
}

} // verus!
