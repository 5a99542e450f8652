//! Flat register array layout for RISC-V64 JIT code.
//!
//! | Slot  | Content                                   |
//! |-------|-------------------------------------------|
//! | 0–31  | x0–x31 (x0 hardwired zero)                |
//! | 32    | PC                                        |
//! | 33–39 | Reserved                                  |

use vstd::prelude::*;

verus! {

/// Total number of 64-bit slots in the RISC-V flat array.
pub const REG_COUNT_RV64: usize = 40;
pub const REG_X0: usize = 0;
pub const REG_PC_RV64: usize = 32;

/// Byte offset of a register slot (for `[rdi + off]` operands).
pub fn reg_offset_rv64(slot: usize) -> (r: i32)
    requires
        slot * 8 <= usize::MAX,
    ensures
        r == (slot * 8) as i32,
        slot * 8 <= i32::MAX ==> r == slot * 8,
{
    (slot * 8) as i32
}

} // verus!
