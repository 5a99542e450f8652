//! Generic (ISA-independent) reasons for rejecting an instruction.

use vstd::prelude::*;

verus! {

pub const COMPLEX_ADDRESSING: &'static str = "complex-addressing";
pub const IMM_OUT_OF_RANGE: &'static str = "imm-out-of-range";
pub const UNSUPPORTED_SIZE: &'static str = "unsupported-size";
pub const OPCODE_UNIMPLEMENTED: &'static str = "opcode-unimplemented";
pub const W_REGISTER: &'static str = "w-register";
pub const SHIFTED_REGISTER: &'static str = "shifted-register";

} // verus!
