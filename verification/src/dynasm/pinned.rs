//! Pinned guest registers and the System V calling convention.
//!
//! Of the host registers that hold pinned guest registers, r8–r11 are
//! caller-saved: any C helper call clobbers them, so emitters that call a
//! helper must save and restore the guest registers pinned there.

use crate::regs::{pinned_host_reg, pinned_reg_of, HostReg};
use vstd::prelude::*;

verus! {

/// The host register is caller-saved in the System V AMD64 ABI.
pub open spec fn is_caller_saved(r: HostReg) -> bool {
    r == HostReg::R8 || r == HostReg::R9 || r == HostReg::R10 || r == HostReg::R11
}

/// Returns true if guest `slot` is pinned to a caller-saved host register
/// (r8–r11), which must be saved around C helper calls.
pub fn is_caller_saved_pinned(slot: usize) -> (r: bool)
    ensures
        r == (pinned_reg_of(slot as int) matches Some(h) && is_caller_saved(h)),
{
    match pinned_host_reg(slot) {
        Some(HostReg::R8) | Some(HostReg::R9) | Some(HostReg::R10) | Some(HostReg::R11) => true,
        _ => false,
    }
}

} // verus!
