//! Additions and subtractions with carry (`ADC`, `ADCS`, `SBC`, `SBCS`,
//! with their aliases `NGC`, `NGCS`).
//!
//! The emitted code materialises any deferred NZCV, loads the operands into
//! `rax` and `rcx`, inverts `rcx` (`not`) for a subtraction, moves the
//! AArch64 carry (NZCV bit 29) into CF with `bt ebp, 29` and adds with
//! `adc`; a flag-setting form captures the x86 flags of that `adc` into
//! NZCV directly (C taken as CF, since `adc` computes the same carry-out as
//! `AddWithCarry`). [`plan_carry`] decides everything the emitted code
//! depends on; [`lemma_carry_matches_architecture`] shows that the sequence
//! computes the AArch64 result and flags.

use crate::dynasm::emit::{bit_set, data_slot_of, dst_slot, src_slot};
use crate::dynasm::nzcv::{add_with_carry_nzcv, captured_nzcv, sint32, sint64, X86Flags};
use crate::insn::{A64Insn, A64Opcode};
use vstd::prelude::*;

verus! {

/// Everything the emitted code of an addition or subtraction with carry
/// depends on.
#[derive(Debug, Clone, Copy, PartialEq, Eq, Structural)]
pub struct CarryPlan {
    pub rd_slot: usize,
    pub rn_slot: usize,
    pub rm_slot: usize,
    /// `SBC`/`SBCS`: the second operand is inverted first.
    pub subtract: bool,
    /// `ADCS`/`SBCS`: NZCV is captured from the `adc`.
    pub set_flags: bool,
    pub wide: bool,
}

/// The plan of an addition or subtraction with carry (`None` for any other
/// instruction).
pub open spec fn carry_plan(insn: A64Insn) -> Option<CarryPlan> {
    let o = insn.opcode;
    if o == A64Opcode::Adc || o == A64Opcode::Adcs || o == A64Opcode::Sbc || o == A64Opcode::Sbcs {
        Some(
            CarryPlan {
                rd_slot: data_slot_of(insn.rd),
                rn_slot: data_slot_of(insn.rn),
                rm_slot: data_slot_of(insn.rm),
                subtract: o == A64Opcode::Sbc || o == A64Opcode::Sbcs,
                set_flags: o == A64Opcode::Adcs || o == A64Opcode::Sbcs,
                wide: insn.sf,
            },
        )
    } else {
        None
    }
}

/// Plan an addition or subtraction with carry.
pub fn plan_carry(insn: &A64Insn) -> (p: Option<CarryPlan>)
    ensures
        p == carry_plan(*insn),
{
    let (subtract, set_flags) = match insn.opcode {
        A64Opcode::Adc => (false, false),
        A64Opcode::Adcs => (false, true),
        A64Opcode::Sbc => (true, false),
        A64Opcode::Sbcs => (true, true),
        _ => {
            return None;
        },
    };
    Some(
        CarryPlan {
            rd_slot: dst_slot(insn.rd),
            rn_slot: src_slot(insn.rn),
            rm_slot: src_slot(insn.rm),
            subtract,
            set_flags,
            wide: insn.sf,
        },
    )
}

/// 2 to the register width.
pub open spec fn carry_modulus(wide: bool) -> int {
    if wide {
        0x1_0000_0000_0000_0000
    } else {
        0x1_0000_0000
    }
}

/// The carry-in: NZCV's C (bit 29).
pub open spec fn carry_in(nzcv: u32) -> int {
    if bit_set(nzcv, 29) {
        1
    } else {
        0
    }
}

/// The flags `adc` leaves on `bits`-bit operands `a`, `b` and carry-in
/// `c`: SF the result's top bit, ZF whether it is zero, CF the unsigned
/// carry-out, OF whether the signed sum overflows.
pub open spec fn x86_adc_flags(bits: nat, a: int, b: int, c: int) -> X86Flags {
    let m = if bits == 64 {
        0x1_0000_0000_0000_0000int
    } else {
        0x1_0000_0000int
    };
    let sint = |x: int| if bits == 64 {
        sint64(x)
    } else {
        sint32(x)
    };
    let exact = a + b + c;
    let signed = sint(a) + sint(b) + c;
    let r = exact % m;
    X86Flags { sf: r >= m / 2, zf: r == 0, cf: exact >= m, of: !(-(m / 2) <= signed < m / 2) }
}

/// The operands the `adc` sees: the first register and the second (after
/// `not` for a subtraction), of the register width.
pub open spec fn adc_operands(p: CarryPlan, n: u64, m: u64) -> (int, int) {
    let w = carry_modulus(p.wide);
    let b = m as int % w;
    (n as int % w, if p.subtract {
        w - 1 - b
    } else {
        b
    })
}

/// The value the emitted sequence stores (zero-extended for a W form).
pub open spec fn planned_carry(p: CarryPlan, n: u64, m: u64, nzcv: u32) -> u64 {
    let (a, b) = adc_operands(p, n, m);
    ((a + b + carry_in(nzcv)) % carry_modulus(p.wide)) as u64
}

/// The NZCV the emitted sequence captures after the `adc`, for a
/// flag-setting form.
pub open spec fn planned_carry_nzcv(p: CarryPlan, n: u64, m: u64, nzcv: u32) -> Option<u32> {
    let (a, b) = adc_operands(p, n, m);
    let bits: nat = if p.wide {
        64
    } else {
        32
    };
    if p.set_flags {
        Some(captured_nzcv(x86_adc_flags(bits, a, b, carry_in(nzcv)), false))
    } else {
        None
    }
}

/// AArch64: `AddWithCarry(Rn, Rm, C)` for `ADC`/`ADCS` and
/// `AddWithCarry(Rn, NOT Rm, C)` for `SBC`/`SBCS`, on `datasize` bits: the
/// result, and the NZCV the flag-setting forms set.
pub open spec fn a64_carry(insn: A64Insn, n: u64, m: u64, nzcv: u32) -> (u64, u32) {
    let (bits, w): (nat, int) = if insn.sf {
        (64, 0x1_0000_0000_0000_0000)
    } else {
        (32, 0x1_0000_0000)
    };
    let x = n as int % w;
    let y = if insn.opcode == A64Opcode::Sbc || insn.opcode == A64Opcode::Sbcs {
        w - 1 - m as int % w
    } else {
        m as int % w
    };
    let c = carry_in(nzcv);
    (((x + y + c) % w) as u64, add_with_carry_nzcv(bits, x, y, c))
}

/// The emitted sequence computes the AArch64 result, and a flag-setting
/// form captures the NZCV AArch64 sets, for all operands and flags.
pub proof fn lemma_carry_matches_architecture(insn: A64Insn, n: u64, m: u64, nzcv: u32)
    requires
        carry_plan(insn) is Some,
    ensures
        planned_carry(carry_plan(insn)->Some_0, n, m, nzcv) == a64_carry(insn, n, m, nzcv).0,
        planned_carry_nzcv(carry_plan(insn)->Some_0, n, m, nzcv) matches Some(f) ==> f == a64_carry(
            insn,
            n,
            m,
            nzcv,
        ).1,
{
    let p = carry_plan(insn)->Some_0;
    let w = carry_modulus(p.wide);
    let (a, b) = adc_operands(p, n, m);
    let c = carry_in(nzcv);
    assert(0 <= a < w && 0 <= b < w);
    let exact = a + b + c;
    assert((exact % w) == (if exact < w {
        exact
    } else {
        exact - w
    }));
}

} // verus!
