//! Lazy NZCV for the AArch64 dynasm backend.
//!
//! A flag-setting instruction does not compute NZCV: it stores which
//! operation produced the flags ([`flag_op_code`]) and its two operands in
//! the flat array. A flag reader then materialises NZCV: it reads the code
//! back ([`materialize_op`]), replays the operation on `x86-64`, reads
//! `RFLAGS` with `pushfq` and moves SF, ZF, CF (inverted for a subtraction)
//! and OF into bits 31, 30, 29 and 28 of the NZCV word.
//!
//! [`lemma_materialized_nzcv_is_architectural`] shows that this gives the
//! NZCV the AArch64 instruction sets, and [`lemma_rflags_capture`] that the
//! shifts of the capture sequence place the x86 flags as NZCV.

use crate::regs::FlagOp;
use vstd::prelude::*;

verus! {

/// The code a pending flag operation is stored under (declaration order).
pub open spec fn flag_op_code_spec(op: FlagOp) -> u32 {
    match op {
        FlagOp::NoFlags => 0,
        FlagOp::Add64 => 1,
        FlagOp::Sub64 => 2,
        FlagOp::And64 => 3,
        FlagOp::Add32 => 4,
        FlagOp::Sub32 => 5,
        FlagOp::And32 => 6,
    }
}

/// The code stored for a flag operation.
pub fn flag_op_code(op: FlagOp) -> (c: u32)
    ensures
        c == flag_op_code_spec(op),
{
    match op {
        FlagOp::NoFlags => 0,
        FlagOp::Add64 => 1,
        FlagOp::Sub64 => 2,
        FlagOp::And64 => 3,
        FlagOp::Add32 => 4,
        FlagOp::Sub32 => 5,
        FlagOp::And32 => 6,
    }
}

/// What the materialisation replays for a stored code: nothing for 0 (NZCV
/// is current), the operation for 1 to 6, and an `AND` for any other code.
pub open spec fn materialize_op_spec(code: u32) -> Option<FlagOp> {
    if code == 0 {
        None
    } else if code == 1 {
        Some(FlagOp::Add64)
    } else if code == 2 {
        Some(FlagOp::Sub64)
    } else if code == 4 {
        Some(FlagOp::Add32)
    } else if code == 5 {
        Some(FlagOp::Sub32)
    } else if code == 6 {
        Some(FlagOp::And32)
    } else {
        Some(FlagOp::And64)
    }
}

/// Decide what the materialisation replays for a stored code.
pub fn materialize_op(code: u32) -> (r: Option<FlagOp>)
    ensures
        r == materialize_op_spec(code),
{
    match code {
        0 => None,
        1 => Some(FlagOp::Add64),
        2 => Some(FlagOp::Sub64),
        4 => Some(FlagOp::Add32),
        5 => Some(FlagOp::Sub32),
        6 => Some(FlagOp::And32),
        _ => Some(FlagOp::And64),
    }
}

/// A stored operation is replayed as itself; `NoFlags` is not replayed.
pub proof fn lemma_code_round_trip(op: FlagOp)
    ensures
        materialize_op_spec(flag_op_code_spec(op)) == (if op == FlagOp::NoFlags {
            None
        } else {
            Some(op)
        }),
{
}

// ── Flags ───────────────────────────────────────────────────────────────────

/// The NZCV word with the given flags in bits 31, 30, 29 and 28.
pub open spec fn nzcv_word(n: bool, z: bool, c: bool, v: bool) -> u32 {
    ((if n {
        0x8000_0000int
    } else {
        0
    }) + (if z {
        0x4000_0000int
    } else {
        0
    }) + (if c {
        0x2000_0000int
    } else {
        0
    }) + (if v {
        0x1000_0000int
    } else {
        0
    })) as u32
}

/// The signed value of a 64-bit pattern.
pub open spec fn sint64(x: int) -> int {
    if x >= 0x8000_0000_0000_0000 {
        x - 0x1_0000_0000_0000_0000
    } else {
        x
    }
}

/// The signed value of a 32-bit pattern.
pub open spec fn sint32(x: int) -> int {
    if x >= 0x8000_0000 {
        x - 0x1_0000_0000
    } else {
        x
    }
}

/// The x86-64 status flags an instruction leaves.
pub struct X86Flags {
    pub sf: bool,
    pub zf: bool,
    pub cf: bool,
    pub of: bool,
}

/// The flags of `add`, `sub` or `and` on `bits`-bit operands `a` and `b`
/// (the low `bits` bits of the stored operands): SF is the result's top
/// bit, ZF whether it is zero, CF the unsigned carry (borrow for `sub`), OF
/// whether the signed result overflows; `and` clears CF and OF.
pub open spec fn x86_flags(kind: int, bits: nat, a: int, b: int) -> X86Flags {
    let m = if bits == 64 {
        0x1_0000_0000_0000_0000int
    } else {
        0x1_0000_0000int
    };
    let sint = |x: int| if bits == 64 {
        sint64(x)
    } else {
        sint32(x)
    };
    let exact = if kind == 0 {
        a + b
    } else {
        a - b
    };
    let signed = if kind == 0 {
        sint(a) + sint(b)
    } else {
        sint(a) - sint(b)
    };
    if kind == 2 {
        let r = (a as u64 & b as u64) as int % m;
        X86Flags { sf: r >= m / 2, zf: r == 0, cf: false, of: false }
    } else {
        let r = exact % m;
        X86Flags {
            sf: r >= m / 2,
            zf: r == 0,
            cf: if kind == 0 {
                exact >= m
            } else {
                a < b
            },
            of: !(-(m / 2) <= signed < m / 2),
        }
    }
}

/// The NZCV word the capture sequence forms from x86 flags (CF inverted
/// after a subtraction, since AArch64's C is "no borrow").
pub open spec fn captured_nzcv(f: X86Flags, is_sub: bool) -> u32 {
    nzcv_word(f.sf, f.zf, if is_sub {
        !f.cf
    } else {
        f.cf
    }, f.of)
}

/// The NZCV word the materialisation leaves for a pending operation on the
/// stored operands `lhs` and `rhs`.
pub open spec fn materialized_nzcv(op: FlagOp, lhs: u64, rhs: u64) -> u32 {
    let lo = |x: u64| (x as int) % 0x1_0000_0000;
    match op {
        FlagOp::Add64 => captured_nzcv(x86_flags(0, 64, lhs as int, rhs as int), false),
        FlagOp::Sub64 => captured_nzcv(x86_flags(1, 64, lhs as int, rhs as int), true),
        FlagOp::Add32 => captured_nzcv(x86_flags(0, 32, lo(lhs), lo(rhs)), false),
        FlagOp::Sub32 => captured_nzcv(x86_flags(1, 32, lo(lhs), lo(rhs)), true),
        FlagOp::And32 => captured_nzcv(x86_flags(2, 32, lo(lhs), lo(rhs)), false),
        _ => captured_nzcv(x86_flags(2, 64, lhs as int, rhs as int), false),
    }
}

// ── The architectural flags ─────────────────────────────────────────────────

/// AArch64 `AddWithCarry(x, y, carry)` on `bits`-bit values: the NZCV of
/// the sum (C: the unsigned sum does not fit; V: the signed sum does not).
pub open spec fn add_with_carry_nzcv(bits: nat, x: int, y: int, carry: int) -> u32 {
    let m = if bits == 64 {
        0x1_0000_0000_0000_0000int
    } else {
        0x1_0000_0000int
    };
    let sint = |v: int| if bits == 64 {
        sint64(v)
    } else {
        sint32(v)
    };
    let unsigned_sum = x + y + carry;
    let signed_sum = sint(x) + sint(y) + carry;
    let result = unsigned_sum % m;
    nzcv_word(result >= m / 2, result == 0, result != unsigned_sum, sint(result) != signed_sum)
}

/// The NZCV an AArch64 flag-setting instruction of the given kind sets:
/// `ADDS` is `AddWithCarry(x, y, 0)`, `SUBS` is `AddWithCarry(x, NOT y, 1)`,
/// `ANDS` sets N and Z from the result and clears C and V.
pub open spec fn a64_nzcv(op: FlagOp, lhs: u64, rhs: u64) -> u32 {
    let lo = |x: u64| (x as int) % 0x1_0000_0000;
    match op {
        FlagOp::Add64 => add_with_carry_nzcv(64, lhs as int, rhs as int, 0),
        FlagOp::Sub64 => add_with_carry_nzcv(64, lhs as int, 0xFFFF_FFFF_FFFF_FFFF - rhs, 1),
        FlagOp::Add32 => add_with_carry_nzcv(32, lo(lhs), lo(rhs), 0),
        FlagOp::Sub32 => add_with_carry_nzcv(32, lo(lhs), 0xFFFF_FFFF - lo(rhs), 1),
        FlagOp::And32 => {
            let r = (lhs & rhs) as int % 0x1_0000_0000;
            nzcv_word(r >= 0x8000_0000, r == 0, false, false)
        },
        _ => {
            let r = (lhs & rhs) as int;
            nzcv_word(r >= 0x8000_0000_0000_0000, r == 0, false, false)
        },
    }
}

proof fn lemma_add_flags(bits: nat, a: int, b: int)
    requires
        bits == 64 || bits == 32,
        0 <= a < (if bits == 64 { 0x1_0000_0000_0000_0000int } else { 0x1_0000_0000int }),
        0 <= b < (if bits == 64 { 0x1_0000_0000_0000_0000int } else { 0x1_0000_0000int }),
    ensures
        captured_nzcv(x86_flags(0, bits, a, b), false) == add_with_carry_nzcv(bits, a, b, 0),
{
    let m = if bits == 64 { 0x1_0000_0000_0000_0000int } else { 0x1_0000_0000int };
    let r = (a + b) % m;
    assert(r == (if a + b < m { a + b } else { a + b - m }));
}

proof fn lemma_sub_flags(bits: nat, a: int, b: int)
    requires
        bits == 64 || bits == 32,
        0 <= a < (if bits == 64 { 0x1_0000_0000_0000_0000int } else { 0x1_0000_0000int }),
        0 <= b < (if bits == 64 { 0x1_0000_0000_0000_0000int } else { 0x1_0000_0000int }),
    ensures
        captured_nzcv(x86_flags(1, bits, a, b), true) == add_with_carry_nzcv(
            bits,
            a,
            (if bits == 64 { 0xFFFF_FFFF_FFFF_FFFFint } else { 0xFFFF_FFFFint }) - b,
            1,
        ),
{
    let m = if bits == 64 { 0x1_0000_0000_0000_0000int } else { 0x1_0000_0000int };
    let y = m - 1 - b;
    assert((a + y + 1) % m == (if a >= b { a - b } else { a - b + m }));
    assert((a - b) % m == (if a >= b { a - b } else { a - b + m }));
}

/// Replaying a pending flag operation on x86-64 gives the NZCV the AArch64
/// instruction sets, for every operation and all operands.
pub proof fn lemma_materialized_nzcv_is_architectural(op: FlagOp, lhs: u64, rhs: u64)
    requires
        op != FlagOp::NoFlags,
    ensures
        materialized_nzcv(op, lhs, rhs) == a64_nzcv(op, lhs, rhs),
{
    let l32 = lhs % 0x1_0000_0000u64;
    let r32 = rhs % 0x1_0000_0000u64;
    match op {
        FlagOp::Add64 => lemma_add_flags(64, lhs as int, rhs as int),
        FlagOp::Sub64 => lemma_sub_flags(64, lhs as int, rhs as int),
        FlagOp::Add32 => lemma_add_flags(32, l32 as int, r32 as int),
        FlagOp::Sub32 => lemma_sub_flags(32, l32 as int, r32 as int),
        FlagOp::And32 => {
            assert((l32 & r32) % 0x1_0000_0000u64 == (lhs & rhs) % 0x1_0000_0000u64) by (bit_vector)
                requires
                    l32 == lhs % 0x1_0000_0000u64,
                    r32 == rhs % 0x1_0000_0000u64,
            ;
        },
        _ => {},
    }
}

/// The capture sequence (`pushfq`, then for each flag a shift of its RFLAGS
/// bit into place: SF bit 7 to 31, ZF bit 6 to 30, CF bit 0 to 29, inverted
/// after a subtraction, and OF bit 11 to 28) forms the NZCV word of those
/// flags.
pub open spec fn rflags_capture(rflags: u32, is_sub: bool) -> u32 {
    let n = ((rflags >> 7u32) & 1) << 31u32;
    let z = ((rflags >> 6u32) & 1) << 30u32;
    let v = ((rflags >> 11u32) & 1) << 28u32;
    let c = if is_sub {
        ((rflags & 1) ^ 1) << 29u32
    } else {
        (rflags & 1) << 29u32
    };
    n | z | v | c
}

/// The capture sequence places the RFLAGS bits as NZCV.
pub proof fn lemma_rflags_capture(rflags: u32, is_sub: bool)
    ensures
        rflags_capture(rflags, is_sub) == captured_nzcv(
            X86Flags {
                sf: (rflags >> 7u32) & 1 == 1,
                zf: (rflags >> 6u32) & 1 == 1,
                cf: rflags & 1 == 1,
                of: (rflags >> 11u32) & 1 == 1,
            },
            is_sub,
        ),
{
    let n = (rflags >> 7u32) & 1 == 1;
    let z = (rflags >> 6u32) & 1 == 1;
    let c = rflags & 1 == 1;
    let v = (rflags >> 11u32) & 1 == 1;
    let cc = if is_sub {
        !c
    } else {
        c
    };
    assert(rflags_capture(rflags, is_sub) == (if n {
        0x8000_0000u32
    } else {
        0u32
    }) | (if z {
        0x4000_0000u32
    } else {
        0u32
    }) | (if cc {
        0x2000_0000u32
    } else {
        0u32
    }) | (if v {
        0x1000_0000u32
    } else {
        0u32
    })) by (bit_vector)
        requires
            n == ((rflags >> 7u32) & 1 == 1),
            z == ((rflags >> 6u32) & 1 == 1),
            c == (rflags & 1 == 1),
            v == ((rflags >> 11u32) & 1 == 1),
            cc == (if is_sub {
                !c
            } else {
                c
            }),
    ;
    let wn: u32 = if n { 0x8000_0000u32 } else { 0u32 };
    let wz: u32 = if z { 0x4000_0000u32 } else { 0u32 };
    let wc: u32 = if cc { 0x2000_0000u32 } else { 0u32 };
    let wv: u32 = if v { 0x1000_0000u32 } else { 0u32 };
    assert(wn | wz | wc | wv == wn + wz + wc + wv) by (bit_vector)
        requires
            wn == 0 || wn == 0x8000_0000u32,
            wz == 0 || wz == 0x4000_0000u32,
            wc == 0 || wc == 0x2000_0000u32,
            wv == 0 || wv == 0x1000_0000u32,
    ;
}

} // verus!
