//! Per-ISA stencil lookup results and the RISC-V64 lookup by name.

pub mod aarch64;
pub mod reject;
pub mod riscv64;

use super::types::Stencil;
use crate::insn::A64Insn;
use aarch64::{a64_lookup_result, A64_STENCIL_COUNT};
use riscv64::{rv64_stencil_index, rv64_stencil_name, stencil_index, Rv64StencilOp, RV64_STENCIL_COUNT};
use vstd::prelude::*;
use vstd::string::StringSliceAdditionalSpecFns;

verus! {

/// Result of looking up a stencil for an instruction: the matched stencil,
/// or a static reason why the (recognised) opcode was rejected.
#[derive(Clone, Copy)]
pub enum StencilLookup {
    /// A matching stencil was found.
    Found(&'static Stencil),
    /// The opcode is recognised but rejected for the given reason.
    Rejected(&'static str),
}

/// Look up the stencil of an AArch64 instruction in the generated stencil
/// table: `Found` with its stencil, `Rejected` with the reason it is left
/// to another backend, or `None` for an opcode the table does not know.
pub fn lookup_stencil_a64(insn: &A64Insn, table: &'static [Stencil]) -> (r: Option<StencilLookup>)
    requires
        table@.len() == A64_STENCIL_COUNT,
    ensures
        r == a64_lookup_result(*insn, table),
{
    aarch64::lookup(insn, table)
}

/// The stencil the RISC-V64 table holds for an instruction name.
pub open spec fn rv64_lookup_result<'a>(name: Seq<u8>, table: &'a [Stencil]) -> Option<&'a Stencil> {
    if exists|op: Rv64StencilOp| rv64_stencil_name(op) == name {
        Some(&table@[rv64_stencil_index(choose|op: Rv64StencilOp| rv64_stencil_name(op) == name) as int])
    } else {
        None
    }
}

/// Look up the stencil of a RISC-V64 instruction by its name in the
/// generated stencil table (`None` for an instruction without a stencil).
pub fn lookup_stencil_rv64<'a>(name: &str, table: &'a [Stencil]) -> (r: Option<&'a Stencil>)
    requires
        table@.len() == RV64_STENCIL_COUNT,
    ensures
        r == rv64_lookup_result(name.spec_bytes(), table),
        (exists|op: Rv64StencilOp| rv64_stencil_name(op) == name.spec_bytes()) <==> r is Some,
        forall|op: Rv64StencilOp|
            rv64_stencil_name(op) == name.spec_bytes() ==> r == Some(
                &table@[rv64_stencil_index(op) as int],
            ),
{
    match riscv64::lookup(name) {
        Some(op) => {
            proof {
                riscv64::lemma_names_distinct();
            }
            Some(&table[stencil_index(op)])
        },
        None => None,
    }
}

} // verus!
