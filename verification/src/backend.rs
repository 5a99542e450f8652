//! Pluggable JIT backend trait.
//!
//! A backend translates guest instructions starting at a guest PC into a
//! compiled block of host code. Compiled code follows a fixed convention:
//! `rdi` points to the flat register array, `rsi` to the memory context, and
//! the exit code is returned in `rax`.

use crate::block::CompiledBlock;
use vstd::prelude::*;

verus! {

/// A JIT compilation backend for guest instructions of type `Insn`, whose
/// blocks own their code through `O`.
///
/// An implementation describes itself by two spec functions (which it
/// overrides; callers never rely on the defaults): the results its
/// compilations returned so far and the reason it gives for the last
/// rejection.
pub trait JitBackend<Insn, O> {
    /// The results of the compilations so far, in order.
    open spec fn outputs(&self) -> Seq<Option<CompiledBlock<O>>> {
        vstd::pervasive::arbitrary()
    }

    /// The reason the backend gives for its last rejection.
    open spec fn rejection(&self) -> Option<&'static str> {
        vstd::pervasive::arbitrary()
    }

    /// Compile a block of decoded instructions starting at `pc`: `None` if the
    /// first instruction cannot be compiled.
    ///
    /// A block's executable buffer must be one whose written length lies
    /// inside its mapping, as every buffer dynasmrt assembles or remaps is
    /// (a length stretched with `MutableBuffer::set_len` is not).
    fn compile_block(&mut self, pc: u64, insns: &[Insn]) -> (r: Option<CompiledBlock<O>>)
        ensures
            r matches Some(b) ==> b.code_in_bounds(),
            final(self).outputs() == old(self).outputs().push(r),
    ;

    /// Human-readable name of this backend (e.g. `"dynasm"`, `"stencil"`).
    fn name(&self) -> &str;

    /// Why the last compilation rejected its first instruction, if known.
    fn last_reject_reason(&self) -> (r: Option<&'static str>)
        ensures
            r == self.rejection(),
    ;
}

} // verus!
