# helm_jit

The verified decision logic of a JIT for AArch64 and RISC-V64 guest basic
blocks on x86-64 hosts: block formation, stencil selection and byte-exact
stencil block assembly, the dynasm backends' instruction plans, the block
cache with chaining, and the dispatch policy. Every function in `src/`
carries a contract that Verus proves; `app/` holds the host side that
cannot be verified (memory mappings, the `dynasm!` encoding of the RISC-V64
emitters and of the AArch64 branch, wide-move, immediate, register and
carry arithmetic, variable-shift, logical, multiply-add, division,
conditional-select, bitfield, load/store, load/store-pair, `DC ZVA` and lazy
NZCV emitters, and calling into generated code). The remaining AArch64
dynasm emitters (conditional compare, bit and byte reversal, bitfield
insert, high multiply, SIMD, system registers) are not part of this crate:
only their dispatch, block walk, fusion and condition checks are.

## Layout

- `src/regs.rs` — flat register-array layout, pinned host registers, and the
  synchronisation between architectural state and the flat array.
- `src/insn.rs` — the fields of decoded guest instructions the JIT reads.
- `src/stencil/` — the copy-and-patch backend: stencil selection
  (`data/`), operand extraction (`fields/`), block formation (`backend.rs`)
  and byte-exact block assembly with relocation patching (`compiler.rs`).
- `src/dynasm/` — the runtime code-generation backend's decisions: block
  formation, the routing of AArch64 instructions to their emitters, the
  branch, wide-move, immediate, register and carry arithmetic,
  variable-shift, logical, multiply-add, division, conditional-select,
  `SBFM`/`UBFM`, inline-TLB load/store, load/store-pair and `DC ZVA` plans
  and the lazy NZCV materialisation (each with a lemma relating it to
  AArch64), instruction fusion, operand mapping, the RISC-V64 emitter plan
  and the branch-condition mapping.
- `src/block.rs`, `src/arena.rs`, `src/cache.rs` — compiled blocks, patching
  of executable buffers, and the direct-mapped block cache with chaining.
- `src/debug.rs` — breakpoints and trace windows.
- `src/helpers.rs` — the SE-mode inline TLB and system-instruction effects.
- `src/runtime.rs` — dispatch-loop policy: cache probing, compile-on-miss,
  tier promotion, block-exit accounting and interpreter fallback.
- `app/` — `mmap`-backed executable buffers, dynasm emission and block
  execution.
- `tests/` — behavioural tests run against the compiled library.
