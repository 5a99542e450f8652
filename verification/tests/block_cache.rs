use dynasmrt::ExecutableBuffer;
use helm_jit::arena::CodeArena;
use helm_jit::block::{CompiledBlock, PatchSite};
use helm_jit::cache::{JitCache, JitTier, CACHE_SIZE, PROMOTE_THRESHOLD};
use helm_jit::stencil::compiler::X86_RET_OPCODE;

/// Create a minimal compiled block (its code is owned elsewhere).
fn make_test_block(pc: u64) -> CompiledBlock<()> {
    CompiledBlock::new((), 0x7000_0000, pc, 1)
}

/// Five NOPs (a patch site) followed by `xor rax, rax; ret`.
fn make_patchable_buffer() -> (ExecutableBuffer, usize) {
    let mut ops = dynasmrt::x64::Assembler::new().unwrap();
    ops.extend([0x90u8, 0x90, 0x90, 0x90, 0x90, 0x48, 0x31, 0xC0, 0xC3].iter().copied());
    (ops.finalize().unwrap(), 0)
}

#[test]
fn insert_and_lookup() {
    let mut cache = JitCache::new();
    assert!(cache.is_empty());

    cache.insert(make_test_block(0x4000_0000));
    assert_eq!(cache.len(), 1);

    let hit = cache.lookup(0x4000_0000);
    assert!(hit.is_some());
    assert_eq!(hit.unwrap().guest_pc, 0x4000_0000);

    // Miss for different PC
    assert!(cache.lookup(0x4000_0004).is_none());
}

#[test]
fn collision_evicts() {
    let mut cache = JitCache::new();
    // Two PCs that map to the same index: differ by 4096*4 = 0x4000
    let pc_a = 0x4000_0000;
    let pc_b = pc_a + (CACHE_SIZE as u64) * 4;

    cache.insert(make_test_block(pc_a));
    cache.insert(make_test_block(pc_b));

    // pc_a should be evicted
    assert!(cache.lookup(pc_a).is_none());
    assert!(cache.lookup(pc_b).is_some());
    assert_eq!(cache.evictions(), 1);
    assert_eq!(cache.len(), 1);
}

#[test]
fn flush_clears_all() {
    let mut cache = JitCache::new();
    cache.insert(make_test_block(0x1000));
    cache.insert(make_test_block(0x2000));
    assert_eq!(cache.len(), 2);

    cache.flush();
    assert!(cache.is_empty());
    assert!(cache.lookup(0x1000).is_none());
}

#[test]
fn heat_tracking() {
    let mut cache = JitCache::new();
    cache.insert(make_test_block(0x1000));

    for i in 1..=PROMOTE_THRESHOLD {
        let hit = cache.lookup_hot(0x1000).unwrap();
        assert_eq!(hit.exec_count, i);
        assert_eq!(hit.tier, JitTier::Stencil);
    }
}

#[test]
fn promote_replaces_block() {
    let mut cache = JitCache::new();
    cache.insert(make_test_block(0x1000));

    // Simulate some executions
    for _ in 0..10 {
        cache.lookup_hot(0x1000);
    }

    // Promote
    let new_block = make_test_block(0x1000);
    assert!(cache.promote(0x1000, new_block, JitTier::Dynasm));
    assert_eq!(cache.promotions(), 1);

    // After promotion, tier is Dynasm and count is preserved
    let hit = cache.lookup_hot(0x1000).unwrap();
    assert_eq!(hit.tier, JitTier::Dynasm);
    assert_eq!(hit.exec_count, 11); // 10 + 1 from this lookup
}

#[test]
fn promote_of_uncached_pc_does_nothing() {
    let mut cache: JitCache<()> = JitCache::new();
    assert!(!cache.promote(0x1000, make_test_block(0x1000), JitTier::Dynasm));
    assert_eq!(cache.promotions(), 0);
    assert!(cache.lookup(0x1000).is_none());
}

#[test]
fn reinserting_same_pc_is_not_an_eviction() {
    let mut cache = JitCache::new();
    cache.insert(make_test_block(0x1000));
    cache.insert_with_tier(make_test_block(0x1000), JitTier::Dynasm);
    assert_eq!(cache.evictions(), 0);
    assert_eq!(cache.len(), 1);
    assert_eq!(cache.lookup_hot(0x1000).unwrap().exec_count, 1);
    assert_eq!(JitCache::<()>::index(0x1000), JitCache::<()>::index(0x1000 + 0x4000));
    assert_ne!(JitCache::<()>::index(0x1000), JitCache::<()>::index(0x1004));
}

#[test]
fn write_and_read_via_patch() {
    let (buf, offset) = make_patchable_buffer();
    // Write a recognisable 5-byte sequence through the patch API.
    let sentinel = [0x90u8, 0x01, 0x02, 0x03, 0x04];
    let patched = CodeArena::patch(buf, offset, &sentinel).unwrap();
    // Read back through the executable view.
    let bytes: &[u8] = &patched;
    assert_eq!(&bytes[offset..offset + 5], &sentinel);
}

#[test]
fn restore_ret_nop4() {
    let (buf, offset) = make_patchable_buffer();
    // First smash with a junk payload, then restore.
    let junk = [0u8; 5];
    let buf = CodeArena::patch(buf, offset, &junk).unwrap();
    let buf = CodeArena::write_ret_nop4(buf, offset).unwrap();
    let bytes: &[u8] = &buf;
    assert_eq!(bytes[offset], X86_RET_OPCODE); // ret
    assert!(bytes[offset + 1..offset + 5].iter().all(|&b| b == 0x90)); // nop×4
}

#[test]
fn jmp_rel32_encodes_distance_from_slot_end() {
    let (buf, offset) = make_patchable_buffer();
    let buf = CodeArena::write_jmp_rel32(buf, offset, 0x1000, 0x2000).unwrap();
    let bytes: &[u8] = &buf;
    // 0x2000 - (0x1000 + 5) = 0xFFB
    assert_eq!(&bytes[0..5], &[0xE9, 0xFB, 0x0F, 0x00, 0x00]);
    let buf = CodeArena::write_jmp_rel32(buf, offset, 0x2000, 0x1000).unwrap();
    let bytes: &[u8] = &buf;
    // 0x1000 - 0x2005 = -0x1005
    assert_eq!(&bytes[0..5], &[0xE9, 0xFB, 0xEF, 0xFF, 0xFF]);
    // The rest of the code is untouched.
    assert_eq!(&bytes[5..], &[0x48, 0x31, 0xC0, 0xC3]);
}

#[test]
fn patchable_block_chains_and_unchains() {
    let (buf, _) = make_patchable_buffer();
    let mut a: CompiledBlock<()> = CompiledBlock::new_patchable(buf, 0, 0x1000, 2);
    a.patch_sites.push(PatchSite {
        byte_offset: 0,
        target_pc: 0x2000,
        linked: false,
    });
    assert!(a.check_wf());
    assert_eq!(a.code_len(), 9);
    let base = a.rx_base().unwrap();
    assert_eq!(a.entry, base);
    let (buf2, _) = make_patchable_buffer();
    let b: CompiledBlock<()> = CompiledBlock::new_patchable(buf2, 0, 0x2000, 1);
    let b_entry = b.entry;

    let mut cache = JitCache::new();
    cache.insert(a);
    cache.insert(b);
    cache.link_waiters(0x2000);
    {
        let a = cache.lookup(0x1000).unwrap();
        assert!(a.patch_sites[0].linked);
        let bytes: &[u8] = a.executable_buffer().unwrap();
        assert_eq!(bytes[0], 0xE9);
        let rel = i32::from_le_bytes([bytes[1], bytes[2], bytes[3], bytes[4]]) as i64;
        assert_eq!((base as i64 + 5 + rel) as u64, b_entry);
    }
    cache.unlink_block(0x2000);
    let a = cache.lookup(0x1000).unwrap();
    assert!(!a.patch_sites[0].linked);
    let bytes: &[u8] = a.executable_buffer().unwrap();
    assert_eq!(&bytes[0..5], &[0xC3, 0x90, 0x90, 0x90, 0x90]);
}
