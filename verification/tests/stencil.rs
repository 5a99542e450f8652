use helm_jit::insn::{A64Insn, A64Opcode, Rv64Insn};
use helm_jit::stencil::backend::{fits_i32, plan_block, StencilBackend, StencilBackendRv64, StencilIsa};
use helm_jit::stencil::compiler::{
    assemble_block, block_code_size, check_entries, page_align, page_size, resolve_hole, EPILOGUE_LEN,
    W_REZERO_LEN,
};
use helm_jit::stencil::data::aarch64::{a64_stencil_table_index, select, A64Selection, A64StencilOp, A64_STENCIL_COUNT};
use helm_jit::stencil::data::riscv64::{lookup, stencil_index, Rv64StencilOp, RV64_STENCIL_COUNT};
use helm_jit::stencil::data::{lookup_stencil_a64, lookup_stencil_rv64, StencilLookup};
use helm_jit::stencil::fields::aarch64::extract_fields_a64;
use helm_jit::stencil::fields::riscv64::extract_fields_rv64;
use helm_jit::stencil::types::{
    DecodedFields, HelperAddresses, HelperFn, HoleKind, RegField, RelocKind, Stencil, StencilReloc,
};

fn a64(opcode: A64Opcode) -> A64Insn {
    A64Insn {
        opcode,
        rd: 0,
        rn: 0,
        rm: 0,
        ra: 0,
        pair_second: 0,
        imm: 0,
        imm2: 0,
        shift_amt: 0,
        shift_type: 0,
        sf: true,
        cond: 0,
        extend_type: 0,
        extend_amt: 0,
        pre_index: false,
        post_index: false,
        size: 0,
        ftype: 0,
        pc: 0,
    }
}

/// A stencil table whose entry `i` is recognisable by `body_len == i`.
fn table(n: usize) -> &'static [Stencil] {
    let v: Vec<Stencil> = (0..n)
        .map(|i| Stencil {
            bytes: &[0xC3],
            body_len: i,
            relocs: &[],
            is_terminator: false,
            is_leaf: true,
        })
        .collect();
    Box::leak(v.into_boxed_slice())
}

fn found_index(l: Option<StencilLookup>) -> Option<usize> {
    match l {
        Some(StencilLookup::Found(s)) => Some(s.body_len),
        _ => None,
    }
}

fn rejected(l: Option<StencilLookup>) -> Option<&'static str> {
    match l {
        Some(StencilLookup::Rejected(r)) => Some(r),
        _ => None,
    }
}

// ── Hole resolution ─────────────────────────────────────────────────────────

/// Where the host placed its default memory helpers.
const HOST_HELPERS: HelperAddresses = HelperAddresses {
    mem_read: 0x5555_1000,
    mem_write: 0x5555_2000,
};

#[test]
fn resolve_hole_reg_offset() {
    let fields = DecodedFields {
        rd: 5,
        ..Default::default()
    };
    let val = resolve_hole(&HoleKind::RegOffset(RegField::Rd), &fields, &HOST_HELPERS);
    assert_eq!(val, 40); // 5 * 8
}

#[test]
fn resolve_hole_reg_offset_xzr() {
    let fields = DecodedFields {
        rd: 31,
        ..Default::default()
    };
    let val = resolve_hole(&HoleKind::RegOffset(RegField::Rd), &fields, &HOST_HELPERS);
    assert_eq!(val, 248); // 31 * 8
}

#[test]
fn resolve_hole_imm_zext() {
    let fields = DecodedFields {
        imm: 42,
        ..Default::default()
    };
    let val = resolve_hole(&HoleKind::ImmZext, &fields, &HOST_HELPERS);
    assert_eq!(val, 42);
}

#[test]
fn resolve_hole_imm_sext_positive() {
    let fields = DecodedFields {
        imm: 0x7FF,
        ..Default::default()
    };
    let val = resolve_hole(&HoleKind::ImmSext { from_bits: 12 }, &fields, &HOST_HELPERS);
    assert_eq!(val, 0x7FF); // positive, no change
}

#[test]
fn resolve_hole_imm_sext_negative() {
    // 12-bit value 0xFFF = -1 when sign-extended
    let fields = DecodedFields {
        imm: -1,
        ..Default::default()
    };
    let val = resolve_hole(&HoleKind::ImmSext { from_bits: 12 }, &fields, &HOST_HELPERS);
    assert_eq!(val as i64, -1);
}

#[test]
fn resolve_hole_branch_target() {
    let fields = DecodedFields {
        branch_target: 0x4000_1000,
        ..Default::default()
    };
    let val = resolve_hole(&HoleKind::BranchTarget, &fields, &HOST_HELPERS);
    assert_eq!(val, 0x4000_1000);
}

#[test]
fn resolve_hole_next_pc() {
    let fields = DecodedFields {
        next_pc: 0x4000_0004,
        ..Default::default()
    };
    let val = resolve_hole(&HoleKind::NextPc, &fields, &HOST_HELPERS);
    assert_eq!(val, 0x4000_0004);
}

#[test]
fn resolve_hole_helper_mem_read() {
    let fields = DecodedFields::default();
    let val = resolve_hole(&HoleKind::Helper(HelperFn::MemRead), &fields, &HOST_HELPERS);
    assert_eq!(val, HelperFn::MemRead.address(&HOST_HELPERS));
}

#[test]
fn resolve_hole_helpers_and_small_fields() {
    let fields = DecodedFields {
        mem_read_fn: 0x7000_1000,
        mem_write_fn: 0x7000_2000,
        simm: -16,
        shamt: 12,
        rt2: 3,
        ..Default::default()
    };
    assert_eq!(resolve_hole(&HoleKind::Helper(HelperFn::MemRead), &fields, &HOST_HELPERS), 0x7000_1000);
    assert_eq!(resolve_hole(&HoleKind::Helper(HelperFn::MemWrite), &fields, &HOST_HELPERS), 0x7000_2000);
    assert_eq!(resolve_hole(&HoleKind::Simm, &fields, &HOST_HELPERS), (-16i64) as u64);
    assert_eq!(resolve_hole(&HoleKind::Shamt, &fields, &HOST_HELPERS), 12);
    assert_eq!(resolve_hole(&HoleKind::RegOffset(RegField::Rt2), &fields, &HOST_HELPERS), 24);
    // A sign bit inside the field is extended; bits above it are dropped.
    let f2 = DecodedFields {
        imm: 0x1800,
        ..Default::default()
    };
    assert_eq!(resolve_hole(&HoleKind::ImmSext { from_bits: 12 }, &f2, &HOST_HELPERS) as i64, -2048);
}

#[test]
fn helper_addresses_by_function() {
    let h = HelperAddresses {
        mem_read: 0x1111,
        mem_write: 0x2222,
    };
    assert_eq!(HelperFn::MemRead.address(&h), 0x1111);
    assert_eq!(HelperFn::MemWrite.address(&h), 0x2222);
}

#[test]
fn page_align_rounds_up() {
    assert_eq!(page_align(1), 4096);
    assert_eq!(page_align(4096), 4096);
    assert_eq!(page_align(4097), 8192);
}

#[test]
fn page_align_of_zero_and_page_size() {
    assert_eq!(page_size(), 4096);
    assert_eq!(page_align(0), 0);
    assert_eq!(page_align(8191), 8192);
}

// ── Block assembly ──────────────────────────────────────────────────────────

static NOP_STENCIL: Stencil = Stencil {
    bytes: &[0x90, 0xC3],
    body_len: 1,
    relocs: &[],
    is_terminator: false,
    is_leaf: true,
};

static TERM_STENCIL: Stencil = Stencil {
    bytes: &[0x48, 0xC7, 0xC0, 0x00, 0x00, 0x00, 0x00, 0xC3],
    body_len: 8,
    relocs: &[],
    is_terminator: true,
    is_leaf: true,
};

static IMM_STENCIL: Stencil = Stencil {
    // mov dword [rdi + disp32], imm32 ; ret
    bytes: &[0xC7, 0x87, 0, 0, 0, 0, 0, 0, 0, 0, 0xC3],
    body_len: 10,
    relocs: &[
        StencilReloc {
            byte_offset: 2,
            hole: HoleKind::RegOffset(RegField::Rd),
            kind: RelocKind::Abs32,
        },
        StencilReloc {
            byte_offset: 6,
            hole: HoleKind::ImmZext,
            kind: RelocKind::Abs32,
        },
    ],
    is_terminator: false,
    is_leaf: true,
};

fn epilogue(next_pc: u64, insn_count: u8) -> Vec<u8> {
    let mut e = vec![0x48, 0x83, 0x87, 0x40, 0x01, 0x00, 0x00, insn_count, 0x48, 0xB8];
    e.extend_from_slice(&next_pc.to_le_bytes());
    e.extend_from_slice(&[0x48, 0x89, 0x87, 0x00, 0x01, 0x00, 0x00]);
    e.extend_from_slice(&[0xB8, 0, 0, 0, 0, 0xC3]);
    e
}

#[test]
fn single_nop_block_is_body_plus_epilogue() {
    let fields = DecodedFields {
        next_pc: 0x1004,
        sf: 1,
        ..Default::default()
    };
    let entries = [(&NOP_STENCIL, fields)];
    assert_eq!(block_code_size(&entries), 1 + EPILOGUE_LEN);
    let code = assemble_block(&entries, 0x10_0000);
    let mut expected = vec![0x90];
    expected.extend(epilogue(0x1004, 1));
    assert_eq!(code, expected);
}

#[test]
fn w_form_instruction_clears_upper_half_of_rd() {
    let fields = DecodedFields {
        rd: 2,
        next_pc: 0x2004,
        sf: 0,
        ..Default::default()
    };
    let entries = [(&NOP_STENCIL, fields)];
    assert_eq!(block_code_size(&entries), 1 + W_REZERO_LEN + EPILOGUE_LEN);
    let code = assemble_block(&entries, 0);
    // mov dword [rdi + 2*8 + 4], 0
    assert_eq!(&code[1..11], &[0xC7, 0x87, 20, 0, 0, 0, 0, 0, 0, 0]);
    assert_eq!(code.len(), 1 + W_REZERO_LEN + EPILOGUE_LEN);
}

#[test]
fn terminator_block_has_no_epilogue() {
    let fields = DecodedFields {
        sf: 1,
        ..Default::default()
    };
    let entries = [(&TERM_STENCIL, fields)];
    let code = assemble_block(&entries, 0x5000);
    assert_eq!(code, TERM_STENCIL.bytes.to_vec());
}

#[test]
fn holes_are_patched_in_chained_bodies() {
    let f1 = DecodedFields {
        rd: 3,
        imm: 0x1234,
        sf: 1,
        next_pc: 0x1004,
        ..Default::default()
    };
    let f2 = DecodedFields {
        sf: 1,
        ..Default::default()
    };
    let entries = [(&IMM_STENCIL, f1), (&TERM_STENCIL, f2)];
    let code = assemble_block(&entries, 0);
    assert_eq!(code.len(), block_code_size(&entries));
    assert_eq!(&code[0..10], &[0xC7, 0x87, 24, 0, 0, 0, 0x34, 0x12, 0, 0]);
    assert_eq!(&code[10..], TERM_STENCIL.bytes);
}

// ── Block formation ─────────────────────────────────────────────────────────

#[test]
fn plan_stops_after_terminator_and_fills_helpers() {
    let lookups = [
        Some(StencilLookup::Found(&NOP_STENCIL)),
        Some(StencilLookup::Found(&TERM_STENCIL)),
        Some(StencilLookup::Found(&NOP_STENCIL)),
    ];
    let fields = [DecodedFields::default(); 3];
    let planned = plan_block(&lookups, &fields, 0xAAAA, 0xBBBB).unwrap();
    assert_eq!(planned.len(), 2);
    assert!(std::ptr::eq(planned[1].0, &TERM_STENCIL));
    assert_eq!(planned[0].1.mem_read_fn, 0xAAAA);
    assert_eq!(planned[1].1.mem_write_fn, 0xBBBB);
}

#[test]
fn plan_aborts_on_unknown_opcode_and_stops_at_rejection() {
    let fields = [DecodedFields::default(); 2];
    let unknown = [Some(StencilLookup::Found(&NOP_STENCIL)), None];
    assert!(plan_block(&unknown, &fields, 0, 0).is_none());
    let rejected_second = [
        Some(StencilLookup::Found(&NOP_STENCIL)),
        Some(StencilLookup::Rejected("w-register")),
    ];
    assert_eq!(plan_block(&rejected_second, &fields, 0, 0).unwrap().len(), 1);
    let rejected_first = [Some(StencilLookup::Rejected("w-register"))];
    assert!(plan_block(&rejected_first, &fields[..1], 0, 0).is_none());
}

#[test]
fn plan_stops_when_immediate_does_not_fit_a_hole() {
    let big = DecodedFields {
        imm: 0x1_0000_0000,
        ..Default::default()
    };
    let lookups = [Some(StencilLookup::Found(&NOP_STENCIL)), Some(StencilLookup::Found(&NOP_STENCIL))];
    assert!(plan_block(&lookups, &[big, big], 0, 0).is_none());
    let ok = DecodedFields::default();
    assert_eq!(plan_block(&lookups, &[ok, big], 0, 0).unwrap().len(), 1);
    assert!(fits_i32(0xFFFF_FFFF_8000_0000));
    assert!(!fits_i32(0x8000_0000));
}

#[test]
fn backend_configuration() {
    let mut b = StencilBackend::new_aarch64();
    assert_eq!(b.isa, StencilIsa::Aarch64);
    assert_eq!(b.name(), "stencil");
    b.set_mem_helpers(0x10, 0);
    let lookups = [Some(StencilLookup::Found(&NOP_STENCIL))];
    let fields = [DecodedFields::default()];
    let planned = b.plan_block_a64(&lookups, &fields, 0x99, 0x77).unwrap();
    assert_eq!(planned[0].1.mem_read_fn, 0x10);
    assert_eq!(planned[0].1.mem_write_fn, 0x77);
    let rv = StencilBackend::new_riscv64();
    assert!(rv.plan_block_a64(&lookups, &fields, 0, 0).is_none());
    assert_eq!(StencilBackendRv64::new().name(), "stencil-rv64");
}

// ── Stencil selection ───────────────────────────────────────────────────────

#[test]
fn a64_lookup_selects_stencils() {
    let t = table(A64_STENCIL_COUNT);
    assert_eq!(
        found_index(lookup_stencil_a64(&a64(A64Opcode::AddImm), t)),
        Some(a64_stencil_table_index(A64StencilOp::AddImm))
    );
    assert_eq!(
        found_index(lookup_stencil_a64(&a64(A64Opcode::Mul), t)),
        Some(a64_stencil_table_index(A64StencilOp::Madd))
    );
    let mut ldr = a64(A64Opcode::Ldr);
    ldr.size = 3;
    assert_eq!(
        found_index(lookup_stencil_a64(&ldr, t)),
        Some(a64_stencil_table_index(A64StencilOp::Ldr64))
    );
    let mut ldp = a64(A64Opcode::Ldp);
    ldp.sf = false;
    assert_eq!(
        found_index(lookup_stencil_a64(&ldp, t)),
        Some(a64_stencil_table_index(A64StencilOp::Ldp32))
    );
    let mut ubfm = a64(A64Opcode::Ubfm);
    ubfm.imm = 4;
    ubfm.imm2 = 63;
    assert!(matches!(select(&ubfm), A64Selection::Stencil(A64StencilOp::UbfmExt)));
    ubfm.imm2 = 3;
    assert!(matches!(select(&ubfm), A64Selection::Stencil(A64StencilOp::UbfmIns)));
}

#[test]
fn a64_lookup_rejections() {
    let t = table(A64_STENCIL_COUNT);
    let mut adds_w = a64(A64Opcode::AddsImm);
    adds_w.sf = false;
    assert_eq!(rejected(lookup_stencil_a64(&adds_w, t)), Some("w-register"));
    let mut shifted = a64(A64Opcode::AddReg);
    shifted.shift_amt = 2;
    assert_eq!(rejected(lookup_stencil_a64(&shifted, t)), Some("shifted-register"));
    let mut reg_off = a64(A64Opcode::Str);
    reg_off.rm = 4;
    assert_eq!(rejected(lookup_stencil_a64(&reg_off, t)), Some("complex-addressing"));
    let mut post = a64(A64Opcode::Ldrb);
    post.post_index = true;
    assert_eq!(rejected(lookup_stencil_a64(&post, t)), Some("complex-addressing"));
    let mut big = a64(A64Opcode::Ldur);
    big.size = 1;
    assert_eq!(rejected(lookup_stencil_a64(&big, t)), Some("unsupported-size"));
    let mut ldrsh = a64(A64Opcode::Ldrsh);
    ldrsh.sf = false;
    assert_eq!(rejected(lookup_stencil_a64(&ldrsh, t)), Some("ldrsh-w-form"));
    let mut ldrsb = a64(A64Opcode::Ldrsb);
    ldrsb.sf = false;
    assert_eq!(rejected(lookup_stencil_a64(&ldrsb, t)), Some("ldrsb-w-form"));
    // An opcode with neither a stencil nor a reject rule is unknown.
    assert!(lookup_stencil_a64(&a64(A64Opcode::Other), t).is_none());
    assert!(lookup_stencil_a64(&a64(A64Opcode::Ccmp), t).is_none());
    // A W-form add without flags is compiled (the upper half is cleared afterwards).
    let mut add_w = a64(A64Opcode::AddImm);
    add_w.sf = false;
    assert!(found_index(lookup_stencil_a64(&add_w, t)).is_some());
}

#[test]
fn rv64_lookup_by_name() {
    assert_eq!(lookup("ADDI"), Some(Rv64StencilOp::Addi));
    assert_eq!(lookup("ADDIW"), Some(Rv64StencilOp::Addiw));
    assert_eq!(lookup("ECALL"), Some(Rv64StencilOp::Ecall));
    assert_eq!(lookup("EBREAK"), None);
    assert_eq!(lookup("MULH"), None);
    assert_eq!(lookup("addi"), None);
    let names = [
        "ADDI", "SLTI", "SLTIU", "XORI", "ORI", "ANDI", "SLLI", "SRLI", "SRAI", "ADD", "SUB", "SLL",
        "SLT", "SLTU", "XOR", "SRL", "SRA", "OR", "AND", "ADDIW", "ADDW", "SUBW", "LB", "LH", "LW",
        "LD", "LBU", "LHU", "LWU", "SB", "SH", "SW", "SD", "BEQ", "BNE", "BLT", "BGE", "BLTU", "BGEU",
        "JAL", "JALR", "LUI", "AUIPC", "MUL", "DIV", "DIVU", "REM", "REMU", "ECALL",
    ];
    assert_eq!(names.len(), 49);
    let mut found: Vec<Rv64StencilOp> = Vec::new();
    for name in names {
        let op = lookup(name);
        assert!(op.is_some(), "{name} has a stencil");
        assert!(!found.contains(&op.unwrap()), "{name} names its own stencil");
        found.push(op.unwrap());
    }
    assert_eq!(lookup(""), None);
    let t = table(RV64_STENCIL_COUNT);
    assert_eq!(lookup_stencil_rv64("JAL", t).map(|s| s.body_len), Some(stencil_index(Rv64StencilOp::Jal)));
    assert!(lookup_stencil_rv64("CSRRW", t).is_none());
}

// ── Field extraction ────────────────────────────────────────────────────────

#[test]
fn extract_add_imm_fields() {
    let mut insn = a64(A64Opcode::AddImm);
    insn.rd = 5;
    insn.rn = 3;
    insn.imm = 42;
    insn.sf = true;
    let f = extract_fields_a64(&insn, 0x1000);
    assert_eq!(f.rd, 5);
    assert_eq!(f.rn, 3);
    assert_eq!(f.imm, 42);
    assert_eq!(f.sf, 1);
    assert_eq!(f.next_pc, 0x1004);
}

#[test]
fn extract_branch_target() {
    let mut insn = a64(A64Opcode::B);
    insn.imm = 0x100; // branch offset
    insn.sf = false;
    let f = extract_fields_a64(&insn, 0x2000);
    assert_eq!(f.branch_target, 0x2100);
    assert_eq!(f.next_pc, 0x2004);
}

#[test]
fn extract_cbz_fields() {
    let mut insn = a64(A64Opcode::Cbz);
    insn.rd = 7;
    insn.imm = -0x10;
    insn.sf = true;
    let f = extract_fields_a64(&insn, 0x3000);
    assert_eq!(f.rt, 7);
    assert_eq!(f.branch_target, 0x2FF0);
}

#[test]
fn extract_a64_special_forms() {
    let mut adrp = a64(A64Opcode::Adrp);
    adrp.imm = 2;
    let f = extract_fields_a64(&adrp, 0x4000_1234);
    assert_eq!(f.imm, 0x4000_3000);
    let mut adr = a64(A64Opcode::Adr);
    adr.imm = -4;
    assert_eq!(extract_fields_a64(&adr, 0x1000).imm, 0xFFC);
    let mut movk = a64(A64Opcode::Movk);
    movk.imm2 = 3;
    movk.shift_amt = 9;
    assert_eq!(extract_fields_a64(&movk, 0).shamt, 48);
    let mut bcond = a64(A64Opcode::BCond);
    bcond.cond = 11;
    bcond.imm = 8;
    let f = extract_fields_a64(&bcond, 0x100);
    assert_eq!(f.imm, 11);
    assert_eq!(f.cond, 11);
    assert_eq!(f.branch_target, 0x108);
    let mut sbfm = a64(A64Opcode::Sbfm);
    sbfm.imm = 5;
    sbfm.imm2 = 9;
    let f = extract_fields_a64(&sbfm, 0);
    assert_eq!((f.imm, f.shamt), (5, 9));
    let mut extr = a64(A64Opcode::Extr);
    extr.imm = 17;
    assert_eq!(extract_fields_a64(&extr, 0).shamt, 17);
    let ret = a64(A64Opcode::Ret);
    assert_eq!(extract_fields_a64(&ret, 0).rn, 30);
    let mut ret_x5 = a64(A64Opcode::Ret);
    ret_x5.rn = 5;
    assert_eq!(extract_fields_a64(&ret_x5, 0).rn, 5);
    let mut ldp = a64(A64Opcode::Ldp);
    ldp.pair_second = 9;
    assert_eq!(extract_fields_a64(&ldp, 0).rt2, 9);
    assert_eq!(extract_fields_a64(&ldp, 0).branch_target, 0);
}

#[test]
fn extract_rv_addi_fields() {
    let insn = Rv64Insn::ADDI {
        rd: 5,
        rs1: 3,
        imm: 42,
    };
    let f = extract_fields_rv64(&insn, 0x1000);
    assert_eq!(f.rd, 5);
    assert_eq!(f.rn, 3);
    assert_eq!(f.imm, 42);
    assert_eq!(f.sf, 1);
    assert_eq!(f.next_pc, 0x1004);
}

#[test]
fn extract_rv_beq_branch_target() {
    let insn = Rv64Insn::BEQ {
        rs1: 1,
        rs2: 2,
        imm: 0x10,
    };
    let f = extract_fields_rv64(&insn, 0x2000);
    assert_eq!(f.rn, 1);
    assert_eq!(f.rm, 2);
    assert_eq!(f.branch_target, 0x2010);
    assert_eq!(f.next_pc, 0x2004);
}

#[test]
fn extract_rv_jal_fields() {
    let insn = Rv64Insn::JAL { rd: 1, imm: 0x100 };
    let f = extract_fields_rv64(&insn, 0x3000);
    assert_eq!(f.rd, 1);
    assert_eq!(f.branch_target, 0x3100);
    assert_eq!(f.next_pc, 0x3004);
}

#[test]
fn extract_rv_sd_fields() {
    let insn = Rv64Insn::SD {
        rs1: 2,
        rs2: 10,
        imm: -8,
    };
    let f = extract_fields_rv64(&insn, 0x4000);
    assert_eq!(f.rn, 2);
    assert_eq!(f.rm, 10);
    assert_eq!(f.imm, -8);
}

#[test]
fn extract_rv_other_forms() {
    let f = extract_fields_rv64(&Rv64Insn::AUIPC { rd: 4, imm: 0x1000 }, 0x8000);
    assert_eq!((f.rd, f.imm, f.branch_target), (4, 0x1000, 0x8000));
    let f = extract_fields_rv64(&Rv64Insn::SRAIW { rd: 6, rs1: 7, shamt: 3 }, 0);
    assert_eq!((f.rd, f.rn, f.shamt), (6, 7, 3));
    let f = extract_fields_rv64(&Rv64Insn::REMU { rd: 1, rs1: 2, rs2: 3 }, 0);
    assert_eq!((f.rd, f.rn, f.rm), (1, 2, 3));
    let f = extract_fields_rv64(&Rv64Insn::BLT { rs1: 1, rs2: 2, imm: -8 }, 0x100);
    assert_eq!(f.branch_target, 0xF8);
    let f = extract_fields_rv64(&Rv64Insn::JALR { rd: 1, rs1: 5, imm: 12 }, 0x100);
    assert_eq!((f.rd, f.rn, f.imm, f.branch_target), (1, 5, 12, 0));
    let f = extract_fields_rv64(&Rv64Insn::ECALL, 0x200);
    assert_eq!((f.rd, f.imm, f.next_pc, f.sf), (0, 0, 0x204, 1));
}

// ── Block formation from decoded instructions ───────────────────────────────

/// A table whose entry `i` has `body_len == i`; the given entries end blocks.
fn table_with_terminators(n: usize, terminators: &[usize]) -> &'static [Stencil] {
    let v: Vec<Stencil> = (0..n)
        .map(|i| Stencil {
            bytes: &[0xC3],
            body_len: i,
            relocs: &[],
            is_terminator: terminators.contains(&i),
            is_leaf: true,
        })
        .collect();
    Box::leak(v.into_boxed_slice())
}

#[test]
fn a64_block_from_instructions() {
    let b = a64_stencil_table_index(A64StencilOp::B);
    let t = table_with_terminators(A64_STENCIL_COUNT, &[b]);
    let mut add = a64(A64Opcode::AddImm);
    add.pc = 0x1000;
    let mut sub = a64(A64Opcode::SubImm);
    sub.pc = 0x1004;
    let mut br = a64(A64Opcode::B);
    br.pc = 0x1008;
    br.imm = 0x10;
    let mut after = a64(A64Opcode::AddImm);
    after.pc = 0x100c;
    let backend = StencilBackend::new_aarch64();
    let planned = backend.plan_insns_a64(&[add, sub, br, after], t, 0xAA, 0xBB).unwrap();
    assert_eq!(planned.len(), 3);
    assert_eq!(planned[0].0.body_len, a64_stencil_table_index(A64StencilOp::AddImm));
    assert_eq!(planned[1].1.next_pc, 0x1008);
    assert_eq!(planned[2].0.body_len, b);
    assert_eq!(planned[2].1.branch_target, 0x1018);
    assert_eq!(planned[0].1.mem_read_fn, 0xAA);
    assert_eq!(planned[2].1.mem_write_fn, 0xBB);

    // A rejected instruction ends the block before it; at the start there is no block.
    let mut adds_w = a64(A64Opcode::AddsImm);
    adds_w.sf = false;
    assert_eq!(backend.plan_insns_a64(&[add, adds_w, add], t, 0, 0).unwrap().len(), 1);
    assert!(backend.plan_insns_a64(&[adds_w, add], t, 0, 0).is_none());
    assert!(backend.plan_insns_a64(&[], t, 0, 0).is_none());
    // An unknown opcode anywhere in the block abandons the whole block.
    let unknown = a64(A64Opcode::Other);
    assert!(backend.plan_insns_a64(&[add, add, unknown], t, 0, 0).is_none());
    // A RISC-V64-configured backend forms no AArch64 block.
    assert!(StencilBackend::new_riscv64().plan_insns_a64(&[add], t, 0, 0).is_none());
}

#[test]
fn rv64_block_from_instructions() {
    let beq = stencil_index(Rv64StencilOp::Beq);
    let t = table_with_terminators(RV64_STENCIL_COUNT, &[beq]);
    let insns = [
        Rv64Insn::ADDI { rd: 1, rs1: 0, imm: 5 },
        Rv64Insn::BEQ { rs1: 1, rs2: 2, imm: -4 },
        Rv64Insn::ADDI { rd: 2, rs1: 0, imm: 1 },
    ];
    let backend = StencilBackendRv64::new();
    let names = [Some("ADDI"), Some("BEQ"), Some("ADDI")];
    let planned = backend.plan_insns_rv64(&names, &insns, 0x2000, t, 0x11, 0x22).unwrap();
    assert_eq!(planned.len(), 2);
    assert_eq!(planned[0].1.imm, 5);
    assert_eq!(planned[0].1.next_pc, 0x2004);
    assert_eq!(planned[1].0.body_len, beq);
    assert_eq!(planned[1].1.branch_target, 0x2000);
    assert_eq!(planned[1].1.mem_read_fn, 0x11);

    // A name without a stencil stops the block; a missing name aborts it.
    let unknown = [Some("ADDI"), Some("CSRRW"), Some("ADDI")];
    assert_eq!(backend.plan_insns_rv64(&unknown, &insns, 0x2000, t, 0, 0).unwrap().len(), 1);
    let missing = [Some("ADDI"), None, Some("ADDI")];
    assert!(backend.plan_insns_rv64(&missing, &insns, 0x2000, t, 0, 0).is_none());
    let empty_first = [Some(""), Some("ADDI"), Some("ADDI")];
    assert!(backend.plan_insns_rv64(&empty_first, &insns, 0x2000, t, 0, 0).is_none());
}

#[test]
fn entry_checks_reject_malformed_stencils() {
    let f = DecodedFields::default();
    assert!(check_entries(&[(&NOP_STENCIL, f), (&IMM_STENCIL, f)]));
    static LONG_BODY: Stencil = Stencil {
        bytes: &[0x90],
        body_len: 2,
        relocs: &[],
        is_terminator: false,
        is_leaf: true,
    };
    assert!(!check_entries(&[(&NOP_STENCIL, f), (&LONG_BODY, f)]));
    static RELOC_PAST_BODY: Stencil = Stencil {
        bytes: &[0, 0, 0, 0, 0, 0xC3],
        body_len: 2,
        relocs: &[StencilReloc {
            byte_offset: 1,
            hole: HoleKind::ImmZext,
            kind: RelocKind::Abs32,
        }],
        is_terminator: false,
        is_leaf: true,
    };
    assert!(!check_entries(&[(&RELOC_PAST_BODY, f)]));
    static BAD_WIDTH: Stencil = Stencil {
        bytes: &[0, 0, 0, 0, 0xC3],
        body_len: 4,
        relocs: &[StencilReloc {
            byte_offset: 0,
            hole: HoleKind::ImmSext { from_bits: 0 },
            kind: RelocKind::Abs32,
        }],
        is_terminator: false,
        is_leaf: true,
    };
    assert!(!check_entries(&[(&BAD_WIDTH, f)]));
}
