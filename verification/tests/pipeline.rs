use baldrdash::compiler::{BatchCompiler, CompileStep, CycleState, FuncCompileInput};
use baldrdash::env::{
    ImportDesc, MemoryDesc, ModuleEnvironment, SigDesc, StaticEnvironment, TableDesc,
};
use baldrdash::errors::{CompileError, LoweringError, TranslationError};
use baldrdash::output::{CompiledFuncOutput, RelocKind, RelocRecord, StackMapRecord};
use baldrdash::target::{ArchId, CallingConvention, TargetDescriptor};
use baldrdash::{cranelift_compiler_create, cranelift_compiler_destroy, cranelift_supports_platform};

fn senv(arch: ArchId, pinning: bool) -> StaticEnvironment {
    StaticEnvironment {
        arch,
        pointer_width_bytes: 8,
        frame_words: 4,
        request_heap_pinning: pinning,
        ref_types_enabled: false,
        threads_enabled: false,
    }
}

fn good_menv() -> ModuleEnvironment {
    ModuleEnvironment {
        sigs: vec![
            SigDesc { param_count: 2, result_count: 1 },
            SigDesc { param_count: 0, result_count: 0 },
        ],
        func_sig_indices: vec![0, 1, 0],
        imports: vec![ImportDesc { sig_index: 1 }],
        memories: vec![MemoryDesc { min_pages: 1, max_pages: Some(16) }],
        tables: vec![TableDesc { min_entries: 0, max_entries: Some(8) }],
    }
}

fn sample_output() -> CompiledFuncOutput {
    CompiledFuncOutput {
        code: vec![0x55, 0x90, 0x90, 0xe8, 0x00, 0x00, 0x00, 0x00, 0xc3],
        relocs: vec![
            RelocRecord { offset: 4, kind: RelocKind::FunctionIndex, target: 7 },
            RelocRecord { offset: 4, kind: RelocKind::HostIntrinsic, target: 2 },
            RelocRecord { offset: 8, kind: RelocKind::AbsoluteAddress, target: 0 },
        ],
        stackmaps: vec![
            StackMapRecord { offset: 8, live_words: vec![0, 2] },
            StackMapRecord { offset: 9, live_words: vec![] },
        ],
    }
}

fn assert_outputs_equal(a: &CompiledFuncOutput, b: &CompiledFuncOutput) {
    assert_eq!(a.code, b.code);
    assert_eq!(a.relocs, b.relocs);
    assert_eq!(a.stackmaps, b.stackmaps);
}

fn run_cycle(
    c: &mut BatchCompiler,
    menv: &ModuleEnvironment,
    input: &FuncCompileInput,
    translation: Result<(), TranslationError>,
    lowering: Result<CompiledFuncOutput, LoweringError>,
) -> Option<CompiledFuncOutput> {
    c.reset();
    if !c.translate(menv, input, translation) {
        return None;
    }
    match c.apply_lowering(lowering) {
        CompileStep::Success => Some(c.extract_result()),
        _ => None,
    }
}

#[test]
fn descriptor_x64_pinned() {
    let d = TargetDescriptor::build(&senv(ArchId::X64, true)).unwrap();
    assert_eq!(d.arch, ArchId::X64);
    assert_eq!(d.call_conv, CallingConvention::NoPrologue);
    assert_eq!(d.frame_base_words, 4);
    assert!(d.pinned_base);
    assert_eq!(d.pinned_base_reg, Some(14));
}

#[test]
fn descriptor_aarch64_pinned() {
    let d = TargetDescriptor::build(&senv(ArchId::Aarch64, true)).unwrap();
    assert!(d.pinned_base);
    assert_eq!(d.pinned_base_reg, Some(23));
}

#[test]
fn descriptor_without_pinning_request() {
    let d = TargetDescriptor::build(&senv(ArchId::X64, false)).unwrap();
    assert_eq!(d.call_conv, CallingConvention::NoPrologue);
    assert!(!d.pinned_base);
    assert_eq!(d.pinned_base_reg, None);
}

#[test]
fn descriptor_unsupported_arch() {
    assert!(TargetDescriptor::build(&senv(ArchId::X86, true)).is_none());
    assert!(TargetDescriptor::build(&senv(ArchId::Other, false)).is_none());
}

#[test]
fn create_unsupported_target_yields_no_instance() {
    assert!(cranelift_compiler_create(&senv(ArchId::X86, false), &good_menv()).is_none());
    assert!(cranelift_compiler_create(&senv(ArchId::Other, false), &good_menv()).is_none());
}

#[test]
fn platform_support_matches_create() {
    for arch in [ArchId::X64, ArchId::Aarch64, ArchId::X86, ArchId::Other] {
        let supported = cranelift_supports_platform(arch);
        let created = cranelift_compiler_create(&senv(arch, false), &good_menv());
        assert_eq!(supported, created.is_some());
        if let Some(c) = created {
            cranelift_compiler_destroy(c);
        }
    }
}

#[test]
fn create_rejects_inconsistent_module_env() {
    let mut menv = good_menv();
    menv.func_sig_indices.push(2);
    assert!(cranelift_compiler_create(&senv(ArchId::X64, false), &menv).is_none());
}

#[test]
fn module_env_consistency() {
    assert!(good_menv().consistent());

    let mut m = good_menv();
    m.sigs[0].result_count = 2;
    assert!(!m.consistent());

    let mut m = good_menv();
    m.imports.push(ImportDesc { sig_index: 9 });
    assert!(!m.consistent());

    let mut m = good_menv();
    m.memories.push(MemoryDesc { min_pages: 20, max_pages: Some(10) });
    assert!(!m.consistent());

    let mut m = good_menv();
    m.memories.push(MemoryDesc { min_pages: 65537, max_pages: None });
    assert!(!m.consistent());

    let mut m = good_menv();
    m.tables.push(TableDesc { min_entries: 5, max_entries: Some(4) });
    assert!(!m.consistent());

    let empty = ModuleEnvironment {
        sigs: vec![],
        func_sig_indices: vec![],
        imports: vec![],
        memories: vec![],
        tables: vec![],
    };
    assert!(empty.consistent());
}

#[test]
fn happy_cycle_extracts_ordered_output() {
    let menv = good_menv();
    let mut c = cranelift_compiler_create(&senv(ArchId::X64, true), &menv).unwrap();
    let input = FuncCompileInput { bytes: vec![0x20, 0x00, 0x0b], sig_index: 0, want_stackmaps: true };
    let out = run_cycle(&mut c, &menv, &input, Ok(()), Ok(sample_output())).unwrap();
    assert_eq!(c.state, CycleState::Compiled);
    assert_outputs_equal(&out, &sample_output());
    for w in out.relocs.windows(2) {
        assert!(w[0].offset <= w[1].offset);
    }
    for w in out.stackmaps.windows(2) {
        assert!(w[0].offset <= w[1].offset);
    }
    cranelift_compiler_destroy(c);
}

#[test]
fn unsupported_opcode_is_recoverable() {
    let menv = good_menv();
    let mut c = cranelift_compiler_create(&senv(ArchId::X64, false), &menv).unwrap();
    let input = FuncCompileInput { bytes: vec![0xfc, 0x08], sig_index: 0, want_stackmaps: false };
    c.reset();
    let ok = c.translate(&menv, &input, Err(TranslationError::UnsupportedOpcode(0xfc)));
    assert!(!ok);
    assert_eq!(c.state, CycleState::Failed);
    assert_eq!(
        c.failure,
        Some(CompileError::Translation(TranslationError::UnsupportedOpcode(0xfc)))
    );

    c.reset();
    assert_eq!(c.state, CycleState::Ready);
    assert_eq!(c.failure, None);
    let out = run_cycle(&mut c, &menv, &input, Ok(()), Ok(sample_empty_output())).unwrap();
    assert!(out.code.is_empty());
}

fn sample_empty_output() -> CompiledFuncOutput {
    CompiledFuncOutput { code: vec![], relocs: vec![], stackmaps: vec![] }
}

#[test]
fn translation_error_variants_are_recorded() {
    let menv = good_menv();
    let mut c = cranelift_compiler_create(&senv(ArchId::X64, false), &menv).unwrap();
    let input = FuncCompileInput { bytes: vec![], sig_index: 0, want_stackmaps: false };
    let cases = [
        TranslationError::UnsupportedFeature,
        TranslationError::BadLocalIndex(17),
        TranslationError::UnreachableInconsistency,
    ];
    for e in cases {
        c.reset();
        assert!(!c.translate(&menv, &input, Err(e.clone())));
        assert_eq!(c.failure, Some(CompileError::Translation(e)));
    }
}

#[test]
fn bad_signature_index_fails_before_translation() {
    let menv = good_menv();
    let mut c = cranelift_compiler_create(&senv(ArchId::X64, false), &menv).unwrap();
    c.reset();
    let input = FuncCompileInput { bytes: vec![], sig_index: 5, want_stackmaps: false };
    let ok = c.translate(&menv, &input, Ok(()));
    assert!(!ok);
    assert_eq!(
        c.failure,
        Some(CompileError::Translation(TranslationError::BadSignatureIndex(5)))
    );
}

#[test]
fn verifier_error_is_a_defect_never_recoverable() {
    let menv = good_menv();
    let mut c = cranelift_compiler_create(&senv(ArchId::X64, false), &menv).unwrap();
    c.reset();
    let input = FuncCompileInput { bytes: vec![], sig_index: 0, want_stackmaps: false };
    assert!(c.translate(&menv, &input, Ok(())));
    let verifier_errors = cranelift_codegen::verifier::VerifierErrors::default();
    let step = c.compile(Err(cranelift_codegen::CodegenError::Verifier(verifier_errors)));
    assert_eq!(step, CompileStep::Defect);
    assert_eq!(c.state, CycleState::Translated);
    assert_eq!(c.failure, None);
}

#[test]
fn regalloc_check_error_is_a_defect() {
    let menv = good_menv();
    let mut c = cranelift_compiler_create(&senv(ArchId::X64, false), &menv).unwrap();
    c.reset();
    let input = FuncCompileInput { bytes: vec![], sig_index: 0, want_stackmaps: false };
    assert!(c.translate(&menv, &input, Ok(())));
    let step = c.apply_lowering(Err(LoweringError::RegallocCheck("bad move".to_string())));
    assert_eq!(step, CompileStep::Defect);
    assert_eq!(c.failure, None);
}

#[test]
fn capacity_errors_are_recoverable() {
    let menv = good_menv();
    let mut c = cranelift_compiler_create(&senv(ArchId::X64, false), &menv).unwrap();
    let input = FuncCompileInput { bytes: vec![], sig_index: 0, want_stackmaps: false };

    c.reset();
    assert!(c.translate(&menv, &input, Ok(())));
    let step = c.compile(Err(cranelift_codegen::CodegenError::ImplLimitExceeded));
    assert_eq!(step, CompileStep::Rejected);
    assert_eq!(c.state, CycleState::Failed);
    assert_eq!(c.failure, Some(CompileError::Lowering(LoweringError::ImplLimitExceeded)));

    c.reset();
    assert!(c.translate(&menv, &input, Ok(())));
    let step = c.compile(Err(cranelift_codegen::CodegenError::CodeTooLarge));
    assert_eq!(step, CompileStep::Rejected);
    assert_eq!(c.failure, Some(CompileError::Lowering(LoweringError::CodeTooLarge)));

    c.reset();
    assert!(c.translate(&menv, &input, Ok(())));
    let step = c.compile(Err(cranelift_codegen::CodegenError::Unsupported(
        "128-bit vectors".to_string(),
    )));
    assert_eq!(step, CompileStep::Rejected);
    assert_eq!(
        c.failure,
        Some(CompileError::Lowering(LoweringError::Unsupported("128-bit vectors".to_string())))
    );
}

#[test]
fn malformed_output_is_a_defect() {
    let menv = good_menv();
    let mut c = cranelift_compiler_create(&senv(ArchId::X64, false), &menv).unwrap();
    let input = FuncCompileInput { bytes: vec![], sig_index: 0, want_stackmaps: true };

    c.reset();
    assert!(c.translate(&menv, &input, Ok(())));
    let mut out = sample_output();
    out.relocs.swap(0, 2);
    assert_eq!(c.apply_lowering(Ok(out)), CompileStep::Defect);
    assert_eq!(c.state, CycleState::Translated);

    c.reset();
    assert!(c.translate(&menv, &input, Ok(())));
    let mut out = sample_output();
    out.relocs.push(RelocRecord { offset: 100, kind: RelocKind::FunctionIndex, target: 0 });
    assert_eq!(c.apply_lowering(Ok(out)), CompileStep::Defect);

    let input_no_maps = FuncCompileInput { bytes: vec![], sig_index: 0, want_stackmaps: false };
    c.reset();
    assert!(c.translate(&menv, &input_no_maps, Ok(())));
    assert_eq!(c.apply_lowering(Ok(sample_output())), CompileStep::Defect);
}

#[test]
fn reset_twice_equals_reset_once() {
    let menv = good_menv();
    let mut c1 = cranelift_compiler_create(&senv(ArchId::X64, true), &menv).unwrap();
    let mut c2 = cranelift_compiler_create(&senv(ArchId::X64, true), &menv).unwrap();
    let input = FuncCompileInput { bytes: vec![], sig_index: 0, want_stackmaps: false };

    c1.reset();
    assert!(!c1.translate(&menv, &input, Err(TranslationError::UnsupportedFeature)));
    c2.reset();
    assert!(!c2.translate(&menv, &input, Err(TranslationError::UnsupportedFeature)));

    c1.reset();
    c2.reset();
    c2.reset();
    assert_eq!(c1.state, c2.state);
    assert_eq!(c1.failure, c2.failure);
    assert!(c1.output.is_none() && c2.output.is_none());
    assert_eq!(c1.stackmaps_requested, c2.stackmaps_requested);
    assert_eq!(c1.target, c2.target);
}

#[test]
fn no_state_leakage_between_functions() {
    let menv = good_menv();
    let input_a = FuncCompileInput { bytes: vec![0x01], sig_index: 0, want_stackmaps: false };
    let input_b = FuncCompileInput { bytes: vec![0x02], sig_index: 1, want_stackmaps: true };
    let out_a = CompiledFuncOutput {
        code: vec![0xc3],
        relocs: vec![],
        stackmaps: vec![],
    };

    let mut reused = cranelift_compiler_create(&senv(ArchId::X64, true), &menv).unwrap();
    let got_a = run_cycle(&mut reused, &menv, &input_a, Ok(()), Ok(out_a)).unwrap();
    assert_eq!(got_a.code, vec![0xc3]);
    let b_on_reused =
        run_cycle(&mut reused, &menv, &input_b, Ok(()), Ok(sample_output())).unwrap();

    let mut fresh = cranelift_compiler_create(&senv(ArchId::X64, true), &menv).unwrap();
    let b_on_fresh = run_cycle(&mut fresh, &menv, &input_b, Ok(()), Ok(sample_output())).unwrap();

    assert_outputs_equal(&b_on_reused, &b_on_fresh);
    assert_eq!(reused.state, fresh.state);
    assert_eq!(reused.stackmaps_requested, fresh.stackmaps_requested);
}

#[test]
fn recompilation_is_deterministic() {
    let menv = good_menv();
    let input = FuncCompileInput { bytes: vec![0x0b], sig_index: 0, want_stackmaps: true };
    let mut c1 = cranelift_compiler_create(&senv(ArchId::Aarch64, true), &menv).unwrap();
    let mut c2 = cranelift_compiler_create(&senv(ArchId::Aarch64, true), &menv).unwrap();
    let o1 = run_cycle(&mut c1, &menv, &input, Ok(()), Ok(sample_output())).unwrap();
    let o2 = run_cycle(&mut c2, &menv, &input, Ok(()), Ok(sample_output())).unwrap();
    assert_outputs_equal(&o1, &o2);
}

#[test]
fn extract_copies_ownership_out() {
    let menv = good_menv();
    let mut c = cranelift_compiler_create(&senv(ArchId::X64, false), &menv).unwrap();
    let input = FuncCompileInput { bytes: vec![], sig_index: 0, want_stackmaps: true };
    c.reset();
    assert!(c.translate(&menv, &input, Ok(())));
    assert_eq!(c.apply_lowering(Ok(sample_output())), CompileStep::Success);
    let first = c.extract_result();
    let second = c.extract_result();
    assert_outputs_equal(&first, &second);
    assert_eq!(c.state, CycleState::Compiled);
}
