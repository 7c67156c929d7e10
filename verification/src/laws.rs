//! The pipeline's general guarantees, stated and proved over the same spec
//! functions that the executable functions' contracts use.

use vstd::prelude::*;
use crate::compiler::{
    spec_apply_lowering, spec_create, spec_reset, spec_translate, BatchCompiler, CompileStep,
    CycleState, FuncCompileInput,
};
use crate::env::{ModuleEnvironment, StaticEnvironment};
use crate::errors::{spec_is_defect, LoweringError, TranslationError};
use crate::output::{spec_relocs_ordered, spec_stackmaps_ordered, CompiledFuncOutput};
use crate::target::spec_arch_supported;

verus! {

/// One full per-function cycle, as the driver runs it: reset, then the
/// translation event, then — when translation succeeded — the lowering
/// event.
pub open spec fn spec_cycle(
    c: BatchCompiler,
    menv: ModuleEnvironment,
    input: FuncCompileInput,
    translation: Result<(), TranslationError>,
    lowering: Result<CompiledFuncOutput, LoweringError>,
) -> (BatchCompiler, CompileStep) {
    let translated = spec_translate(spec_reset(c), menv, input, translation);
    if translated.state == CycleState::Translated {
        spec_apply_lowering(translated, lowering)
    } else {
        (translated, CompileStep::Rejected)
    }
}

/// Calling `reset` twice in a row, from any state, is the same as calling
/// it once.
pub proof fn lemma_reset_idempotent(c: BatchCompiler)
    ensures
        spec_reset(spec_reset(c)) == spec_reset(c),
{
}

/// No state leaks between functions: after a reset, the outcome of a cycle
/// depends only on the cycle's own input and stage events — never on what
/// the orchestrator compiled, or failed to compile, before.  Two
/// orchestrators for the same target, whatever their histories, go through
/// identical states and produce identical results when driven through the
/// same cycle.
pub proof fn lemma_no_state_leakage(
    c1: BatchCompiler,
    c2: BatchCompiler,
    menv: ModuleEnvironment,
    input: FuncCompileInput,
    translation: Result<(), TranslationError>,
    lowering: Result<CompiledFuncOutput, LoweringError>,
)
    requires
        c1.target == c2.target,
    ensures
        spec_cycle(c1, menv, input, translation, lowering) == spec_cycle(
            c2,
            menv,
            input,
            translation,
            lowering,
        ),
{
    assert(spec_reset(c1) == spec_reset(c2));
}

/// Recompilation is deterministic at the orchestrator level: two
/// orchestrators created independently for the same static and module
/// environments, driven through the same cycle, reach equal states and
/// equal results — in particular, equal machine code and equal relocation
/// and stack-map lists.  (The host's stages feed both cycles; this law
/// takes their sameness as the hypothesis of handing in the same events.)
pub proof fn lemma_recompilation_deterministic(
    senv: StaticEnvironment,
    menv: ModuleEnvironment,
    c1: BatchCompiler,
    c2: BatchCompiler,
    input: FuncCompileInput,
    translation: Result<(), TranslationError>,
    lowering: Result<CompiledFuncOutput, LoweringError>,
)
    requires
        spec_create(senv, menv) == Some(c1),
        spec_create(senv, menv) == Some(c2),
    ensures
        c1 == c2,
        spec_cycle(c1, menv, input, translation, lowering) == spec_cycle(
            c2,
            menv,
            input,
            translation,
            lowering,
        ),
{
}

/// A translation failure — an unsupported opcode or feature, a malformed
/// operand, an unreachable-code inconsistency — is always recoverable: the
/// cycle records it and ends `Failed`, never on the defect channel, and a
/// reset afterwards yields the same clean `Ready` state a fresh
/// orchestrator would have.
pub proof fn lemma_translation_failure_recoverable(
    c: BatchCompiler,
    menv: ModuleEnvironment,
    input: FuncCompileInput,
    e: TranslationError,
    lowering: Result<CompiledFuncOutput, LoweringError>,
)
    ensures
        spec_cycle(c, menv, input, Err(e), lowering).0.state == CycleState::Failed,
        spec_cycle(c, menv, input, Err(e), lowering).1 != CompileStep::Success,
        spec_reset(spec_cycle(c, menv, input, Err(e), lowering).0) == spec_reset(c),
{
}

/// The defect boundary is enforced, not collapsed: a lowering outcome that
/// reports an IR-verifier or register-allocation-checker violation yields
/// the `Defect` signal and is never recorded as an ordinary, recoverable
/// failure; a capacity- or feature-class outcome yields an ordinary
/// failure and never the `Defect` signal.
pub proof fn lemma_defect_boundary(c: BatchCompiler, e: LoweringError)
    ensures
        spec_is_defect(e) ==> spec_apply_lowering(c, Err(e)).1 == CompileStep::Defect
            && spec_apply_lowering(c, Err(e)).0 == c,
        !spec_is_defect(e) ==> spec_apply_lowering(c, Err(e)).1 == CompileStep::Rejected
            && spec_apply_lowering(c, Err(e)).0.state == CycleState::Failed,
{
}

/// What the platform query answers is exactly whether creating an
/// orchestrator succeeds: for a consistent module environment,
/// `cranelift_compiler_create` returns an instance if and only if
/// `cranelift_supports_platform` says the target's architecture is
/// supported.
pub proof fn lemma_platform_support_consistent(senv: StaticEnvironment, menv: ModuleEnvironment)
    requires
        menv.spec_consistent(),
    ensures
        spec_arch_supported(senv.arch) <==> spec_create(senv, menv) is Some,
{
}

/// The record lists of every output an orchestrator hands out are
/// non-decreasing in byte offset: a single forward scan resolves them.
pub proof fn lemma_extracted_records_ordered(c: BatchCompiler)
    requires
        c.spec_wf(),
        c.state == CycleState::Compiled,
    ensures
        c.output matches Some(out) && spec_relocs_ordered(out.relocs@)
            && spec_stackmaps_ordered(out.stackmaps@),
{
}

} // verus!
