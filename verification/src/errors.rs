//! Failure taxonomy of the pipeline.
//!
//! Translation failures and capacity-class lowering failures are expected,
//! data-dependent conditions: they are reported to the caller and leave the
//! orchestrator resettable.  Defect-class lowering failures (the IR verifier
//! or the register-allocation checker rejecting what the pipeline produced)
//! can only come from a bug in the translation or lowering logic itself;
//! they are surfaced on a separate channel so the embedder can abort loudly
//! instead of degrading them into ordinary failures.

use vstd::prelude::*;

verus! {

/// A failure while translating one function body to IR.  All of these are
/// recoverable: the orchestrator can be reset and reused.
#[derive(Clone, Debug, PartialEq)]
pub enum TranslationError {
    /// An opcode the current target cannot translate; carries the opcode
    /// byte value.
    UnsupportedOpcode(u32),
    /// A proposal or feature that is not enabled for this module.
    UnsupportedFeature,
    /// A local index past the function's declared locals.
    BadLocalIndex(u32),
    /// A signature index past the module's signature table.
    BadSignatureIndex(u32),
    /// Inconsistent control flow after an unconditional trap.
    UnreachableInconsistency,
}

/// A failure while lowering translated IR to machine code, mirroring the
/// code generator's own error report.
#[derive(Clone, Debug, PartialEq)]
pub enum LoweringError {
    /// The IR verifier rejected the translated function: a defect in the
    /// pipeline, never a property of the input.  Carries the verifier's
    /// report.
    Verifier(String),
    /// The register-allocation checker rejected the lowering: likewise a
    /// defect.  Carries the checker's report.
    RegallocCheck(String),
    /// An internal implementation limit was exceeded.
    ImplLimitExceeded,
    /// The generated code is larger than the target allows.
    CodeTooLarge,
    /// A construct this backend does not support; carries its description.
    Unsupported(String),
    /// No mapping to the unwind-info register representation; carries the
    /// report.
    RegisterMapping(String),
}

/// Defect class: failures that indicate a bug in the pipeline itself, to be
/// surfaced as a hard stop rather than returned as an ordinary failure.
pub open spec fn spec_is_defect(e: LoweringError) -> bool {
    e matches LoweringError::Verifier(_) || e matches LoweringError::RegallocCheck(_)
}

/// Decide whether a lowering failure is in the defect class.
pub fn is_defect(e: &LoweringError) -> (r: bool)
    ensures
        r == spec_is_defect(*e),
{
    match e {
        LoweringError::Verifier(_) => true,
        LoweringError::RegallocCheck(_) => true,
        _ => false,
    }
}

/// The recoverable failure recorded by one function-compile cycle.
#[derive(Clone, Debug, PartialEq)]
pub enum CompileError {
    /// The function could not be translated to IR.
    Translation(TranslationError),
    /// The translated IR could not be lowered (capacity or feature limit).
    Lowering(LoweringError),
}

/// Declares the code generator's error type so it can cross this crate's
/// signatures; its value is opaque here.
#[verifier::external_type_specification]
#[verifier::external_body]
pub struct ExCodegenError(cranelift_codegen::CodegenError);

/// Relies on cranelift_codegen::CodegenError: each variant of the code
/// generator's error report is carried over to the variant of
/// `LoweringError` that stands for it, with its payload rendered to text.
#[verifier::external_body]
pub(crate) fn lowering_error_of(e: cranelift_codegen::CodegenError) -> (r: LoweringError) {
    match e {
        cranelift_codegen::CodegenError::Verifier(v) => LoweringError::Verifier(format!("{}", v)),
        cranelift_codegen::CodegenError::Regalloc(c) => LoweringError::RegallocCheck(
            format!("{:?}", c),
        ),
        cranelift_codegen::CodegenError::ImplLimitExceeded => LoweringError::ImplLimitExceeded,
        cranelift_codegen::CodegenError::CodeTooLarge => LoweringError::CodeTooLarge,
        cranelift_codegen::CodegenError::Unsupported(s) => LoweringError::Unsupported(s),
        cranelift_codegen::CodegenError::RegisterMappingError(m) => LoweringError::RegisterMapping(
            format!("{}", m),
        ),
    }
}

} // verus!
