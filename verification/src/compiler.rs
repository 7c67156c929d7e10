//! The batch-compiler orchestrator: one instance per compilation session,
//! reused across the functions of a module through a strict per-function
//! cycle of reset, translate, compile, result extraction.
//!
//! The wasm-to-IR translator and the IR-to-machine-code generator are
//! services of the surrounding host; the orchestrator holds every decision
//! around them.  The driver runs a stage and hands the orchestrator the
//! stage's outcome; the orchestrator validates what it can itself, applies
//! the state transition, and classifies failures into the recoverable
//! channel and the defect channel.

use vstd::prelude::*;
use crate::env::{ModuleEnvironment, StaticEnvironment};
use crate::errors::{
    lowering_error_of, spec_is_defect, CompileError, LoweringError, TranslationError,
};
use crate::output::{copy_output, spec_output_equal, CompiledFuncOutput};
use crate::target::{spec_build_descriptor, TargetDescriptor};

verus! {

/// Where the orchestrator stands in the per-function cycle.
#[derive(Clone, Copy, Debug, PartialEq, Eq, Structural)]
pub enum CycleState {
    /// No function loaded; ready for `translate`.
    Ready,
    /// A function was translated to IR; ready for `compile`.
    Translated,
    /// The function was lowered; results are available.
    Compiled,
    /// Translation or lowering failed; the failure is recorded.
    Failed,
}

/// The outcome of one `compile` call.
#[derive(Clone, Copy, Debug, PartialEq, Eq, Structural)]
pub enum CompileStep {
    /// The function was lowered and its output accepted.
    Success,
    /// A capacity- or feature-class failure: recorded, recoverable by
    /// `reset`.
    Rejected,
    /// A defect in the pipeline itself (IR verifier or checker violation,
    /// or malformed output).  Not recorded as an ordinary failure; the
    /// driver must stop loudly.
    Defect,
}

/// One function's compile input: its raw body bytes, its declared signature
/// index, and whether stack maps are requested for it.
#[derive(Clone, Debug)]
pub struct FuncCompileInput {
    /// The function body, as raw instruction-stream bytes.
    pub bytes: Vec<u8>,
    /// Index of the function's signature in the module's signature table.
    pub sig_index: u32,
    /// Whether stack-map records are requested at call sites.
    pub want_stackmaps: bool,
}

/// The orchestrator.  It owns the target descriptor and the state of the
/// one in-progress function; the translated IR itself lives in the host's
/// scratch context, which the driver clears whenever `reset` is called.
#[derive(Debug)]
pub struct BatchCompiler {
    /// The immutable target configuration, shared by every function
    /// compiled through this instance.
    pub target: TargetDescriptor,
    /// Where the current cycle stands.
    pub state: CycleState,
    /// The recoverable failure of the current cycle; present exactly in
    /// `Failed`.
    pub failure: Option<CompileError>,
    /// The accepted output of the current cycle; present exactly in
    /// `Compiled`.
    pub output: Option<CompiledFuncOutput>,
    /// Whether the current cycle's input requested stack maps.
    pub stackmaps_requested: bool,
}

impl BatchCompiler {
    /// Orchestrator invariant: the failure record and the output are
    /// present exactly in the states that own them, a recorded failure is
    /// never of the defect class, and an accepted output is well formed —
    /// in particular, its record lists are non-decreasing in byte offset.
    pub open spec fn spec_wf(self) -> bool {
        &&& self.target.wf()
        &&& (self.state == CycleState::Failed <==> self.failure is Some)
        &&& (self.state == CycleState::Compiled <==> self.output is Some)
        &&& (self.failure matches Some(CompileError::Lowering(e)) ==> !spec_is_defect(e))
        &&& (self.output matches Some(out) ==> out.spec_wf(self.stackmaps_requested))
    }
}

/// The orchestrator as `reset` leaves it: `Ready`, with no retained
/// failure, output, or stack-map request — only the target survives.
pub open spec fn spec_reset(c: BatchCompiler) -> BatchCompiler {
    BatchCompiler {
        state: CycleState::Ready,
        failure: None,
        output: None,
        stackmaps_requested: false,
        target: c.target,
    }
}

/// A fresh orchestrator for a target descriptor.
pub open spec fn spec_initial(target: TargetDescriptor) -> BatchCompiler {
    BatchCompiler {
        target,
        state: CycleState::Ready,
        failure: None,
        output: None,
        stackmaps_requested: false,
    }
}

/// The orchestrator `cranelift_compiler_create` returns: present exactly
/// when the target is supported and the module environment is consistent.
pub open spec fn spec_create(
    senv: StaticEnvironment,
    menv: ModuleEnvironment,
) -> Option<BatchCompiler> {
    match spec_build_descriptor(senv) {
        Some(d) => if menv.spec_consistent() {
            Some(spec_initial(d))
        } else {
            None
        },
        None => None,
    }
}

/// Whether an input's declared signature index is in range for the module.
pub open spec fn spec_input_sig_ok(menv: ModuleEnvironment, input: FuncCompileInput) -> bool {
    (input.sig_index as int) < menv.sigs@.len()
}

/// The state transition of `translate`: the orchestrator validates the
/// declared signature index itself; every other translation outcome is the
/// external translator's, handed in as the event.
pub open spec fn spec_translate(
    c: BatchCompiler,
    menv: ModuleEnvironment,
    input: FuncCompileInput,
    outcome: Result<(), TranslationError>,
) -> BatchCompiler {
    if !spec_input_sig_ok(menv, input) {
        BatchCompiler {
            state: CycleState::Failed,
            failure: Some(
                CompileError::Translation(TranslationError::BadSignatureIndex(input.sig_index)),
            ),
            output: None,
            stackmaps_requested: false,
            ..c
        }
    } else {
        match outcome {
            Ok(_) => BatchCompiler {
                state: CycleState::Translated,
                failure: None,
                output: None,
                stackmaps_requested: input.want_stackmaps,
                ..c
            },
            Err(e) => BatchCompiler {
                state: CycleState::Failed,
                failure: Some(CompileError::Translation(e)),
                output: None,
                stackmaps_requested: false,
                ..c
            },
        }
    }
}

/// The state transition of `compile`, over the lowering outcome expressed
/// in the pipeline's own terms.  A well-formed output is accepted; a
/// malformed one, or a defect-class error, leaves the orchestrator
/// untouched and signals `Defect`; a capacity-class error is recorded as
/// the cycle's failure.
pub open spec fn spec_apply_lowering(
    c: BatchCompiler,
    outcome: Result<CompiledFuncOutput, LoweringError>,
) -> (BatchCompiler, CompileStep) {
    match outcome {
        Ok(out) => if out.spec_wf(c.stackmaps_requested) {
            (
                BatchCompiler {
                    state: CycleState::Compiled,
                    failure: None,
                    output: Some(out),
                    ..c
                },
                CompileStep::Success,
            )
        } else {
            (c, CompileStep::Defect)
        },
        Err(e) => if spec_is_defect(e) {
            (c, CompileStep::Defect)
        } else {
            (
                BatchCompiler {
                    state: CycleState::Failed,
                    failure: Some(CompileError::Lowering(e)),
                    output: None,
                    ..c
                },
                CompileStep::Rejected,
            )
        },
    }
}

impl BatchCompiler {
    /// Discard all retained state and return to `Ready`.  Callable from any
    /// state, any number of times; only the target configuration survives.
    /// The driver must clear the host's scratch IR context alongside.
    pub fn reset(&mut self)
        requires
            old(self).target.wf(),
        ensures
            *final(self) == spec_reset(*old(self)),
            final(self).spec_wf(),
    {
        self.state = CycleState::Ready;
        self.failure = None;
        self.output = None;
        self.stackmaps_requested = false;
    }

    /// Load one function into the cycle.  The orchestrator first checks the
    /// input's declared signature index against the module's signature
    /// table; `outcome` is the external translator's verdict on the body.
    /// Returns whether translation succeeded; on failure the cause is
    /// recorded and the orchestrator stays reusable through `reset`.
    pub fn translate(
        &mut self,
        menv: &ModuleEnvironment,
        input: &FuncCompileInput,
        outcome: Result<(), TranslationError>,
    ) -> (r: bool)
        requires
            old(self).spec_wf(),
            old(self).state == CycleState::Ready,
        ensures
            *final(self) == spec_translate(*old(self), *menv, *input, outcome),
            final(self).spec_wf(),
            r == (final(self).state == CycleState::Translated),
    {
        if input.sig_index as usize >= menv.sigs.len() {
            self.state = CycleState::Failed;
            self.failure = Some(
                CompileError::Translation(TranslationError::BadSignatureIndex(input.sig_index)),
            );
            self.output = None;
            self.stackmaps_requested = false;
            return false;
        }
        match outcome {
            Ok(_) => {
                self.state = CycleState::Translated;
                self.failure = None;
                self.output = None;
                self.stackmaps_requested = input.want_stackmaps;
                true
            },
            Err(e) => {
                self.state = CycleState::Failed;
                self.failure = Some(CompileError::Translation(e));
                self.output = None;
                self.stackmaps_requested = false;
                false
            },
        }
    }

    /// Apply the lowering stage's outcome, expressed in the pipeline's own
    /// terms.  A well-formed output moves the cycle to `Compiled`; a
    /// capacity-class failure is recorded and `Rejected`; a defect-class
    /// failure — or an output whose records are malformed — signals
    /// `Defect` and leaves the orchestrator as it was, for the driver to
    /// stop on loudly.
    pub fn apply_lowering(
        &mut self,
        outcome: Result<CompiledFuncOutput, LoweringError>,
    ) -> (r: CompileStep)
        requires
            old(self).spec_wf(),
            old(self).state == CycleState::Translated,
        ensures
            ({
                let (c, step) = spec_apply_lowering(*old(self), outcome);
                *final(self) == c && r == step
            }),
            final(self).spec_wf(),
    {
        match outcome {
            Ok(out) => {
                if out.well_formed(self.stackmaps_requested) {
                    self.state = CycleState::Compiled;
                    self.failure = None;
                    self.output = Some(out);
                    CompileStep::Success
                } else {
                    CompileStep::Defect
                }
            },
            Err(e) => {
                if crate::errors::is_defect(&e) {
                    CompileStep::Defect
                } else {
                    self.state = CycleState::Failed;
                    self.failure = Some(CompileError::Lowering(e));
                    self.output = None;
                    CompileStep::Rejected
                }
            },
        }
    }

    /// Apply the code generator's own verdict.  Its error report is carried
    /// over to the pipeline's terms and then treated exactly as
    /// `apply_lowering` treats it; a generator error never yields
    /// `Success`.
    pub fn compile(
        &mut self,
        outcome: Result<CompiledFuncOutput, cranelift_codegen::CodegenError>,
    ) -> (r: CompileStep)
        requires
            old(self).spec_wf(),
            old(self).state == CycleState::Translated,
        ensures
            final(self).spec_wf(),
            outcome matches Ok(out) ==> ({
                let (c, step) = spec_apply_lowering(*old(self), Ok(out));
                *final(self) == c && r == step
            }),
            outcome is Err ==> r != CompileStep::Success,
            outcome is Err ==> (r == CompileStep::Defect ==> *final(self) == *old(self)),
            outcome is Err ==> (r == CompileStep::Rejected ==> {
                &&& final(self).state == CycleState::Failed
                &&& final(self).failure matches Some(CompileError::Lowering(le))
                    && !spec_is_defect(le)
                &&& final(self).output is None
                &&& final(self).target == old(self).target
                &&& final(self).stackmaps_requested == old(self).stackmaps_requested
            }),
    {
        match outcome {
            Ok(out) => self.apply_lowering(Ok(out)),
            Err(err) => {
                let e = lowering_error_of(err);
                self.apply_lowering(Err(e))
            },
        }
    }

    /// Copy the results of a completed cycle out to the caller.  Valid only
    /// in `Compiled`; the orchestrator keeps its state, and a `reset` is
    /// still required before the next function.  The copy is well formed —
    /// its relocation and stack-map lists are non-decreasing in byte
    /// offset.
    pub fn extract_result(&self) -> (r: CompiledFuncOutput)
        requires
            self.spec_wf(),
            self.state == CycleState::Compiled,
        ensures
            self.output matches Some(out) && spec_output_equal(r, out),
            r.spec_wf(self.stackmaps_requested),
    {
        let out = match &self.output {
            Some(out) => copy_output(out),
            None => CompiledFuncOutput { code: Vec::new(), relocs: Vec::new(), stackmaps: Vec::new() },
        };
        proof {
            crate::output::lemma_output_equal_preserves_wf(
                out,
                self.output->Some_0,
                self.stackmaps_requested,
            );
        }
        out
    }
}

} // verus!
