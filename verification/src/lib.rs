//! Per-function ahead-of-time compilation pipeline for WebAssembly functions.
//!
//! One orchestrator instance (`BatchCompiler`) is reused across the
//! functions of a module: each function goes through a strict reset /
//! translate / compile / extract cycle.  The wasm-to-IR translation and the
//! IR-to-machine-code lowering are services of the surrounding host; this
//! crate holds the decisions around them: target configuration, environment
//! validation, lifecycle state, failure classification, and the shape of
//! the results.
//!
//! The environment views are owned by the caller and handed in as borrows
//! to each call that reads them; the pipeline keeps no copy, so the views
//! only have to outlive the individual call.

use vstd::prelude::*;

pub mod compiler;
pub mod env;
pub mod errors;
pub mod init;
pub mod laws;
pub mod output;
pub mod target;

pub use compiler::BatchCompiler;
pub use init::cranelift_initialize;

use crate::compiler::{spec_create, spec_initial, CycleState};
use crate::env::{ModuleEnvironment, StaticEnvironment};
use crate::target::{spec_arch_supported, ArchId, TargetDescriptor};

verus! {

/// Whether the pipeline can generate code for `arch` at all.  A pure query:
/// needs no orchestrator and no prior initialization, and agrees with
/// whether `cranelift_compiler_create` succeeds for that architecture.
pub fn cranelift_supports_platform(arch: ArchId) -> (r: bool)
    ensures
        r == spec_arch_supported(arch),
{
    crate::target::arch_supported(arch)
}

/// Allocate an orchestrator for one compilation session.
///
/// Returns `None` — and no instance at all, never a partly initialized one
/// — when the target is unsupported or the module environment is
/// internally inconsistent.  On success the orchestrator is `Ready`, with
/// its target descriptor fully built.
pub fn cranelift_compiler_create(
    senv: &StaticEnvironment,
    menv: &ModuleEnvironment,
) -> (r: Option<BatchCompiler>)
    ensures
        r == spec_create(*senv, *menv),
        r matches Some(c) ==> c.spec_wf() && c.state == CycleState::Ready,
{
    let target = match TargetDescriptor::build(senv) {
        Some(t) => t,
        None => {
            return None;
        },
    };
    if !menv.consistent() {
        return None;
    }
    let c = BatchCompiler {
        target,
        state: CycleState::Ready,
        failure: None,
        output: None,
        stackmaps_requested: false,
    };
    proof {
        assert(c == spec_initial(c.target));
    }
    Some(c)
}

/// Destroy an orchestrator.  Ownership makes reuse after destruction
/// impossible: the instance is moved in and dropped here, exactly once.
pub fn cranelift_compiler_destroy(compiler: BatchCompiler) {
    let _ = compiler;
}

} // verus!
