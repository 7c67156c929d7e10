//! Target descriptor: the immutable per-target configuration shared by every
//! function compiled through one orchestrator.

use vstd::prelude::*;
use crate::env::StaticEnvironment;

verus! {

/// CPU architecture identifier for the compilation target.
#[derive(Clone, Copy, Debug, PartialEq, Eq, Structural)]
pub enum ArchId {
    /// 64-bit x86.
    X64,
    /// 64-bit ARM.
    Aarch64,
    /// 32-bit x86.
    X86,
    /// Anything else.
    Other,
}

/// Calling convention exposed by a target descriptor.  The host runtime
/// writes every function prologue and epilogue itself, so a descriptor must
/// only ever select the variant under which no prologue or epilogue is
/// generated.
#[derive(Clone, Copy, Debug, PartialEq, Eq, Structural)]
pub enum CallingConvention {
    /// No frame setup or teardown is emitted; the host supplies both.
    NoPrologue,
    /// Frame setup and teardown are emitted by the code generator.
    HostFrames,
}

/// Physical register the host reserves as the linear-memory base on 64-bit
/// x86 (r14).
pub const HEAP_BASE_REG_X64: u8 = 14;

/// Physical register the host reserves as the linear-memory base on 64-bit
/// ARM (x23).
pub const HEAP_BASE_REG_AARCH64: u8 = 23;

/// Immutable configuration of one compilation target.
#[derive(Clone, Copy, Debug, PartialEq, Eq)]
pub struct TargetDescriptor {
    /// Architecture this descriptor was built for.
    pub arch: ArchId,
    /// Always the no-prologue variant; see `CallingConvention`.
    pub call_conv: CallingConvention,
    /// Stack-frame base offset, in machine words, that generated code must
    /// assume is already present below its arguments.
    pub frame_base_words: u32,
    /// Whether a physical register is pinned process-wide to the
    /// linear-memory base.
    pub pinned_base: bool,
    /// Identity of the pinned register; present exactly when `pinned_base`.
    pub pinned_base_reg: Option<u8>,
}

/// Whether this architecture is one the pipeline can generate code for.
pub open spec fn spec_arch_supported(arch: ArchId) -> bool {
    arch == ArchId::X64 || arch == ArchId::Aarch64
}

/// Whether this architecture has a register that can be reserved
/// process-wide as a linear-memory base pointer.
pub open spec fn spec_arch_has_base_register(arch: ArchId) -> bool {
    arch == ArchId::X64 || arch == ArchId::Aarch64
}

/// The reserved base register of an architecture that has one.
pub open spec fn spec_base_register_of(arch: ArchId) -> u8 {
    if arch == ArchId::X64 {
        HEAP_BASE_REG_X64
    } else {
        HEAP_BASE_REG_AARCH64
    }
}

/// The descriptor built for a static environment, or `None` when the
/// requested architecture is unsupported.
pub open spec fn spec_build_descriptor(senv: StaticEnvironment) -> Option<TargetDescriptor> {
    if spec_arch_supported(senv.arch) {
        Some(TargetDescriptor {
            arch: senv.arch,
            call_conv: CallingConvention::NoPrologue,
            frame_base_words: senv.frame_words,
            pinned_base: spec_arch_has_base_register(senv.arch) && senv.request_heap_pinning,
            pinned_base_reg: if spec_arch_has_base_register(senv.arch)
                && senv.request_heap_pinning {
                Some(spec_base_register_of(senv.arch))
            } else {
                None
            },
        })
    } else {
        None
    }
}

impl TargetDescriptor {
    /// A descriptor is well formed when it could only have come out of
    /// `build`: supported architecture, no-prologue convention, and a pinned
    /// register identity recorded exactly when pinning is in effect.
    pub open spec fn wf(self) -> bool {
        &&& spec_arch_supported(self.arch)
        &&& self.call_conv == CallingConvention::NoPrologue
        &&& self.pinned_base ==> spec_arch_has_base_register(self.arch)
        &&& self.pinned_base_reg == (if self.pinned_base {
            Some(spec_base_register_of(self.arch))
        } else {
            None::<u8>
        })
    }

    /// Build the descriptor for a target, or report the target unsupported.
    ///
    /// The calling convention is unconditionally the no-prologue variant; the
    /// frame-base offset is the host-supplied frame size in words, passed
    /// through unchanged; the linear-memory base is pinned exactly when the
    /// architecture has a reservable base register and the host requested
    /// heap pinning.
    pub fn build(senv: &StaticEnvironment) -> (r: Option<TargetDescriptor>)
        ensures
            r == spec_build_descriptor(*senv),
            r matches Some(d) ==> d.wf(),
    {
        if arch_supported(senv.arch) {
            let pinned = arch_has_base_register(senv.arch) && senv.request_heap_pinning;
            Some(TargetDescriptor {
                arch: senv.arch,
                call_conv: CallingConvention::NoPrologue,
                frame_base_words: senv.frame_words,
                pinned_base: pinned,
                pinned_base_reg: if pinned {
                    Some(base_register_of(senv.arch))
                } else {
                    None
                },
            })
        } else {
            None
        }
    }
}

/// Capability query: can this pipeline generate code for `arch` at all?
/// Needs no other state.
pub fn arch_supported(arch: ArchId) -> (r: bool)
    ensures
        r == spec_arch_supported(arch),
{
    arch == ArchId::X64 || arch == ArchId::Aarch64
}

/// Whether `arch` has a register that can be reserved as the linear-memory
/// base.
pub fn arch_has_base_register(arch: ArchId) -> (r: bool)
    ensures
        r == spec_arch_has_base_register(arch),
{
    arch == ArchId::X64 || arch == ArchId::Aarch64
}

/// The reserved base register of an architecture that has one.
pub fn base_register_of(arch: ArchId) -> (r: u8)
    requires
        spec_arch_has_base_register(arch),
    ensures
        r == spec_base_register_of(arch),
{
    if arch == ArchId::X64 {
        HEAP_BASE_REG_X64
    } else {
        HEAP_BASE_REG_AARCH64
    }
}

} // verus!
