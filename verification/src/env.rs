//! Environment views: process-wide facts and per-module declarations, owned
//! by the caller and borrowed read-only for the duration of each call that
//! needs them.  The pipeline keeps no copy of them; every operation that
//! reads them takes them as a fresh borrow, so their lifetime only has to
//! enclose the individual call.

use vstd::prelude::*;
use crate::target::ArchId;

verus! {

/// Largest number of 64 KiB pages a linear memory may declare.
pub const MAX_MEMORY_PAGES: u64 = 65536;

/// Process-wide facts the pipeline needs: the requested target architecture,
/// pointer width, host frame size, heap-pinning request, and the enabled
/// proposal flags.
#[derive(Clone, Copy, Debug)]
pub struct StaticEnvironment {
    /// Architecture of the compilation target.
    pub arch: ArchId,
    /// Width of a pointer on the target, in bytes.
    pub pointer_width_bytes: u8,
    /// Size in machine words of the frame the host pushes below a function's
    /// arguments.
    pub frame_words: u32,
    /// Whether the host asks for the linear-memory base to be kept in a
    /// pinned register.
    pub request_heap_pinning: bool,
    /// Whether the reference-types proposal is enabled.
    pub ref_types_enabled: bool,
    /// Whether the threads proposal is enabled.
    pub threads_enabled: bool,
}

/// One entry of the module's signature table.
#[derive(Clone, Copy, Debug, PartialEq, Eq, Structural)]
pub struct SigDesc {
    /// Number of parameters.
    pub param_count: u32,
    /// Number of results; at most one.
    pub result_count: u32,
}

/// One imported function: the signature it was declared with.
#[derive(Clone, Copy, Debug, PartialEq, Eq, Structural)]
pub struct ImportDesc {
    /// Index into the module's signature table.
    pub sig_index: u32,
}

/// Declared limits of one linear memory, in 64 KiB pages.
#[derive(Clone, Copy, Debug, PartialEq, Eq, Structural)]
pub struct MemoryDesc {
    /// Initial size.
    pub min_pages: u64,
    /// Declared maximum size, if any.
    pub max_pages: Option<u64>,
}

/// Declared limits of one table, in entries.
#[derive(Clone, Copy, Debug, PartialEq, Eq, Structural)]
pub struct TableDesc {
    /// Initial size.
    pub min_entries: u32,
    /// Declared maximum size, if any.
    pub max_entries: Option<u32>,
}

/// Per-module declarations: the signature table, the signature of each
/// function (imported ones first), the import list, and the memory and table
/// layouts.
#[derive(Clone, Debug)]
pub struct ModuleEnvironment {
    /// The module's signature table.
    pub sigs: Vec<SigDesc>,
    /// For each function of the module, the index of its signature in
    /// `sigs`.
    pub func_sig_indices: Vec<u32>,
    /// The module's imported functions.
    pub imports: Vec<ImportDesc>,
    /// The module's linear memories.
    pub memories: Vec<MemoryDesc>,
    /// The module's tables.
    pub tables: Vec<TableDesc>,
}

impl SigDesc {
    /// Well-formed signature: at most one result.
    pub open spec fn spec_consistent(self) -> bool {
        self.result_count <= 1
    }
}

impl MemoryDesc {
    /// Well-formed limits: within the page cap, and the minimum not above
    /// the maximum when one is declared.
    pub open spec fn spec_consistent(self) -> bool {
        &&& self.min_pages <= MAX_MEMORY_PAGES
        &&& (self.max_pages matches Some(m) ==> self.min_pages <= m && m <= MAX_MEMORY_PAGES)
    }
}

impl TableDesc {
    /// Well-formed limits: the minimum not above the maximum when one is
    /// declared.
    pub open spec fn spec_consistent(self) -> bool {
        self.max_entries matches Some(m) ==> self.min_entries <= m
    }
}

impl ModuleEnvironment {
    /// Internal consistency of the module declarations: every signature is
    /// well formed, every signature index (of a function or an import) is in
    /// range, and every memory and table declares sane limits.
    pub open spec fn spec_consistent(self) -> bool {
        &&& forall|i: int|
            0 <= i < self.sigs@.len() ==> (#[trigger] self.sigs@[i]).spec_consistent()
        &&& forall|i: int|
            0 <= i < self.func_sig_indices@.len()
                ==> (#[trigger] self.func_sig_indices@[i]) < self.sigs@.len()
        &&& forall|i: int|
            0 <= i < self.imports@.len()
                ==> (#[trigger] self.imports@[i]).sig_index < self.sigs@.len()
        &&& forall|i: int|
            0 <= i < self.memories@.len() ==> (#[trigger] self.memories@[i]).spec_consistent()
        &&& forall|i: int|
            0 <= i < self.tables@.len() ==> (#[trigger] self.tables@[i]).spec_consistent()
    }

    /// Decide internal consistency of the module declarations.
    pub fn consistent(&self) -> (r: bool)
        ensures
            r == self.spec_consistent(),
    {
        let n_sigs = self.sigs.len();
        let mut i: usize = 0;
        while i < self.sigs.len()
            invariant
                0 <= i <= self.sigs@.len(),
                forall|k: int| 0 <= k < i ==> (#[trigger] self.sigs@[k]).spec_consistent(),
            decreases self.sigs@.len() - i,
        {
            if self.sigs[i].result_count > 1 {
                return false;
            }
            i += 1;
        }
        let mut i: usize = 0;
        while i < self.func_sig_indices.len()
            invariant
                0 <= i <= self.func_sig_indices@.len(),
                n_sigs == self.sigs@.len(),
                forall|k: int|
                    0 <= k < i ==> (#[trigger] self.func_sig_indices@[k]) < self.sigs@.len(),
            decreases self.func_sig_indices@.len() - i,
        {
            if self.func_sig_indices[i] as usize >= n_sigs {
                return false;
            }
            i += 1;
        }
        let mut i: usize = 0;
        while i < self.imports.len()
            invariant
                0 <= i <= self.imports@.len(),
                n_sigs == self.sigs@.len(),
                forall|k: int|
                    0 <= k < i ==> (#[trigger] self.imports@[k]).sig_index < self.sigs@.len(),
            decreases self.imports@.len() - i,
        {
            if self.imports[i].sig_index as usize >= n_sigs {
                return false;
            }
            i += 1;
        }
        let mut i: usize = 0;
        while i < self.memories.len()
            invariant
                0 <= i <= self.memories@.len(),
                forall|k: int| 0 <= k < i ==> (#[trigger] self.memories@[k]).spec_consistent(),
            decreases self.memories@.len() - i,
        {
            let m = self.memories[i];
            if m.min_pages > MAX_MEMORY_PAGES {
                return false;
            }
            match m.max_pages {
                Some(mx) => {
                    if m.min_pages > mx || mx > MAX_MEMORY_PAGES {
                        return false;
                    }
                },
                None => {},
            }
            i += 1;
        }
        let mut i: usize = 0;
        while i < self.tables.len()
            invariant
                0 <= i <= self.tables@.len(),
                forall|k: int| 0 <= k < i ==> (#[trigger] self.tables@[k]).spec_consistent(),
            decreases self.tables@.len() - i,
        {
            let t = self.tables[i];
            match t.max_entries {
                Some(mx) => {
                    if t.min_entries > mx {
                        return false;
                    }
                },
                None => {},
            }
            i += 1;
        }
        true
    }
}

} // verus!
