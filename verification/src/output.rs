//! The product of one successful compile cycle: a machine-code buffer plus
//! the relocation and stack-map records that describe it.  Callers resolve
//! both record lists in a single forward scan, so the lists must be
//! non-decreasing in byte offset.

use vstd::prelude::*;

verus! {

/// What a relocation refers to.
#[derive(Clone, Copy, Debug, PartialEq, Eq, Structural)]
pub enum RelocKind {
    /// A function of the module, by index.
    FunctionIndex,
    /// An intrinsic of the host VM, by identifier.
    HostIntrinsic,
    /// An absolute address patched at module instantiation.
    AbsoluteAddress,
}

/// One position in the code buffer whose final value is resolved later.
#[derive(Clone, Copy, Debug, PartialEq, Eq, Structural)]
pub struct RelocRecord {
    /// Byte offset of the patched position in the code buffer.
    pub offset: u32,
    /// What the position refers to.
    pub kind: RelocKind,
    /// Index or identifier of the referenced symbol, interpreted per
    /// `kind`.
    pub target: u32,
}

/// One position in the code buffer at which live references must be
/// findable by the garbage collector.
#[derive(Clone, Debug, PartialEq, Eq)]
pub struct StackMapRecord {
    /// Byte offset of the position described (the return address of a
    /// call), possibly one past the last code byte.
    pub offset: u32,
    /// Frame-word indices that hold live references at that position.
    pub live_words: Vec<u32>,
}

/// Machine code and its records, as handed back by one successful cycle.
#[derive(Debug)]
pub struct CompiledFuncOutput {
    /// The machine-code bytes.
    pub code: Vec<u8>,
    /// Relocation records, non-decreasing in `offset`.
    pub relocs: Vec<RelocRecord>,
    /// Stack-map records, non-decreasing in `offset`.
    pub stackmaps: Vec<StackMapRecord>,
}

/// The relocation list is non-decreasing in byte offset.
pub open spec fn spec_relocs_ordered(rs: Seq<RelocRecord>) -> bool {
    forall|i: int, j: int| 0 <= i <= j < rs.len() ==> rs[i].offset <= rs[j].offset
}

/// The stack-map list is non-decreasing in byte offset.
pub open spec fn spec_stackmaps_ordered(ss: Seq<StackMapRecord>) -> bool {
    forall|i: int, j: int| 0 <= i <= j < ss.len() ==> ss[i].offset <= ss[j].offset
}

impl CompiledFuncOutput {
    /// An empty output: no code, no records.
    pub open spec fn spec_is_empty(self) -> bool {
        self.code@.len() == 0 && self.relocs@.len() == 0 && self.stackmaps@.len() == 0
    }

    /// Well-formed output, for a cycle that requested stack maps iff
    /// `stackmaps_requested`: both record lists are ordered and within the
    /// code buffer, and stack-map records only appear when they were asked
    /// for.  A relocation patches bytes, so it must lie strictly inside the
    /// buffer; a stack map describes a return address, which may be one past
    /// the end.
    pub open spec fn spec_wf(self, stackmaps_requested: bool) -> bool {
        &&& spec_relocs_ordered(self.relocs@)
        &&& spec_stackmaps_ordered(self.stackmaps@)
        &&& forall|i: int|
            0 <= i < self.relocs@.len()
                ==> (#[trigger] self.relocs@[i]).offset < self.code@.len()
        &&& forall|i: int|
            0 <= i < self.stackmaps@.len()
                ==> (#[trigger] self.stackmaps@[i]).offset <= self.code@.len()
        &&& (!stackmaps_requested ==> self.stackmaps@.len() == 0)
    }

    /// Decide well-formedness of an output handed back by the lowering
    /// stage.
    pub fn well_formed(&self, stackmaps_requested: bool) -> (r: bool)
        ensures
            r == self.spec_wf(stackmaps_requested),
    {
        if !stackmaps_requested && self.stackmaps.len() > 0 {
            return false;
        }
        let code_len = self.code.len();
        let mut i: usize = 0;
        while i < self.relocs.len()
            invariant
                0 <= i <= self.relocs@.len(),
                code_len == self.code@.len(),
                forall|a: int, b: int|
                    0 <= a <= b < i ==> self.relocs@[a].offset <= self.relocs@[b].offset,
                forall|a: int|
                    0 <= a < i ==> (#[trigger] self.relocs@[a]).offset < self.code@.len(),
            decreases self.relocs@.len() - i,
        {
            if self.relocs[i].offset as usize >= code_len {
                return false;
            }
            if i > 0 && self.relocs[i - 1].offset > self.relocs[i].offset {
                return false;
            }
            i += 1;
        }
        let mut i: usize = 0;
        while i < self.stackmaps.len()
            invariant
                0 <= i <= self.stackmaps@.len(),
                code_len == self.code@.len(),
                forall|a: int, b: int|
                    0 <= a <= b < i ==> self.stackmaps@[a].offset <= self.stackmaps@[b].offset,
                forall|a: int|
                    0 <= a < i ==> (#[trigger] self.stackmaps@[a]).offset <= self.code@.len(),
            decreases self.stackmaps@.len() - i,
        {
            if self.stackmaps[i].offset as usize > code_len {
                return false;
            }
            if i > 0 && self.stackmaps[i - 1].offset > self.stackmaps[i].offset {
                return false;
            }
            i += 1;
        }
        true
    }
}

/// Value equality of two outputs, stated over their views: same code bytes
/// and the same records in the same order.
pub open spec fn spec_output_equal(a: CompiledFuncOutput, b: CompiledFuncOutput) -> bool {
    &&& a.code@ == b.code@
    &&& a.relocs@ == b.relocs@
    &&& a.stackmaps@.len() == b.stackmaps@.len()
    &&& forall|i: int|
        0 <= i < a.stackmaps@.len()
            ==> (#[trigger] a.stackmaps@[i]).offset == b.stackmaps@[i].offset
                && a.stackmaps@[i].live_words@ == b.stackmaps@[i].live_words@
}

/// Copy a list of frame-word indices.
fn copy_live_words(src: &Vec<u32>) -> (r: Vec<u32>)
    ensures
        r@ == src@,
{
    let mut out: Vec<u32> = Vec::new();
    let mut i: usize = 0;
    while i < src.len()
        invariant
            0 <= i <= src@.len(),
            out@ == src@.subrange(0, i as int),
        decreases src@.len() - i,
    {
        out.push(src[i]);
        proof {
            assert(out@ =~= src@.subrange(0, i + 1 as int));
        }
        i += 1;
    }
    proof {
        assert(out@ =~= src@);
    }
    out
}

/// Copy an output, so that ownership of the result can transfer to the
/// caller while the orchestrator keeps its own record.
pub fn copy_output(src: &CompiledFuncOutput) -> (r: CompiledFuncOutput)
    ensures
        spec_output_equal(r, *src),
{
    let mut code: Vec<u8> = Vec::new();
    let mut i: usize = 0;
    while i < src.code.len()
        invariant
            0 <= i <= src.code@.len(),
            code@ == src.code@.subrange(0, i as int),
        decreases src.code@.len() - i,
    {
        code.push(src.code[i]);
        proof {
            assert(code@ =~= src.code@.subrange(0, i + 1 as int));
        }
        i += 1;
    }
    proof {
        assert(code@ =~= src.code@);
    }
    let mut relocs: Vec<RelocRecord> = Vec::new();
    let mut i: usize = 0;
    while i < src.relocs.len()
        invariant
            0 <= i <= src.relocs@.len(),
            relocs@ == src.relocs@.subrange(0, i as int),
        decreases src.relocs@.len() - i,
    {
        relocs.push(src.relocs[i]);
        proof {
            assert(relocs@ =~= src.relocs@.subrange(0, i + 1 as int));
        }
        i += 1;
    }
    proof {
        assert(relocs@ =~= src.relocs@);
    }
    let mut stackmaps: Vec<StackMapRecord> = Vec::new();
    let mut i: usize = 0;
    while i < src.stackmaps.len()
        invariant
            0 <= i <= src.stackmaps@.len(),
            stackmaps@.len() == i,
            forall|k: int|
                0 <= k < i ==> (#[trigger] stackmaps@[k]).offset == src.stackmaps@[k].offset
                    && stackmaps@[k].live_words@ == src.stackmaps@[k].live_words@,
        decreases src.stackmaps@.len() - i,
    {
        let rec = StackMapRecord {
            offset: src.stackmaps[i].offset,
            live_words: copy_live_words(&src.stackmaps[i].live_words),
        };
        stackmaps.push(rec);
        i += 1;
    }
    CompiledFuncOutput { code, relocs, stackmaps }
}

/// An output equal in value to a well-formed output is itself well formed.
pub proof fn lemma_output_equal_preserves_wf(
    a: CompiledFuncOutput,
    b: CompiledFuncOutput,
    stackmaps_requested: bool,
)
    requires
        spec_output_equal(a, b),
        b.spec_wf(stackmaps_requested),
    ensures
        a.spec_wf(stackmaps_requested),
{
    assert forall|i: int, j: int| 0 <= i <= j < a.stackmaps@.len() implies a.stackmaps@[i].offset
        <= a.stackmaps@[j].offset by {
        assert(a.stackmaps@[i].offset == b.stackmaps@[i].offset);
        assert(a.stackmaps@[j].offset == b.stackmaps@[j].offset);
    }
    assert forall|i: int| 0 <= i < a.stackmaps@.len() implies (#[trigger] a.stackmaps@[i]).offset
        <= a.code@.len() by {
        assert(a.stackmaps@[i].offset == b.stackmaps@[i].offset);
    }
}

} // verus!
