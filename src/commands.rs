use vstd::prelude::*;

verus! {

/// One step of a frame, in the order in which the GPU work is recorded.
#[derive(Clone, Copy, Debug, PartialEq, Eq, Structural)]
pub enum Command {
    /// Opens the frame's single compute pass.
    BeginComputePass,
    /// Binds the pipeline of the given unit of the user shader set.
    SetComputePipeline { unit: usize },
    /// Binds resource group `group` of the given unit at index `group`.
    SetComputeBindGroup { unit: usize, group: u32 },
    /// Dispatches the bound compute pipeline.
    DispatchWorkgroups { x: u32, y: u32, z: u32 },
    EndComputePass,
    /// Opens a render pass on the acquired image; `clear_to_black` and
    /// `store` give its load and store operations.
    BeginRenderPass { clear_to_black: bool, store: bool },
    /// Binds the fixed full-screen-quad pipeline.
    SetRenderPipeline,
    /// Binds the resource group that samples the texture with this id.
    SetRenderBindGroup { index: u32, texture: u64 },
    Draw { vertices: u32, instances: u32 },
    EndRenderPass,
    /// Submits the frame's command buffer to the queue.
    Submit,
    /// Presents the acquired image.
    Present,
}

/// How many commands of `s` satisfy `p`.
pub open spec fn occurrences(s: Seq<Command>, p: spec_fn(Command) -> bool) -> nat
    decreases s.len(),
{
    if s.len() == 0 {
        0
    } else {
        occurrences(s.drop_last(), p) + if p(s.last()) { 1nat } else { 0nat }
    }
}

pub proof fn lemma_occurrences_add(a: Seq<Command>, b: Seq<Command>, p: spec_fn(Command) -> bool)
    ensures
        occurrences(a + b, p) == occurrences(a, p) + occurrences(b, p),
    decreases b.len(),
{
    if b.len() == 0 {
        assert(a + b =~= a);
    } else {
        assert((a + b).drop_last() =~= a + b.drop_last());
        lemma_occurrences_add(a, b.drop_last(), p);
    }
}

pub proof fn lemma_occurrences_single(c: Command, p: spec_fn(Command) -> bool)
    ensures
        occurrences(seq![c], p) == if p(c) { 1nat } else { 0nat },
{
    assert(seq![c].drop_last() =~= Seq::<Command>::empty());
    assert(occurrences(Seq::<Command>::empty(), p) == 0);
    assert(seq![c].last() == c);
}

pub proof fn lemma_occurrences_none(s: Seq<Command>, p: spec_fn(Command) -> bool)
    requires
        forall|i: int| 0 <= i < s.len() ==> !p(#[trigger] s[i]),
    ensures
        occurrences(s, p) == 0,
    decreases s.len(),
{
    if s.len() > 0 {
        lemma_occurrences_none(s.drop_last(), p);
    }
}

pub open spec fn is_dispatch(c: Command) -> bool {
    c is DispatchWorkgroups
}

pub open spec fn is_begin_compute(c: Command) -> bool {
    c is BeginComputePass
}

pub open spec fn is_submit(c: Command) -> bool {
    c is Submit
}

pub open spec fn is_present(c: Command) -> bool {
    c is Present
}

} // verus!
