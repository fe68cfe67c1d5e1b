use vstd::prelude::*;
use crate::gbuffer::GBuffer;
use crate::render_pass::{RenderPassDesc, Subpass};

verus! {

/// The value an attachment is cleared to when the render pass begins.
#[derive(Clone, Copy, Debug, PartialEq, Eq, Structural)]
pub enum ClearValue {
    /// All color channels zero, alpha zero.
    TransparentBlack,
    /// Depth 1.0, the far plane.
    DepthFar,
}

/// The clear value of each framebuffer attachment, in attachment order:
/// the final output and the three color G-buffer images clear to
/// transparent black, depth clears to far.
pub fn clear_values() -> (r: Vec<ClearValue>)
    ensures
        r@ == seq![
            ClearValue::TransparentBlack,
            ClearValue::TransparentBlack,
            ClearValue::TransparentBlack,
            ClearValue::TransparentBlack,
            ClearValue::DepthFar,
        ],
{
    let mut r: Vec<ClearValue> = Vec::new();
    r.push(ClearValue::TransparentBlack);
    r.push(ClearValue::TransparentBlack);
    r.push(ClearValue::TransparentBlack);
    r.push(ClearValue::TransparentBlack);
    r.push(ClearValue::DepthFar);
    assert(r@ =~= seq![
        ClearValue::TransparentBlack,
        ClearValue::TransparentBlack,
        ClearValue::TransparentBlack,
        ClearValue::TransparentBlack,
        ClearValue::DepthFar,
    ]);
    r
}

/// Holds the render pass and the G-buffer, and starts frames.
pub struct RenderSystem {
    render_pass: RenderPassDesc,
    gbuffer: GBuffer,
}

/// A frame in progress: how many subpasses the pass has, the stage cursor,
/// the size of the framebuffer, and whether starting it rebuilt the G-buffer.
/// Single use: a new frame is started for each logical frame.
#[derive(Debug)]
pub struct Frame {
    number_of_stages: u8,
    stage: u8,
    dims: [u32; 2],
    rebuilt: bool,
}

/// The handle to the subpass that a frame has just entered.
#[derive(Clone, Copy, Debug)]
pub struct Pass {
    /// Index of the subpass.
    pub index: u8,
    /// Whether the recording has to move on to the next subpass before
    /// commands for this one are recorded (every subpass but the first).
    pub enters_next_subpass: bool,
    /// Width and height of the framebuffer.
    pub dims: [u32; 2],
}

/// What a step of a frame yields.
#[derive(Clone, Copy, Debug)]
pub enum RenderPass {
    /// The next subpass, open for recording.
    SubPass(Pass),
    /// The pass is over: end the recording, and submit it chained after the
    /// frame's prior completion signal.
    Finished,
}

/// A misuse of a frame.
#[derive(Clone, Copy, Debug, PartialEq, Eq, Structural)]
pub enum FrameError {
    /// The handle is for a subpass that the frame is no longer in.
    StalePass { pass_index: u8, stage: u8 },
}

/// The stage cursor after one step: one more, held at the largest `u8`.
pub open spec fn advance(stage: u8) -> u8 {
    if stage < 255 {
        (stage + 1) as u8
    } else {
        255
    }
}

/// The subpass handle with the given index, for a framebuffer of size `dims`.
pub open spec fn pass_at(index: u8, dims: [u32; 2]) -> Pass {
    Pass { index, enters_next_subpass: index != 0, dims }
}

/// What the step from `stage` yields, in a pass of `n` subpasses: subpass
/// `stage` while `stage < n`, the end of the pass at `stage == n`, nothing
/// after that.
pub open spec fn step_outcome(stage: u8, n: u8, dims: [u32; 2]) -> Option<RenderPass> {
    if stage < n {
        Some(RenderPass::SubPass(pass_at(stage, dims)))
    } else if stage == n {
        Some(RenderPass::Finished)
    } else {
        None
    }
}

/// The stage cursor after `k` steps from the start.
pub open spec fn stage_after(k: nat) -> u8 {
    if k < 255 {
        k as u8
    } else {
        255
    }
}

impl Pass {
    /// Width and height of the framebuffer, for a full-framebuffer viewport.
    pub fn viewport_dimensions(&self) -> (r: [u32; 2])
        ensures
            r@ == self.dims@,
    {
        self.dims
    }

    /// Admits merging a secondary command stream through this handle: only
    /// while `frame` is still in the subpass that the handle was issued for.
    pub fn execute(&self, frame: &Frame) -> (r: Result<(), FrameError>)
        ensures
            r is Ok <==> (self.index as int) + 1 == frame.stage_spec() && frame.stage_spec()
                <= frame.stages_spec(),
            r is Err ==> r == Err::<(), FrameError>(
                FrameError::StalePass { pass_index: self.index, stage: frame.stage_spec() },
            ),
    {
        if (self.index as u16) + 1 == frame.stage as u16 && frame.stage <= frame.number_of_stages {
            Ok(())
        } else {
            Err(FrameError::StalePass { pass_index: self.index, stage: frame.stage })
        }
    }
}

impl Frame {
    pub closed spec fn stage_spec(self) -> u8 {
        self.stage
    }

    pub closed spec fn stages_spec(self) -> u8 {
        self.number_of_stages
    }

    pub closed spec fn dims_spec(self) -> [u32; 2] {
        self.dims
    }

    pub closed spec fn rebuilt_spec(self) -> bool {
        self.rebuilt
    }

    /// At least one subpass, and few enough that the held cursor can pass
    /// the end.
    pub open spec fn wf(self) -> bool {
        1 <= self.stages_spec() < 255
    }

    /// The stage cursor: how many steps have been taken.
    pub fn stage(&self) -> (r: u8)
        ensures
            r == self.stage_spec(),
    {
        self.stage
    }

    pub fn number_of_stages(&self) -> (r: u8)
        ensures
            r == self.stages_spec(),
    {
        self.number_of_stages
    }

    /// Width and height of the framebuffer.
    pub fn dimensions(&self) -> (r: [u32; 2])
        ensures
            r@ == self.dims_spec()@,
    {
        self.dims
    }

    /// Whether starting this frame rebuilt the G-buffer.
    pub fn rebuilt(&self) -> (r: bool)
        ensures
            r == self.rebuilt_spec(),
    {
        self.rebuilt
    }

    /// Takes one step: yields the outcome of the current stage (see
    /// `step_outcome`) and the stage it was taken from, and moves the cursor.
    pub fn next_pass(&mut self) -> (r: (Option<RenderPass>, u8))
        ensures
            r.0 == step_outcome(old(self).stage_spec(), old(self).stages_spec(), old(self).dims_spec()),
            r.1 == old(self).stage_spec(),
            final(self).stage_spec() == advance(old(self).stage_spec()),
            final(self).stages_spec() == old(self).stages_spec(),
            final(self).dims_spec() == old(self).dims_spec(),
            final(self).rebuilt_spec() == old(self).rebuilt_spec(),
    {
        let current = self.stage;
        if self.stage < 255 {
            self.stage = self.stage + 1;
        }
        if current < self.number_of_stages {
            let pass = Pass { index: current, enters_next_subpass: current != 0, dims: self.dims };
            (Some(RenderPass::SubPass(pass)), current)
        } else if current == self.number_of_stages {
            (Some(RenderPass::Finished), current)
        } else {
            (None, current)
        }
    }
}

impl RenderSystem {
    pub closed spec fn gbuffer_view(self) -> GBuffer {
        self.gbuffer
    }

    pub closed spec fn render_pass_view(self) -> RenderPassDesc {
        self.render_pass
    }

    pub open spec fn wf(self) -> bool {
        self.render_pass_view().wf() && self.gbuffer_view().wf()
    }

    /// Starting a frame for a target of size `dims` moves `self` to `next`
    /// and yields `f`: the G-buffer is kept when its size is `dims` and is
    /// otherwise rebuilt at `dims` from its own policy; the frame stands
    /// before its first subpass, with the pass's subpass count and size `dims`.
    pub open spec fn begins_frame(self, dims: [u32; 2], next: Self, f: Frame) -> bool {
        &&& next.render_pass_view() == self.render_pass_view()
        &&& if self.gbuffer_view().spec_dims()@ == dims@ {
            next.gbuffer_view() == self.gbuffer_view() && !f.rebuilt_spec()
        } else {
            next.gbuffer_view().is_built(self.gbuffer_view().builder, dims) && f.rebuilt_spec()
        }
        &&& f.stage_spec() == 0
        &&& f.stages_spec() as nat == self.render_pass_view().num_subpasses_spec()
        &&& f.dims_spec()@ == dims@
    }

    pub fn new(render_pass: RenderPassDesc, gbuffer: GBuffer) -> (r: Self)
        requires
            render_pass.wf(),
            gbuffer.wf(),
        ensures
            r.render_pass_view() == render_pass,
            r.gbuffer_view() == gbuffer,
            r.wf(),
    {
        RenderSystem { render_pass, gbuffer }
    }

    /// The G-buffer that frames currently draw into.
    pub fn gbuffer(&self) -> (r: &GBuffer)
        ensures
            *r == self.gbuffer_view(),
    {
        &self.gbuffer
    }

    /// The render pass description.
    pub fn render_pass(&self) -> (r: &RenderPassDesc)
        ensures
            *r == self.render_pass_view(),
    {
        &self.render_pass
    }

    /// The subpass at `index`, if the render pass has one there.
    pub fn get_subpass(&self, index: u32) -> (r: Option<Subpass>)
        ensures
            (index as nat) < self.render_pass_view().num_subpasses_spec() <==> r is Some,
            r is Some ==> r == Some(Subpass { index }),
    {
        match self.render_pass.subpass(index) {
            Ok(s) => Some(s),
            Err(_) => None,
        }
    }

    /// Starts a frame drawing into a target image of size `final_image_dims`,
    /// rebuilding the G-buffer first when its size differs.
    pub fn frame(&mut self, final_image_dims: [u32; 2]) -> (r: Frame)
        requires
            old(self).wf(),
        ensures
            old(self).begins_frame(final_image_dims, *final(self), r),
            final(self).wf(),
            r.wf(),
    {
        let img_dims = final_image_dims;
        let current = self.gbuffer.dims();
        let rebuilt = current[0] != img_dims[0] || current[1] != img_dims[1];
        if rebuilt {
            self.gbuffer.rebuild_with_dims(img_dims);
        } else {
            assert(current@ =~= img_dims@);
        }
        let n = self.render_pass.num_subpasses();
        Frame { number_of_stages: n as u8, stage: 0, dims: img_dims, rebuilt }
    }
}

/// A frame of an `n`-subpass pass takes `n + 1` meaningful steps: step `k`
/// yields subpass `k` for `k < n`, step `n` ends the pass, and every later
/// step yields nothing.
pub proof fn lemma_frame_steps(n: u8, k: nat, dims: [u32; 2])
    requires
        1 <= n < 255,
    ensures
        advance(stage_after(k)) == stage_after(k + 1),
        k < n ==> step_outcome(stage_after(k), n, dims) == Some(
            RenderPass::SubPass(pass_at(k as u8, dims)),
        ),
        k == n ==> step_outcome(stage_after(k), n, dims) == Some(RenderPass::Finished),
        k > n ==> step_outcome(stage_after(k), n, dims) == None::<RenderPass>,
{
}

/// No stale size survives a resize: after frames for targets of size `r1`
/// and then `r2`, all four G-buffer images have size `r2`.
pub proof fn lemma_resize_rebuilds(
    s0: RenderSystem,
    r1: [u32; 2],
    s1: RenderSystem,
    f1: Frame,
    r2: [u32; 2],
    s2: RenderSystem,
    f2: Frame,
)
    requires
        s0.wf(),
        s0.begins_frame(r1, s1, f1),
        s1.begins_frame(r2, s2, f2),
    ensures
        s2.gbuffer_view().diffuse.dims@ == r2@,
        s2.gbuffer_view().specular.dims@ == r2@,
        s2.gbuffer_view().normal.dims@ == r2@,
        s2.gbuffer_view().depth.dims@ == r2@,
        r1@ != r2@ ==> f2.rebuilt_spec(),
        r1@ == r2@ ==> !f2.rebuilt_spec() && s2.gbuffer_view() == s1.gbuffer_view(),
{
}

/// A subpass handle is live for exactly one step: the frame that yielded it
/// accepts it until its next step, and rejects it from then on.
pub proof fn lemma_pass_goes_stale(f0: Frame, p: Pass, f1: Frame, f2: Frame)
    requires
        f0.wf(),
        step_outcome(f0.stage_spec(), f0.stages_spec(), f0.dims_spec()) == Some(
            RenderPass::SubPass(p),
        ),
        f1.stage_spec() == advance(f0.stage_spec()),
        f1.stages_spec() == f0.stages_spec(),
        f2.stage_spec() == advance(f1.stage_spec()),
        f2.stages_spec() == f1.stages_spec(),
    ensures
        (p.index as int) + 1 == f1.stage_spec() && f1.stage_spec() <= f1.stages_spec(),
        !((p.index as int) + 1 == f2.stage_spec() && f2.stage_spec() <= f2.stages_spec()),
{
}

} // verus!
