use vstd::prelude::*;
use crate::format::PixelFormat;

verus! {

/// Attachment index of the final output image.
pub const FINAL_COLOR: usize = 0;
/// Attachment index of the diffuse G-buffer image.
pub const DIFFUSE: usize = 1;
/// Attachment index of the specular G-buffer image.
pub const SPECULAR: usize = 2;
/// Attachment index of the normals G-buffer image.
pub const NORMALS: usize = 3;
/// Attachment index of the depth G-buffer image.
pub const DEPTH: usize = 4;

/// What happens to an attachment's contents when the render pass begins.
#[derive(Clone, Copy, Debug, PartialEq, Eq, Structural)]
pub enum LoadOp {
    Clear,
    Load,
    DontCare,
}

/// What happens to an attachment's contents when the render pass ends.
#[derive(Clone, Copy, Debug, PartialEq, Eq, Structural)]
pub enum StoreOp {
    Store,
    DontCare,
}

/// One attachment of the render pass.
#[derive(Clone, Copy, Debug, PartialEq, Eq, Structural)]
pub struct AttachmentDesc {
    pub load: LoadOp,
    pub store: StoreOp,
    pub format: PixelFormat,
    pub samples: u32,
}

/// One subpass: the attachments it writes as color, the one it depth-tests
/// against, and those it reads as inputs, by attachment index.
#[derive(Clone, Debug)]
pub struct SubpassDesc {
    pub color: Vec<usize>,
    pub depth_stencil: Option<usize>,
    pub input: Vec<usize>,
}

/// The description of a render pass: its attachments and its ordered
/// subpasses.
#[derive(Clone, Debug)]
pub struct RenderPassDesc {
    pub attachments: Vec<AttachmentDesc>,
    pub subpasses: Vec<SubpassDesc>,
}

/// A subpass of a render pass, by index, from which pipelines are built.
#[derive(Clone, Copy, Debug, PartialEq, Eq, Structural)]
pub struct Subpass {
    pub index: u32,
}

/// A subpass index outside the render pass.
#[derive(Clone, Copy, Debug, PartialEq, Eq, Structural)]
pub enum SubpassError {
    OutOfRange { index: u32, num_subpasses: usize },
}

/// An attachment cleared at the start of the pass, single-sampled.
pub open spec fn cleared(store: StoreOp, format: PixelFormat) -> AttachmentDesc {
    AttachmentDesc { load: LoadOp::Clear, store, format, samples: 1 }
}

impl RenderPassDesc {
    pub open spec fn num_subpasses_spec(self) -> nat {
        self.subpasses@.len()
    }

    /// The deferred-lighting layout with the final output in `final_format`.
    /// Attachments, in order: final output (clear, store), diffuse, specular
    /// and normals (clear, discard), depth (clear, discard). Subpass 0 writes
    /// diffuse, specular and normals and depth-tests against depth; subpass 1
    /// reads the four G-buffer images as inputs and writes the final output.
    pub open spec fn is_deferred(self, final_format: PixelFormat) -> bool {
        &&& self.attachments@ == seq![
            cleared(StoreOp::Store, final_format),
            cleared(StoreOp::DontCare, PixelFormat::A2B10G10R10UnormPack32),
            cleared(StoreOp::DontCare, PixelFormat::R16Unorm),
            cleared(StoreOp::DontCare, PixelFormat::R16G16B16A16Sfloat),
            cleared(StoreOp::DontCare, PixelFormat::D16Unorm),
        ]
        &&& self.subpasses@.len() == 2
        &&& self.subpasses@[0].color@ == seq![DIFFUSE, SPECULAR, NORMALS]
        &&& self.subpasses@[0].depth_stencil == Some(DEPTH)
        &&& self.subpasses@[0].input@ == Seq::<usize>::empty()
        &&& self.subpasses@[1].color@ == seq![FINAL_COLOR]
        &&& self.subpasses@[1].depth_stencil == None::<usize>
        &&& self.subpasses@[1].input@ == seq![DIFFUSE, SPECULAR, NORMALS, DEPTH]
    }

    /// Well formed: the deferred-lighting layout, whatever the final format.
    pub open spec fn wf(self) -> bool {
        self.attachments@.len() == 5 && self.is_deferred(self.attachments@[0].format)
    }

    pub fn num_subpasses(&self) -> (r: usize)
        ensures
            r == self.num_subpasses_spec(),
    {
        self.subpasses.len()
    }

    /// The subpass at `index`; an index at or past the number of subpasses is
    /// an error, never clamped.
    pub fn subpass(&self, index: u32) -> (r: Result<Subpass, SubpassError>)
        ensures
            (index as nat) < self.num_subpasses_spec() ==> r == Ok::<Subpass, SubpassError>(
                Subpass { index },
            ),
            (index as nat) >= self.num_subpasses_spec() ==> r == Err::<Subpass, SubpassError>(
                SubpassError::OutOfRange { index, num_subpasses: self.subpasses@.len() as usize },
            ),
    {
        let n = self.subpasses.len();
        if (index as usize) < n {
            Ok(Subpass { index })
        } else {
            Err(SubpassError::OutOfRange { index, num_subpasses: n })
        }
    }
}

fn attachment(store: StoreOp, format: PixelFormat) -> (r: AttachmentDesc)
    ensures
        r == cleared(store, format),
{
    AttachmentDesc { load: LoadOp::Clear, store, format, samples: 1 }
}

/// Builds the two-subpass deferred-lighting render pass; the final output
/// attachment has `final_output_format`.
pub fn deffered_lighting_render_pass(final_output_format: PixelFormat) -> (r: RenderPassDesc)
    ensures
        r.is_deferred(final_output_format),
        r.wf(),
{
    let mut attachments: Vec<AttachmentDesc> = Vec::new();
    attachments.push(attachment(StoreOp::Store, final_output_format));
    attachments.push(attachment(StoreOp::DontCare, PixelFormat::A2B10G10R10UnormPack32));
    attachments.push(attachment(StoreOp::DontCare, PixelFormat::R16Unorm));
    attachments.push(attachment(StoreOp::DontCare, PixelFormat::R16G16B16A16Sfloat));
    attachments.push(attachment(StoreOp::DontCare, PixelFormat::D16Unorm));

    let mut geometry_color: Vec<usize> = Vec::new();
    geometry_color.push(DIFFUSE);
    geometry_color.push(SPECULAR);
    geometry_color.push(NORMALS);
    let geometry = SubpassDesc {
        color: geometry_color,
        depth_stencil: Some(DEPTH),
        input: Vec::new(),
    };

    let mut lighting_color: Vec<usize> = Vec::new();
    lighting_color.push(FINAL_COLOR);
    let mut lighting_input: Vec<usize> = Vec::new();
    lighting_input.push(DIFFUSE);
    lighting_input.push(SPECULAR);
    lighting_input.push(NORMALS);
    lighting_input.push(DEPTH);
    let lighting = SubpassDesc { color: lighting_color, depth_stencil: None, input: lighting_input };

    let mut subpasses: Vec<SubpassDesc> = Vec::new();
    subpasses.push(geometry);
    subpasses.push(lighting);

    let r = RenderPassDesc { attachments, subpasses };
    assert(r.attachments@ =~= seq![
        cleared(StoreOp::Store, final_output_format),
        cleared(StoreOp::DontCare, PixelFormat::A2B10G10R10UnormPack32),
        cleared(StoreOp::DontCare, PixelFormat::R16Unorm),
        cleared(StoreOp::DontCare, PixelFormat::R16G16B16A16Sfloat),
        cleared(StoreOp::DontCare, PixelFormat::D16Unorm),
    ]);
    assert(r.subpasses@[0].color@ =~= seq![DIFFUSE, SPECULAR, NORMALS]);
    assert(r.subpasses@[0].input@ =~= Seq::<usize>::empty());
    assert(r.subpasses@[1].color@ =~= seq![FINAL_COLOR]);
    assert(r.subpasses@[1].input@ =~= seq![DIFFUSE, SPECULAR, NORMALS, DEPTH]);
    r
}

} // verus!
