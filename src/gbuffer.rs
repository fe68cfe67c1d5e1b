use vstd::prelude::*;
use crate::format::{ImageUsage, PixelFormat};

verus! {

/// What one attachment image of the G-buffer is: its size in pixels, its
/// usage and its pixel format. The GPU image itself is allocated from this
/// description by the device layer.
#[derive(Clone, Copy, Debug, PartialEq, Eq)]
pub struct ImageDesc {
    pub dims: [u32; 2],
    pub usage: ImageUsage,
    pub format: PixelFormat,
}

impl ImageDesc {
    /// The image has the given (usage, format) pair and size.
    pub open spec fn is(self, policy: (ImageUsage, PixelFormat), dims: [u32; 2]) -> bool {
        self.usage == policy.0 && self.format == policy.1 && self.dims@ == dims@
    }

    /// Width and height in pixels.
    pub fn dimensions(&self) -> (r: [u32; 2])
        ensures
            r@ == self.dims@,
    {
        self.dims
    }
}

/// The usage and format wanted for each of the four G-buffer attachments.
/// A plain value: it is copied into every G-buffer it builds, so that the
/// G-buffer can rebuild itself at another size.
#[derive(Clone, Copy, Debug, PartialEq, Eq)]
pub struct GBufferBuilder {
    pub diffuse_usage: (ImageUsage, PixelFormat),
    pub specular_usage: (ImageUsage, PixelFormat),
    pub normals_usage: (ImageUsage, PixelFormat),
    pub depth_usage: (ImageUsage, PixelFormat),
}

/// The four attachment images of the deferred pass, which always share one
/// size, and the policy that made them.
#[derive(Clone, Copy, Debug, PartialEq, Eq)]
pub struct GBuffer {
    pub diffuse: ImageDesc,
    pub specular: ImageDesc,
    pub normal: ImageDesc,
    pub depth: ImageDesc,
    pub builder: GBufferBuilder,
}

impl GBuffer {
    /// Each image has exactly the (usage, format) of `builder` for its role,
    /// all four have the size `dims`, and `builder` is the embedded policy.
    pub open spec fn is_built(self, builder: GBufferBuilder, dims: [u32; 2]) -> bool {
        &&& self.builder == builder
        &&& self.diffuse.is(builder.diffuse_usage, dims)
        &&& self.specular.is(builder.specular_usage, dims)
        &&& self.normal.is(builder.normals_usage, dims)
        &&& self.depth.is(builder.depth_usage, dims)
    }

    /// The size that the G-buffer reports: that of its diffuse image.
    pub open spec fn spec_dims(self) -> [u32; 2] {
        self.diffuse.dims
    }

    /// Well formed: the G-buffer is what its own policy builds at its size.
    pub open spec fn wf(self) -> bool {
        self.is_built(self.builder, self.spec_dims())
    }

    /// The size of the G-buffer in pixels.
    pub fn dims(&self) -> (r: [u32; 2])
        ensures
            r@ == self.spec_dims()@,
    {
        self.diffuse.dimensions()
    }

    /// Replaces the whole G-buffer by a fresh one built at `dims` from the
    /// embedded policy.
    pub fn rebuild_with_dims(&mut self, dims: [u32; 2])
        ensures
            final(self).is_built(old(self).builder, dims),
            final(self).spec_dims()@ == dims@,
            final(self).wf(),
    {
        *self = self.builder.build_with_dims(dims);
    }
}

impl GBufferBuilder {
    /// The default policy: diffuse 10:10:10:2 unorm, specular 16-bit unorm,
    /// normals 16-bit float RGBA, depth 16-bit unorm; all transient input
    /// attachments.
    pub open spec fn is_default(self) -> bool {
        &&& self.diffuse_usage.0.is_transient_input()
        &&& self.specular_usage.0.is_transient_input()
        &&& self.normals_usage.0.is_transient_input()
        &&& self.depth_usage.0.is_transient_input()
        &&& self.diffuse_usage.1 == PixelFormat::A2B10G10R10UnormPack32
        &&& self.specular_usage.1 == PixelFormat::R16Unorm
        &&& self.normals_usage.1 == PixelFormat::R16G16B16A16Sfloat
        &&& self.depth_usage.1 == PixelFormat::D16Unorm
    }

    /// Builds a G-buffer at the placeholder size 1x1, to have a valid set
    /// before the first real frame gives the size.
    pub fn build_no_dims(&self) -> (r: GBuffer)
        ensures
            r.is_built(*self, [1u32, 1u32]),
            r.wf(),
    {
        self.build_with_dims([1, 1])
    }

    /// Builds the four images at `dimensions` with this policy's usage and
    /// format for each role.
    pub fn build_with_dims(&self, dimensions: [u32; 2]) -> (r: GBuffer)
        ensures
            r.is_built(*self, dimensions),
            r.spec_dims()@ == dimensions@,
            r.wf(),
    {
        GBuffer {
            diffuse: ImageDesc {
                dims: dimensions,
                usage: self.diffuse_usage.0,
                format: self.diffuse_usage.1,
            },
            specular: ImageDesc {
                dims: dimensions,
                usage: self.specular_usage.0,
                format: self.specular_usage.1,
            },
            normal: ImageDesc {
                dims: dimensions,
                usage: self.normals_usage.0,
                format: self.normals_usage.1,
            },
            depth: ImageDesc {
                dims: dimensions,
                usage: self.depth_usage.0,
                format: self.depth_usage.1,
            },
            builder: *self,
        }
    }

    /// The default policy (see `is_default`).
    pub fn new_default() -> (r: Self)
        ensures
            r.is_default(),
    {
        let atch_usage = ImageUsage::transient_input();
        GBufferBuilder {
            diffuse_usage: (atch_usage, PixelFormat::A2B10G10R10UnormPack32),
            specular_usage: (atch_usage, PixelFormat::R16Unorm),
            normals_usage: (atch_usage, PixelFormat::R16G16B16A16Sfloat),
            depth_usage: (atch_usage, PixelFormat::D16Unorm),
        }
    }

    pub fn set_diffuse_usage(&mut self, atch_usage: ImageUsage, format: PixelFormat)
        ensures
            *final(self) == (GBufferBuilder { diffuse_usage: (atch_usage, format), ..*old(self) }),
    {
        self.diffuse_usage = (atch_usage, format);
    }

    pub fn set_specular_usage(&mut self, atch_usage: ImageUsage, format: PixelFormat)
        ensures
            *final(self) == (GBufferBuilder { specular_usage: (atch_usage, format), ..*old(self) }),
    {
        self.specular_usage = (atch_usage, format);
    }

    pub fn set_normals_usage(&mut self, atch_usage: ImageUsage, format: PixelFormat)
        ensures
            *final(self) == (GBufferBuilder { normals_usage: (atch_usage, format), ..*old(self) }),
    {
        self.normals_usage = (atch_usage, format);
    }

    pub fn set_depth_usage(&mut self, atch_usage: ImageUsage, format: PixelFormat)
        ensures
            *final(self) == (GBufferBuilder { depth_usage: (atch_usage, format), ..*old(self) }),
    {
        self.depth_usage = (atch_usage, format);
    }
}

/// Building reports back exactly the policy: each of the four images has
/// the usage and the format that the policy set for its role, and the size
/// asked for.
pub proof fn lemma_build_reports_policy(builder: GBufferBuilder, dims: [u32; 2], g: GBuffer)
    requires
        g.is_built(builder, dims),
    ensures
        g.diffuse.usage == builder.diffuse_usage.0 && g.diffuse.format == builder.diffuse_usage.1,
        g.specular.usage == builder.specular_usage.0 && g.specular.format
            == builder.specular_usage.1,
        g.normal.usage == builder.normals_usage.0 && g.normal.format == builder.normals_usage.1,
        g.depth.usage == builder.depth_usage.0 && g.depth.format == builder.depth_usage.1,
        g.diffuse.dims@ == dims@ && g.specular.dims@ == dims@ && g.normal.dims@ == dims@
            && g.depth.dims@ == dims@,
        g.wf(),
{
}

} // verus!
