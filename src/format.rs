use vstd::prelude::*;

verus! {

/// Pixel formats that the attachments of the deferred pass are created with.
#[derive(Clone, Copy, Debug, PartialEq, Eq, Structural)]
pub enum PixelFormat {
    /// 10:10:10:2 unsigned normalized color.
    A2B10G10R10UnormPack32,
    /// 16-bit unsigned normalized single channel.
    R16Unorm,
    /// 16-bit float RGBA.
    R16G16B16A16Sfloat,
    /// 16-bit unsigned normalized depth.
    D16Unorm,
    /// 32-bit float depth.
    D32Sfloat,
    /// 8-bit RGBA, unsigned normalized.
    R8G8B8A8Unorm,
    /// 8-bit RGBA, sRGB encoded.
    R8G8B8A8Srgb,
    /// 8-bit BGRA, unsigned normalized.
    B8G8R8A8Unorm,
    /// 8-bit BGRA, sRGB encoded.
    B8G8R8A8Srgb,
    /// Any other format, by the backend's numeric code.
    Other(u32),
}

/// How an image may be used by the GPU.
#[derive(Clone, Copy, Debug, PartialEq, Eq, Structural)]
pub struct ImageUsage {
    pub transfer_source: bool,
    pub transfer_destination: bool,
    pub sampled: bool,
    pub storage: bool,
    pub color_attachment: bool,
    pub depth_stencil_attachment: bool,
    pub transient_attachment: bool,
    pub input_attachment: bool,
}

impl ImageUsage {
    pub open spec fn is_none(self) -> bool {
        !self.transfer_source && !self.transfer_destination && !self.sampled && !self.storage
            && !self.color_attachment && !self.depth_stencil_attachment
            && !self.transient_attachment && !self.input_attachment
    }

    /// Only `transient_attachment` and `input_attachment` are set: the image is
    /// read within the frame that wrote it and never leaves GPU-local memory.
    pub open spec fn is_transient_input(self) -> bool {
        !self.transfer_source && !self.transfer_destination && !self.sampled && !self.storage
            && !self.color_attachment && !self.depth_stencil_attachment
            && self.transient_attachment && self.input_attachment
    }

    /// No usage at all.
    pub fn none() -> (r: ImageUsage)
        ensures
            r.is_none(),
    {
        ImageUsage {
            transfer_source: false,
            transfer_destination: false,
            sampled: false,
            storage: false,
            color_attachment: false,
            depth_stencil_attachment: false,
            transient_attachment: false,
            input_attachment: false,
        }
    }

    /// The usage of a G-buffer attachment: transient and input attachment only.
    pub fn transient_input() -> (r: ImageUsage)
        ensures
            r.is_transient_input(),
    {
        ImageUsage { transient_attachment: true, input_attachment: true, ..ImageUsage::none() }
    }
}

} // verus!
