//! Pixel sample encodings and per-channel descriptors.

use vstd::prelude::*;

verus! {

/// The on-disk and in-memory encoding of one pixel sample.
///
/// The library carries every sample as a raw 32-bit pattern; the pixel type
/// records how those bits are to be interpreted.  For `HALF` only the low 16
/// bits of a sample are meaningful.
#[allow(non_camel_case_types)]
#[derive(Debug, Clone, Copy, PartialEq, Eq, Structural)]
pub enum PixelType {
    /// Unsigned 32-bit integer samples.
    UINT,
    /// 16-bit floating-point samples.
    HALF,
    /// 32-bit floating-point samples.
    FLOAT,
}

impl PixelType {
    /// Width in bytes of one sample of this type.
    pub open spec fn spec_bytes_per_sample(self) -> int {
        match self {
            PixelType::UINT => 4,
            PixelType::HALF => 2,
            PixelType::FLOAT => 4,
        }
    }

    /// Width in bytes of one sample of this type.
    pub fn bytes_per_sample(self) -> (r: usize)
        ensures
            r == self.spec_bytes_per_sample(),
    {
        match self {
            PixelType::UINT => 4,
            PixelType::HALF => 2,
            PixelType::FLOAT => 4,
        }
    }
}

/// Describes one named image channel as stored in a file header: its sample
/// encoding, its subsampling factors, and a linearity hint for lossy
/// compressors.
#[derive(Debug, Clone, Copy, PartialEq, Eq, Structural)]
pub struct Channel {
    /// Sample encoding of the channel.
    pub pixel_type: PixelType,
    /// Horizontal subsampling factor; 1 means full resolution.
    pub x_sampling: i32,
    /// Vertical subsampling factor; 1 means full resolution.
    pub y_sampling: i32,
    /// Hint that samples vary linearly with light level, for lossy
    /// compressors.
    pub p_linear: bool,
}

impl Channel {
    /// Subsampling factors are positive integers.
    pub open spec fn wf(self) -> bool {
        self.x_sampling >= 1 && self.y_sampling >= 1
    }

    /// A full-resolution channel of the given type with the default
    /// linearity hint.
    pub fn full_resolution(pixel_type: PixelType) -> (r: Channel)
        ensures
            r == (Channel { pixel_type, x_sampling: 1i32, y_sampling: 1i32, p_linear: true }),
            r.wf(),
    {
        Channel { pixel_type, x_sampling: 1, y_sampling: 1, p_linear: true }
    }

    /// Whether two channel descriptions agree where a header and a frame
    /// buffer must agree: same sample encoding and same subsampling.  The
    /// linearity hint does not take part in the comparison.
    pub open spec fn spec_compatible_with(self, other: Channel) -> bool {
        &&& self.pixel_type == other.pixel_type
        &&& self.x_sampling == other.x_sampling
        &&& self.y_sampling == other.y_sampling
    }

    /// Run-time check for [`Channel::spec_compatible_with`].
    pub fn compatible_with(&self, other: &Channel) -> (r: bool)
        ensures
            r == self.spec_compatible_with(*other),
    {
        self.pixel_type == other.pixel_type && self.x_sampling == other.x_sampling
            && self.y_sampling == other.y_sampling
    }
}

} // verus!
