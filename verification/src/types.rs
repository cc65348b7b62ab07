//! Plain-value forms of the device concepts the core reasons about: sizes,
//! formats, memory location classes and the flag constants for image and
//! buffer usage. Flag values match the numeric values of the corresponding
//! device API bits so the unverified driver can pass them through unchanged.

use vstd::prelude::*;

verus! {

/// A two-dimensional pixel size.
#[derive(Clone, Copy, PartialEq, Eq, Structural, Debug)]
pub struct Extent2d {
    pub width: u32,
    pub height: u32,
}

/// A three-dimensional texel size.
#[derive(Clone, Copy, PartialEq, Eq, Structural, Debug)]
pub struct Extent3d {
    pub width: u32,
    pub height: u32,
    pub depth: u32,
}

impl Extent2d {
    /// An extent is degenerate when either dimension is zero; such a size is
    /// not a valid surface or attachment size.
    pub open spec fn spec_is_degenerate(self) -> bool {
        self.width == 0 || self.height == 0
    }

    /// Decides whether either dimension is zero.
    pub fn is_degenerate(&self) -> (r: bool)
        ensures
            r == self.spec_is_degenerate(),
    {
        self.width == 0 || self.height == 0
    }
}

/// A signed three-dimensional texel position, as blit regions use.
#[derive(Clone, Copy, PartialEq, Eq, Structural, Debug)]
pub struct Offset3d {
    pub x: i32,
    pub y: i32,
    pub z: i32,
}

/// The sampling filter of a scaled blit.
#[derive(Clone, Copy, PartialEq, Eq, Structural, Debug)]
pub enum Filter {
    Nearest,
    Linear,
}

/// The pixel formats this core creates or negotiates.
#[derive(Clone, Copy, PartialEq, Eq, Structural, Debug)]
pub enum Format {
    B8G8R8A8Srgb,
    R8G8B8A8Unorm,
    R16G16B16A16Sfloat,
    D32Sfloat,
}

/// The location classes the allocator distinguishes.
#[derive(Clone, Copy, PartialEq, Eq, Structural, Debug)]
pub enum MemoryLocation {
    /// Device-only memory, not visible to the host.
    GpuOnly,
    /// Host-visible memory used to upload to the device.
    CpuToGpu,
    /// Host-visible memory used to read back from the device.
    GpuToCpu,
    /// Unknown placement; used for wrapped, externally owned resources.
    Unknown,
}

impl MemoryLocation {
    /// Host-mappable location classes: the host may write or read the bytes.
    pub open spec fn spec_is_host_mappable(self) -> bool {
        self == MemoryLocation::CpuToGpu || self == MemoryLocation::GpuToCpu
    }

    /// Decides whether memory in this location can be mapped by the host.
    pub fn is_host_mappable(&self) -> (r: bool)
        ensures
            r == self.spec_is_host_mappable(),
    {
        match self {
            MemoryLocation::CpuToGpu => true,
            MemoryLocation::GpuToCpu => true,
            _ => false,
        }
    }
}

/// Image aspect bit: color.
pub const ASPECT_COLOR: u32 = 0x1;

/// Image aspect bit: depth.
pub const ASPECT_DEPTH: u32 = 0x2;

/// Image aspect bit: stencil.
pub const ASPECT_STENCIL: u32 = 0x4;

/// Image usage bit: blit/copy source.
pub const IMAGE_USAGE_TRANSFER_SRC: u32 = 0x1;

/// Image usage bit: blit/copy destination.
pub const IMAGE_USAGE_TRANSFER_DST: u32 = 0x2;

/// Image usage bit: sampled from shaders.
pub const IMAGE_USAGE_SAMPLED: u32 = 0x4;

/// Image usage bit: color attachment.
pub const IMAGE_USAGE_COLOR_ATTACHMENT: u32 = 0x10;

/// Image usage bit: depth/stencil attachment.
pub const IMAGE_USAGE_DEPTH_STENCIL_ATTACHMENT: u32 = 0x20;

/// Buffer usage bit: copy source.
pub const BUFFER_USAGE_TRANSFER_SRC: u32 = 0x1;

/// Buffer usage bit: copy destination.
pub const BUFFER_USAGE_TRANSFER_DST: u32 = 0x2;

/// Buffer usage bit: uniform buffer.
pub const BUFFER_USAGE_UNIFORM_BUFFER: u32 = 0x10;

/// Buffer usage bit: index buffer.
pub const BUFFER_USAGE_INDEX_BUFFER: u32 = 0x40;

/// Buffer usage bit: vertex buffer.
pub const BUFFER_USAGE_VERTEX_BUFFER: u32 = 0x80;

/// Buffer usage bit: the buffer has a device-visible address.
pub const BUFFER_USAGE_SHADER_DEVICE_ADDRESS: u32 = 0x20000;

} // verus!
