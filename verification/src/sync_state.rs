//! The synchronization state tracked for every image, and the subset relation
//! on such states that decides when a layout barrier may be elided.
//!
//! A state records the access scope, image layout, pipeline stage scope and
//! queue family of the last command recorded against an image. The flag
//! constants carry the numeric values of the corresponding Vulkan bits so the
//! unverified driver can hand them to the device unchanged.

use vstd::prelude::*;

verus! {

/// Access scope bit: color-attachment writes.
pub const ACCESS_COLOR_ATTACHMENT_WRITE: u64 = 0x100;

/// Access scope bit: depth/stencil-attachment writes.
pub const ACCESS_DEPTH_STENCIL_ATTACHMENT_WRITE: u64 = 0x400;

/// Access scope bit: transfer reads (blit/copy sources).
pub const ACCESS_TRANSFER_READ: u64 = 0x800;

/// Access scope bit: transfer writes (blit/copy destinations).
pub const ACCESS_TRANSFER_WRITE: u64 = 0x1000;

/// Access scope bit: shader reads (sampled images).
pub const ACCESS_SHADER_READ: u64 = 0x20;

/// Access scope bit: any memory read.
pub const ACCESS_MEMORY_READ: u64 = 0x8000;

/// Access scope bit: any memory write.
pub const ACCESS_MEMORY_WRITE: u64 = 0x10000;

/// Stage scope: no pipeline stage.
pub const STAGE_NONE: u64 = 0;

/// Stage scope bit: early fragment tests (depth/stencil).
pub const STAGE_EARLY_FRAGMENT_TESTS: u64 = 0x100;

/// Stage scope bit: color-attachment output.
pub const STAGE_COLOR_ATTACHMENT_OUTPUT: u64 = 0x400;

/// Stage scope bit: fragment shading.
pub const STAGE_FRAGMENT_SHADER: u64 = 0x80;

/// Stage scope bit: transfer operations.
pub const STAGE_TRANSFER: u64 = 0x1000;

/// Stage scope: all commands.
pub const STAGE_ALL_COMMANDS: u64 = 0x10000;

/// Queue family index meaning "no particular family" in a state, and "no
/// ownership transfer" in a barrier.
pub const QUEUE_FAMILY_IGNORED: u32 = 0xFFFF_FFFF;

/// The layouts an image can be in on the device.
#[derive(Clone, Copy, PartialEq, Eq, Structural, Debug)]
pub enum ImageLayout {
    Undefined,
    General,
    ColorAttachmentOptimal,
    DepthStencilAttachmentOptimal,
    ShaderReadOnlyOptimal,
    TransferSrcOptimal,
    TransferDstOptimal,
    PresentSrc,
}

/// The synchronization state of an image: what the last recorded command
/// left it as. Tracked per image and consulted to compute minimal barriers.
#[derive(Clone, Copy, PartialEq, Eq, Structural, Debug)]
pub struct ImageLayoutState {
    pub access: u64,
    pub layout: ImageLayout,
    pub stage: u64,
    pub queue_family: u32,
}

/// Every bit set in `a` is also set in `b`.
pub open spec fn flags_subset(a: u64, b: u64) -> bool {
    a & b == a
}

impl ImageLayoutState {
    /// State `self` is a subset of state `other`: the layouts are equal,
    /// `other`'s access and stage scopes are (bitwise) supersets of `self`'s,
    /// and `self`'s queue family is either ignored or equal to `other`'s.
    pub open spec fn spec_is_subset_of(self, other: Self) -> bool {
        &&& self.layout == other.layout
        &&& flags_subset(self.access, other.access)
        &&& flags_subset(self.stage, other.stage)
        &&& (self.queue_family == QUEUE_FAMILY_IGNORED || self.queue_family == other.queue_family)
    }

    /// Decides the subset relation used to elide redundant barriers.
    pub fn is_subset_of(&self, other: Self) -> (r: bool)
        ensures
            r == self.spec_is_subset_of(other),
    {
        self.layout == other.layout && (self.access & other.access) == self.access && (self.stage
            & other.stage) == self.stage && (self.queue_family == QUEUE_FAMILY_IGNORED
            || self.queue_family == other.queue_family)
    }

    /// The state of an image whose device contents are undefined: nothing is
    /// promised and the next barrier discards the contents.
    pub fn ignored() -> (r: Self)
        ensures
            r == spec_ignored(),
    {
        ImageLayoutState {
            access: 0,
            layout: ImageLayout::Undefined,
            stage: STAGE_NONE,
            queue_family: QUEUE_FAMILY_IGNORED,
        }
    }

    /// The state required to render into an image as a color attachment.
    pub fn color_attachment() -> (r: Self)
        ensures
            r == spec_color_attachment(),
    {
        ImageLayoutState {
            access: ACCESS_COLOR_ATTACHMENT_WRITE,
            layout: ImageLayout::ColorAttachmentOptimal,
            stage: STAGE_COLOR_ATTACHMENT_OUTPUT,
            queue_family: QUEUE_FAMILY_IGNORED,
        }
    }

    /// The state required to use an image as a depth/stencil attachment.
    pub fn depth_stencil_attachment() -> (r: Self)
        ensures
            r == spec_depth_stencil_attachment(),
    {
        ImageLayoutState {
            access: ACCESS_DEPTH_STENCIL_ATTACHMENT_WRITE,
            layout: ImageLayout::DepthStencilAttachmentOptimal,
            stage: STAGE_EARLY_FRAGMENT_TESTS,
            queue_family: QUEUE_FAMILY_IGNORED,
        }
    }

    /// The state a swapchain image must be in to be presented.
    pub fn present() -> (r: Self)
        ensures
            r == spec_present(),
    {
        ImageLayoutState {
            access: ACCESS_TRANSFER_READ,
            layout: ImageLayout::PresentSrc,
            stage: STAGE_TRANSFER,
            queue_family: QUEUE_FAMILY_IGNORED,
        }
    }

    /// The state required of the destination of a blit or copy.
    pub fn transfer_destination() -> (r: Self)
        ensures
            r == spec_transfer_destination(),
    {
        ImageLayoutState {
            access: ACCESS_TRANSFER_WRITE,
            layout: ImageLayout::TransferDstOptimal,
            stage: STAGE_TRANSFER,
            queue_family: QUEUE_FAMILY_IGNORED,
        }
    }

    /// The state required of the source of a blit or copy.
    pub fn transfer_source() -> (r: Self)
        ensures
            r == spec_transfer_source(),
    {
        ImageLayoutState {
            access: ACCESS_TRANSFER_READ,
            layout: ImageLayout::TransferSrcOptimal,
            stage: STAGE_TRANSFER,
            queue_family: QUEUE_FAMILY_IGNORED,
        }
    }

    /// The state required to sample an image from a shader.
    pub fn shader_read() -> (r: Self)
        ensures
            r == spec_shader_read(),
    {
        ImageLayoutState {
            access: ACCESS_SHADER_READ,
            layout: ImageLayout::ShaderReadOnlyOptimal,
            stage: STAGE_FRAGMENT_SHADER,
            queue_family: QUEUE_FAMILY_IGNORED,
        }
    }
}

impl Default for ImageLayoutState {
    /// The most general state: any access, any stage, general layout.
    fn default() -> (r: Self)
        ensures
            r == spec_general(),
    {
        ImageLayoutState {
            access: ACCESS_MEMORY_READ | ACCESS_MEMORY_WRITE,
            layout: ImageLayout::General,
            stage: STAGE_ALL_COMMANDS,
            queue_family: QUEUE_FAMILY_IGNORED,
        }
    }
}

pub open spec fn spec_ignored() -> ImageLayoutState {
    ImageLayoutState {
        access: 0,
        layout: ImageLayout::Undefined,
        stage: STAGE_NONE,
        queue_family: QUEUE_FAMILY_IGNORED,
    }
}

pub open spec fn spec_color_attachment() -> ImageLayoutState {
    ImageLayoutState {
        access: ACCESS_COLOR_ATTACHMENT_WRITE,
        layout: ImageLayout::ColorAttachmentOptimal,
        stage: STAGE_COLOR_ATTACHMENT_OUTPUT,
        queue_family: QUEUE_FAMILY_IGNORED,
    }
}

pub open spec fn spec_depth_stencil_attachment() -> ImageLayoutState {
    ImageLayoutState {
        access: ACCESS_DEPTH_STENCIL_ATTACHMENT_WRITE,
        layout: ImageLayout::DepthStencilAttachmentOptimal,
        stage: STAGE_EARLY_FRAGMENT_TESTS,
        queue_family: QUEUE_FAMILY_IGNORED,
    }
}

pub open spec fn spec_present() -> ImageLayoutState {
    ImageLayoutState {
        access: ACCESS_TRANSFER_READ,
        layout: ImageLayout::PresentSrc,
        stage: STAGE_TRANSFER,
        queue_family: QUEUE_FAMILY_IGNORED,
    }
}

pub open spec fn spec_transfer_destination() -> ImageLayoutState {
    ImageLayoutState {
        access: ACCESS_TRANSFER_WRITE,
        layout: ImageLayout::TransferDstOptimal,
        stage: STAGE_TRANSFER,
        queue_family: QUEUE_FAMILY_IGNORED,
    }
}

pub open spec fn spec_transfer_source() -> ImageLayoutState {
    ImageLayoutState {
        access: ACCESS_TRANSFER_READ,
        layout: ImageLayout::TransferSrcOptimal,
        stage: STAGE_TRANSFER,
        queue_family: QUEUE_FAMILY_IGNORED,
    }
}

pub open spec fn spec_shader_read() -> ImageLayoutState {
    ImageLayoutState {
        access: ACCESS_SHADER_READ,
        layout: ImageLayout::ShaderReadOnlyOptimal,
        stage: STAGE_FRAGMENT_SHADER,
        queue_family: QUEUE_FAMILY_IGNORED,
    }
}

pub open spec fn spec_general() -> ImageLayoutState {
    ImageLayoutState {
        access: ACCESS_MEMORY_READ | ACCESS_MEMORY_WRITE,
        layout: ImageLayout::General,
        stage: STAGE_ALL_COMMANDS,
        queue_family: QUEUE_FAMILY_IGNORED,
    }
}

/// The subset relation is reflexive: every state is a subset of itself. This
/// is what makes a repeated transition to the same target state elidable.
pub proof fn lemma_subset_reflexive(s: ImageLayoutState)
    ensures
        s.spec_is_subset_of(s),
{
    assert(s.access & s.access == s.access) by (bit_vector);
    assert(s.stage & s.stage == s.stage) by (bit_vector);
}

} // verus!
