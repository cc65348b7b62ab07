//! The swapchain model: negotiated format, extent and image count for a
//! surface, the wrapped presentable images, and the dirty flag that drives
//! recreation. The native object is created and presented by the driver; the
//! decisions — when to recreate, when a degenerate size defers recreation,
//! and how acquire/present outcomes move the dirty flag — live here.

use vstd::prelude::*;

use crate::image::Image;
use crate::image::ImageAttributes;
use crate::image::SubresourceRange;
use crate::image::spec_single_layer_range;
use crate::sync_state::spec_ignored;
use crate::types::ASPECT_COLOR;
use crate::types::Extent2d;
use crate::types::Extent3d;
use crate::types::Format;
use crate::types::IMAGE_USAGE_COLOR_ATTACHMENT;
use crate::types::IMAGE_USAGE_TRANSFER_DST;
use crate::types::MemoryLocation;

verus! {

/// A surface's `current_extent` width of this value means the surface takes
/// its size from the swapchain rather than dictating one.
pub const SURFACE_EXTENT_UNDETERMINED: u32 = 0xFFFF_FFFF;

/// What the surface reports about itself.
#[derive(Clone, Copy, PartialEq, Eq, Structural, Debug)]
pub struct SurfaceCapabilities {
    pub min_image_count: u32,
    /// Zero means the surface imposes no upper bound.
    pub max_image_count: u32,
    pub current_extent: Extent2d,
}

/// A presentation surface.
#[derive(Clone, Copy, PartialEq, Eq, Structural, Debug)]
pub struct Surface {
    /// Opaque identifier of the surface object.
    pub handle: u64,
    pub capabilities: SurfaceCapabilities,
}

/// Why a swapchain operation failed.
#[derive(Clone, Copy, PartialEq, Eq, Structural, Debug)]
pub enum SwapchainError {
    /// The device could not acquire an image.
    AcquireFailed,
    /// Presentation failed for a reason other than the surface being out of
    /// date.
    PresentFailed,
}

/// What the device reported for an acquire call.
#[derive(Clone, Copy, PartialEq, Eq, Structural, Debug)]
pub enum AcquireOutcome {
    /// An image is available; `suboptimal` flags a surface that no longer
    /// matches but is still usable.
    Acquired { image_index: u32, suboptimal: bool },
    /// The acquire failed.
    Failed,
}

/// What the device reported for a present call.
#[derive(Clone, Copy, PartialEq, Eq, Structural, Debug)]
pub enum PresentOutcome {
    /// The image was queued for presentation; `suboptimal` as for acquire.
    Presented { suboptimal: bool },
    /// The surface is out of date: not an error, but the swapchain must be
    /// recreated before the next acquire.
    OutOfDate,
    /// Presentation failed.
    Failed,
}

/// What a resize decided.
#[derive(Clone, Copy, PartialEq, Eq, Structural, Debug)]
pub enum ResizePlan {
    /// The window size is degenerate: nothing may be recreated now, and the
    /// dirty flag keeps its value.
    Deferred,
    /// The driver must create a new native swapchain, passing `old_handle`
    /// (zero when none existed) for resource reuse, destroy the old image
    /// views and the old handle, and install the new images.
    Recreate { old_handle: u64 },
}

/// The image count to ask of the surface: one more than the minimum, kept
/// within the surface's bounds.
pub open spec fn spec_desired_image_count(caps: SurfaceCapabilities) -> u32 {
    let hi = if caps.max_image_count == 0 {
        0xFFFF_FFFFu32
    } else {
        caps.max_image_count
    };
    if caps.min_image_count + 1 > hi {
        hi
    } else {
        (caps.min_image_count + 1) as u32
    }
}

/// The extent a fresh swapchain starts with: the surface's own when it
/// dictates one, the window's size otherwise.
pub open spec fn spec_initial_extent(caps: SurfaceCapabilities, window_size: Extent2d) -> Extent2d {
    if caps.current_extent.width != SURFACE_EXTENT_UNDETERMINED {
        caps.current_extent
    } else {
        window_size
    }
}

/// The presentable images owned by a surface, and the dirty flag that says
/// the native object no longer matches the window and must be recreated
/// before the next successful acquire.
pub struct Swapchain {
    pub desired_image_count: u32,
    pub format: Format,
    pub extent: Extent2d,
    /// The wrapped presentable images; their handles belong to the native
    /// swapchain, only the views are this core's to destroy.
    pub images: Vec<Image>,
    /// Opaque identifier of the native swapchain object; zero before the
    /// first recreation.
    pub handle: u64,
    pub surface: Surface,
    pub is_dirty: bool,
}

impl Swapchain {
    /// Negotiates format, extent and image count for a surface. The native
    /// object is not created yet: the swapchain starts dirty and `resize`
    /// must run at least once before use.
    pub fn new(surface: Surface, window_size: Extent2d) -> (sc: Swapchain)
        requires
            surface.capabilities.min_image_count < u32::MAX,
            surface.capabilities.max_image_count == 0
                || surface.capabilities.min_image_count <= surface.capabilities.max_image_count,
        ensures
            sc.desired_image_count == spec_desired_image_count(surface.capabilities),
            sc.format == Format::B8G8R8A8Srgb,
            sc.extent == spec_initial_extent(surface.capabilities, window_size),
            sc.images@ == Seq::<Image>::empty(),
            sc.handle == 0,
            sc.surface == surface,
            sc.is_dirty,
    {
        let extent = if surface.capabilities.current_extent.width != SURFACE_EXTENT_UNDETERMINED {
            surface.capabilities.current_extent
        } else {
            window_size
        };
        let hi = if surface.capabilities.max_image_count == 0 {
            u32::MAX
        } else {
            surface.capabilities.max_image_count
        };
        let wanted = surface.capabilities.min_image_count + 1;
        let desired_image_count = if wanted > hi {
            hi
        } else {
            wanted
        };
        Swapchain {
            desired_image_count,
            format: Format::B8G8R8A8Srgb,
            extent,
            images: Vec::new(),
            handle: 0,
            surface,
            is_dirty: true,
        }
    }

    /// The attribute policy for wrapping this swapchain's images: blit
    /// destinations and color attachments at the negotiated format and
    /// current extent, with externally owned memory.
    pub open spec fn spec_image_attributes(self) -> ImageAttributes {
        ImageAttributes {
            location: MemoryLocation::Unknown,
            linear: false,
            extent: Extent3d { width: self.extent.width, height: self.extent.height, depth: 1 },
            format: self.format,
            usage: IMAGE_USAGE_TRANSFER_DST | IMAGE_USAGE_COLOR_ATTACHMENT,
            subresource_range: spec_single_layer_range(ASPECT_COLOR),
        }
    }

    /// The attribute policy for wrapping this swapchain's images.
    pub fn image_attributes(&self) -> (r: ImageAttributes)
        ensures
            r == self.spec_image_attributes(),
    {
        ImageAttributes {
            location: MemoryLocation::Unknown,
            linear: false,
            extent: Extent3d { width: self.extent.width, height: self.extent.height, depth: 1 },
            format: self.format,
            usage: IMAGE_USAGE_TRANSFER_DST | IMAGE_USAGE_COLOR_ATTACHMENT,
            subresource_range: SubresourceRange {
                aspect: ASPECT_COLOR,
                base_mip_level: 0,
                level_count: 1,
                base_array_layer: 0,
                layer_count: 1,
            },
        }
    }

    /// Takes the window's current size and decides recreation. A degenerate
    /// size defers: the dirty flag keeps its value and the live image set is
    /// untouched, since a zero-extent swapchain is invalid. Otherwise the
    /// dirty flag clears and the driver must recreate, then hand the new
    /// images to `install_images`.
    pub fn resize(&mut self, window_size: Extent2d) -> (plan: ResizePlan)
        ensures
            final(self).extent == window_size,
            final(self).desired_image_count == old(self).desired_image_count,
            final(self).format == old(self).format,
            final(self).surface == old(self).surface,
            final(self).images@ == old(self).images@,
            final(self).handle == old(self).handle,
            window_size.spec_is_degenerate() ==> {
                &&& plan == ResizePlan::Deferred
                &&& final(self).is_dirty == old(self).is_dirty
            },
            !window_size.spec_is_degenerate() ==> {
                &&& plan == (ResizePlan::Recreate { old_handle: old(self).handle })
                &&& !final(self).is_dirty
            },
    {
        self.extent = window_size;
        if window_size.is_degenerate() {
            return ResizePlan::Deferred;
        }
        self.is_dirty = false;
        ResizePlan::Recreate { old_handle: self.handle }
    }

    /// Installs the native swapchain the driver created for a `Recreate`
    /// plan: adopts the new handle and wraps each enumerated image (given as
    /// an image handle and the view created for it) under this swapchain's
    /// image policy.
    pub fn install_images(&mut self, new_handle: u64, wrapped: Vec<(u64, u64)>)
        ensures
            final(self).handle == new_handle,
            final(self).desired_image_count == old(self).desired_image_count,
            final(self).format == old(self).format,
            final(self).extent == old(self).extent,
            final(self).surface == old(self).surface,
            final(self).is_dirty == old(self).is_dirty,
            final(self).images@.len() == wrapped@.len(),
            forall|i: int|
                0 <= i < wrapped@.len() ==> final(self).images@[i] == (Image {
                    handle: wrapped@[i].0,
                    allocation: None,
                    view: wrapped@[i].1,
                    layout: spec_ignored(),
                    attributes: old(self).spec_image_attributes(),
                }),
    {
        let attributes = self.image_attributes();
        let mut images: Vec<Image> = Vec::new();
        let n = wrapped.len();
        let mut i: usize = 0;
        while i < n
            invariant
                i <= n,
                n == wrapped@.len(),
                attributes == old(self).spec_image_attributes(),
                *self == *old(self),
                images@.len() == i,
                forall|j: int|
                    0 <= j < i ==> images@[j] == (Image {
                        handle: wrapped@[j].0,
                        allocation: None,
                        view: wrapped@[j].1,
                        layout: spec_ignored(),
                        attributes: old(self).spec_image_attributes(),
                    }),
            decreases n - i,
        {
            let (handle, view) = wrapped[i];
            images.push(Image::wrap(handle, view, attributes));
            i = i + 1;
        }
        self.handle = new_handle;
        self.images = images;
    }

    /// Folds the device's acquire outcome into the model: a suboptimal
    /// acquire marks the swapchain dirty but the returned index is still
    /// usable; a failure changes nothing and surfaces as an error.
    pub fn acquire_next_image(&mut self, outcome: AcquireOutcome) -> (r: Result<
        u32,
        SwapchainError,
    >)
        requires
            outcome matches AcquireOutcome::Acquired { image_index, .. } ==> image_index < old(
                self,
            ).images@.len(),
        ensures
            final(self).desired_image_count == old(self).desired_image_count,
            final(self).format == old(self).format,
            final(self).extent == old(self).extent,
            final(self).surface == old(self).surface,
            final(self).images@ == old(self).images@,
            final(self).handle == old(self).handle,
            outcome matches AcquireOutcome::Acquired { image_index, suboptimal } ==> {
                &&& r == Result::<u32, SwapchainError>::Ok(image_index)
                &&& final(self).is_dirty == (old(self).is_dirty || suboptimal)
            },
            outcome is Failed ==> {
                &&& r == Result::<u32, SwapchainError>::Err(SwapchainError::AcquireFailed)
                &&& final(self).is_dirty == old(self).is_dirty
            },
    {
        match outcome {
            AcquireOutcome::Acquired { image_index, suboptimal } => {
                if suboptimal {
                    self.is_dirty = true;
                }
                Ok(image_index)
            },
            AcquireOutcome::Failed => Err(SwapchainError::AcquireFailed),
        }
    }

    /// Folds the device's present outcome into the model: an out-of-date
    /// surface is not an error but marks the swapchain dirty, as does a
    /// suboptimal present; any other failure propagates unchanged.
    pub fn present(&mut self, outcome: PresentOutcome) -> (r: Result<(), SwapchainError>)
        ensures
            final(self).desired_image_count == old(self).desired_image_count,
            final(self).format == old(self).format,
            final(self).extent == old(self).extent,
            final(self).surface == old(self).surface,
            final(self).images@ == old(self).images@,
            final(self).handle == old(self).handle,
            outcome matches PresentOutcome::Presented { suboptimal } ==> {
                &&& r is Ok
                &&& final(self).is_dirty == (old(self).is_dirty || suboptimal)
            },
            outcome is OutOfDate ==> {
                &&& r is Ok
                &&& final(self).is_dirty
            },
            outcome is Failed ==> {
                &&& r == Result::<(), SwapchainError>::Err(SwapchainError::PresentFailed)
                &&& final(self).is_dirty == old(self).is_dirty
            },
    {
        match outcome {
            PresentOutcome::Presented { suboptimal } => {
                if suboptimal {
                    self.is_dirty = true;
                }
                Ok(())
            },
            PresentOutcome::OutOfDate => {
                self.is_dirty = true;
                Ok(())
            },
            PresentOutcome::Failed => Err(SwapchainError::PresentFailed),
        }
    }
}

} // verus!
