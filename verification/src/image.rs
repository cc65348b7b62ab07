//! The image model: immutable creation attributes, the tracked
//! synchronization state, and the two lifecycles an image can have. An
//! *owned* image carries its backing allocation and is destroyed together
//! with it; a *wrapped* image (a swapchain image) has no allocation here and
//! only its view is ever destroyed by this core.
//!
//! The device handles are carried as opaque identifiers; the unverified
//! driver creates them and maps them back to real objects.

use vstd::prelude::*;

use crate::sync_state::ImageLayoutState;
use crate::sync_state::spec_ignored;
use crate::types::ASPECT_COLOR;
use crate::types::ASPECT_DEPTH;
use crate::types::Extent2d;
use crate::types::Extent3d;
use crate::types::Format;
use crate::types::IMAGE_USAGE_COLOR_ATTACHMENT;
use crate::types::IMAGE_USAGE_DEPTH_STENCIL_ATTACHMENT;
use crate::types::IMAGE_USAGE_TRANSFER_SRC;
use crate::types::MemoryLocation;

verus! {

/// The subresources of an image a barrier or view covers.
#[derive(Clone, Copy, PartialEq, Eq, Structural, Debug)]
pub struct SubresourceRange {
    pub aspect: u32,
    pub base_mip_level: u32,
    pub level_count: u32,
    pub base_array_layer: u32,
    pub layer_count: u32,
}

/// The subresource layers a blit or copy addresses, derived from the range
/// the image was created with so aspect handling stays consistent.
#[derive(Clone, Copy, PartialEq, Eq, Structural, Debug)]
pub struct SubresourceLayers {
    pub aspect: u32,
    pub mip_level: u32,
    pub base_array_layer: u32,
    pub layer_count: u32,
}

/// The immutable attributes an image is created with.
#[derive(Clone, Copy, PartialEq, Eq, Structural, Debug)]
pub struct ImageAttributes {
    pub location: MemoryLocation,
    pub linear: bool,
    pub extent: Extent3d,
    pub format: Format,
    pub usage: u32,
    pub subresource_range: SubresourceRange,
}

/// A device image together with its tracked synchronization state.
#[derive(Clone, Copy, PartialEq, Eq, Structural, Debug)]
pub struct Image {
    /// Opaque identifier of the device image object.
    pub handle: u64,
    /// Identifier of the backing allocation; `None` for wrapped images whose
    /// memory is owned elsewhere (the swapchain).
    pub allocation: Option<u64>,
    /// Opaque identifier of the image view created for this image.
    pub view: u64,
    /// The synchronization state the last recorded command left this image
    /// in; not necessarily what the device has already executed.
    pub layout: ImageLayoutState,
    pub attributes: ImageAttributes,
}

/// A subresource range covering the first mip level and array layer of the
/// given aspect: the shape every image of this core is created with.
pub open spec fn spec_single_layer_range(aspect: u32) -> SubresourceRange {
    SubresourceRange {
        aspect,
        base_mip_level: 0,
        level_count: 1,
        base_array_layer: 0,
        layer_count: 1,
    }
}

/// The fixed attribute policy for a render target: a device-local color
/// attachment that can also be the source of the resolution blit.
pub open spec fn spec_render_target_attributes(extent: Extent2d, format: Format) -> ImageAttributes {
    ImageAttributes {
        location: MemoryLocation::GpuOnly,
        linear: false,
        extent: Extent3d { width: extent.width, height: extent.height, depth: 1 },
        format,
        usage: IMAGE_USAGE_COLOR_ATTACHMENT | IMAGE_USAGE_TRANSFER_SRC,
        subresource_range: spec_single_layer_range(ASPECT_COLOR),
    }
}

/// The fixed attribute policy for a depth buffer: a device-local
/// depth/stencil attachment.
pub open spec fn spec_depth_buffer_attributes(extent: Extent2d, format: Format) -> ImageAttributes {
    ImageAttributes {
        location: MemoryLocation::GpuOnly,
        linear: false,
        extent: Extent3d { width: extent.width, height: extent.height, depth: 1 },
        format,
        usage: IMAGE_USAGE_DEPTH_STENCIL_ATTACHMENT,
        subresource_range: spec_single_layer_range(ASPECT_DEPTH),
    }
}

/// The attribute policy for a render target, as a value the driver can
/// create the device image from.
pub fn render_target_attributes(extent: Extent2d, format: Format) -> (r: ImageAttributes)
    ensures
        r == spec_render_target_attributes(extent, format),
{
    ImageAttributes {
        location: MemoryLocation::GpuOnly,
        linear: false,
        extent: Extent3d { width: extent.width, height: extent.height, depth: 1 },
        format,
        usage: IMAGE_USAGE_COLOR_ATTACHMENT | IMAGE_USAGE_TRANSFER_SRC,
        subresource_range: SubresourceRange {
            aspect: ASPECT_COLOR,
            base_mip_level: 0,
            level_count: 1,
            base_array_layer: 0,
            layer_count: 1,
        },
    }
}

/// The attribute policy for a depth buffer, as a value the driver can create
/// the device image from.
pub fn depth_buffer_attributes(extent: Extent2d, format: Format) -> (r: ImageAttributes)
    ensures
        r == spec_depth_buffer_attributes(extent, format),
{
    ImageAttributes {
        location: MemoryLocation::GpuOnly,
        linear: false,
        extent: Extent3d { width: extent.width, height: extent.height, depth: 1 },
        format,
        usage: IMAGE_USAGE_DEPTH_STENCIL_ATTACHMENT,
        subresource_range: SubresourceRange {
            aspect: ASPECT_DEPTH,
            base_mip_level: 0,
            level_count: 1,
            base_array_layer: 0,
            layer_count: 1,
        },
    }
}

impl Image {
    /// Adopts a freshly created, owned image: the allocation is recorded so
    /// destruction frees it, and the tracked state starts as undefined.
    pub fn new(handle: u64, view: u64, allocation: u64, attributes: ImageAttributes) -> (img: Image)
        ensures
            img == (Image {
                handle,
                allocation: Some(allocation),
                view,
                layout: spec_ignored(),
                attributes,
            }),
    {
        Image { handle, allocation: Some(allocation), view, layout: ImageLayoutState::ignored(), attributes }
    }

    /// An owned image under the render-target policy.
    pub fn new_render_target(
        handle: u64,
        view: u64,
        allocation: u64,
        extent: Extent2d,
        format: Format,
    ) -> (img: Image)
        ensures
            img == (Image {
                handle,
                allocation: Some(allocation),
                view,
                layout: spec_ignored(),
                attributes: spec_render_target_attributes(extent, format),
            }),
    {
        Image::new(handle, view, allocation, render_target_attributes(extent, format))
    }

    /// An owned image under the depth-buffer policy.
    pub fn new_depth_buffer(
        handle: u64,
        view: u64,
        allocation: u64,
        extent: Extent2d,
        format: Format,
    ) -> (img: Image)
        ensures
            img == (Image {
                handle,
                allocation: Some(allocation),
                view,
                layout: spec_ignored(),
                attributes: spec_depth_buffer_attributes(extent, format),
            }),
    {
        Image::new(handle, view, allocation, depth_buffer_attributes(extent, format))
    }

    /// Adopts an externally owned image (a swapchain image): no allocation is
    /// recorded, so destruction releases only the view.
    pub fn wrap(handle: u64, view: u64, attributes: ImageAttributes) -> (img: Image)
        ensures
            img == (Image { handle, allocation: None, view, layout: spec_ignored(), attributes }),
    {
        Image { handle, allocation: None, view, layout: ImageLayoutState::ignored(), attributes }
    }

    /// Forces the tracked state back to undefined. Required once per frame
    /// for any image whose device contents were invalidated outside this
    /// tracker's view (presentation, a reset), since the tracker cannot
    /// observe the device.
    pub fn reset_layout(&mut self)
        ensures
            *final(self) == (Image { layout: spec_ignored(), ..*old(self) }),
    {
        self.layout = ImageLayoutState::ignored();
    }

    /// Retires the image: gives up the backing allocation exactly once. The
    /// driver must destroy the view in every case, and additionally destroy
    /// the image object and free the returned allocation when one is
    /// returned; a wrapped image yields none, its handle stays with its
    /// owner.
    pub fn destroy(&mut self) -> (freed: Option<u64>)
        ensures
            freed == old(self).allocation,
            *final(self) == (Image { allocation: None, ..*old(self) }),
    {
        let freed = self.allocation;
        self.allocation = None;
        freed
    }

    /// The subresource layers for blits and copies, derived from the range
    /// the image was created with.
    pub fn subresource_layers(&self) -> (r: SubresourceLayers)
        ensures
            r == (SubresourceLayers {
                aspect: self.attributes.subresource_range.aspect,
                mip_level: self.attributes.subresource_range.base_mip_level,
                base_array_layer: self.attributes.subresource_range.base_array_layer,
                layer_count: self.attributes.subresource_range.layer_count,
            }),
    {
        SubresourceLayers {
            aspect: self.attributes.subresource_range.aspect,
            mip_level: self.attributes.subresource_range.base_mip_level,
            base_array_layer: self.attributes.subresource_range.base_array_layer,
            layer_count: self.attributes.subresource_range.layer_count,
        }
    }
}

} // verus!
