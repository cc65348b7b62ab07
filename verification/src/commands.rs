//! The command recorder: a one-shot recording session whose result is the
//! exact sequence of commands to hand to the device. Recording is the only
//! place synchronization commands are emitted; `ensure_image_layout` computes
//! the minimal barrier from each image's tracked state and elides redundant
//! ones. Submitting consumes the recorder, so a session cannot be reused.

use vstd::prelude::*;

use crate::buffer::Buffer;
use crate::image::Image;
use crate::image::SubresourceLayers;
use crate::image::SubresourceRange;
use crate::sync_state::ImageLayout;
use crate::sync_state::ImageLayoutState;
use crate::sync_state::lemma_subset_reflexive;
use crate::sync_state::spec_color_attachment;
use crate::sync_state::spec_depth_stencil_attachment;
use crate::sync_state::spec_transfer_destination;
use crate::sync_state::spec_transfer_source;
use crate::types::Extent2d;
use crate::types::Extent3d;
use crate::types::Filter;
use crate::types::Offset3d;

verus! {

/// One recorded device command. The driver executes these in order against
/// the real command buffer; GPU execution order within a submission is
/// exactly this order.
#[derive(Clone, PartialEq, Eq, Debug)]
pub enum RecordedCommand {
    /// A pipeline barrier transitioning an image between two synchronization
    /// states.
    Barrier {
        image: u64,
        old_state: ImageLayoutState,
        new_state: ImageLayoutState,
        range: SubresourceRange,
    },
    /// A buffer-to-buffer copy of `size` bytes from `src_offset`.
    CopyBuffer { src: u64, dst: u64, src_offset: u64, size: u64 },
    /// A buffer-to-image copy filling the whole image extent.
    CopyBufferToImage {
        src: u64,
        src_offset: u64,
        dst: u64,
        dst_layout: ImageLayout,
        extent: Extent3d,
        layers: SubresourceLayers,
    },
    /// A filtered blit between two image regions.
    Blit {
        src: u64,
        src_layout: ImageLayout,
        src_layers: SubresourceLayers,
        src_from: Offset3d,
        src_to: Offset3d,
        dst: u64,
        dst_layout: ImageLayout,
        dst_layers: SubresourceLayers,
        dst_from: Offset3d,
        dst_to: Offset3d,
        filter: Filter,
    },
    /// Opens a render pass on a color attachment and a depth attachment,
    /// both cleared on load and stored on end.
    BeginRendering {
        color_view: u64,
        color_layout: ImageLayout,
        depth_view: u64,
        depth_layout: ImageLayout,
        render_area: Extent2d,
    },
    /// Closes the open render pass.
    EndRendering,
    SetViewport { extent: Extent2d },
    SetScissor { extent: Extent2d },
    BindPipeline { pipeline: u64 },
    /// Binds an index buffer; indices are always 32-bit.
    BindIndexBuffer { buffer: u64 },
    /// Sets push constants for the vertex and fragment stages.
    PushConstants { pipeline_layout: u64, bytes: Vec<u8> },
    Draw { first_vertex: u32, vertex_count: u32, first_instance: u32, instance_count: u32 },
    DrawIndexed { first_index: u32, index_count: u32, first_instance: u32, instance_count: u32 },
}

/// A finished recording session: everything the driver needs to submit. A
/// semaphore value of zero in a pair means no semaphore.
pub struct Submission {
    pub command_buffer: u64,
    pub ops: Vec<RecordedCommand>,
    /// Semaphore to wait on before execution, with its stage scope.
    pub wait_semaphore: (u64, u64),
    /// Semaphore to signal when execution finishes, with its stage scope.
    pub signal_semaphore: (u64, u64),
    /// Fence the device signals when this submission completes.
    pub fence: u64,
}

/// The barrier that transitions `image` from its tracked state to `target`.
pub open spec fn spec_barrier(image: Image, target: ImageLayoutState) -> RecordedCommand {
    RecordedCommand::Barrier {
        image: image.handle,
        old_state: image.layout,
        new_state: target,
        range: image.attributes.subresource_range,
    }
}

/// The commands recorded by a lazy transition of `image` to `target`:
/// nothing when the tracked state is already a subset of the target, exactly
/// one barrier otherwise.
pub open spec fn spec_ensure_ops(
    ops: Seq<RecordedCommand>,
    image: Image,
    target: ImageLayoutState,
) -> Seq<RecordedCommand> {
    if image.layout.spec_is_subset_of(target) {
        ops
    } else {
        ops.push(spec_barrier(image, target))
    }
}

/// The image after a lazy transition to `target`: untouched when elided,
/// tracked as `target` otherwise.
pub open spec fn spec_ensure_image(image: Image, target: ImageLayoutState) -> Image {
    if image.layout.spec_is_subset_of(target) {
        image
    } else {
        Image { layout: target, ..image }
    }
}

/// The blit command between `src` and `dst`, which the recorder always
/// issues with the images in the transfer-source and transfer-destination
/// layouts.
pub open spec fn spec_blit_command(
    src: Image,
    dst: Image,
    src_from: Offset3d,
    src_to: Offset3d,
    dst_from: Offset3d,
    dst_to: Offset3d,
    filter: Filter,
) -> RecordedCommand {
    RecordedCommand::Blit {
        src: src.handle,
        src_layout: ImageLayout::TransferSrcOptimal,
        src_layers: spec_layers_of(src),
        src_from,
        src_to,
        dst: dst.handle,
        dst_layout: ImageLayout::TransferDstOptimal,
        dst_layers: spec_layers_of(dst),
        dst_from,
        dst_to,
        filter,
    }
}

/// The subresource layers derived from an image's creation-time range.
pub open spec fn spec_layers_of(image: Image) -> SubresourceLayers {
    SubresourceLayers {
        aspect: image.attributes.subresource_range.aspect,
        mip_level: image.attributes.subresource_range.base_mip_level,
        base_array_layer: image.attributes.subresource_range.base_array_layer,
        layer_count: image.attributes.subresource_range.layer_count,
    }
}

/// The zero offset and the offset at an extent's far corner, the region a
/// whole-extent blit covers.
pub open spec fn spec_extent_offsets(extent: Extent3d) -> (Offset3d, Offset3d) {
    (
        Offset3d { x: 0, y: 0, z: 0 },
        Offset3d { x: extent.width as i32, y: extent.height as i32, z: extent.depth as i32 },
    )
}

/// A lazy transition of an image already in (a subset of) the target state
/// records nothing, so transitioning twice in a row to the same target
/// records the barrier at most once: the second call never emits one. A
/// transition from a state that is not a subset of the target records
/// exactly one barrier.
pub proof fn lemma_ensure_image_layout_idempotent(
    ops: Seq<RecordedCommand>,
    image: Image,
    target: ImageLayoutState,
)
    ensures
        spec_ensure_ops(spec_ensure_ops(ops, image, target), spec_ensure_image(image, target), target)
            == spec_ensure_ops(ops, image, target),
        spec_ensure_image(spec_ensure_image(image, target), target) == spec_ensure_image(
            image,
            target,
        ),
        !image.layout.spec_is_subset_of(target) ==> spec_ensure_ops(ops, image, target).len()
            == ops.len() + 1,
{
    if !image.layout.spec_is_subset_of(target) {
        lemma_subset_reflexive(target);
    }
}

/// A one-shot recording session against one command buffer.
pub struct Commands {
    /// Opaque identifier of the command buffer recorded into.
    pub command_buffer: u64,
    /// The commands recorded so far, in execution order.
    pub ops: Vec<RecordedCommand>,
}

impl Commands {
    /// Begins a fresh recording session: the driver resets the command
    /// buffer and begins one-time recording before executing the session.
    pub fn new(command_buffer: u64) -> (c: Commands)
        ensures
            c.command_buffer == command_buffer,
            c.ops@ == Seq::<RecordedCommand>::empty(),
    {
        Commands { command_buffer, ops: Vec::new() }
    }

    /// Unconditionally records a barrier from the image's tracked state to
    /// `new_state` and tracks the image as `new_state`. This is the
    /// primitive the lazy transition is built on.
    pub fn transition_image_layout(&mut self, image: &mut Image, new_state: ImageLayoutState)
        ensures
            final(self).command_buffer == old(self).command_buffer,
            final(self).ops@ == old(self).ops@.push(spec_barrier(*old(image), new_state)),
            *final(image) == (Image { layout: new_state, ..*old(image) }),
    {
        self.ops.push(
            RecordedCommand::Barrier {
                image: image.handle,
                old_state: image.layout,
                new_state,
                range: image.attributes.subresource_range,
            },
        );
        image.layout = new_state;
    }

    /// Lazily transitions the image: when its tracked state is already a
    /// subset of `new_state` nothing is recorded, otherwise exactly one
    /// barrier is. High-level operations call this unconditionally and rely
    /// on the elision.
    pub fn ensure_image_layout(&mut self, image: &mut Image, new_state: ImageLayoutState)
        ensures
            final(self).command_buffer == old(self).command_buffer,
            final(self).ops@ == spec_ensure_ops(old(self).ops@, *old(image), new_state),
            *final(image) == spec_ensure_image(*old(image), new_state),
    {
        let state = image.layout;
        if !state.is_subset_of(new_state) {
            self.transition_image_layout(image, new_state);
        }
    }

    /// Records a copy of the destination's whole declared size out of the
    /// source at `src_offset`.
    pub fn copy_buffer(&mut self, src_buffer: &Buffer, dst_buffer: &Buffer, src_offset: u64)
        ensures
            final(self).command_buffer == old(self).command_buffer,
            final(self).ops@ == old(self).ops@.push(
                RecordedCommand::CopyBuffer {
                    src: src_buffer.handle,
                    dst: dst_buffer.handle,
                    src_offset,
                    size: dst_buffer.attributes.size,
                },
            ),
    {
        self.ops.push(
            RecordedCommand::CopyBuffer {
                src: src_buffer.handle,
                dst: dst_buffer.handle,
                src_offset,
                size: dst_buffer.attributes.size,
            },
        );
    }

    /// Records a copy from the buffer at `src_offset` into the whole image,
    /// first lazily transitioning the image to the transfer-destination
    /// state.
    pub fn copy_buffer_to_image(&mut self, src_buffer: &Buffer, image: &mut Image, src_offset: u64)
        ensures
            final(self).command_buffer == old(self).command_buffer,
            *final(image) == spec_ensure_image(*old(image), spec_transfer_destination()),
            final(self).ops@ == spec_ensure_ops(
                old(self).ops@,
                *old(image),
                spec_transfer_destination(),
            ).push(
                RecordedCommand::CopyBufferToImage {
                    src: src_buffer.handle,
                    src_offset,
                    dst: old(image).handle,
                    dst_layout: ImageLayout::TransferDstOptimal,
                    extent: old(image).attributes.extent,
                    layers: spec_layers_of(*old(image)),
                },
            ),
    {
        self.ensure_image_layout(image, ImageLayoutState::transfer_destination());
        let layers = image.subresource_layers();
        self.ops.push(
            RecordedCommand::CopyBufferToImage {
                src: src_buffer.handle,
                src_offset,
                dst: image.handle,
                dst_layout: ImageLayout::TransferDstOptimal,
                extent: image.attributes.extent,
                layers,
            },
        );
    }

    /// Records a filtered blit between two arbitrary regions, first lazily
    /// transitioning the source to transfer-source and the destination to
    /// transfer-destination.
    pub fn blit_image(
        &mut self,
        src_image: &mut Image,
        dst_image: &mut Image,
        src_from: Offset3d,
        src_to: Offset3d,
        dst_from: Offset3d,
        dst_to: Offset3d,
        filter: Filter,
    )
        ensures
            final(self).command_buffer == old(self).command_buffer,
            *final(src_image) == spec_ensure_image(*old(src_image), spec_transfer_source()),
            *final(dst_image) == spec_ensure_image(*old(dst_image), spec_transfer_destination()),
            final(self).ops@ == spec_ensure_ops(
                spec_ensure_ops(old(self).ops@, *old(src_image), spec_transfer_source()),
                *old(dst_image),
                spec_transfer_destination(),
            ).push(
                spec_blit_command(
                    *old(src_image),
                    *old(dst_image),
                    src_from,
                    src_to,
                    dst_from,
                    dst_to,
                    filter,
                ),
            ),
    {
        self.ensure_image_layout(src_image, ImageLayoutState::transfer_source());
        self.ensure_image_layout(dst_image, ImageLayoutState::transfer_destination());
        let src_layers = src_image.subresource_layers();
        let dst_layers = dst_image.subresource_layers();
        self.ops.push(
            RecordedCommand::Blit {
                src: src_image.handle,
                src_layout: ImageLayout::TransferSrcOptimal,
                src_layers,
                src_from,
                src_to,
                dst: dst_image.handle,
                dst_layout: ImageLayout::TransferDstOptimal,
                dst_layers,
                dst_from,
                dst_to,
                filter,
            },
        );
    }

    /// Records a blit scaled between two extents, covering each from its
    /// origin.
    pub fn blit_image_extent(
        &mut self,
        src_image: &mut Image,
        dst_image: &mut Image,
        src_extent: Extent3d,
        dst_extent: Extent3d,
        filter: Filter,
    )
        requires
            src_extent.width <= i32::MAX,
            src_extent.height <= i32::MAX,
            src_extent.depth <= i32::MAX,
            dst_extent.width <= i32::MAX,
            dst_extent.height <= i32::MAX,
            dst_extent.depth <= i32::MAX,
        ensures
            final(self).command_buffer == old(self).command_buffer,
            *final(src_image) == spec_ensure_image(*old(src_image), spec_transfer_source()),
            *final(dst_image) == spec_ensure_image(*old(dst_image), spec_transfer_destination()),
            final(self).ops@ == spec_ensure_ops(
                spec_ensure_ops(old(self).ops@, *old(src_image), spec_transfer_source()),
                *old(dst_image),
                spec_transfer_destination(),
            ).push(
                spec_blit_command(
                    *old(src_image),
                    *old(dst_image),
                    spec_extent_offsets(src_extent).0,
                    spec_extent_offsets(src_extent).1,
                    spec_extent_offsets(dst_extent).0,
                    spec_extent_offsets(dst_extent).1,
                    filter,
                ),
            ),
    {
        let zero = Offset3d { x: 0, y: 0, z: 0 };
        let src_to = Offset3d {
            x: src_extent.width as i32,
            y: src_extent.height as i32,
            z: src_extent.depth as i32,
        };
        let dst_to = Offset3d {
            x: dst_extent.width as i32,
            y: dst_extent.height as i32,
            z: dst_extent.depth as i32,
        };
        self.blit_image(src_image, dst_image, zero, src_to, zero, dst_to, filter);
    }

    /// Records a blit of the source's whole extent onto the destination's
    /// whole extent: the resolution blit between a render target and a
    /// presentable image.
    pub fn blit_full_image(&mut self, src_image: &mut Image, dst_image: &mut Image, filter: Filter)
        requires
            old(src_image).attributes.extent.width <= i32::MAX,
            old(src_image).attributes.extent.height <= i32::MAX,
            old(src_image).attributes.extent.depth <= i32::MAX,
            old(dst_image).attributes.extent.width <= i32::MAX,
            old(dst_image).attributes.extent.height <= i32::MAX,
            old(dst_image).attributes.extent.depth <= i32::MAX,
        ensures
            final(self).command_buffer == old(self).command_buffer,
            *final(src_image) == spec_ensure_image(*old(src_image), spec_transfer_source()),
            *final(dst_image) == spec_ensure_image(*old(dst_image), spec_transfer_destination()),
            final(self).ops@ == spec_ensure_ops(
                spec_ensure_ops(old(self).ops@, *old(src_image), spec_transfer_source()),
                *old(dst_image),
                spec_transfer_destination(),
            ).push(
                spec_blit_command(
                    *old(src_image),
                    *old(dst_image),
                    spec_extent_offsets(old(src_image).attributes.extent).0,
                    spec_extent_offsets(old(src_image).attributes.extent).1,
                    spec_extent_offsets(old(dst_image).attributes.extent).0,
                    spec_extent_offsets(old(dst_image).attributes.extent).1,
                    filter,
                ),
            ),
    {
        let src_extent = src_image.attributes.extent;
        let dst_extent = dst_image.attributes.extent;
        self.blit_image_extent(src_image, dst_image, src_extent, dst_extent, filter);
    }

    /// Opens a render pass over the render area: the color attachment is
    /// lazily transitioned to color-attachment state and the depth
    /// attachment to depth/stencil state, then rendering begins with both
    /// cleared on load and stored on end.
    pub fn begin_rendering(
        &mut self,
        render_target: &mut Image,
        depth_buffer: &mut Image,
        render_area: Extent2d,
    )
        ensures
            final(self).command_buffer == old(self).command_buffer,
            *final(render_target) == spec_ensure_image(*old(render_target), spec_color_attachment()),
            *final(depth_buffer) == spec_ensure_image(
                *old(depth_buffer),
                spec_depth_stencil_attachment(),
            ),
            final(self).ops@ == spec_ensure_ops(
                spec_ensure_ops(old(self).ops@, *old(render_target), spec_color_attachment()),
                *old(depth_buffer),
                spec_depth_stencil_attachment(),
            ).push(
                RecordedCommand::BeginRendering {
                    color_view: old(render_target).view,
                    color_layout: ImageLayout::ColorAttachmentOptimal,
                    depth_view: old(depth_buffer).view,
                    depth_layout: ImageLayout::DepthStencilAttachmentOptimal,
                    render_area,
                },
            ),
    {
        self.ensure_image_layout(render_target, ImageLayoutState::color_attachment());
        self.ensure_image_layout(depth_buffer, ImageLayoutState::depth_stencil_attachment());
        self.ops.push(
            RecordedCommand::BeginRendering {
                color_view: render_target.view,
                color_layout: ImageLayout::ColorAttachmentOptimal,
                depth_view: depth_buffer.view,
                depth_layout: ImageLayout::DepthStencilAttachmentOptimal,
                render_area,
            },
        );
    }

    /// Closes the open render pass.
    pub fn end_rendering(&mut self)
        ensures
            final(self).command_buffer == old(self).command_buffer,
            final(self).ops@ == old(self).ops@.push(RecordedCommand::EndRendering),
    {
        self.ops.push(RecordedCommand::EndRendering);
    }

    /// Records a viewport covering the extent.
    pub fn set_viewport(&mut self, extent: Extent2d)
        ensures
            final(self).command_buffer == old(self).command_buffer,
            final(self).ops@ == old(self).ops@.push(RecordedCommand::SetViewport { extent }),
    {
        self.ops.push(RecordedCommand::SetViewport { extent });
    }

    /// Records a scissor covering the extent.
    pub fn set_scissor(&mut self, extent: Extent2d)
        ensures
            final(self).command_buffer == old(self).command_buffer,
            final(self).ops@ == old(self).ops@.push(RecordedCommand::SetScissor { extent }),
    {
        self.ops.push(RecordedCommand::SetScissor { extent });
    }

    /// Records binding a graphics pipeline.
    pub fn bind_pipeline(&mut self, pipeline: u64)
        ensures
            final(self).command_buffer == old(self).command_buffer,
            final(self).ops@ == old(self).ops@.push(RecordedCommand::BindPipeline { pipeline }),
    {
        self.ops.push(RecordedCommand::BindPipeline { pipeline });
    }

    /// Records binding the index buffer; indices are always 32-bit.
    pub fn bind_index_buffer(&mut self, buffer: &Buffer)
        ensures
            final(self).command_buffer == old(self).command_buffer,
            final(self).ops@ == old(self).ops@.push(
                RecordedCommand::BindIndexBuffer { buffer: buffer.handle },
            ),
    {
        self.ops.push(RecordedCommand::BindIndexBuffer { buffer: buffer.handle });
    }

    /// Records setting push constants for the vertex and fragment stages.
    pub fn set_push_constants(&mut self, pipeline_layout: u64, data: &Vec<u8>)
        ensures
            final(self).command_buffer == old(self).command_buffer,
            final(self).ops@.len() == old(self).ops@.len() + 1,
            final(self).ops@.subrange(0, old(self).ops@.len() as int) == old(self).ops@,
            final(self).ops@.last() matches RecordedCommand::PushConstants {
                pipeline_layout: pl,
                bytes,
            } && pl == pipeline_layout && bytes@ == data@,
    {
        let bytes = copy_bytes(data);
        self.ops.push(RecordedCommand::PushConstants { pipeline_layout, bytes });
        proof {
            assert(self.ops@.subrange(0, old(self).ops@.len() as int) =~= old(self).ops@);
        }
    }

    /// Records a non-indexed draw over the half-open vertex and instance
    /// ranges.
    pub fn draw(&mut self, vertices_start: u32, vertices_end: u32, instances_start: u32, instances_end: u32)
        requires
            vertices_start <= vertices_end,
            instances_start <= instances_end,
        ensures
            final(self).command_buffer == old(self).command_buffer,
            final(self).ops@ == old(self).ops@.push(
                RecordedCommand::Draw {
                    first_vertex: vertices_start,
                    vertex_count: (vertices_end - vertices_start) as u32,
                    first_instance: instances_start,
                    instance_count: (instances_end - instances_start) as u32,
                },
            ),
    {
        self.ops.push(
            RecordedCommand::Draw {
                first_vertex: vertices_start,
                vertex_count: vertices_end - vertices_start,
                first_instance: instances_start,
                instance_count: instances_end - instances_start,
            },
        );
    }

    /// Records an indexed draw over the half-open index and instance ranges;
    /// the vertex offset is always zero.
    pub fn draw_indexed(&mut self, indices_start: u32, indices_end: u32, instances_start: u32, instances_end: u32)
        requires
            indices_start <= indices_end,
            instances_start <= instances_end,
        ensures
            final(self).command_buffer == old(self).command_buffer,
            final(self).ops@ == old(self).ops@.push(
                RecordedCommand::DrawIndexed {
                    first_index: indices_start,
                    index_count: (indices_end - indices_start) as u32,
                    first_instance: instances_start,
                    instance_count: (instances_end - instances_start) as u32,
                },
            ),
    {
        self.ops.push(
            RecordedCommand::DrawIndexed {
                first_index: indices_start,
                index_count: indices_end - indices_start,
                first_instance: instances_start,
                instance_count: instances_end - instances_start,
            },
        );
    }

    /// Ends the session and describes the submission: the recorded commands,
    /// an optional wait semaphore with its stage, an optional signal
    /// semaphore with its stage (zero semaphores mean none), and the fence
    /// the device signals on completion. Consumes the recorder: a session is
    /// never reused after submission.
    pub fn submit(
        self,
        wait_semaphore: (u64, u64),
        signal_semaphore: (u64, u64),
        fence: u64,
    ) -> (s: Submission)
        ensures
            s.command_buffer == self.command_buffer,
            s.ops@ == self.ops@,
            s.wait_semaphore == wait_semaphore,
            s.signal_semaphore == signal_semaphore,
            s.fence == fence,
    {
        Submission {
            command_buffer: self.command_buffer,
            ops: self.ops,
            wait_semaphore,
            signal_semaphore,
            fence,
        }
    }
}

/// A byte-for-byte copy of the input.
fn copy_bytes(data: &Vec<u8>) -> (r: Vec<u8>)
    ensures
        r@ == data@,
{
    let mut r: Vec<u8> = Vec::new();
    let n = data.len();
    let mut i: usize = 0;
    while i < n
        invariant
            i <= n,
            n == data@.len(),
            r@ == data@.subrange(0, i as int),
        decreases n - i,
    {
        let b = data[i];
        r.push(b);
        proof {
            assert(r@ =~= data@.subrange(0, (i + 1) as int));
        }
        i = i + 1;
    }
    proof {
        assert(r@ =~= data@);
    }
    r
}

} // verus!
