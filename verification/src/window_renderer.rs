//! The frame pacer: N in-flight frame slots, each a command buffer and three
//! sync primitives, cycled so the CPU prepares one frame while the device
//! still executes another. A frame runs through the phases wait-fence →
//! (resize) → acquire → record → submit → present; the decisions live here,
//! the driver performs the device work each returned action names and hands
//! the outcome back.
//!
//! A slot is only reused after its fence signals; the wait at the top of
//! every frame is accounted per slot, so slot reuse can be audited.

use vstd::prelude::*;

use crate::commands::Commands;
use crate::commands::Submission;
use crate::commands::spec_barrier;
use crate::commands::spec_blit_command;
use crate::commands::spec_ensure_image;
use crate::commands::spec_ensure_ops;
use crate::commands::spec_extent_offsets;
use crate::image::Image;
use crate::swapchain::AcquireOutcome;
use crate::swapchain::PresentOutcome;
use crate::swapchain::ResizePlan;
use crate::swapchain::Swapchain;
use crate::swapchain::SwapchainError;
use crate::sync_state::ImageLayoutState;
use crate::sync_state::STAGE_COLOR_ATTACHMENT_OUTPUT;
use crate::sync_state::spec_color_attachment;
use crate::sync_state::spec_depth_stencil_attachment;
use crate::sync_state::spec_ignored;
use crate::sync_state::spec_present;
use crate::sync_state::spec_transfer_destination;
use crate::sync_state::spec_transfer_source;
use crate::types::Extent2d;
use crate::types::Filter;
use crate::types::Format;

verus! {

/// One in-flight frame slot: a command buffer and its three sync primitives,
/// plus the count of fence waits performed for this slot.
#[derive(Clone, Copy, PartialEq, Eq, Structural, Debug)]
pub struct FrameSlot {
    pub command_buffer: u64,
    pub image_available_semaphore: u64,
    pub render_finished_semaphore: u64,
    pub in_flight_fence: u64,
    /// How many times the pacer has waited on this slot's fence.
    pub fence_wait_count: u64,
}

/// The pacing configuration.
#[derive(Clone, Copy, PartialEq, Eq, Structural, Debug)]
pub struct WindowRendererAttributes {
    pub format: Format,
    pub depth_format: Format,
    /// The filter of the resolution blit from render target to swapchain
    /// image.
    pub ssaa_filter: Filter,
    pub in_flight_frames_count: usize,
}

/// Where the pacer stands within one frame.
#[derive(Clone, Copy, PartialEq, Eq, Structural, Debug)]
pub enum Phase {
    /// Between frames; the next call is `begin_frame`.
    Ready,
    /// A recreation is pending; the next call is `install_swapchain`.
    Resizing,
    /// An acquire is pending; the next call is `complete_acquire`.
    Acquiring,
    /// Recording against the acquired image; the next calls are
    /// `begin_scene`, the scene's own commands, then `finish_frame`.
    Recording { image_index: u32 },
    /// A present is pending; the next call is `complete_present`.
    Presenting,
}

/// What the driver must do after `begin_frame`.
#[derive(Clone, Copy, PartialEq, Eq, Structural, Debug)]
pub enum BeginAction {
    /// Nothing: the frame is skipped without any device work.
    Skip,
    /// Wait for the device to go idle, create a new native swapchain passing
    /// `old_swapchain` for reuse, destroy the old views and handle, create
    /// render targets and depth buffers at the new size, then call
    /// `install_swapchain`.
    RecreateSwapchain { old_swapchain: u64 },
    /// Acquire the next image with this semaphore, then call
    /// `complete_acquire` with the outcome.
    AcquireImage { image_available_semaphore: u64 },
}

/// What the driver must do after `complete_acquire`.
#[derive(Clone, Copy, PartialEq, Eq, Structural, Debug)]
pub enum AcquireAction {
    /// Nothing: the frame is skipped and the swapchain recreated next frame.
    Skip,
    /// Reset the slot's fence, begin recording on the slot's command buffer,
    /// and render against image `image_index`.
    Render { image_index: u32 },
}

/// Everything the driver needs to finish a recorded frame: the submission
/// (waiting on image-available, signalling render-finished, fencing the
/// slot), then a present of `image_index` waiting on
/// `present_wait_semaphore`.
pub struct FrameSubmission {
    pub submission: Submission,
    pub image_index: u32,
    pub present_wait_semaphore: u64,
}

/// The fence-wait counts of all slots, oldest slot first.
pub open spec fn spec_wait_counts(frames: Seq<FrameSlot>) -> Seq<int> {
    frames.map(|i: int, f: FrameSlot| f.fence_wait_count as int)
}

/// The net effect of one successfully rendered frame on the pacer's slot
/// index and per-slot fence-wait counts: the current slot's fence is waited
/// on once and the index advances modulo the slot count.
pub open spec fn spec_render_cycle(index: int, counts: Seq<int>, n: int) -> (int, Seq<int>) {
    ((index + 1) % n, counts.update(index, counts[index] + 1))
}

/// `spec_render_cycle` applied `k` times.
pub open spec fn spec_render_cycles(index: int, counts: Seq<int>, n: int, k: nat) -> (int, Seq<int>)
    decreases k,
{
    if k == 0 {
        (index, counts)
    } else {
        let prev = spec_render_cycles(index, counts, n, (k - 1) as nat);
        spec_render_cycle(prev.0, prev.1, n)
    }
}

proof fn lemma_cycles_prefix(counts: Seq<int>, n: int, k: nat)
    requires
        n >= 1,
        counts.len() == n,
        k <= n,
    ensures
        ({
            let end = spec_render_cycles(0, counts, n, k);
            &&& end.0 == if k == n {
                0int
            } else {
                k as int
            }
            &&& end.1.len() == n
            &&& forall|j: int| 0 <= j < k ==> end.1[j] == counts[j] + 1
            &&& forall|j: int| k <= j < n ==> end.1[j] == counts[j]
        }),
    decreases k,
{
    if k > 0 {
        lemma_cycles_prefix(counts, n, (k - 1) as nat);
        let prev = spec_render_cycles(0, counts, n, (k - 1) as nat);
        if k == n {
            vstd::arithmetic::div_mod::lemma_mod_self_0(n);
        } else {
            vstd::arithmetic::div_mod::lemma_small_mod(k, n as nat);
        }
    }
}

/// After `2 * n` successfully rendered frames with no resizes, starting at
/// slot zero, the slot index is back at zero and every slot's fence has been
/// waited on exactly twice more.
pub proof fn lemma_pacer_period(counts: Seq<int>, n: int)
    requires
        n >= 1,
        counts.len() == n,
    ensures
        ({
            let end = spec_render_cycles(0, counts, n, (2 * n) as nat);
            &&& end.0 == 0
            &&& end.1.len() == n
            &&& forall|j: int| 0 <= j < n ==> end.1[j] == counts[j] + 2
        }),
{
    lemma_cycles_prefix(counts, n, n as nat);
    let mid = spec_render_cycles(0, counts, n, n as nat);
    lemma_cycles_prefix(mid.1, n, n as nat);
    lemma_cycles_compose(0, counts, n, n as nat, n as nat);
    assert((2 * n) as nat == n as nat + n as nat);
}

proof fn lemma_cycles_compose(index: int, counts: Seq<int>, n: int, a: nat, b: nat)
    ensures
        spec_render_cycles(index, counts, n, a + b) == ({
            let mid = spec_render_cycles(index, counts, n, a);
            spec_render_cycles(mid.0, mid.1, n, b)
        }),
    decreases b,
{
    if b > 0 {
        lemma_cycles_compose(index, counts, n, a, (b - 1) as nat);
        assert(a + b == (a + (b - 1) as nat) + 1);
    }
}

/// The frame pacer for one window: the swapchain, the per-slot sync objects
/// and the per-slot render targets the scene draws into before the
/// resolution blit.
pub struct WindowRenderer {
    /// The slot the next frame uses.
    pub frame_index: usize,
    pub frames: Vec<FrameSlot>,
    pub swapchain: Swapchain,
    /// The size the scene renders at; the resolution blit scales it onto the
    /// swapchain extent.
    pub render_extent: Extent2d,
    /// One render target per slot.
    pub render_targets: Vec<Image>,
    /// One depth buffer per slot.
    pub depth_buffers: Vec<Image>,
    pub attributes: WindowRendererAttributes,
    pub phase: Phase,
}

/// An extent every dimension of which a blit offset can carry.
pub open spec fn spec_extent_fits_blit(e: crate::types::Extent3d) -> bool {
    e.width <= i32::MAX && e.height <= i32::MAX && e.depth <= i32::MAX
}

impl WindowRenderer {
    /// A well-formed pacer: one slot, render target and depth buffer per
    /// in-flight frame, the slot index within range, blittable extents, and
    /// an acquired image index within the image set.
    pub open spec fn wf(self) -> bool {
        &&& self.attributes.in_flight_frames_count >= 1
        &&& self.frames@.len() == self.attributes.in_flight_frames_count
        &&& self.render_targets@.len() == self.attributes.in_flight_frames_count
        &&& self.depth_buffers@.len() == self.attributes.in_flight_frames_count
        &&& self.frame_index < self.attributes.in_flight_frames_count
        &&& forall|i: int|
            0 <= i < self.render_targets@.len() ==> spec_extent_fits_blit(
                #[trigger] self.render_targets@[i].attributes.extent,
            )
        &&& forall|i: int|
            0 <= i < self.swapchain.images@.len() ==> spec_extent_fits_blit(
                #[trigger] self.swapchain.images@[i].attributes.extent,
            )
        &&& self.phase matches Phase::Recording { image_index } ==> image_index
            < self.swapchain.images@.len()
    }

    /// Assembles a pacer over driver-created objects. The swapchain should
    /// have been resized once; the pacer starts at slot zero, ready for its
    /// first frame.
    pub fn new(
        swapchain: Swapchain,
        frames: Vec<FrameSlot>,
        render_targets: Vec<Image>,
        depth_buffers: Vec<Image>,
        render_extent: Extent2d,
        attributes: WindowRendererAttributes,
    ) -> (wr: WindowRenderer)
        requires
            attributes.in_flight_frames_count >= 1,
            frames@.len() == attributes.in_flight_frames_count,
            render_targets@.len() == attributes.in_flight_frames_count,
            depth_buffers@.len() == attributes.in_flight_frames_count,
            forall|i: int|
                0 <= i < render_targets@.len() ==> spec_extent_fits_blit(
                    #[trigger] render_targets@[i].attributes.extent,
                ),
            forall|i: int|
                0 <= i < swapchain.images@.len() ==> spec_extent_fits_blit(
                    #[trigger] swapchain.images@[i].attributes.extent,
                ),
        ensures
            wr.wf(),
            wr.frame_index == 0,
            wr.frames@ == frames@,
            wr.swapchain == swapchain,
            wr.render_extent == render_extent,
            wr.render_targets@ == render_targets@,
            wr.depth_buffers@ == depth_buffers@,
            wr.attributes == attributes,
            wr.phase == Phase::Ready,
    {
        WindowRenderer {
            frame_index: 0,
            frames,
            swapchain,
            render_extent,
            render_targets,
            depth_buffers,
            attributes,
            phase: Phase::Ready,
        }
    }

    /// The slot the next frame uses; the driver waits on its fence before
    /// `begin_frame`.
    pub fn current_frame(&self) -> (r: FrameSlot)
        requires
            self.wf(),
        ensures
            r == self.frames@[self.frame_index as int],
    {
        self.frames[self.frame_index]
    }

    /// Marks the surface dirty so the next frame recreates the swapchain.
    pub fn resize(&mut self)
        ensures
            *final(self) == (WindowRenderer {
                swapchain: Swapchain { is_dirty: true, ..old(self).swapchain },
                ..*old(self)
            }),
    {
        self.swapchain.is_dirty = true;
    }

    /// Opens a frame after the driver has waited on the current slot's fence
    /// (accounted here). When the surface is dirty the swapchain is resized
    /// to the window's size: a degenerate size defers recreation and skips
    /// the frame; otherwise the driver must recreate. With a clean surface a
    /// degenerate extent also skips; otherwise the frame proceeds to
    /// acquire.
    pub fn begin_frame(&mut self, window_size: Extent2d) -> (r: BeginAction)
        requires
            old(self).wf(),
            old(self).phase == Phase::Ready,
            old(self).frames@[old(self).frame_index as int].fence_wait_count < u64::MAX,
            window_size.width <= i32::MAX,
            window_size.height <= i32::MAX,
        ensures
            final(self).wf(),
            final(self).frame_index == old(self).frame_index,
            final(self).frames@ == old(self).frames@.update(
                old(self).frame_index as int,
                FrameSlot {
                    fence_wait_count: (old(self).frames@[old(self).frame_index as int].fence_wait_count
                        + 1) as u64,
                    ..old(self).frames@[old(self).frame_index as int]
                },
            ),
            spec_wait_counts(final(self).frames@) == spec_wait_counts(old(self).frames@).update(
                old(self).frame_index as int,
                spec_wait_counts(old(self).frames@)[old(self).frame_index as int] + 1,
            ),
            final(self).render_extent == old(self).render_extent,
            final(self).render_targets@ == old(self).render_targets@,
            final(self).depth_buffers@ == old(self).depth_buffers@,
            final(self).attributes == old(self).attributes,
            final(self).swapchain.desired_image_count == old(self).swapchain.desired_image_count,
            final(self).swapchain.format == old(self).swapchain.format,
            final(self).swapchain.surface == old(self).swapchain.surface,
            final(self).swapchain.images@ == old(self).swapchain.images@,
            final(self).swapchain.handle == old(self).swapchain.handle,
            old(self).swapchain.is_dirty && !window_size.spec_is_degenerate() ==> {
                &&& r == (BeginAction::RecreateSwapchain { old_swapchain: old(self).swapchain.handle })
                &&& final(self).phase == Phase::Resizing
                &&& final(self).swapchain.extent == window_size
                &&& !final(self).swapchain.is_dirty
            },
            old(self).swapchain.is_dirty && window_size.spec_is_degenerate() ==> {
                &&& r == BeginAction::Skip
                &&& final(self).phase == Phase::Ready
                &&& final(self).swapchain.extent == window_size
                &&& final(self).swapchain.is_dirty
            },
            !old(self).swapchain.is_dirty && old(self).swapchain.extent.spec_is_degenerate() ==> {
                &&& r == BeginAction::Skip
                &&& final(self).phase == Phase::Ready
                &&& final(self).swapchain.extent == old(self).swapchain.extent
                &&& !final(self).swapchain.is_dirty
            },
            !old(self).swapchain.is_dirty && !old(self).swapchain.extent.spec_is_degenerate() ==> {
                &&& r == (BeginAction::AcquireImage {
                    image_available_semaphore: old(self).frames@[old(
                        self,
                    ).frame_index as int].image_available_semaphore,
                })
                &&& final(self).phase == Phase::Acquiring
                &&& final(self).swapchain.extent == old(self).swapchain.extent
                &&& !final(self).swapchain.is_dirty
            },
    {
        let idx = self.frame_index;
        let mut slot = self.frames[idx];
        slot.fence_wait_count = slot.fence_wait_count + 1;
        self.frames.set(idx, slot);
        proof {
            assert(spec_wait_counts(self.frames@) =~= spec_wait_counts(old(self).frames@).update(
                old(self).frame_index as int,
                spec_wait_counts(old(self).frames@)[old(self).frame_index as int] + 1,
            ));
        }
        if self.swapchain.is_dirty {
            let plan = self.swapchain.resize(window_size);
            match plan {
                ResizePlan::Deferred => BeginAction::Skip,
                ResizePlan::Recreate { old_handle } => {
                    self.phase = Phase::Resizing;
                    BeginAction::RecreateSwapchain { old_swapchain: old_handle }
                },
            }
        } else if self.swapchain.extent.is_degenerate() {
            BeginAction::Skip
        } else {
            self.phase = Phase::Acquiring;
            BeginAction::AcquireImage { image_available_semaphore: slot.image_available_semaphore }
        }
    }

    /// Installs what the driver created for a `RecreateSwapchain` action:
    /// the new native swapchain with its images (image handle and view
    /// each), and the render targets and depth buffers recreated at the new
    /// render size. The old render targets and depth buffers must have been
    /// read out of the pacer and destroyed by the driver beforehand. The
    /// frame then proceeds to acquire.
    pub fn install_swapchain(
        &mut self,
        new_swapchain: u64,
        swapchain_images: Vec<(u64, u64)>,
        render_extent: Extent2d,
        render_targets: Vec<Image>,
        depth_buffers: Vec<Image>,
    ) -> (r: BeginAction)
        requires
            old(self).wf(),
            old(self).phase == Phase::Resizing,
            old(self).swapchain.extent.width <= i32::MAX,
            old(self).swapchain.extent.height <= i32::MAX,
            render_targets@.len() == old(self).attributes.in_flight_frames_count,
            depth_buffers@.len() == old(self).attributes.in_flight_frames_count,
            forall|i: int|
                0 <= i < render_targets@.len() ==> spec_extent_fits_blit(
                    #[trigger] render_targets@[i].attributes.extent,
                ),
        ensures
            final(self).wf(),
            final(self).phase == Phase::Acquiring,
            r == (BeginAction::AcquireImage {
                image_available_semaphore: old(self).frames@[old(
                    self,
                ).frame_index as int].image_available_semaphore,
            }),
            final(self).frame_index == old(self).frame_index,
            final(self).frames@ == old(self).frames@,
            final(self).attributes == old(self).attributes,
            final(self).render_extent == render_extent,
            final(self).render_targets@ == render_targets@,
            final(self).depth_buffers@ == depth_buffers@,
            final(self).swapchain.handle == new_swapchain,
            final(self).swapchain.desired_image_count == old(self).swapchain.desired_image_count,
            final(self).swapchain.format == old(self).swapchain.format,
            final(self).swapchain.extent == old(self).swapchain.extent,
            final(self).swapchain.surface == old(self).swapchain.surface,
            final(self).swapchain.is_dirty == old(self).swapchain.is_dirty,
            final(self).swapchain.images@.len() == swapchain_images@.len(),
            forall|i: int|
                0 <= i < swapchain_images@.len() ==> final(self).swapchain.images@[i] == (Image {
                    handle: swapchain_images@[i].0,
                    allocation: None,
                    view: swapchain_images@[i].1,
                    layout: spec_ignored(),
                    attributes: old(self).swapchain.spec_image_attributes(),
                }),
    {
        self.swapchain.install_images(new_swapchain, swapchain_images);
        self.render_extent = render_extent;
        self.render_targets = render_targets;
        self.depth_buffers = depth_buffers;
        self.phase = Phase::Acquiring;
        let slot = self.frames[self.frame_index];
        BeginAction::AcquireImage { image_available_semaphore: slot.image_available_semaphore }
    }

    /// Folds the acquire outcome in. A failure is resize-storm tolerance,
    /// not an error: the surface is marked dirty and the frame is skipped.
    /// On success the frame records against the returned image.
    pub fn complete_acquire(&mut self, outcome: AcquireOutcome) -> (r: AcquireAction)
        requires
            old(self).wf(),
            old(self).phase == Phase::Acquiring,
            outcome matches AcquireOutcome::Acquired { image_index, .. } ==> image_index < old(
                self,
            ).swapchain.images@.len(),
        ensures
            final(self).wf(),
            final(self).frame_index == old(self).frame_index,
            final(self).frames@ == old(self).frames@,
            final(self).render_extent == old(self).render_extent,
            final(self).render_targets@ == old(self).render_targets@,
            final(self).depth_buffers@ == old(self).depth_buffers@,
            final(self).attributes == old(self).attributes,
            final(self).swapchain.desired_image_count == old(self).swapchain.desired_image_count,
            final(self).swapchain.format == old(self).swapchain.format,
            final(self).swapchain.extent == old(self).swapchain.extent,
            final(self).swapchain.surface == old(self).swapchain.surface,
            final(self).swapchain.images@ == old(self).swapchain.images@,
            final(self).swapchain.handle == old(self).swapchain.handle,
            outcome is Failed ==> {
                &&& r == AcquireAction::Skip
                &&& final(self).phase == Phase::Ready
                &&& final(self).swapchain.is_dirty
            },
            outcome matches AcquireOutcome::Acquired { image_index, suboptimal } ==> {
                &&& r == (AcquireAction::Render { image_index })
                &&& final(self).phase == (Phase::Recording { image_index })
                &&& final(self).swapchain.is_dirty == (old(self).swapchain.is_dirty || suboptimal)
            },
    {
        let r = self.swapchain.acquire_next_image(outcome);
        match r {
            Ok(image_index) => {
                self.phase = Phase::Recording { image_index };
                AcquireAction::Render { image_index }
            },
            Err(_) => {
                self.swapchain.is_dirty = true;
                self.phase = Phase::Ready;
                AcquireAction::Skip
            },
        }
    }

    /// Opens the scene's render pass for the current slot: the slot's render
    /// target is reset to the undefined state (its device contents were
    /// consumed by an earlier frame's blit) and transitioned to
    /// color-attachment state, the depth buffer is lazily transitioned, and
    /// rendering begins over the render extent. The scene's own draws follow
    /// on the same recorder, then `finish_frame`.
    pub fn begin_scene(&mut self, commands: &mut Commands)
        requires
            old(self).wf(),
            old(self).phase matches Phase::Recording { .. },
        ensures
            final(self).wf(),
            final(self).frame_index == old(self).frame_index,
            final(self).frames@ == old(self).frames@,
            final(self).swapchain == old(self).swapchain,
            final(self).render_extent == old(self).render_extent,
            final(self).attributes == old(self).attributes,
            final(self).phase == old(self).phase,
            final(self).render_targets@ == old(self).render_targets@.update(
                old(self).frame_index as int,
                (Image {
                    layout: spec_color_attachment(),
                    ..old(self).render_targets@[old(self).frame_index as int]
                }),
            ),
            final(self).depth_buffers@ == old(self).depth_buffers@.update(
                old(self).frame_index as int,
                spec_ensure_image(
                    old(self).depth_buffers@[old(self).frame_index as int],
                    spec_depth_stencil_attachment(),
                ),
            ),
            final(commands).command_buffer == old(commands).command_buffer,
            final(commands).ops@ == spec_ensure_ops(
                old(commands).ops@.push(
                    spec_barrier(
                        (Image {
                            layout: spec_ignored(),
                            ..old(self).render_targets@[old(self).frame_index as int]
                        }),
                        spec_color_attachment(),
                    ),
                ),
                old(self).depth_buffers@[old(self).frame_index as int],
                spec_depth_stencil_attachment(),
            ).push(
                crate::commands::RecordedCommand::BeginRendering {
                    color_view: old(self).render_targets@[old(self).frame_index as int].view,
                    color_layout: crate::sync_state::ImageLayout::ColorAttachmentOptimal,
                    depth_view: old(self).depth_buffers@[old(self).frame_index as int].view,
                    depth_layout: crate::sync_state::ImageLayout::DepthStencilAttachmentOptimal,
                    render_area: old(self).render_extent,
                },
            ),
    {
        let idx = self.frame_index;
        let mut render_target = self.render_targets[idx];
        let mut depth_buffer = self.depth_buffers[idx];
        render_target.reset_layout();
        commands.begin_rendering(&mut render_target, &mut depth_buffer, self.render_extent);
        self.render_targets.set(idx, render_target);
        self.depth_buffers.set(idx, depth_buffer);
    }

    /// Closes the frame's recording: ends the render pass, blits the slot's
    /// render target onto the acquired swapchain image at the swapchain's
    /// resolution, transitions that image to present-ready, and consumes the
    /// recorder into a submission that waits on the slot's image-available
    /// semaphore, signals its render-finished semaphore and fences the slot.
    /// The driver submits it, presents, and calls `complete_present`.
    pub fn finish_frame(&mut self, commands: Commands) -> (r: FrameSubmission)
        requires
            old(self).wf(),
            old(self).phase matches Phase::Recording { .. },
        ensures
            final(self).wf(),
            final(self).phase == Phase::Presenting,
            final(self).frame_index == old(self).frame_index,
            final(self).frames@ == old(self).frames@,
            final(self).render_extent == old(self).render_extent,
            final(self).depth_buffers@ == old(self).depth_buffers@,
            final(self).attributes == old(self).attributes,
            final(self).swapchain.desired_image_count == old(self).swapchain.desired_image_count,
            final(self).swapchain.format == old(self).swapchain.format,
            final(self).swapchain.extent == old(self).swapchain.extent,
            final(self).swapchain.surface == old(self).swapchain.surface,
            final(self).swapchain.handle == old(self).swapchain.handle,
            final(self).swapchain.is_dirty == old(self).swapchain.is_dirty,
            ({
                let i = old(self).phase->image_index as int;
                let idx = old(self).frame_index as int;
                let slot = old(self).frames@[idx];
                let rt = old(self).render_targets@[idx];
                let img = old(self).swapchain.images@[i];
                let rt_done = spec_ensure_image(rt, spec_transfer_source());
                let img_blit = spec_ensure_image(img, spec_transfer_destination());
                let ops_end = commands.ops@.push(crate::commands::RecordedCommand::EndRendering);
                let ops_blit = spec_ensure_ops(
                    spec_ensure_ops(ops_end, rt, spec_transfer_source()),
                    img,
                    spec_transfer_destination(),
                ).push(
                    spec_blit_command(
                        rt,
                        img,
                        spec_extent_offsets(rt.attributes.extent).0,
                        spec_extent_offsets(rt.attributes.extent).1,
                        spec_extent_offsets(img.attributes.extent).0,
                        spec_extent_offsets(img.attributes.extent).1,
                        old(self).attributes.ssaa_filter,
                    ),
                );
                let ops_all = ops_blit.push(spec_barrier(img_blit, spec_present()));
                &&& final(self).render_targets@ == old(self).render_targets@.update(idx, rt_done)
                &&& rt_done.layout.layout == crate::sync_state::ImageLayout::TransferSrcOptimal
                &&& final(self).swapchain.images@ == old(self).swapchain.images@.update(
                    i,
                    (Image { layout: spec_present(), ..img }),
                )
                &&& r.submission.command_buffer == commands.command_buffer
                &&& r.submission.ops@ == ops_all
                &&& r.submission.wait_semaphore == (
                    slot.image_available_semaphore,
                    STAGE_COLOR_ATTACHMENT_OUTPUT,
                )
                &&& r.submission.signal_semaphore == (
                    slot.render_finished_semaphore,
                    STAGE_COLOR_ATTACHMENT_OUTPUT,
                )
                &&& r.submission.fence == slot.in_flight_fence
                &&& r.image_index == old(self).phase->image_index
                &&& r.present_wait_semaphore == slot.render_finished_semaphore
            }),
    {
        let image_index = match self.phase {
            Phase::Recording { image_index } => image_index,
            _ => {
                proof {
                    assert(false);
                }
                0
            },
        };
        let mut commands = commands;
        commands.end_rendering();
        let idx = self.frame_index;
        let mut render_target = self.render_targets[idx];
        let mut swapchain_image = self.swapchain.images[image_index as usize];
        commands.blit_full_image(&mut render_target, &mut swapchain_image, self.attributes.ssaa_filter);
        commands.transition_image_layout(&mut swapchain_image, ImageLayoutState::present());
        self.render_targets.set(idx, render_target);
        self.swapchain.images.set(image_index as usize, swapchain_image);
        let slot = self.frames[idx];
        let submission = commands.submit(
            (slot.image_available_semaphore, STAGE_COLOR_ATTACHMENT_OUTPUT),
            (slot.render_finished_semaphore, STAGE_COLOR_ATTACHMENT_OUTPUT),
            slot.in_flight_fence,
        );
        self.phase = Phase::Presenting;
        FrameSubmission {
            submission,
            image_index,
            present_wait_semaphore: slot.render_finished_semaphore,
        }
    }

    /// Folds the present outcome in and, unless presentation failed hard,
    /// advances to the next slot. An out-of-date or suboptimal surface is
    /// not an error: it marks the swapchain dirty for the next frame. Any
    /// other present failure propagates and the slot does not advance.
    pub fn complete_present(&mut self, outcome: PresentOutcome) -> (r: Result<(), SwapchainError>)
        requires
            old(self).wf(),
            old(self).phase == Phase::Presenting,
        ensures
            final(self).wf(),
            final(self).phase == Phase::Ready,
            final(self).frames@ == old(self).frames@,
            spec_wait_counts(final(self).frames@) == spec_wait_counts(old(self).frames@),
            final(self).render_extent == old(self).render_extent,
            final(self).render_targets@ == old(self).render_targets@,
            final(self).depth_buffers@ == old(self).depth_buffers@,
            final(self).attributes == old(self).attributes,
            final(self).swapchain.desired_image_count == old(self).swapchain.desired_image_count,
            final(self).swapchain.format == old(self).swapchain.format,
            final(self).swapchain.extent == old(self).swapchain.extent,
            final(self).swapchain.surface == old(self).swapchain.surface,
            final(self).swapchain.images@ == old(self).swapchain.images@,
            final(self).swapchain.handle == old(self).swapchain.handle,
            outcome matches PresentOutcome::Presented { suboptimal } ==> {
                &&& r is Ok
                &&& final(self).swapchain.is_dirty == (old(self).swapchain.is_dirty || suboptimal)
                &&& final(self).frame_index == (old(self).frame_index + 1) % (old(
                    self,
                ).attributes.in_flight_frames_count as int)
            },
            outcome is OutOfDate ==> {
                &&& r is Ok
                &&& final(self).swapchain.is_dirty
                &&& final(self).frame_index == (old(self).frame_index + 1) % (old(
                    self,
                ).attributes.in_flight_frames_count as int)
            },
            outcome is Failed ==> {
                &&& r == Result::<(), SwapchainError>::Err(SwapchainError::PresentFailed)
                &&& final(self).swapchain.is_dirty == old(self).swapchain.is_dirty
                &&& final(self).frame_index == old(self).frame_index
            },
    {
        let r = self.swapchain.present(outcome);
        self.phase = Phase::Ready;
        match r {
            Ok(()) => {
                self.frame_index = (self.frame_index + 1) % self.attributes.in_flight_frames_count;
                Ok(())
            },
            Err(e) => Err(e),
        }
    }
}

} // verus!
