use render_core::commands::{Commands, RecordedCommand};
use render_core::image::{Image, ImageAttributes, SubresourceRange};
use render_core::sync_state::{ImageLayout, ImageLayoutState};
use render_core::types::{
    Extent2d, Extent3d, Filter, MemoryLocation, ASPECT_COLOR, IMAGE_USAGE_COLOR_ATTACHMENT,
    IMAGE_USAGE_TRANSFER_SRC,
};

fn test_image(handle: u64, width: u32, height: u32) -> Image {
    Image::new(
        handle,
        handle + 100,
        handle + 200,
        ImageAttributes {
            location: MemoryLocation::GpuOnly,
            linear: false,
            extent: Extent3d { width, height, depth: 1 },
            format: render_core::types::Format::R16G16B16A16Sfloat,
            usage: IMAGE_USAGE_COLOR_ATTACHMENT | IMAGE_USAGE_TRANSFER_SRC,
            subresource_range: SubresourceRange {
                aspect: ASPECT_COLOR,
                base_mip_level: 0,
                level_count: 1,
                base_array_layer: 0,
                layer_count: 1,
            },
        },
    )
}

fn barrier_count(ops: &[RecordedCommand]) -> usize {
    ops.iter()
        .filter(|op| matches!(op, RecordedCommand::Barrier { .. }))
        .count()
}

#[test]
fn ensure_same_target_twice_emits_one_barrier_total() {
    let mut commands = Commands::new(7);
    let mut image = test_image(1, 64, 64);
    let target = ImageLayoutState::transfer_destination();

    commands.ensure_image_layout(&mut image, target);
    assert_eq!(barrier_count(&commands.ops), 1);
    assert_eq!(image.layout, target);

    // Second call with the same target: zero further barriers.
    commands.ensure_image_layout(&mut image, target);
    assert_eq!(barrier_count(&commands.ops), 1);
    assert_eq!(image.layout, target);
}

#[test]
fn ensure_differing_target_emits_exactly_one_barrier() {
    let mut commands = Commands::new(7);
    let mut image = test_image(1, 64, 64);

    commands.ensure_image_layout(&mut image, ImageLayoutState::transfer_destination());
    let before = barrier_count(&commands.ops);
    commands.ensure_image_layout(&mut image, ImageLayoutState::transfer_source());
    assert_eq!(barrier_count(&commands.ops), before + 1);
    assert_eq!(image.layout, ImageLayoutState::transfer_source());
}

#[test]
fn ensure_records_tracked_state_in_barrier() {
    let mut commands = Commands::new(3);
    let mut image = test_image(9, 32, 32);
    let target = ImageLayoutState::color_attachment();
    commands.ensure_image_layout(&mut image, target);
    match &commands.ops[0] {
        RecordedCommand::Barrier { image: handle, old_state, new_state, range } => {
            assert_eq!(*handle, 9);
            assert_eq!(*old_state, ImageLayoutState::ignored());
            assert_eq!(*new_state, target);
            assert_eq!(range.aspect, ASPECT_COLOR);
        }
        other => panic!("expected a barrier, got {:?}", other),
    }
}

#[test]
fn transition_is_unconditional() {
    let mut commands = Commands::new(1);
    let mut image = test_image(2, 16, 16);
    let target = ImageLayoutState::transfer_source();
    commands.transition_image_layout(&mut image, target);
    commands.transition_image_layout(&mut image, target);
    assert_eq!(barrier_count(&commands.ops), 2);
}

#[test]
fn blit_full_image_transitions_then_blits() {
    let mut commands = Commands::new(1);
    let mut src = test_image(10, 1280, 960);
    let mut dst = test_image(20, 640, 480);

    commands.blit_full_image(&mut src, &mut dst, Filter::Nearest);

    // Two barriers (source, destination) then the blit itself.
    assert_eq!(commands.ops.len(), 3);
    assert_eq!(barrier_count(&commands.ops), 2);
    assert_eq!(src.layout, ImageLayoutState::transfer_source());
    assert_eq!(dst.layout, ImageLayoutState::transfer_destination());
    match &commands.ops[2] {
        RecordedCommand::Blit {
            src: s,
            src_layout,
            src_to,
            dst: d,
            dst_layout,
            dst_to,
            filter,
            ..
        } => {
            assert_eq!(*s, 10);
            assert_eq!(*d, 20);
            assert_eq!(*src_layout, ImageLayout::TransferSrcOptimal);
            assert_eq!(*dst_layout, ImageLayout::TransferDstOptimal);
            assert_eq!((src_to.x, src_to.y, src_to.z), (1280, 960, 1));
            assert_eq!((dst_to.x, dst_to.y, dst_to.z), (640, 480, 1));
            assert_eq!(*filter, Filter::Nearest);
        }
        other => panic!("expected a blit, got {:?}", other),
    }
}

#[test]
fn blit_elides_barriers_already_in_place() {
    let mut commands = Commands::new(1);
    let mut src = test_image(10, 64, 64);
    let mut dst = test_image(20, 64, 64);
    commands.blit_full_image(&mut src, &mut dst, Filter::Linear);
    let ops_after_first = commands.ops.len();
    // Both images already sit in the transfer states: only the blit is added.
    commands.blit_full_image(&mut src, &mut dst, Filter::Linear);
    assert_eq!(commands.ops.len(), ops_after_first + 1);
    assert!(matches!(commands.ops.last(), Some(RecordedCommand::Blit { .. })));
}

#[test]
fn draw_counts_from_half_open_ranges() {
    let mut commands = Commands::new(1);
    commands.draw(3, 9, 0, 2);
    commands.draw_indexed(0, 36, 1, 5);
    assert_eq!(
        commands.ops[0],
        RecordedCommand::Draw {
            first_vertex: 3,
            vertex_count: 6,
            first_instance: 0,
            instance_count: 2,
        }
    );
    assert_eq!(
        commands.ops[1],
        RecordedCommand::DrawIndexed {
            first_index: 0,
            index_count: 36,
            first_instance: 1,
            instance_count: 4,
        }
    );
}

#[test]
fn recording_preserves_order_and_submit_carries_everything() {
    let mut commands = Commands::new(42);
    let mut render_target = test_image(1, 640, 480);
    let mut depth = test_image(2, 640, 480);
    commands.begin_rendering(&mut render_target, &mut depth, Extent2d { width: 640, height: 480 });
    commands.set_viewport(Extent2d { width: 640, height: 480 });
    commands.set_scissor(Extent2d { width: 640, height: 480 });
    commands.bind_pipeline(77);
    commands.set_push_constants(88, &vec![1u8, 2, 3]);
    commands.draw(0, 3, 0, 1);
    commands.end_rendering();

    assert_eq!(render_target.layout, ImageLayoutState::color_attachment());
    assert_eq!(depth.layout, ImageLayoutState::depth_stencil_attachment());

    let n = commands.ops.len();
    assert!(matches!(commands.ops[n - 2], RecordedCommand::Draw { .. }));
    assert_eq!(commands.ops[n - 1], RecordedCommand::EndRendering);
    match &commands.ops[n - 3] {
        RecordedCommand::PushConstants { pipeline_layout, bytes } => {
            assert_eq!(*pipeline_layout, 88);
            assert_eq!(bytes, &vec![1u8, 2, 3]);
        }
        other => panic!("expected push constants, got {:?}", other),
    }

    let submission = commands.submit((5, 6), (7, 8), 9);
    assert_eq!(submission.command_buffer, 42);
    assert_eq!(submission.ops.len(), n);
    assert_eq!(submission.wait_semaphore, (5, 6));
    assert_eq!(submission.signal_semaphore, (7, 8));
    assert_eq!(submission.fence, 9);
}

#[test]
fn begin_rendering_emits_attachment_barriers_once() {
    let mut commands = Commands::new(1);
    let mut render_target = test_image(1, 64, 64);
    let mut depth = test_image(2, 64, 64);
    let area = Extent2d { width: 64, height: 64 };
    commands.begin_rendering(&mut render_target, &mut depth, area);
    assert_eq!(barrier_count(&commands.ops), 2);
    assert!(matches!(
        commands.ops.last(),
        Some(RecordedCommand::BeginRendering { .. })
    ));
    commands.end_rendering();
    // A second pass over attachments already in place adds no barriers.
    commands.begin_rendering(&mut render_target, &mut depth, area);
    assert_eq!(barrier_count(&commands.ops), 2);
}
