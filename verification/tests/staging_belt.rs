use render_core::buffer::{Buffer, BufferAttributes, BufferError};
use render_core::commands::{Commands, RecordedCommand};
use render_core::staging_belt::{BeltError, StagingBelt};
use render_core::image::{Image, ImageAttributes, SubresourceRange};
use render_core::sync_state::ImageLayoutState;
use render_core::types::{
    Extent3d, MemoryLocation, ASPECT_COLOR, BUFFER_USAGE_TRANSFER_DST, BUFFER_USAGE_TRANSFER_SRC,
    BUFFER_USAGE_VERTEX_BUFFER, IMAGE_USAGE_SAMPLED,
};

fn upload_buffer(handle: u64, size: u64) -> Buffer {
    Buffer::new(
        handle,
        0,
        BufferAttributes {
            size,
            usage: BUFFER_USAGE_TRANSFER_SRC,
            location: MemoryLocation::CpuToGpu,
        },
    )
}

fn device_buffer(handle: u64, size: u64) -> Buffer {
    Buffer::new(
        handle,
        0,
        BufferAttributes {
            size,
            usage: BUFFER_USAGE_VERTEX_BUFFER | BUFFER_USAGE_TRANSFER_DST,
            location: MemoryLocation::GpuOnly,
        },
    )
}

#[test]
fn write_cursor_accumulates_written_lengths() {
    let mut belt = StagingBelt::new(upload_buffer(1, 16));
    assert_eq!(belt.capacity(), 16);
    assert!(belt.write(&vec![1, 2, 3, 4, 5]).is_ok());
    assert_eq!(belt.write_cursor, 5);
    assert!(belt.write(&vec![6; 6]).is_ok());
    assert_eq!(belt.write_cursor, 11);
    assert!(belt.write(&vec![7; 5]).is_ok());
    assert_eq!(belt.write_cursor, 16);
    assert_eq!(belt.buffer.data[0..5], [1, 2, 3, 4, 5]);
    assert_eq!(belt.buffer.data[5..11], [6; 6]);
    assert_eq!(belt.buffer.data[11..16], [7; 5]);
}

#[test]
fn overflowing_write_fails_without_mutation() {
    let mut belt = StagingBelt::new(upload_buffer(1, 8));
    assert!(belt.write(&vec![9u8; 6]).is_ok());
    let bytes_before = belt.buffer.data.clone();
    let result = belt.write(&vec![1u8, 2, 3]);
    assert_eq!(result, Err(BeltError::CapacityExceeded));
    assert_eq!(belt.write_cursor, 6);
    assert_eq!(belt.copy_cursor, 0);
    assert_eq!(belt.buffer.data, bytes_before);
    // The belt is still usable for a write that fits.
    assert!(belt.write(&vec![4u8, 5]).is_ok());
    assert_eq!(belt.write_cursor, 8);
}

#[test]
fn copy_to_advances_copy_cursor_by_destination_size() {
    let mut belt = StagingBelt::new(upload_buffer(1, 64));
    let mut commands = Commands::new(5);
    let dst_a = device_buffer(10, 24);
    let dst_b = device_buffer(11, 40);

    belt.copy_to(&dst_a, &mut commands);
    assert_eq!(belt.copy_cursor, 24);
    belt.copy_to(&dst_b, &mut commands);
    assert_eq!(belt.copy_cursor, 64);

    assert_eq!(
        commands.ops[0],
        RecordedCommand::CopyBuffer { src: 1, dst: 10, src_offset: 0, size: 24 }
    );
    assert_eq!(
        commands.ops[1],
        RecordedCommand::CopyBuffer { src: 1, dst: 11, src_offset: 24, size: 40 }
    );
}

#[test]
fn done_resets_both_cursors_and_keeps_recorded_copies() {
    let mut belt = StagingBelt::new(upload_buffer(1, 32));
    let mut commands = Commands::new(5);
    let dst = device_buffer(10, 4);

    assert!(belt.write(&vec![0xAA; 4]).is_ok());
    belt.copy_to(&dst, &mut commands);
    let ops_before = commands.ops.clone();

    belt.done();
    assert_eq!(belt.write_cursor, 0);
    assert_eq!(belt.copy_cursor, 0);

    // A new write lands at cursor zero; the copies already recorded are
    // untouched, still reading the offsets they were given.
    assert!(belt.write(&vec![0xBB; 2]).is_ok());
    assert_eq!(belt.write_cursor, 2);
    assert_eq!(belt.buffer.data[0..2], [0xBB, 0xBB]);
    assert_eq!(commands.ops, ops_before);
}

#[test]
fn stage_geometry_writes_and_copies_both_buffers() {
    let mut belt = StagingBelt::new(upload_buffer(1, 64));
    let mut commands = Commands::new(5);
    let vertex_buffer = device_buffer(20, 12);
    let index_buffer = device_buffer(21, 6);

    let vertex_data = vec![1u8; 12];
    let index_data = vec![2u8; 6];
    let result =
        belt.stage_geometry(&vertex_data, &vertex_buffer, &index_data, &index_buffer, &mut commands);
    assert!(result.is_ok());
    assert_eq!(belt.write_cursor, 18);
    assert_eq!(belt.copy_cursor, 18);
    assert_eq!(belt.buffer.data[0..12], [1u8; 12][..]);
    assert_eq!(belt.buffer.data[12..18], [2u8; 6][..]);
    assert_eq!(
        commands.ops[0],
        RecordedCommand::CopyBuffer { src: 1, dst: 20, src_offset: 0, size: 12 }
    );
    assert_eq!(
        commands.ops[1],
        RecordedCommand::CopyBuffer { src: 1, dst: 21, src_offset: 12, size: 6 }
    );
}

#[test]
fn copy_image_to_advances_by_image_byte_size() {
    let mut belt = StagingBelt::new(upload_buffer(1, 1024));
    let mut commands = Commands::new(5);
    let mut texture = Image::new(
        30,
        31,
        32,
        ImageAttributes {
            location: MemoryLocation::GpuOnly,
            linear: false,
            extent: Extent3d { width: 8, height: 8, depth: 1 },
            format: render_core::types::Format::R8G8B8A8Unorm,
            usage: IMAGE_USAGE_SAMPLED | render_core::types::IMAGE_USAGE_TRANSFER_DST,
            subresource_range: SubresourceRange {
                aspect: ASPECT_COLOR,
                base_mip_level: 0,
                level_count: 1,
                base_array_layer: 0,
                layer_count: 1,
            },
        },
    );

    belt.copy_image_to(&mut texture, &mut commands);
    assert_eq!(belt.copy_cursor, 8 * 8 * 4);
    // The image was transitioned to transfer-destination, then the copy
    // recorded.
    assert_eq!(texture.layout, ImageLayoutState::transfer_destination());
    assert_eq!(commands.ops.len(), 2);
    match &commands.ops[1] {
        RecordedCommand::CopyBufferToImage { src, src_offset, dst, extent, .. } => {
            assert_eq!(*src, 1);
            assert_eq!(*src_offset, 0);
            assert_eq!(*dst, 30);
            assert_eq!(extent.width, 8);
        }
        other => panic!("expected a buffer-to-image copy, got {:?}", other),
    }
}

#[test]
fn buffer_write_requires_host_mappable_memory() {
    let mut gpu_only = device_buffer(3, 16);
    let result = gpu_only.write(&vec![1, 2, 3], 0);
    assert_eq!(result, Err(BufferError::Mapping));
    assert!(gpu_only.data.is_empty());

    let mut upload = upload_buffer(4, 16);
    assert!(upload.write(&vec![1, 2, 3], 8).is_ok());
    assert_eq!(upload.data[8..11], [1, 2, 3]);
    assert_eq!(upload.data[0..8], [0; 8]);
}

#[test]
fn buffer_keeps_address_only_with_device_address_usage() {
    let plain = Buffer::new(
        7,
        0xDEAD,
        BufferAttributes {
            size: 4,
            usage: BUFFER_USAGE_TRANSFER_SRC,
            location: MemoryLocation::GpuOnly,
        },
    );
    assert_eq!(plain.address, 0);

    let addressed = Buffer::new(
        8,
        0xDEAD,
        BufferAttributes {
            size: 4,
            usage: render_core::types::BUFFER_USAGE_SHADER_DEVICE_ADDRESS,
            location: MemoryLocation::GpuOnly,
        },
    );
    assert_eq!(addressed.address, 0xDEAD);
}
