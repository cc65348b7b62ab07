use render_core::context::{
    single_queue_family, validate_features, ContextError, DeviceFeatures, MissingFeature,
    PhysicalDevice, QueueFamily, QUEUE_COMPUTE, QUEUE_GRAPHICS, QUEUE_TRANSFER,
};
use render_core::image::Image;
use render_core::types::{Extent2d, Format};

fn all_features() -> DeviceFeatures {
    DeviceFeatures {
        buffer_device_address: true,
        descriptor_indexing: true,
        scalar_block_layout: true,
        dynamic_rendering: true,
        synchronization2: true,
    }
}

fn device(handle: u64, families: Vec<QueueFamily>) -> PhysicalDevice {
    PhysicalDevice { handle, queue_families: families, features: all_features() }
}

#[test]
fn picker_takes_first_family_with_graphics_and_compute() {
    let devices = vec![device(
        1,
        vec![
            QueueFamily { index: 0, flags: QUEUE_TRANSFER },
            QueueFamily { index: 1, flags: QUEUE_GRAPHICS },
            QueueFamily { index: 2, flags: QUEUE_GRAPHICS | QUEUE_COMPUTE | QUEUE_TRANSFER },
            QueueFamily { index: 3, flags: QUEUE_GRAPHICS | QUEUE_COMPUTE },
        ],
    )];
    let (picked, families) = single_queue_family(devices).expect("a family qualifies");
    assert_eq!(picked.handle, 1);
    assert_eq!(families.graphics, 2);
    assert_eq!(families.present, 2);
    assert_eq!(families.transfer, 2);
    assert_eq!(families.compute, 2);
}

#[test]
fn picker_fails_when_no_family_qualifies() {
    let devices = vec![device(
        1,
        vec![
            QueueFamily { index: 0, flags: QUEUE_TRANSFER },
            QueueFamily { index: 1, flags: QUEUE_GRAPHICS },
            QueueFamily { index: 2, flags: QUEUE_COMPUTE },
        ],
    )];
    assert_eq!(
        single_queue_family(devices).map(|(_, f)| f),
        Err(ContextError::NoSuitableQueueFamily)
    );
}

#[test]
fn picker_uses_the_first_device_only() {
    let devices = vec![
        device(1, vec![QueueFamily { index: 0, flags: QUEUE_TRANSFER }]),
        device(2, vec![QueueFamily { index: 0, flags: QUEUE_GRAPHICS | QUEUE_COMPUTE }]),
    ];
    assert!(single_queue_family(devices).is_err());
}

#[test]
fn validation_passes_a_full_featured_device() {
    assert!(validate_features(&all_features()).is_empty());
}

#[test]
fn validation_names_each_missing_feature() {
    let mut features = all_features();
    features.dynamic_rendering = false;
    assert_eq!(validate_features(&features), vec![MissingFeature::DynamicRendering]);

    features.buffer_device_address = false;
    features.synchronization2 = false;
    assert_eq!(
        validate_features(&features),
        vec![
            MissingFeature::BufferDeviceAddress,
            MissingFeature::DynamicRendering,
            MissingFeature::Synchronization2,
        ]
    );

    let nothing = DeviceFeatures {
        buffer_device_address: false,
        descriptor_indexing: false,
        scalar_block_layout: false,
        dynamic_rendering: false,
        synchronization2: false,
    };
    assert_eq!(validate_features(&nothing).len(), 5);
}

#[test]
fn owned_and_wrapped_images_destroy_differently() {
    let mut owned =
        Image::new_render_target(1, 2, 77, Extent2d { width: 4, height: 4 }, Format::R8G8B8A8Unorm);
    assert_eq!(owned.allocation, Some(77));
    assert_eq!(owned.destroy(), Some(77), "an owned image frees its allocation");
    assert_eq!(owned.allocation, None);

    let mut wrapped = Image::wrap(
        5,
        6,
        render_core::image::render_target_attributes(
            Extent2d { width: 4, height: 4 },
            Format::B8G8R8A8Srgb,
        ),
    );
    assert_eq!(wrapped.destroy(), None, "a wrapped image never frees memory");
}

#[test]
fn subresource_layers_follow_creation_aspect() {
    let depth = Image::new_depth_buffer(
        1,
        2,
        3,
        Extent2d { width: 8, height: 8 },
        Format::D32Sfloat,
    );
    let layers = depth.subresource_layers();
    assert_eq!(layers.aspect, render_core::types::ASPECT_DEPTH);
    assert_eq!(layers.layer_count, 1);

    let color = Image::new_render_target(
        1,
        2,
        3,
        Extent2d { width: 8, height: 8 },
        Format::R16G16B16A16Sfloat,
    );
    assert_eq!(color.subresource_layers().aspect, render_core::types::ASPECT_COLOR);
}
