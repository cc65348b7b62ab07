//! Device-context decisions: picking a queue family and validating at
//! startup that the negotiated device offers every capability this core
//! relies on. The production policy collapses graphics, present, transfer
//! and compute onto one family that supports both graphics and compute.

use vstd::prelude::*;

verus! {

/// Queue capability bit: graphics.
pub const QUEUE_GRAPHICS: u32 = 0x1;

/// Queue capability bit: compute.
pub const QUEUE_COMPUTE: u32 = 0x2;

/// Queue capability bit: transfer.
pub const QUEUE_TRANSFER: u32 = 0x4;

/// One queue family a physical device offers.
#[derive(Clone, Copy, PartialEq, Eq, Structural, Debug)]
pub struct QueueFamily {
    pub index: u32,
    /// The family's capability bits.
    pub flags: u32,
}

/// The capabilities this core requires of a device; all must be present.
#[derive(Clone, Copy, PartialEq, Eq, Structural, Debug)]
pub struct DeviceFeatures {
    pub buffer_device_address: bool,
    pub descriptor_indexing: bool,
    pub scalar_block_layout: bool,
    pub dynamic_rendering: bool,
    pub synchronization2: bool,
}

/// A required capability the device lacks; each names its own cause.
#[derive(Clone, Copy, PartialEq, Eq, Structural, Debug)]
pub enum MissingFeature {
    BufferDeviceAddress,
    DescriptorIndexing,
    ScalarBlockLayout,
    DynamicRendering,
    Synchronization2,
}

/// What a physical device reports about itself.
#[derive(Clone, PartialEq, Eq, Debug)]
pub struct PhysicalDevice {
    /// Opaque identifier of the device.
    pub handle: u64,
    pub queue_families: Vec<QueueFamily>,
    pub features: DeviceFeatures,
}

/// The queue family chosen for each role; roles may coincide.
#[derive(Clone, Copy, PartialEq, Eq, Structural, Debug)]
pub struct QueueFamilies {
    pub graphics: u32,
    pub present: u32,
    pub transfer: u32,
    pub compute: u32,
}

/// Why context construction failed.
#[derive(Clone, Copy, PartialEq, Eq, Structural, Debug)]
pub enum ContextError {
    /// No queue family of the first device supports both graphics and
    /// compute.
    NoSuitableQueueFamily,
}

/// A family suited to the single-queue policy: it supports both graphics
/// and compute.
pub open spec fn spec_family_suitable(f: QueueFamily) -> bool {
    &&& f.flags & QUEUE_GRAPHICS == QUEUE_GRAPHICS
    &&& f.flags & QUEUE_COMPUTE == QUEUE_COMPUTE
}

/// The queue-family assignment that routes every role to one family.
pub open spec fn spec_single_family_assignment(index: u32) -> QueueFamilies {
    QueueFamilies { graphics: index, present: index, transfer: index, compute: index }
}

/// The reference queue-family policy: take the first physical device, find
/// its first family supporting both graphics and compute, and use that one
/// family for every role. Fails exactly when the first device has no such
/// family.
pub fn single_queue_family(physical_devices: Vec<PhysicalDevice>) -> (r: Result<
    (PhysicalDevice, QueueFamilies),
    ContextError,
>)
    requires
        physical_devices@.len() >= 1,
    ensures
        ({
            let fams = physical_devices@[0].queue_families@;
            &&& (r is Ok <==> exists|i: int|
                0 <= i < fams.len() && spec_family_suitable(fams[i]))
            &&& r matches Ok((device, assignment)) ==> {
                &&& device == physical_devices@[0]
                &&& exists|i: int|
                    {
                        &&& 0 <= i < fams.len()
                        &&& spec_family_suitable(#[trigger] fams[i])
                        &&& assignment == spec_single_family_assignment(fams[i].index)
                        &&& forall|j: int| 0 <= j < i ==> !spec_family_suitable(#[trigger] fams[j])
                    }
            }
            &&& r is Err ==> r == Result::<(PhysicalDevice, QueueFamilies), ContextError>::Err(
                ContextError::NoSuitableQueueFamily,
            )
        }),
{
    let mut devices = physical_devices;
    let device = devices.remove(0);
    let n = device.queue_families.len();
    let mut k: usize = 0;
    while k < n
        invariant
            device == physical_devices@[0],
            n == device.queue_families@.len(),
            k <= n,
            forall|j: int|
                0 <= j < k ==> !spec_family_suitable(#[trigger] device.queue_families@[j]),
        decreases n - k,
    {
        let family = device.queue_families[k];
        if (family.flags & QUEUE_GRAPHICS) == QUEUE_GRAPHICS && (family.flags & QUEUE_COMPUTE)
            == QUEUE_COMPUTE {
            proof {
                assert(device == physical_devices@[0]);
                assert(spec_family_suitable(physical_devices@[0].queue_families@[k as int]));
            }
            let index = family.index;
            return Ok(
                (
                    device,
                    QueueFamilies {
                        graphics: index,
                        present: index,
                        transfer: index,
                        compute: index,
                    },
                ),
            );
        }
        k = k + 1;
    }
    Err(ContextError::NoSuitableQueueFamily)
}

/// The list of required capabilities the given features lack, in a fixed
/// order; empty exactly when the device suffices.
pub open spec fn spec_missing_features(f: DeviceFeatures) -> Seq<MissingFeature> {
    (if !f.buffer_device_address {
        seq![MissingFeature::BufferDeviceAddress]
    } else {
        Seq::<MissingFeature>::empty()
    }) + (if !f.descriptor_indexing {
        seq![MissingFeature::DescriptorIndexing]
    } else {
        Seq::<MissingFeature>::empty()
    }) + (if !f.scalar_block_layout {
        seq![MissingFeature::ScalarBlockLayout]
    } else {
        Seq::<MissingFeature>::empty()
    }) + (if !f.dynamic_rendering {
        seq![MissingFeature::DynamicRendering]
    } else {
        Seq::<MissingFeature>::empty()
    }) + (if !f.synchronization2 {
        seq![MissingFeature::Synchronization2]
    } else {
        Seq::<MissingFeature>::empty()
    })
}

/// Validates the negotiated capabilities once at startup: returns one entry
/// per missing required capability, empty when the device supports them all.
/// Startup must fail fast on a non-empty result rather than failing opaquely
/// at first use.
pub fn validate_features(features: &DeviceFeatures) -> (missing: Vec<MissingFeature>)
    ensures
        missing@ == spec_missing_features(*features),
        missing@.len() == 0 <==> (features.buffer_device_address && features.descriptor_indexing
            && features.scalar_block_layout && features.dynamic_rendering
            && features.synchronization2),
{
    let mut missing: Vec<MissingFeature> = Vec::new();
    if !features.buffer_device_address {
        missing.push(MissingFeature::BufferDeviceAddress);
    }
    if !features.descriptor_indexing {
        missing.push(MissingFeature::DescriptorIndexing);
    }
    if !features.scalar_block_layout {
        missing.push(MissingFeature::ScalarBlockLayout);
    }
    if !features.dynamic_rendering {
        missing.push(MissingFeature::DynamicRendering);
    }
    if !features.synchronization2 {
        missing.push(MissingFeature::Synchronization2);
    }
    proof {
        assert(missing@ =~= spec_missing_features(*features));
    }
    missing
}

} // verus!
