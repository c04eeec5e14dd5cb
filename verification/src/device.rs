//! Selection of a physical device and creation of a logical device that the
//! abstraction layer can work on.

use vstd::prelude::*;
use ash::vk::PhysicalDevice;
use crate::error::{BridgeError, EnumerationFailure, FailureCause};
use crate::extensions::{
    get_vulkan_device_extensions,
    merge_extensions,
    names,
    required_device_extensions,
};
use crate::features::PhysicalDeviceFeatures;

verus! {

/// Native queue capability bit: the queue family supports graphics.
pub const QUEUE_GRAPHICS: u32 = 0x1;

/// What a physical device says of one of its queue families.
#[derive(Clone, Copy, Debug, PartialEq, Eq, Structural)]
pub struct QueueFamilyProperties {
    /// The capability bits of the family.
    pub queue_flags: u32,
    /// How many queues the family has.
    pub queue_count: u32,
}

/// The queues to create from one family. Every queue is created with the
/// highest priority.
#[derive(Clone, Copy, Debug, PartialEq, Eq, Structural)]
pub struct DeviceQueueCreateInfo {
    pub queue_family_index: u32,
    pub queue_count: u32,
}

/// The parameters of native device creation.
#[derive(Clone, Debug)]
pub struct DeviceCreateInfo {
    pub queue_create_infos: Vec<DeviceQueueCreateInfo>,
    /// The names of the extensions to enable, in order.
    pub enabled_extension_names: Vec<String>,
    pub enabled_features: PhysicalDeviceFeatures,
}

/// The parameters of native device creation, as mathematical values.
pub struct DeviceCreateInfoView {
    pub queue_create_infos: Seq<DeviceQueueCreateInfo>,
    pub enabled_extension_names: Seq<Seq<char>>,
    pub enabled_features: PhysicalDeviceFeatures,
}

impl View for DeviceCreateInfo {
    type V = DeviceCreateInfoView;

    open spec fn view(&self) -> DeviceCreateInfoView {
        DeviceCreateInfoView {
            queue_create_infos: self.queue_create_infos@,
            enabled_extension_names: names(self.enabled_extension_names@),
            enabled_features: self.enabled_features,
        }
    }
}

/// One native device-creation call: the physical device to create the device
/// on and the parameters to submit. The call is made through function
/// pointers bound to a null instance handle for this call alone; the instance
/// that the physical device came from is not entered again.
#[derive(Debug)]
pub struct DeviceCreateRequest {
    pub physical_device: PhysicalDevice,
    pub create_info: DeviceCreateInfo,
}

/// The adapter index that is meant where none is given: the first.
pub open spec fn adapter_index_or_default(adapter_index: Option<usize>) -> usize {
    match adapter_index {
        Some(index) => index,
        None => 0,
    }
}

/// The physical device that is selected from the outcome of the native
/// enumeration: the one at the adapter index, or the reason why there is none.
pub open spec fn selected_physical_device(
    enumerated: Result<Seq<PhysicalDevice>, i32>,
    adapter_index: Option<usize>,
) -> Result<PhysicalDevice, BridgeError> {
    match enumerated {
        Err(code) => Err(
            BridgeError::DeviceEnumerationError { failure: EnumerationFailure::Native { code } },
        ),
        Ok(devices) => {
            let index = adapter_index_or_default(adapter_index);
            if index < devices.len() {
                Ok(devices[index as int])
            } else {
                Err(
                    BridgeError::DeviceEnumerationError {
                        failure: EnumerationFailure::OutOfRange {
                            index,
                            available: devices.len() as usize,
                        },
                    },
                )
            }
        },
    }
}

/// The enumeration outcome with its device list as a sequence.
pub open spec fn enumeration_view(enumerated: Result<Vec<PhysicalDevice>, i32>) -> Result<
    Seq<PhysicalDevice>,
    i32,
> {
    match enumerated {
        Ok(devices) => Ok(devices@),
        Err(code) => Err(code),
    }
}

/// Selects the physical device at the adapter index (the first where no index
/// is given) among the devices that the native enumeration gave. Fails if
/// the enumeration failed or the index names none of them.
pub fn get_vulkan_graphics_device(
    enumerated: Result<Vec<PhysicalDevice>, i32>,
    adapter_index: Option<usize>,
) -> (r: Result<PhysicalDevice, BridgeError>)
    ensures
        r == selected_physical_device(enumeration_view(enumerated), adapter_index),
{
    match enumerated {
        Err(code) => Err(
            BridgeError::DeviceEnumerationError { failure: EnumerationFailure::Native { code } },
        ),
        Ok(devices) => {
            let index = match adapter_index {
                Some(index) => index,
                None => 0,
            };
            if index < devices.len() {
                Ok(devices[index])
            } else {
                Err(
                    BridgeError::DeviceEnumerationError {
                        failure: EnumerationFailure::OutOfRange {
                            index,
                            available: devices.len(),
                        },
                    },
                )
            }
        },
    }
}

/// The creation parameters that are submitted for a caller's parameters: the
/// required device extensions of the version first, then the caller's; the
/// three required features on; everything else as the caller gave it.
pub open spec fn prepared_device_info(version: u32, info: DeviceCreateInfoView)
    -> DeviceCreateInfoView {
    DeviceCreateInfoView {
        queue_create_infos: info.queue_create_infos,
        enabled_extension_names: required_device_extensions(version)
            + info.enabled_extension_names,
        enabled_features: info.enabled_features.with_required(),
    }
}

/// Prepares the one native device-creation call on a physical device.
pub fn create_vulkan_device(
    version: u32,
    physical_device: PhysicalDevice,
    create_info: &DeviceCreateInfo,
) -> (r: DeviceCreateRequest)
    ensures
        r.physical_device == physical_device,
        r.create_info@ == prepared_device_info(version, create_info@),
{
    let required = get_vulkan_device_extensions(version);
    let merged = merge_extensions(required, &create_info.enabled_extension_names);
    let mut queues: Vec<DeviceQueueCreateInfo> = Vec::new();
    let mut i: usize = 0;
    while i < create_info.queue_create_infos.len()
        invariant
            i <= create_info.queue_create_infos.len(),
            queues@ == create_info.queue_create_infos@.subrange(0, i as int),
        decreases create_info.queue_create_infos.len() - i,
    {
        queues.push(create_info.queue_create_infos[i]);
        i = i + 1;
    }
    assert(queues@ == create_info.queue_create_infos@);
    DeviceCreateRequest {
        physical_device,
        create_info: DeviceCreateInfo {
            queue_create_infos: queues,
            enabled_extension_names: merged,
            enabled_features: create_info.enabled_features.force_required(),
        },
    }
}

/// What device creation hands back for the outcome of the native call: the
/// device, or the failure with the native result code in it.
pub fn device_creation_outcome<T>(outcome: Result<T, i32>) -> (r: Result<T, BridgeError>)
    ensures
        outcome is Ok ==> r == Ok::<T, BridgeError>(outcome->Ok_0),
        outcome is Err ==> r == Err::<T, BridgeError>(
            BridgeError::DeviceCreationError { cause: FailureCause::NativeCode(outcome->Err_0) },
        ),
{
    match outcome {
        Ok(device) => Ok(device),
        Err(code) => Err(BridgeError::DeviceCreationError { cause: FailureCause::NativeCode(code) }),
    }
}

/// Whether a queue family supports graphics.
pub open spec fn supports_graphics(family: QueueFamilyProperties) -> bool {
    family.queue_flags & QUEUE_GRAPHICS == QUEUE_GRAPHICS
}

/// Whether a queue family supports graphics and none before it does.
pub open spec fn is_first_graphics_family(families: Seq<QueueFamilyProperties>, index: int)
    -> bool {
    &&& 0 <= index < families.len()
    &&& supports_graphics(families[index])
    &&& forall|j: int| 0 <= j < index ==> !supports_graphics(#[trigger] families[j])
}

/// The queue family that is selected: the first that supports graphics, or
/// the failure if none does.
pub open spec fn selected_queue_family(families: Seq<QueueFamilyProperties>) -> Result<
    u32,
    BridgeError,
> {
    if exists|i: int| is_first_graphics_family(families, i) {
        Ok((choose|i: int| is_first_graphics_family(families, i)) as u32)
    } else {
        Err(BridgeError::QueueFamilySelectionError)
    }
}

/// Selects the first queue family that supports graphics. Fails if the
/// physical device has none.
pub fn select_graphics_queue_family(families: &Vec<QueueFamilyProperties>) -> (r: Result<
    u32,
    BridgeError,
>)
    requires
        families.len() <= u32::MAX,
    ensures
        r == selected_queue_family(families@),
        r matches Ok(index) ==> is_first_graphics_family(families@, index as int),
        r is Err ==> forall|j: int|
            0 <= j < families.len() ==> !supports_graphics(#[trigger] families[j]),
{
    let mut i: u32 = 0;
    while (i as usize) < families.len()
        invariant
            i <= families.len() <= u32::MAX,
            forall|j: int| 0 <= j < i ==> !supports_graphics(#[trigger] families[j]),
        decreases families.len() - i,
    {
        if families[i as usize].queue_flags & QUEUE_GRAPHICS == QUEUE_GRAPHICS {
            proof {
                lemma_first_graphics_family_unique(families@, i as int);
            }
            return Ok(i);
        }
        i = i + 1;
    }
    Err(BridgeError::QueueFamilySelectionError)
}

/// At most one queue family is the first that supports graphics, so where
/// there is one, it is the one selected.
pub proof fn lemma_first_graphics_family_unique(families: Seq<QueueFamilyProperties>, index: int)
    requires
        is_first_graphics_family(families, index),
        families.len() <= u32::MAX,
    ensures
        selected_queue_family(families) == Ok::<u32, BridgeError>(index as u32),
{
    let chosen = choose|i: int| is_first_graphics_family(families, i);
    if chosen < index {
        assert(!supports_graphics(families[chosen]));
    }
    if index < chosen {
        assert(!supports_graphics(families[index]));
    }
}

/// Selection of a physical device fails with a device enumeration error
/// whenever the adapter index is at or beyond the number of enumerated
/// devices, and succeeds with the device at the index otherwise.
pub proof fn lemma_selection_in_range(devices: Seq<PhysicalDevice>, adapter_index: usize)
    requires
        devices.len() <= usize::MAX,
    ensures
        adapter_index >= devices.len() ==> selected_physical_device(
            Ok(devices),
            Some(adapter_index),
        ) == Err::<PhysicalDevice, BridgeError>(
            BridgeError::DeviceEnumerationError {
                failure: EnumerationFailure::OutOfRange {
                    index: adapter_index,
                    available: devices.len() as usize,
                },
            },
        ),
        adapter_index < devices.len() ==> selected_physical_device(
            Ok(devices),
            Some(adapter_index),
        ) == Ok::<PhysicalDevice, BridgeError>(devices[adapter_index as int]),
        selected_physical_device(Ok(devices), None) == selected_physical_device(
            Ok(devices),
            Some(0),
        ),
{
}

/// The parameters submitted for device creation always have the three
/// required features on, whatever the caller's parameters say of them, and
/// start with the required extensions of the version.
pub proof fn lemma_device_info_prepared(version: u32, info: DeviceCreateInfoView)
    ensures
        prepared_device_info(version, info).enabled_features.has_required(),
        prepared_device_info(version, info).enabled_features.robust_buffer_access,
        prepared_device_info(version, info).enabled_features.independent_blend,
        prepared_device_info(version, info).enabled_features.sample_rate_shading,
        prepared_device_info(version, info).queue_create_infos == info.queue_create_infos,
        prepared_device_info(version, info).enabled_extension_names.subrange(
            0,
            required_device_extensions(version).len() as int,
        ) == required_device_extensions(version),
{
    assert(prepared_device_info(version, info).enabled_extension_names.subrange(
        0,
        required_device_extensions(version).len() as int,
    ) =~= required_device_extensions(version));
}

} // verus!
