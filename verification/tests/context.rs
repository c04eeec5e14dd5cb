use ash::vk::{Handle, PhysicalDevice};
use graphics_interop::context::{
    Context, ContextAction, ContextBuilder, ContextEvent, ContextStage, ContextStep,
    FEATURE_PUSH_CONSTANTS,
};
use graphics_interop::device::{DeviceQueueCreateInfo, QueueFamilyProperties};
use graphics_interop::error::{BridgeError, EnumerationFailure, FailureCause};
use graphics_interop::ownership::OwnershipMode;
use graphics_interop::version::{API_VERSION_1_1, TARGET_VULKAN_VERSION};
use wgpu::Limits;

fn owned(names: &[&str]) -> Vec<String> {
    names.iter().map(|n| n.to_string()).collect()
}

fn devices(raw: &[u64]) -> Vec<PhysicalDevice> {
    raw.iter().map(|r| PhysicalDevice::from_raw(*r)).collect()
}

fn family(queue_flags: u32) -> QueueFamilyProperties {
    QueueFamilyProperties { queue_flags, queue_count: 1 }
}

fn go(builder: ContextBuilder, event: ContextEvent) -> ContextStep {
    assert!(builder.accepts(&event));
    builder.advance(event).unwrap()
}

fn fail(builder: ContextBuilder, event: ContextEvent) -> BridgeError {
    assert!(builder.accepts(&event));
    builder.advance(event).unwrap_err()
}

fn at(stage: ContextStage, ownership: OwnershipMode) -> ContextBuilder {
    ContextBuilder {
        ownership,
        version: API_VERSION_1_1,
        adapter_index: Some(1),
        queue_family_index: 3,
        queue_index: 2,
        debug_enabled: false,
        stage,
    }
}

fn wrap(owned_by_context: bool) -> (Vec<String>, Context) {
    let mut log = Vec::new();
    let start = Context::from_vulkan(owned_by_context, API_VERSION_1_1, Some(1), 3, 2, true);
    match &start.action {
        ContextAction::QueryInstanceExtensions { flags } => assert_eq!(flags.bits, 3),
        other => panic!("unexpected action {:?}", other),
    }
    assert!(matches!(start.builder.stage, ContextStage::QueryWrapExtensions));

    let step = go(
        start.builder,
        ContextEvent::InstanceExtensions(Some(owned(&["VK_KHR_surface", "VK_EXT_debug_utils"]))),
    );
    match &step.action {
        ContextAction::WrapInstance { version, extensions, flags, drop_guard } => {
            assert_eq!(*version, API_VERSION_1_1);
            assert_eq!(extensions, &owned(&["VK_KHR_surface", "VK_EXT_debug_utils"]));
            assert_eq!(flags.bits, 3);
            log.push(format!("instance drop guard {}", drop_guard));
        }
        other => panic!("unexpected action {:?}", other),
    }

    let step = go(step.builder, ContextEvent::InstanceWrapped(true));
    assert!(matches!(step.action, ContextAction::EnumeratePhysicalDevices));

    let step = go(step.builder, ContextEvent::PhysicalDevices(Ok(devices(&[0xa, 0xb, 0xc]))));
    match &step.action {
        ContextAction::ExposeAdapter { physical_device } => {
            assert_eq!(physical_device.as_raw(), 0xb)
        }
        other => panic!("unexpected action {:?}", other),
    }

    let step = go(step.builder, ContextEvent::AdapterExposed(true));
    match &step.action {
        ContextAction::OpenDevice {
            handle_is_owned,
            extensions,
            features,
            queue_family_index,
            queue_index,
        } => {
            assert_eq!(extensions, &owned(&["VK_KHR_swapchain"]));
            assert_eq!(*features, FEATURE_PUSH_CONSTANTS);
            assert_eq!(*queue_family_index, 3);
            assert_eq!(*queue_index, 2);
            log.push(format!("device owned {}", handle_is_owned));
        }
        other => panic!("unexpected action {:?}", other),
    }

    let mut limits = Limits::default();
    limits.max_push_constant_size = 128;
    limits.max_bind_groups = 7;
    let step = go(step.builder, ContextEvent::DeviceOpened(Some(limits.clone())));
    match &step.action {
        ContextAction::RequestDevice { features, limits: asked } => {
            assert_eq!(*features, wgpu::Features::PUSH_CONSTANTS.bits());
            assert_eq!(asked, &limits);
        }
        other => panic!("unexpected action {:?}", other),
    }

    let step = go(step.builder, ContextEvent::DeviceRequested(true));
    match step.action {
        ContextAction::Complete { context } => (log, context),
        other => panic!("unexpected action {:?}", other),
    }
}

#[test]
fn a_borrowed_context_leaves_the_native_handles_to_the_caller() {
    let (log, context) = wrap(false);
    assert_eq!(log, vec!["instance drop guard false", "device owned false"]);
    assert_eq!(context.ownership, OwnershipMode::Borrowed);
    assert_eq!(context.version, API_VERSION_1_1);
    assert_eq!(context.physical_device.as_raw(), 0xb);
    assert_eq!(context.queue_family_index, 3);
    assert_eq!(context.queue_index, 2);
}

#[test]
fn an_owned_context_has_the_layer_destroy_the_native_handles() {
    let (log, context) = wrap(true);
    assert_eq!(log, vec!["instance drop guard true", "device owned true"]);
    assert_eq!(context.ownership, OwnershipMode::Owned);
}

#[test]
fn a_context_of_its_own_is_built_step_by_step() {
    let start = Context::new(None, false);
    assert!(matches!(start.builder.stage, ContextStage::QueryCreateExtensions));
    assert_eq!(start.builder.ownership, OwnershipMode::Owned);
    assert_eq!(start.builder.version, TARGET_VULKAN_VERSION);
    match &start.action {
        ContextAction::QueryInstanceExtensions { flags } => assert_eq!(flags.bits, 0),
        other => panic!("unexpected action {:?}", other),
    }

    let step = go(start.builder, ContextEvent::InstanceExtensions(Some(owned(&["VK_KHR_surface"]))));
    match &step.action {
        ContextAction::CreateInstance { info } => {
            assert_eq!(info.enabled_extension_names, owned(&["VK_KHR_surface"]));
            assert_eq!(info.application_info.api_version, 0x0040_0000);
        }
        other => panic!("unexpected action {:?}", other),
    }

    let step = go(step.builder, ContextEvent::InstanceCreated(Ok(())));
    assert!(matches!(step.action, ContextAction::EnumeratePhysicalDevices));

    let step = go(step.builder, ContextEvent::PhysicalDevices(Ok(devices(&[0x51, 0x52]))));
    match &step.action {
        ContextAction::QueryQueueFamilies { physical_device } => {
            assert_eq!(physical_device.as_raw(), 0x51)
        }
        other => panic!("unexpected action {:?}", other),
    }

    let step = go(
        step.builder,
        ContextEvent::QueueFamilies(vec![family(0x4), family(0x6), family(0x7), family(0x1)]),
    );
    assert_eq!(step.builder.queue_family_index, 2);
    match &step.action {
        ContextAction::CreateDevice { request } => {
            assert_eq!(request.physical_device.as_raw(), 0x51);
            assert_eq!(
                request.create_info.queue_create_infos,
                vec![DeviceQueueCreateInfo { queue_family_index: 2, queue_count: 1 }]
            );
            assert_eq!(
                request.create_info.enabled_extension_names,
                owned(&["VK_KHR_swapchain", "VK_KHR_maintenance1", "VK_KHR_maintenance2"])
            );
            let features = request.create_info.enabled_features;
            assert!(features.robust_buffer_access);
            assert!(features.independent_blend);
            assert!(features.sample_rate_shading);
            assert!(!features.geometry_shader);
        }
        other => panic!("unexpected action {:?}", other),
    }

    let step = go(step.builder, ContextEvent::DeviceCreated(Ok(())));
    assert!(matches!(step.builder.stage, ContextStage::QueryWrapExtensions));
    assert!(matches!(step.action, ContextAction::QueryInstanceExtensions { .. }));

    let step = go(step.builder, ContextEvent::InstanceExtensions(Some(owned(&["VK_KHR_surface"]))));
    match &step.action {
        ContextAction::WrapInstance { version, drop_guard, .. } => {
            assert_eq!(*version, TARGET_VULKAN_VERSION);
            assert!(*drop_guard);
        }
        other => panic!("unexpected action {:?}", other),
    }
    let step = go(step.builder, ContextEvent::InstanceWrapped(true));
    let step = go(step.builder, ContextEvent::PhysicalDevices(Ok(devices(&[0x51, 0x52]))));
    let step = go(step.builder, ContextEvent::AdapterExposed(true));
    match &step.action {
        ContextAction::OpenDevice {
            handle_is_owned, extensions, queue_family_index, queue_index, ..
        } => {
            assert!(*handle_is_owned);
            assert_eq!(
                extensions,
                &owned(&["VK_KHR_swapchain", "VK_KHR_maintenance1", "VK_KHR_maintenance2"])
            );
            assert_eq!(*queue_family_index, 2);
            assert_eq!(*queue_index, 0);
        }
        other => panic!("unexpected action {:?}", other),
    }
    let step = go(step.builder, ContextEvent::DeviceOpened(Some(Limits::default())));
    let step = go(step.builder, ContextEvent::DeviceRequested(true));
    match step.action {
        ContextAction::Complete { context } => {
            assert_eq!(context.ownership, OwnershipMode::Owned);
            assert_eq!(context.version, TARGET_VULKAN_VERSION);
            assert_eq!(context.physical_device.as_raw(), 0x51);
            assert_eq!(context.queue_family_index, 2);
            assert_eq!(context.queue_index, 0);
        }
        other => panic!("unexpected action {:?}", other),
    }
}

#[test]
fn a_failed_extension_query_ends_the_construction() {
    let start = Context::new(Some(0), true);
    assert_eq!(
        fail(start.builder, ContextEvent::InstanceExtensions(None)),
        BridgeError::ExtensionQueryError
    );
    let start = Context::from_vulkan(false, API_VERSION_1_1, None, 0, 0, false);
    assert_eq!(
        fail(start.builder, ContextEvent::InstanceExtensions(None)),
        BridgeError::ExtensionQueryError
    );
}

#[test]
fn a_failed_instance_creation_keeps_its_code() {
    let b = at(ContextStage::CreateInstance, OwnershipMode::Owned);
    assert_eq!(
        fail(b, ContextEvent::InstanceCreated(Err(-9))),
        BridgeError::InstanceCreationError { cause: FailureCause::NativeCode(-9) }
    );
}

#[test]
fn an_adapter_index_out_of_range_ends_the_construction() {
    for stage in [ContextStage::EnumerateForCreate, ContextStage::EnumerateForWrap] {
        let b = at(stage, OwnershipMode::Borrowed);
        assert_eq!(
            fail(b, ContextEvent::PhysicalDevices(Ok(devices(&[0xa])))),
            BridgeError::DeviceEnumerationError {
                failure: EnumerationFailure::OutOfRange { index: 1, available: 1 }
            }
        );
        assert_eq!(
            fail(b, ContextEvent::PhysicalDevices(Err(-3))),
            BridgeError::DeviceEnumerationError {
                failure: EnumerationFailure::Native { code: -3 }
            }
        );
    }
}

#[test]
fn no_graphics_queue_family_ends_the_construction() {
    let b = at(
        ContextStage::QueryQueueFamilies { physical_device: PhysicalDevice::from_raw(1) },
        OwnershipMode::Owned,
    );
    assert_eq!(
        fail(b, ContextEvent::QueueFamilies(vec![family(0x2), family(0x4)])),
        BridgeError::QueueFamilySelectionError
    );
    assert_eq!(
        fail(b, ContextEvent::QueueFamilies(Vec::new())),
        BridgeError::QueueFamilySelectionError
    );
}

#[test]
fn a_failed_device_creation_keeps_its_code() {
    let b = at(ContextStage::CreateDevice, OwnershipMode::Owned);
    assert_eq!(
        fail(b, ContextEvent::DeviceCreated(Err(-8))),
        BridgeError::DeviceCreationError { cause: FailureCause::NativeCode(-8) }
    );
}

#[test]
fn refusals_of_the_upper_layers_end_the_construction() {
    let pd = PhysicalDevice::from_raw(1);
    assert_eq!(
        fail(at(ContextStage::WrapInstance, OwnershipMode::Owned), ContextEvent::InstanceWrapped(false)),
        BridgeError::InstanceCreationError { cause: FailureCause::AbstractionLayer }
    );
    assert_eq!(
        fail(
            at(ContextStage::ExposeAdapter { physical_device: pd }, OwnershipMode::Owned),
            ContextEvent::AdapterExposed(false)
        ),
        BridgeError::AdapterExposureError
    );
    assert_eq!(
        fail(
            at(ContextStage::OpenDevice { physical_device: pd }, OwnershipMode::Owned),
            ContextEvent::DeviceOpened(None)
        ),
        BridgeError::DeviceCreationError { cause: FailureCause::AbstractionLayer }
    );
    assert_eq!(
        fail(
            at(ContextStage::RequestDevice { physical_device: pd }, OwnershipMode::Owned),
            ContextEvent::DeviceRequested(false)
        ),
        BridgeError::DeviceCreationError { cause: FailureCause::AbstractionLayer }
    );
}

#[test]
fn only_the_awaited_answer_is_accepted() {
    let b = at(ContextStage::WrapInstance, OwnershipMode::Owned);
    assert!(b.accepts(&ContextEvent::InstanceWrapped(true)));
    assert!(!b.accepts(&ContextEvent::AdapterExposed(true)));
    assert!(!b.accepts(&ContextEvent::InstanceExtensions(None)));
    assert!(!b.accepts(&ContextEvent::PhysicalDevices(Err(0))));
    assert!(!b.accepts(&ContextEvent::DeviceRequested(true)));
    let q = at(ContextStage::QueryCreateExtensions, OwnershipMode::Owned);
    assert!(q.accepts(&ContextEvent::InstanceExtensions(None)));
    assert!(!q.accepts(&ContextEvent::InstanceCreated(Ok(()))));
    assert!(!q.accepts(&ContextEvent::QueueFamilies(Vec::new())));
    assert!(!q.accepts(&ContextEvent::DeviceCreated(Ok(()))));
    assert!(!q.accepts(&ContextEvent::DeviceOpened(None)));
}

#[test]
fn push_constants_bit_is_that_of_the_high_level_api() {
    assert_eq!(FEATURE_PUSH_CONSTANTS, wgpu::Features::PUSH_CONSTANTS.bits());
    assert_eq!(FEATURE_PUSH_CONSTANTS, 1 << 26);
}
