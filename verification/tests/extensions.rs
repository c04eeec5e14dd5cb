use graphics_interop::error::BridgeError;
use graphics_interop::extensions::{
    extension_query_answer, get_vulkan_device_extensions, instance_extensions_outcome, instance_flags,
    merge_extensions, INSTANCE_DEBUG, INSTANCE_VALIDATION,
};
use graphics_interop::version::{make_api_version, API_VERSION_1_1, TARGET_VULKAN_VERSION};

fn owned(names: &[&str]) -> Vec<String> {
    names.iter().map(|n| n.to_string()).collect()
}

#[test]
fn before_1_1_the_maintenance_extensions_are_required() {
    assert_eq!(
        get_vulkan_device_extensions(TARGET_VULKAN_VERSION),
        owned(&["VK_KHR_swapchain", "VK_KHR_maintenance1", "VK_KHR_maintenance2"])
    );
    assert_eq!(
        get_vulkan_device_extensions(0),
        owned(&["VK_KHR_swapchain", "VK_KHR_maintenance1", "VK_KHR_maintenance2"])
    );
    assert_eq!(get_vulkan_device_extensions(API_VERSION_1_1 - 1).len(), 3);
}

#[test]
fn from_1_1_on_only_the_swapchain_extension_is_required() {
    assert_eq!(get_vulkan_device_extensions(API_VERSION_1_1), owned(&["VK_KHR_swapchain"]));
    assert_eq!(
        get_vulkan_device_extensions(make_api_version(0, 1, 2, 0)),
        owned(&["VK_KHR_swapchain"])
    );
    assert_eq!(get_vulkan_device_extensions(u32::MAX), owned(&["VK_KHR_swapchain"]));
    for version in [API_VERSION_1_1, make_api_version(0, 1, 3, 7), make_api_version(0, 2, 0, 0)] {
        let list = get_vulkan_device_extensions(version);
        assert!(!list.contains(&"VK_KHR_maintenance1".to_string()));
        assert!(!list.contains(&"VK_KHR_maintenance2".to_string()));
    }
}

#[test]
fn device_extension_names_are_those_of_the_native_api() {
    let list = get_vulkan_device_extensions(TARGET_VULKAN_VERSION);
    assert_eq!(list[0], ash::extensions::khr::Swapchain::name().to_str().unwrap());
    assert_eq!(list[1], ash::vk::KhrMaintenance1Fn::name().to_str().unwrap());
    assert_eq!(list[2], ash::vk::KhrMaintenance2Fn::name().to_str().unwrap());
}

#[test]
fn merging_puts_the_required_extensions_first() {
    let required = owned(&["VK_KHR_surface", "VK_KHR_xcb_surface"]);
    let supplied = owned(&["VK_EXT_a", "VK_EXT_b", "VK_EXT_c"]);
    assert_eq!(
        merge_extensions(required, &supplied),
        owned(&["VK_KHR_surface", "VK_KHR_xcb_surface", "VK_EXT_a", "VK_EXT_b", "VK_EXT_c"])
    );
}

#[test]
fn merging_keeps_duplicates_and_empty_lists() {
    assert_eq!(merge_extensions(owned(&["x"]), &owned(&["x"])), owned(&["x", "x"]));
    assert_eq!(merge_extensions(Vec::new(), &owned(&["a"])), owned(&["a"]));
    assert_eq!(merge_extensions(owned(&["a"]), &Vec::new()), owned(&["a"]));
    assert_eq!(merge_extensions(Vec::new(), &Vec::new()), Vec::<String>::new());
}

#[test]
fn instance_flags_depend_on_debug_mode() {
    assert_eq!(instance_flags(false).bits, 0);
    assert_eq!(instance_flags(true).bits, 3);
    assert_eq!(instance_flags(false).bits, wgpu_hal::InstanceFlags::empty().bits());
    assert_eq!(
        instance_flags(true).bits,
        (wgpu_hal::InstanceFlags::VALIDATION | wgpu_hal::InstanceFlags::DEBUG).bits()
    );
    assert_eq!(INSTANCE_DEBUG, wgpu_hal::InstanceFlags::DEBUG.bits());
    assert_eq!(INSTANCE_VALIDATION, wgpu_hal::InstanceFlags::VALIDATION.bits());
}

#[test]
fn queried_instance_extensions_are_handed_on() {
    assert_eq!(
        instance_extensions_outcome(Some(owned(&["VK_KHR_surface", "VK_EXT_debug_utils"]))),
        Ok(owned(&["VK_KHR_surface", "VK_EXT_debug_utils"]))
    );
    assert_eq!(instance_extensions_outcome(Some(Vec::new())), Ok(Vec::new()));
}

#[test]
fn failed_extension_query_is_an_error() {
    assert_eq!(instance_extensions_outcome(None), Err(BridgeError::ExtensionQueryError));
}

#[test]
fn the_answer_of_the_layer_is_handed_on() {
    assert_eq!(
        extension_query_answer(Ok(owned(&["VK_KHR_surface", "VK_KHR_xcb_surface"]))),
        Some(owned(&["VK_KHR_surface", "VK_KHR_xcb_surface"]))
    );
    assert_eq!(extension_query_answer(Ok(Vec::new())), Some(Vec::new()));
}

#[test]
fn a_refusal_of_the_layer_gives_nothing() {
    assert_eq!(extension_query_answer(Err(wgpu_hal::InstanceError)), None);
    assert_eq!(
        instance_extensions_outcome(extension_query_answer(Err(wgpu_hal::InstanceError))),
        Err(BridgeError::ExtensionQueryError)
    );
}
