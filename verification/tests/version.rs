use graphics_interop::version::{
    api_version_major, api_version_minor, api_version_patch, api_version_variant,
    make_api_version, API_VERSION_1_1, MAX_MAJOR, MAX_MINOR, MAX_PATCH, TARGET_VULKAN_VERSION,
};

#[test]
fn named_versions_are_those_of_the_native_api() {
    assert_eq!(TARGET_VULKAN_VERSION, ash::vk::make_api_version(0, 1, 0, 0));
    assert_eq!(TARGET_VULKAN_VERSION, ash::vk::API_VERSION_1_0);
    assert_eq!(API_VERSION_1_1, ash::vk::API_VERSION_1_1);
}

#[test]
fn encoding_has_an_exact_value() {
    assert_eq!(make_api_version(0, 1, 0, 0), 0x0040_0000);
    assert_eq!(make_api_version(0, 1, 1, 0), 0x0040_1000);
    assert_eq!(make_api_version(0, 1, 2, 203), 0x0040_20cb);
    assert_eq!(make_api_version(1, 0, 0, 0), 0x2000_0000);
}

#[test]
fn encoding_agrees_with_the_native_api() {
    let cases = [(0, 1, 0, 0), (0, 1, 1, 0), (0, 1, 2, 191), (3, 127, 1023, 4095), (7, 0, 0, 1)];
    for (variant, major, minor, patch) in cases {
        assert_eq!(
            make_api_version(variant, major, minor, patch),
            ash::vk::make_api_version(variant, major, minor, patch)
        );
    }
}

#[test]
fn decoding_gives_back_the_parts() {
    let v = make_api_version(2, 5, 700, 4000);
    assert_eq!(api_version_variant(v), 2);
    assert_eq!(api_version_major(v), 5);
    assert_eq!(api_version_minor(v), 700);
    assert_eq!(api_version_patch(v), 4000);
    assert_eq!(api_version_major(v), ash::vk::api_version_major(v));
    assert_eq!(api_version_minor(v), ash::vk::api_version_minor(v));
    assert_eq!(api_version_patch(v), ash::vk::api_version_patch(v));
    assert_eq!(api_version_variant(v), ash::vk::api_version_variant(v));
}

#[test]
fn largest_parts_fit() {
    let v = make_api_version(7, MAX_MAJOR, MAX_MINOR, MAX_PATCH);
    assert_eq!(v, u32::MAX);
    assert_eq!(api_version_major(v), 0x7f);
    assert_eq!(api_version_minor(v), 0x3ff);
    assert_eq!(api_version_patch(v), 0xfff);
}

#[test]
fn versions_compare_numerically() {
    assert!(make_api_version(0, 1, 0, 4095) < API_VERSION_1_1);
    assert!(make_api_version(0, 1, 1, 0) >= API_VERSION_1_1);
    assert!(make_api_version(0, 1, 2, 0) > API_VERSION_1_1);
    assert!(make_api_version(0, 2, 0, 0) > API_VERSION_1_1);
    assert!(make_api_version(0, 0, 1023, 0) < API_VERSION_1_1);
}
