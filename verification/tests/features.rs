use graphics_interop::features::PhysicalDeviceFeatures;

#[test]
fn no_feature_is_on_in_the_empty_set() {
    let none = PhysicalDeviceFeatures::none();
    assert!(!none.robust_buffer_access);
    assert!(!none.independent_blend);
    assert!(!none.sample_rate_shading);
    assert!(!none.full_draw_index_uint32);
    assert!(!none.inherited_queries);
    assert_eq!(none, PhysicalDeviceFeatures::none());
}

#[test]
fn forcing_switches_on_exactly_three_features() {
    let forced = PhysicalDeviceFeatures::none().force_required();
    let mut expected = PhysicalDeviceFeatures::none();
    expected.robust_buffer_access = true;
    expected.independent_blend = true;
    expected.sample_rate_shading = true;
    assert_eq!(forced, expected);
    assert_eq!(forced.force_required(), forced);
}

#[test]
fn forcing_leaves_the_other_features_alone() {
    let mut asked = PhysicalDeviceFeatures::none();
    asked.sampler_anisotropy = true;
    asked.texture_compression_bc = true;
    asked.sample_rate_shading = true;
    let forced = asked.force_required();
    assert!(forced.sampler_anisotropy);
    assert!(forced.texture_compression_bc);
    assert!(forced.robust_buffer_access);
    assert!(forced.independent_blend);
    assert!(forced.sample_rate_shading);
    assert!(!forced.depth_clamp);
    let mut expected = asked;
    expected.robust_buffer_access = true;
    expected.independent_blend = true;
    assert_eq!(forced, expected);
}

#[test]
fn the_feature_set_has_the_fields_of_the_native_api() {
    let native = ash::vk::PhysicalDeviceFeatures::default();
    assert_eq!(native.robust_buffer_access, ash::vk::FALSE);
    assert_eq!(std::mem::size_of::<ash::vk::PhysicalDeviceFeatures>(), 55 * 4);
    assert_eq!(std::mem::size_of::<PhysicalDeviceFeatures>(), 55);
}
