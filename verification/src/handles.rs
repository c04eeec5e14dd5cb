//! Outside types that the bridge carries through without looking inside
//! them: native handles and formats, the native entry points, the limits of
//! an adapter.

use vstd::prelude::*;

verus! {

/// `ash::Entry`: the entry points of the native API, loaded from its library.
#[verifier::external_type_specification]
#[verifier::external_body]
pub struct ExEntry(ash::Entry);

/// `wgpu_hal::InstanceError`: the abstraction layer's failure to work on the
/// native API of this machine.
#[verifier::external_type_specification]
#[verifier::external_body]
pub struct ExInstanceError(wgpu_hal::InstanceError);

/// `ash::vk::Image`: a native image handle.
#[verifier::external_type_specification]
#[verifier::external_body]
pub struct ExImage(ash::vk::Image);

/// `ash::vk::PhysicalDevice`: a native physical-device handle.
#[verifier::external_type_specification]
#[verifier::external_body]
pub struct ExPhysicalDevice(ash::vk::PhysicalDevice);

/// `ash::vk::Format`: a native image format.
#[verifier::external_type_specification]
#[verifier::external_body]
pub struct ExFormat(ash::vk::Format);

/// `wgpu::TextureFormat`: a texture format of the high-level API.
#[verifier::external_type_specification]
#[verifier::external_body]
pub struct ExTextureFormat(wgpu::TextureFormat);

/// `wgpu::Limits`: the limits that an adapter of the high-level API reports.
#[verifier::external_type_specification]
#[verifier::external_body]
pub struct ExLimits(wgpu::Limits);

} // verus!
