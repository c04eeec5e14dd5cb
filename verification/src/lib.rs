//! Interoperability bridge between a VR runtime, a native GPU API and a
//! portable GPU abstraction layer: extension negotiation, instance, device
//! and context construction with explicit ownership, usage translation and
//! swapchain provisioning.

pub mod context;
pub mod device;
pub mod error;
pub mod extensions;
pub mod features;
pub mod handles;
pub mod instance;
pub mod ownership;
pub mod swapchain;
pub mod usage;
pub mod version;
