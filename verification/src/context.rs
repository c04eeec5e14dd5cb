//! Construction of a context: a native instance, device and queue that the
//! abstraction layer and the high-level API share with the caller.
//!
//! The native and abstraction-layer calls are made by the caller. The builder
//! decides which call comes next and with what parameters, and turns each
//! failure into the error that the construction ends with.

use vstd::prelude::*;
use ash::vk::PhysicalDevice;
use wgpu::Limits;
use crate::device::{
    create_vulkan_device,
    get_vulkan_graphics_device,
    prepared_device_info,
    select_graphics_queue_family,
    selected_physical_device,
    selected_queue_family,
    DeviceCreateInfo,
    DeviceCreateInfoView,
    DeviceCreateRequest,
    DeviceQueueCreateInfo,
    QueueFamilyProperties,
};
use crate::error::{BridgeError, FailureCause};
use crate::extensions::{
    get_vulkan_device_extensions,
    instance_flags,
    names,
    required_device_extensions,
    InstanceFlags,
    INSTANCE_DEBUG,
    INSTANCE_VALIDATION,
};
use crate::features::PhysicalDeviceFeatures;
use crate::instance::{
    prepare_instance_info,
    merged_instance_info,
    ApplicationInfo,
    InstanceCreateInfo,
    InstanceCreateInfoView,
};
use crate::ownership::OwnershipMode;
use crate::version::TARGET_VULKAN_VERSION;

verus! {

/// High-level feature bit: push constants.
pub const FEATURE_PUSH_CONSTANTS: u64 = 0x0400_0000;

/// A finished context: which physical device and queue its native device
/// serves, at which API version, and who destroys the native instance and
/// device. One ownership mode holds for the whole context.
#[derive(Clone, Copy, Debug)]
pub struct Context {
    pub ownership: OwnershipMode,
    pub version: u32,
    pub physical_device: PhysicalDevice,
    pub queue_family_index: u32,
    pub queue_index: u32,
}

/// Where the construction of a context stands: the answer that it waits for.
#[derive(Clone, Copy, Debug)]
pub enum ContextStage {
    /// Waits for the instance extensions, to create an instance with them.
    QueryCreateExtensions,
    /// Waits for the outcome of native instance creation.
    CreateInstance,
    /// Waits for the physical devices, to create a device on one of them.
    EnumerateForCreate,
    /// Waits for the queue families of the selected physical device.
    QueryQueueFamilies { physical_device: PhysicalDevice },
    /// Waits for the outcome of native device creation.
    CreateDevice,
    /// Waits for the instance extensions, to wrap the instance with them.
    QueryWrapExtensions,
    /// Waits for the abstraction layer to wrap the native instance.
    WrapInstance,
    /// Waits for the physical devices, to expose one of them as an adapter.
    EnumerateForWrap,
    /// Waits for the abstraction layer to expose the physical device.
    ExposeAdapter { physical_device: PhysicalDevice },
    /// Waits for the abstraction layer to wrap the native device.
    OpenDevice { physical_device: PhysicalDevice },
    /// Waits for the high-level API to make its device and queue.
    RequestDevice { physical_device: PhysicalDevice },
}

/// The construction of a context, between two calls of the caller.
#[derive(Clone, Copy, Debug)]
pub struct ContextBuilder {
    pub ownership: OwnershipMode,
    pub version: u32,
    pub adapter_index: Option<usize>,
    pub queue_family_index: u32,
    pub queue_index: u32,
    pub debug_enabled: bool,
    pub stage: ContextStage,
}

/// What the caller has to do next.
#[derive(Debug)]
pub enum ContextAction {
    /// Ask the abstraction layer which instance extensions it needs.
    QueryInstanceExtensions { flags: InstanceFlags },
    /// Create a native instance.
    CreateInstance { info: InstanceCreateInfo },
    /// Enumerate the physical devices of the native instance.
    EnumeratePhysicalDevices,
    /// Ask the physical device for its queue families.
    QueryQueueFamilies { physical_device: PhysicalDevice },
    /// Create a native device.
    CreateDevice { request: DeviceCreateRequest },
    /// Hand the native instance to the abstraction layer.
    WrapInstance { version: u32, extensions: Vec<String>, flags: InstanceFlags, drop_guard: bool },
    /// Have the abstraction layer expose the physical device as an adapter.
    ExposeAdapter { physical_device: PhysicalDevice },
    /// Hand the native device to the adapter of the abstraction layer.
    OpenDevice {
        handle_is_owned: bool,
        extensions: Vec<String>,
        features: u64,
        queue_family_index: u32,
        queue_index: u32,
    },
    /// Make the instance, adapter, device and queue of the high-level API.
    RequestDevice { features: u64, limits: Limits },
    /// Nothing: the context is there.
    Complete { context: Context },
}

/// What the caller has to do next, as mathematical values.
pub enum ContextActionView {
    QueryInstanceExtensions { flags: InstanceFlags },
    CreateInstance { info: InstanceCreateInfoView },
    EnumeratePhysicalDevices,
    QueryQueueFamilies { physical_device: PhysicalDevice },
    CreateDevice { physical_device: PhysicalDevice, create_info: DeviceCreateInfoView },
    WrapInstance {
        version: u32,
        extensions: Seq<Seq<char>>,
        flags: InstanceFlags,
        drop_guard: bool,
    },
    ExposeAdapter { physical_device: PhysicalDevice },
    OpenDevice {
        handle_is_owned: bool,
        extensions: Seq<Seq<char>>,
        features: u64,
        queue_family_index: u32,
        queue_index: u32,
    },
    RequestDevice { features: u64, limits: Limits },
    Complete { context: Context },
}

impl View for ContextAction {
    type V = ContextActionView;

    open spec fn view(&self) -> ContextActionView {
        match *self {
            ContextAction::QueryInstanceExtensions { flags } => {
                ContextActionView::QueryInstanceExtensions { flags }
            },
            ContextAction::CreateInstance { info } => ContextActionView::CreateInstance {
                info: info@,
            },
            ContextAction::EnumeratePhysicalDevices => ContextActionView::EnumeratePhysicalDevices,
            ContextAction::QueryQueueFamilies { physical_device } => {
                ContextActionView::QueryQueueFamilies { physical_device }
            },
            ContextAction::CreateDevice { request } => ContextActionView::CreateDevice {
                physical_device: request.physical_device,
                create_info: request.create_info@,
            },
            ContextAction::WrapInstance { version, extensions, flags, drop_guard } => {
                ContextActionView::WrapInstance {
                    version,
                    extensions: names(extensions@),
                    flags,
                    drop_guard,
                }
            },
            ContextAction::ExposeAdapter { physical_device } => ContextActionView::ExposeAdapter {
                physical_device,
            },
            ContextAction::OpenDevice {
                handle_is_owned,
                extensions,
                features,
                queue_family_index,
                queue_index,
            } => ContextActionView::OpenDevice {
                handle_is_owned,
                extensions: names(extensions@),
                features,
                queue_family_index,
                queue_index,
            },
            ContextAction::RequestDevice { features, limits } => ContextActionView::RequestDevice {
                features,
                limits,
            },
            ContextAction::Complete { context } => ContextActionView::Complete { context },
        }
    }
}

/// The answer to what the caller was asked to do.
#[derive(Debug)]
pub enum ContextEvent {
    /// The instance extensions that the abstraction layer needs, unless it
    /// could not list them.
    InstanceExtensions(Option<Vec<String>>),
    /// Native instance creation succeeded, or failed with this result code.
    InstanceCreated(Result<(), i32>),
    /// The physical devices, or the result code of the failed enumeration.
    PhysicalDevices(Result<Vec<PhysicalDevice>, i32>),
    /// The queue families of the physical device.
    QueueFamilies(Vec<QueueFamilyProperties>),
    /// Native device creation succeeded, or failed with this result code.
    DeviceCreated(Result<(), i32>),
    /// Whether the abstraction layer wrapped the native instance.
    InstanceWrapped(bool),
    /// Whether the abstraction layer exposed the physical device.
    AdapterExposed(bool),
    /// The limits that the adapter reports, once the abstraction layer has
    /// wrapped the native device; nothing if it refused.
    DeviceOpened(Option<Limits>),
    /// Whether the high-level API made its device and queue.
    DeviceRequested(bool),
}

/// The answer to what the caller was asked to do, as mathematical values.
pub enum ContextEventView {
    InstanceExtensions(Option<Seq<Seq<char>>>),
    InstanceCreated(Result<(), i32>),
    PhysicalDevices(Result<Seq<PhysicalDevice>, i32>),
    QueueFamilies(Seq<QueueFamilyProperties>),
    DeviceCreated(Result<(), i32>),
    InstanceWrapped(bool),
    AdapterExposed(bool),
    DeviceOpened(Option<Limits>),
    DeviceRequested(bool),
}

impl View for ContextEvent {
    type V = ContextEventView;

    open spec fn view(&self) -> ContextEventView {
        match *self {
            ContextEvent::InstanceExtensions(Some(list)) => ContextEventView::InstanceExtensions(
                Some(names(list@)),
            ),
            ContextEvent::InstanceExtensions(None) => ContextEventView::InstanceExtensions(None),
            ContextEvent::InstanceCreated(outcome) => ContextEventView::InstanceCreated(outcome),
            ContextEvent::PhysicalDevices(Ok(devices)) => ContextEventView::PhysicalDevices(
                Ok(devices@),
            ),
            ContextEvent::PhysicalDevices(Err(code)) => ContextEventView::PhysicalDevices(
                Err(code),
            ),
            ContextEvent::QueueFamilies(families) => ContextEventView::QueueFamilies(families@),
            ContextEvent::DeviceCreated(outcome) => ContextEventView::DeviceCreated(outcome),
            ContextEvent::InstanceWrapped(done) => ContextEventView::InstanceWrapped(done),
            ContextEvent::AdapterExposed(done) => ContextEventView::AdapterExposed(done),
            ContextEvent::DeviceOpened(limits) => ContextEventView::DeviceOpened(limits),
            ContextEvent::DeviceRequested(done) => ContextEventView::DeviceRequested(done),
        }
    }
}

/// A step of the construction: where it stands now and what the caller has
/// to do next.
#[derive(Debug)]
pub struct ContextStep {
    pub builder: ContextBuilder,
    pub action: ContextAction,
}

/// The flags with which the abstraction layer is asked for its instance
/// extensions, and with which the instance is handed to it.
pub open spec fn flags_for(debug_enabled: bool) -> InstanceFlags {
    InstanceFlags {
        bits: if debug_enabled {
            INSTANCE_VALIDATION | INSTANCE_DEBUG
        } else {
            0u32
        },
    }
}

/// The parameters from which the library creates its own native instance:
/// the target version and no extensions of the caller's.
pub open spec fn default_instance_info(version: u32) -> InstanceCreateInfoView {
    InstanceCreateInfoView {
        enabled_extension_names: Seq::empty(),
        application_info: ApplicationInfo { api_version: version },
    }
}

/// The parameters from which the library creates its own native device: one
/// queue of the given family, no extensions and no features of the caller's.
pub open spec fn default_device_info(queue_family_index: u32) -> DeviceCreateInfoView {
    DeviceCreateInfoView {
        queue_create_infos: seq![DeviceQueueCreateInfo { queue_family_index, queue_count: 1 }],
        enabled_extension_names: Seq::empty(),
        enabled_features: PhysicalDeviceFeatures::none_spec(),
    }
}

impl ContextBuilder {
    /// The same construction at another stage.
    pub open spec fn at(self, stage: ContextStage) -> ContextBuilder {
        ContextBuilder { stage, ..self }
    }

    /// The context that the construction ends with.
    pub open spec fn context(self, physical_device: PhysicalDevice) -> Context {
        Context {
            ownership: self.ownership,
            version: self.version,
            physical_device,
            queue_family_index: self.queue_family_index,
            queue_index: self.queue_index,
        }
    }

    /// Whether the answer is one that the construction waits for.
    pub open spec fn expects(self, event: ContextEventView) -> bool {
        match (self.stage, event) {
            (ContextStage::QueryCreateExtensions, ContextEventView::InstanceExtensions(_)) => true,
            (ContextStage::CreateInstance, ContextEventView::InstanceCreated(_)) => true,
            (ContextStage::EnumerateForCreate, ContextEventView::PhysicalDevices(_)) => true,
            (
                ContextStage::QueryQueueFamilies { .. },
                ContextEventView::QueueFamilies(families),
            ) => families.len() <= u32::MAX,
            (ContextStage::CreateDevice, ContextEventView::DeviceCreated(_)) => true,
            (ContextStage::QueryWrapExtensions, ContextEventView::InstanceExtensions(_)) => true,
            (ContextStage::WrapInstance, ContextEventView::InstanceWrapped(_)) => true,
            (ContextStage::EnumerateForWrap, ContextEventView::PhysicalDevices(_)) => true,
            (ContextStage::ExposeAdapter { .. }, ContextEventView::AdapterExposed(_)) => true,
            (ContextStage::OpenDevice { .. }, ContextEventView::DeviceOpened(_)) => true,
            (ContextStage::RequestDevice { .. }, ContextEventView::DeviceRequested(_)) => true,
            _ => false,
        }
    }

    /// What an answer leads to: the next stage and the next thing to do, or
    /// the error that ends the construction.
    pub open spec fn next(self, event: ContextEventView) -> Result<
        (ContextBuilder, ContextActionView),
        BridgeError,
    > {
        match (self.stage, event) {
            (
                ContextStage::QueryCreateExtensions,
                ContextEventView::InstanceExtensions(queried),
            ) => match queried {
                None => Err(BridgeError::ExtensionQueryError),
                Some(required) => Ok(
                    (
                        self.at(ContextStage::CreateInstance),
                        ContextActionView::CreateInstance {
                            info: merged_instance_info(
                                required,
                                default_instance_info(self.version),
                            ),
                        },
                    ),
                ),
            },
            (ContextStage::CreateInstance, ContextEventView::InstanceCreated(outcome)) => {
                match outcome {
                    Err(code) => Err(
                        BridgeError::InstanceCreationError {
                            cause: FailureCause::NativeCode(code),
                        },
                    ),
                    Ok(_) => Ok(
                        (
                            self.at(ContextStage::EnumerateForCreate),
                            ContextActionView::EnumeratePhysicalDevices,
                        ),
                    ),
                }
            },
            (ContextStage::EnumerateForCreate, ContextEventView::PhysicalDevices(enumerated)) => {
                match selected_physical_device(enumerated, self.adapter_index) {
                    Err(e) => Err(e),
                    Ok(physical_device) => Ok(
                        (
                            self.at(ContextStage::QueryQueueFamilies { physical_device }),
                            ContextActionView::QueryQueueFamilies { physical_device },
                        ),
                    ),
                }
            },
            (
                ContextStage::QueryQueueFamilies { physical_device },
                ContextEventView::QueueFamilies(families),
            ) => match selected_queue_family(families) {
                Err(e) => Err(e),
                Ok(queue_family_index) => Ok(
                    (
                        ContextBuilder {
                            queue_family_index,
                            stage: ContextStage::CreateDevice,
                            ..self
                        },
                        ContextActionView::CreateDevice {
                            physical_device,
                            create_info: prepared_device_info(
                                self.version,
                                default_device_info(queue_family_index),
                            ),
                        },
                    ),
                ),
            },
            (ContextStage::CreateDevice, ContextEventView::DeviceCreated(outcome)) => {
                match outcome {
                    Err(code) => Err(
                        BridgeError::DeviceCreationError { cause: FailureCause::NativeCode(code) },
                    ),
                    Ok(_) => Ok(
                        (
                            self.at(ContextStage::QueryWrapExtensions),
                            ContextActionView::QueryInstanceExtensions {
                                flags: flags_for(self.debug_enabled),
                            },
                        ),
                    ),
                }
            },
            (ContextStage::QueryWrapExtensions, ContextEventView::InstanceExtensions(queried)) => {
                match queried {
                    None => Err(BridgeError::ExtensionQueryError),
                    Some(extensions) => Ok(
                        (
                            self.at(ContextStage::WrapInstance),
                            ContextActionView::WrapInstance {
                                version: self.version,
                                extensions,
                                flags: flags_for(self.debug_enabled),
                                drop_guard: self.ownership.owned(),
                            },
                        ),
                    ),
                }
            },
            (ContextStage::WrapInstance, ContextEventView::InstanceWrapped(done)) => {
                if done {
                    Ok(
                        (
                            self.at(ContextStage::EnumerateForWrap),
                            ContextActionView::EnumeratePhysicalDevices,
                        ),
                    )
                } else {
                    Err(
                        BridgeError::InstanceCreationError {
                            cause: FailureCause::AbstractionLayer,
                        },
                    )
                }
            },
            (ContextStage::EnumerateForWrap, ContextEventView::PhysicalDevices(enumerated)) => {
                match selected_physical_device(enumerated, self.adapter_index) {
                    Err(e) => Err(e),
                    Ok(physical_device) => Ok(
                        (
                            self.at(ContextStage::ExposeAdapter { physical_device }),
                            ContextActionView::ExposeAdapter { physical_device },
                        ),
                    ),
                }
            },
            (
                ContextStage::ExposeAdapter { physical_device },
                ContextEventView::AdapterExposed(done),
            ) => {
                if done {
                    Ok(
                        (
                            self.at(ContextStage::OpenDevice { physical_device }),
                            ContextActionView::OpenDevice {
                                handle_is_owned: self.ownership.owned(),
                                extensions: required_device_extensions(self.version),
                                features: FEATURE_PUSH_CONSTANTS,
                                queue_family_index: self.queue_family_index,
                                queue_index: self.queue_index,
                            },
                        ),
                    )
                } else {
                    Err(BridgeError::AdapterExposureError)
                }
            },
            (
                ContextStage::OpenDevice { physical_device },
                ContextEventView::DeviceOpened(opened),
            ) => match opened {
                None => Err(
                    BridgeError::DeviceCreationError { cause: FailureCause::AbstractionLayer },
                ),
                Some(limits) => Ok(
                    (
                        self.at(ContextStage::RequestDevice { physical_device }),
                        ContextActionView::RequestDevice {
                            features: FEATURE_PUSH_CONSTANTS,
                            limits,
                        },
                    ),
                ),
            },
            (
                ContextStage::RequestDevice { physical_device },
                ContextEventView::DeviceRequested(done),
            ) => {
                if done {
                    Ok(
                        (
                            self,
                            ContextActionView::Complete { context: self.context(physical_device) },
                        ),
                    )
                } else {
                    Err(
                        BridgeError::DeviceCreationError { cause: FailureCause::AbstractionLayer },
                    )
                }
            },
            _ => arbitrary(),
        }
    }
}

impl Context {
    /// Starts the construction of a context on a native instance and device
    /// that the caller made. The first thing to do is to ask the abstraction
    /// layer for its instance extensions. With `owned` unset the context must
    /// be discarded before the caller destroys the instance and the device.
    pub fn from_vulkan(
        owned: bool,
        version: u32,
        adapter_index: Option<usize>,
        queue_family_index: u32,
        queue_index: u32,
        debug_enabled: bool,
    ) -> (r: ContextStep)
        ensures
            r.builder == (ContextBuilder {
                ownership: if owned {
                    OwnershipMode::Owned
                } else {
                    OwnershipMode::Borrowed
                },
                version,
                adapter_index,
                queue_family_index,
                queue_index,
                debug_enabled,
                stage: ContextStage::QueryWrapExtensions,
            }),
            r.action@ == (ContextActionView::QueryInstanceExtensions {
                flags: flags_for(debug_enabled),
            }),
    {
        ContextStep {
            builder: ContextBuilder {
                ownership: OwnershipMode::from_owned(owned),
                version,
                adapter_index,
                queue_family_index,
                queue_index,
                debug_enabled,
                stage: ContextStage::QueryWrapExtensions,
            },
            action: ContextAction::QueryInstanceExtensions { flags: instance_flags(debug_enabled) },
        }
    }

    /// Starts the construction of a context that makes its own native
    /// instance and device, for the target version, and owns them. The first
    /// thing to do is to ask the abstraction layer for its instance
    /// extensions.
    pub fn new(adapter_index: Option<usize>, debug_enabled: bool) -> (r: ContextStep)
        ensures
            r.builder == (ContextBuilder {
                ownership: OwnershipMode::Owned,
                version: TARGET_VULKAN_VERSION,
                adapter_index,
                queue_family_index: 0,
                queue_index: 0,
                debug_enabled,
                stage: ContextStage::QueryCreateExtensions,
            }),
            r.action@ == (ContextActionView::QueryInstanceExtensions {
                flags: flags_for(debug_enabled),
            }),
    {
        ContextStep {
            builder: ContextBuilder {
                ownership: OwnershipMode::Owned,
                version: TARGET_VULKAN_VERSION,
                adapter_index,
                queue_family_index: 0,
                queue_index: 0,
                debug_enabled,
                stage: ContextStage::QueryCreateExtensions,
            },
            action: ContextAction::QueryInstanceExtensions { flags: instance_flags(debug_enabled) },
        }
    }
}

impl ContextBuilder {
    /// Whether the answer is one that the construction waits for.
    pub fn accepts(&self, event: &ContextEvent) -> (r: bool)
        ensures
            r == self.expects(event@),
    {
        match (&self.stage, event) {
            (ContextStage::QueryCreateExtensions, ContextEvent::InstanceExtensions(_)) => true,
            (ContextStage::CreateInstance, ContextEvent::InstanceCreated(_)) => true,
            (ContextStage::EnumerateForCreate, ContextEvent::PhysicalDevices(_)) => true,
            (ContextStage::QueryQueueFamilies { .. }, ContextEvent::QueueFamilies(families)) => {
                families.len() <= u32::MAX as usize
            },
            (ContextStage::CreateDevice, ContextEvent::DeviceCreated(_)) => true,
            (ContextStage::QueryWrapExtensions, ContextEvent::InstanceExtensions(_)) => true,
            (ContextStage::WrapInstance, ContextEvent::InstanceWrapped(_)) => true,
            (ContextStage::EnumerateForWrap, ContextEvent::PhysicalDevices(_)) => true,
            (ContextStage::ExposeAdapter { .. }, ContextEvent::AdapterExposed(_)) => true,
            (ContextStage::OpenDevice { .. }, ContextEvent::DeviceOpened(_)) => true,
            (ContextStage::RequestDevice { .. }, ContextEvent::DeviceRequested(_)) => true,
            _ => false,
        }
    }

    fn proceed(self, stage: ContextStage, action: ContextAction) -> (r: ContextStep)
        ensures
            r.builder == self.at(stage),
            r.action == action,
    {
        ContextStep {
            builder: ContextBuilder {
                ownership: self.ownership,
                version: self.version,
                adapter_index: self.adapter_index,
                queue_family_index: self.queue_family_index,
                queue_index: self.queue_index,
                debug_enabled: self.debug_enabled,
                stage,
            },
            action,
        }
    }

    /// Takes the answer to what the caller was asked to do, and says what to
    /// do next, or with which error the construction ends.
    pub fn advance(self, event: ContextEvent) -> (r: Result<ContextStep, BridgeError>)
        requires
            self.expects(event@),
        ensures
            r matches Ok(step) ==> self.next(event@) == Ok::<
                (ContextBuilder, ContextActionView),
                BridgeError,
            >((step.builder, step.action@)),
            r matches Err(e) ==> self.next(event@) == Err::<
                (ContextBuilder, ContextActionView),
                BridgeError,
            >(e),
    {
        match (self.stage, event) {
            (ContextStage::QueryCreateExtensions, ContextEvent::InstanceExtensions(queried)) => {
                let base = InstanceCreateInfo {
                    enabled_extension_names: Vec::new(),
                    application_info: ApplicationInfo { api_version: self.version },
                };
                assert(base@.enabled_extension_names =~= Seq::empty());
                match prepare_instance_info(queried, &base) {
                    Ok(info) => Ok(
                        self.proceed(
                            ContextStage::CreateInstance,
                            ContextAction::CreateInstance { info },
                        ),
                    ),
                    Err(e) => Err(e),
                }
            },
            (ContextStage::CreateInstance, ContextEvent::InstanceCreated(outcome)) => {
                match outcome {
                    Ok(_) => Ok(
                        self.proceed(
                            ContextStage::EnumerateForCreate,
                            ContextAction::EnumeratePhysicalDevices,
                        ),
                    ),
                    Err(code) => Err(
                        BridgeError::InstanceCreationError {
                            cause: FailureCause::NativeCode(code),
                        },
                    ),
                }
            },
            (ContextStage::EnumerateForCreate, ContextEvent::PhysicalDevices(enumerated)) => {
                match get_vulkan_graphics_device(enumerated, self.adapter_index) {
                    Ok(physical_device) => Ok(
                        self.proceed(
                            ContextStage::QueryQueueFamilies { physical_device },
                            ContextAction::QueryQueueFamilies { physical_device },
                        ),
                    ),
                    Err(e) => Err(e),
                }
            },
            (
                ContextStage::QueryQueueFamilies { physical_device },
                ContextEvent::QueueFamilies(families),
            ) => {
                match select_graphics_queue_family(&families) {
                    Ok(queue_family_index) => {
                        let base = DeviceCreateInfo {
                            queue_create_infos: vec![
                                DeviceQueueCreateInfo { queue_family_index, queue_count: 1 },
                            ],
                            enabled_extension_names: Vec::new(),
                            enabled_features: PhysicalDeviceFeatures::none(),
                        };
                        assert(base@.enabled_extension_names =~= Seq::empty());
                        assert(base@.queue_create_infos =~= seq![
                            DeviceQueueCreateInfo { queue_family_index, queue_count: 1 },
                        ]);
                        assert(base@ == default_device_info(queue_family_index));
                        let request = create_vulkan_device(self.version, physical_device, &base);
                        Ok(
                            ContextStep {
                                builder: ContextBuilder {
                                    ownership: self.ownership,
                                    version: self.version,
                                    adapter_index: self.adapter_index,
                                    queue_family_index,
                                    queue_index: self.queue_index,
                                    debug_enabled: self.debug_enabled,
                                    stage: ContextStage::CreateDevice,
                                },
                                action: ContextAction::CreateDevice { request },
                            },
                        )
                    },
                    Err(e) => Err(e),
                }
            },
            (ContextStage::CreateDevice, ContextEvent::DeviceCreated(outcome)) => {
                match outcome {
                    Ok(_) => Ok(
                        self.proceed(
                            ContextStage::QueryWrapExtensions,
                            ContextAction::QueryInstanceExtensions {
                                flags: instance_flags(self.debug_enabled),
                            },
                        ),
                    ),
                    Err(code) => Err(
                        BridgeError::DeviceCreationError { cause: FailureCause::NativeCode(code) },
                    ),
                }
            },
            (ContextStage::QueryWrapExtensions, ContextEvent::InstanceExtensions(queried)) => {
                match queried {
                    Some(extensions) => Ok(
                        self.proceed(
                            ContextStage::WrapInstance,
                            ContextAction::WrapInstance {
                                version: self.version,
                                extensions,
                                flags: instance_flags(self.debug_enabled),
                                drop_guard: self.ownership.instance_drop_guard(),
                            },
                        ),
                    ),
                    None => Err(BridgeError::ExtensionQueryError),
                }
            },
            (ContextStage::WrapInstance, ContextEvent::InstanceWrapped(done)) => {
                if done {
                    Ok(
                        self.proceed(
                            ContextStage::EnumerateForWrap,
                            ContextAction::EnumeratePhysicalDevices,
                        ),
                    )
                } else {
                    Err(
                        BridgeError::InstanceCreationError {
                            cause: FailureCause::AbstractionLayer,
                        },
                    )
                }
            },
            (ContextStage::EnumerateForWrap, ContextEvent::PhysicalDevices(enumerated)) => {
                match get_vulkan_graphics_device(enumerated, self.adapter_index) {
                    Ok(physical_device) => Ok(
                        self.proceed(
                            ContextStage::ExposeAdapter { physical_device },
                            ContextAction::ExposeAdapter { physical_device },
                        ),
                    ),
                    Err(e) => Err(e),
                }
            },
            (ContextStage::ExposeAdapter { physical_device }, ContextEvent::AdapterExposed(done)) => {
                if done {
                    Ok(
                        self.proceed(
                            ContextStage::OpenDevice { physical_device },
                            ContextAction::OpenDevice {
                                handle_is_owned: self.ownership.device_handle_is_owned(),
                                extensions: get_vulkan_device_extensions(self.version),
                                features: FEATURE_PUSH_CONSTANTS,
                                queue_family_index: self.queue_family_index,
                                queue_index: self.queue_index,
                            },
                        ),
                    )
                } else {
                    Err(BridgeError::AdapterExposureError)
                }
            },
            (ContextStage::OpenDevice { physical_device }, ContextEvent::DeviceOpened(opened)) => {
                match opened {
                    Some(limits) => Ok(
                        self.proceed(
                            ContextStage::RequestDevice { physical_device },
                            ContextAction::RequestDevice {
                                features: FEATURE_PUSH_CONSTANTS,
                                limits,
                            },
                        ),
                    ),
                    None => Err(
                        BridgeError::DeviceCreationError { cause: FailureCause::AbstractionLayer },
                    ),
                }
            },
            (
                ContextStage::RequestDevice { physical_device },
                ContextEvent::DeviceRequested(done),
            ) => {
                if done {
                    let context = Context {
                        ownership: self.ownership,
                        version: self.version,
                        physical_device,
                        queue_family_index: self.queue_family_index,
                        queue_index: self.queue_index,
                    };
                    Ok(ContextStep { builder: self, action: ContextAction::Complete { context } })
                } else {
                    Err(
                        BridgeError::DeviceCreationError { cause: FailureCause::AbstractionLayer },
                    )
                }
            },
            _ => {
                assert(false);
                Err(BridgeError::ExtensionQueryError)
            },
        }
    }
}

/// The ownership mode is threaded through the whole construction: no step
/// changes it, and whenever a native handle is handed to the abstraction
/// layer, the layer is told to destroy it exactly when the context owns it.
/// So a borrowed context leaves the caller's instance and device alone when
/// it is discarded.
pub proof fn lemma_ownership_is_threaded(builder: ContextBuilder, event: ContextEventView)
    requires
        builder.expects(event),
    ensures
        builder.next(event) matches Ok((after, action)) ==> {
            &&& after.ownership == builder.ownership
            &&& (action matches ContextActionView::WrapInstance { drop_guard, .. }
                ==> crate::ownership::layer_destroys_instance(drop_guard)
                == builder.ownership.owned())
            &&& (action matches ContextActionView::OpenDevice { handle_is_owned, .. }
                ==> crate::ownership::layer_destroys_device(handle_is_owned)
                == builder.ownership.owned())
            &&& (action matches ContextActionView::Complete { context } ==> context.ownership
                == builder.ownership)
        },
{
}

/// No step changes the version, the adapter index, the queue index or the
/// debug mode, and only the answer with the queue families sets the queue
/// family index.
pub proof fn lemma_parameters_are_kept(builder: ContextBuilder, event: ContextEventView)
    requires
        builder.expects(event),
    ensures
        builder.next(event) matches Ok((after, _)) ==> {
            &&& after.version == builder.version
            &&& after.adapter_index == builder.adapter_index
            &&& after.queue_index == builder.queue_index
            &&& after.debug_enabled == builder.debug_enabled
            &&& (!(event is QueueFamilies) ==> after.queue_family_index
                == builder.queue_family_index)
        },
{
}

/// Whenever the construction asks for a native device, the submitted feature
/// set has the three required features on, and the submitted extensions start
/// with the required device extensions of the version.
pub proof fn lemma_created_device_has_required_features(
    builder: ContextBuilder,
    event: ContextEventView,
)
    requires
        builder.expects(event),
    ensures
        builder.next(event) matches Ok((_, ContextActionView::CreateDevice { create_info, .. }))
            ==> create_info.enabled_features.has_required()
            && create_info.enabled_extension_names == required_device_extensions(builder.version),
{
    match builder.next(event) {
        Ok((_, ContextActionView::CreateDevice { create_info, .. })) => {
            assert(create_info.enabled_extension_names =~= required_device_extensions(
                builder.version,
            ));
        },
        _ => {},
    }
}

/// An adapter index at or beyond the number of enumerated physical devices
/// ends the construction with a device enumeration error, at either of the
/// two stages that select a physical device.
pub proof fn lemma_adapter_index_out_of_range(
    builder: ContextBuilder,
    devices: Seq<PhysicalDevice>,
)
    requires
        builder.stage is EnumerateForCreate || builder.stage is EnumerateForWrap,
        crate::device::adapter_index_or_default(builder.adapter_index) >= devices.len(),
    ensures
        builder.next(ContextEventView::PhysicalDevices(Ok(devices))) matches Err(
            BridgeError::DeviceEnumerationError { .. },
        ),
{
}

/// Each failed answer ends the construction with the error of its kind, and
/// a native result code is kept in the error.
pub proof fn lemma_failures_are_typed(builder: ContextBuilder, event: ContextEventView)
    requires
        builder.expects(event),
    ensures
        event matches ContextEventView::InstanceExtensions(None) ==> builder.next(event) == Err::<
            (ContextBuilder, ContextActionView),
            BridgeError,
        >(BridgeError::ExtensionQueryError),
        event matches ContextEventView::InstanceCreated(Err(code)) ==> builder.next(event)
            matches Err(e) && e.native_code_spec() == Some(code) && e
            is InstanceCreationError,
        event matches ContextEventView::PhysicalDevices(Err(code)) ==> builder.next(event)
            matches Err(e) && e.native_code_spec() == Some(code) && e
            is DeviceEnumerationError,
        event matches ContextEventView::DeviceCreated(Err(code)) ==> builder.next(event)
            matches Err(e) && e.native_code_spec() == Some(code) && e is DeviceCreationError,
        event matches ContextEventView::InstanceWrapped(false) ==> builder.next(event)
            matches Err(e) && e is InstanceCreationError,
        event matches ContextEventView::AdapterExposed(false) ==> builder.next(event) == Err::<
            (ContextBuilder, ContextActionView),
            BridgeError,
        >(BridgeError::AdapterExposureError),
        event matches ContextEventView::DeviceOpened(None) ==> builder.next(event) matches Err(e)
            && e is DeviceCreationError,
        event matches ContextEventView::DeviceRequested(false) ==> builder.next(event)
            matches Err(e) && e is DeviceCreationError,
        event matches ContextEventView::QueueFamilies(families) && (forall|i: int|
            0 <= i < families.len() ==> !crate::device::supports_graphics(#[trigger] families[i]))
            ==> builder.next(event) == Err::<(ContextBuilder, ContextActionView), BridgeError>(
            BridgeError::QueueFamilySelectionError,
        ),
{
}

/// The limits with which the high-level device is requested are the limits
/// that the adapter reported, and the only feature asked for is push
/// constants.
pub proof fn lemma_adapter_limits_are_kept(builder: ContextBuilder, limits: Limits)
    requires
        builder.stage is OpenDevice,
    ensures
        builder.next(ContextEventView::DeviceOpened(Some(limits))) matches Ok(
            (_, ContextActionView::RequestDevice { features, limits: asked }),
        ) && asked == limits && features == FEATURE_PUSH_CONSTANTS,
{
}

} // verus!
