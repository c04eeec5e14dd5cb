use graphics_interop::error::{
    decimal, signed_decimal, BridgeError, EnumerationFailure, FailureCause,
};
use graphics_interop::ownership::OwnershipMode;

#[test]
fn ownership_from_a_flag() {
    assert_eq!(OwnershipMode::from_owned(true), OwnershipMode::Owned);
    assert_eq!(OwnershipMode::from_owned(false), OwnershipMode::Borrowed);
    assert!(OwnershipMode::Owned.is_owned());
    assert!(!OwnershipMode::Borrowed.is_owned());
}

#[test]
fn owned_handles_are_destroyed_by_the_layer() {
    assert!(OwnershipMode::Owned.instance_drop_guard());
    assert!(OwnershipMode::Owned.device_handle_is_owned());
    assert!(!OwnershipMode::Owned.image_drop_guard());
}

#[test]
fn borrowed_handles_are_left_to_the_caller() {
    assert!(!OwnershipMode::Borrowed.instance_drop_guard());
    assert!(!OwnershipMode::Borrowed.device_handle_is_owned());
    assert!(OwnershipMode::Borrowed.image_drop_guard());
}

#[test]
fn every_error_has_its_message() {
    assert_eq!(
        BridgeError::ExtensionQueryError.message(),
        "required extensions could not be queried"
    );
    assert_eq!(
        BridgeError::InstanceCreationError { cause: FailureCause::NativeCode(-1) }.message(),
        "instance creation failed: native result code -1"
    );
    assert_eq!(
        BridgeError::DeviceEnumerationError { failure: EnumerationFailure::Native { code: -3 } }
            .message(),
        "physical devices could not be enumerated: native result code -3"
    );
    assert_eq!(
        BridgeError::DeviceEnumerationError {
            failure: EnumerationFailure::OutOfRange { index: 4, available: 1 }
        }
        .message(),
        "adapter index out of range: index 4, devices 1"
    );
    assert_eq!(
        BridgeError::DeviceCreationError { cause: FailureCause::AbstractionLayer }.message(),
        "device creation failed"
    );
    assert_eq!(
        BridgeError::AdapterExposureError.message(),
        "physical device is not usable as an adapter"
    );
    assert_eq!(
        BridgeError::QueueFamilySelectionError.message(),
        "no queue family supports graphics"
    );
    assert_eq!(
        BridgeError::ImageCreationError { code: -2 }.message(),
        "image creation failed: native result code -2"
    );
    assert_eq!(
        BridgeError::InstanceCreationError { cause: FailureCause::AbstractionLayer }.message(),
        "instance creation failed"
    );
    assert_eq!(
        BridgeError::DeviceCreationError { cause: FailureCause::NativeCode(1000001) }.message(),
        "device creation failed: native result code 1000001"
    );
}

#[test]
fn native_codes_are_kept() {
    assert_eq!(BridgeError::ExtensionQueryError.native_code(), None);
    assert_eq!(
        BridgeError::InstanceCreationError { cause: FailureCause::NativeCode(-9) }.native_code(),
        Some(-9)
    );
    assert_eq!(
        BridgeError::InstanceCreationError { cause: FailureCause::AbstractionLayer }.native_code(),
        None
    );
    assert_eq!(
        BridgeError::DeviceEnumerationError {
            failure: EnumerationFailure::OutOfRange { index: 4, available: 1 }
        }
        .native_code(),
        None
    );
    assert_eq!(
        BridgeError::DeviceCreationError { cause: FailureCause::NativeCode(-4) }.native_code(),
        Some(-4)
    );
    assert_eq!(BridgeError::AdapterExposureError.native_code(), None);
    assert_eq!(BridgeError::QueueFamilySelectionError.native_code(), None);
    assert_eq!(BridgeError::ImageCreationError { code: -2 }.native_code(), Some(-2));
}

#[test]
fn numbers_are_written_in_decimal() {
    assert_eq!(decimal(0), "0");
    assert_eq!(decimal(9), "9");
    assert_eq!(decimal(10), "10");
    assert_eq!(decimal(1234567890), "1234567890");
    assert_eq!(decimal(u64::MAX), "18446744073709551615");
    assert_eq!(signed_decimal(0), "0");
    assert_eq!(signed_decimal(-1), "-1");
    assert_eq!(signed_decimal(i32::MAX), "2147483647");
    assert_eq!(signed_decimal(i32::MIN), "-2147483648");
    assert_eq!(signed_decimal(-1000000001), "-1000000001");
}
