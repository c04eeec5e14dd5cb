//! Creation of a native instance that the abstraction layer can work on.

use vstd::prelude::*;
use crate::error::{BridgeError, FailureCause};
use crate::extensions::{
    debug_utils_name,
    instance_extensions_outcome,
    instance_flags,
    merge_extensions,
    names,
    query_instance_extensions,
    INSTANCE_DEBUG,
};

verus! {

/// What an application says of itself when it creates an instance.
#[derive(Clone, Copy, Debug, PartialEq, Eq, Structural)]
pub struct ApplicationInfo {
    /// The encoded API version that the application targets.
    pub api_version: u32,
}

/// The parameters of native instance creation.
#[derive(Clone, Debug)]
pub struct InstanceCreateInfo {
    /// The names of the extensions to enable, in order.
    pub enabled_extension_names: Vec<String>,
    pub application_info: ApplicationInfo,
}

/// The parameters of native instance creation, as mathematical values.
pub struct InstanceCreateInfoView {
    pub enabled_extension_names: Seq<Seq<char>>,
    pub application_info: ApplicationInfo,
}

impl View for InstanceCreateInfo {
    type V = InstanceCreateInfoView;

    open spec fn view(&self) -> InstanceCreateInfoView {
        InstanceCreateInfoView {
            enabled_extension_names: names(self.enabled_extension_names@),
            application_info: self.application_info,
        }
    }
}

/// The creation parameters that are submitted for a caller's parameters: the
/// required extensions first, then the caller's, and everything else as the
/// caller gave it.
pub open spec fn merged_instance_info(
    required: Seq<Seq<char>>,
    info: InstanceCreateInfoView,
) -> InstanceCreateInfoView {
    InstanceCreateInfoView {
        enabled_extension_names: required + info.enabled_extension_names,
        application_info: info.application_info,
    }
}

/// From the answer to the query for the abstraction layer's instance
/// extensions and the caller's parameters, the parameters to submit. Fails if
/// the query failed.
pub fn prepare_instance_info(queried: Option<Vec<String>>, info: &InstanceCreateInfo) -> (r:
    Result<InstanceCreateInfo, BridgeError>)
    ensures
        queried is None ==> r == Err::<InstanceCreateInfo, BridgeError>(
            BridgeError::ExtensionQueryError,
        ),
        queried is Some ==> r is Ok && r->Ok_0@ == merged_instance_info(
            names(queried->Some_0@),
            info@,
        ),
{
    match instance_extensions_outcome(queried) {
        Ok(required) => {
            let merged = merge_extensions(required, &info.enabled_extension_names);
            Ok(
                InstanceCreateInfo {
                    enabled_extension_names: merged,
                    application_info: info.application_info,
                },
            )
        },
        Err(e) => Err(e),
    }
}

/// Prepares the one native instance-creation call: asks the abstraction
/// layer for its instance extensions, and puts them in front of the caller's.
/// Everything else is submitted as the caller gave it. Fails only if the
/// layer cannot list its extensions.
pub fn create_vulkan_instance(entry: &ash::Entry, info: &InstanceCreateInfo, debug_enabled: bool)
    -> (r: Result<InstanceCreateInfo, BridgeError>)
    ensures
        r matches Err(e) ==> e == BridgeError::ExtensionQueryError,
        r matches Ok(prepared) ==> exists|required: Seq<Seq<char>>|
            {
                &&& prepared@ == #[trigger] merged_instance_info(required, info@)
                &&& !debug_enabled ==> !required.contains(debug_utils_name())
            },
{
    let queried = query_instance_extensions(entry, instance_flags(debug_enabled));
    let ghost required = if queried is Some {
        names(queried->Some_0@)
    } else {
        Seq::empty()
    };
    let prepared = prepare_instance_info(queried, info);
    proof {
        assert(0u32 & INSTANCE_DEBUG == 0) by (bit_vector);
        if prepared is Ok {
            assert(prepared->Ok_0@ == merged_instance_info(required, info@));
        }
    }
    prepared
}

/// What instance creation hands back for the outcome of the native call: the
/// instance, or the failure with the native result code in it.
pub fn instance_creation_outcome<T>(outcome: Result<T, i32>) -> (r: Result<T, BridgeError>)
    ensures
        outcome is Ok ==> r == Ok::<T, BridgeError>(outcome->Ok_0),
        outcome is Err ==> r == Err::<T, BridgeError>(
            BridgeError::InstanceCreationError { cause: FailureCause::NativeCode(outcome->Err_0) },
        ),
{
    match outcome {
        Ok(instance) => Ok(instance),
        Err(code) => Err(
            BridgeError::InstanceCreationError { cause: FailureCause::NativeCode(code) },
        ),
    }
}

/// The submitted extension list starts with the required extensions, in their
/// order, and goes on with the caller's, in theirs.
pub proof fn lemma_required_come_first(required: Seq<Seq<char>>, info: InstanceCreateInfoView)
    ensures
        merged_instance_info(required, info).enabled_extension_names.len() == required.len()
            + info.enabled_extension_names.len(),
        forall|i: int|
            0 <= i < required.len() ==> merged_instance_info(
                required,
                info,
            ).enabled_extension_names[i] == required[i],
        forall|i: int|
            0 <= i < info.enabled_extension_names.len() ==> merged_instance_info(
                required,
                info,
            ).enabled_extension_names[required.len() + i] == info.enabled_extension_names[i],
{
}

} // verus!
