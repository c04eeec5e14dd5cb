//! Which native extensions instance and device creation need, and how they
//! are merged with the ones a caller asks for.

use vstd::prelude::*;
use crate::error::BridgeError;
use crate::version::API_VERSION_1_1;

verus! {

/// Abstraction-layer instance flag: generate debug information.
pub const INSTANCE_DEBUG: u32 = 0x1;

/// Abstraction-layer instance flag: enable validation, if possible.
pub const INSTANCE_VALIDATION: u32 = 0x2;

/// Instance initialisation flags of the abstraction layer.
#[derive(Clone, Copy, Debug, PartialEq, Eq, Structural)]
pub struct InstanceFlags {
    pub bits: u32,
}

/// The names in a list of extensions, in order.
pub open spec fn names(list: Seq<String>) -> Seq<Seq<char>> {
    list.map_values(|name: String| name@)
}

/// The name of the native swapchain extension.
pub open spec fn swapchain_name() -> Seq<char> {
    "VK_KHR_swapchain"@
}

/// The name of the first maintenance extension.
pub open spec fn maintenance1_name() -> Seq<char> {
    "VK_KHR_maintenance1"@
}

/// The name of the second maintenance extension.
pub open spec fn maintenance2_name() -> Seq<char> {
    "VK_KHR_maintenance2"@
}

/// The name of the debug utilities extension.
pub open spec fn debug_utils_name() -> Seq<char> {
    "VK_EXT_debug_utils"@
}

/// The device extensions that the bridge requires for an API version: the
/// swapchain extension, and before 1.1 the two maintenance extensions, which
/// later versions hold in their core.
pub open spec fn required_device_extensions(version: u32) -> Seq<Seq<char>> {
    if version < API_VERSION_1_1 {
        seq![swapchain_name(), maintenance1_name(), maintenance2_name()]
    } else {
        seq![swapchain_name()]
    }
}

/// `ash::extensions::khr::Swapchain::name`, as an owned string. The name is
/// the fixed text `VK_KHR_swapchain`.
#[verifier::external_body]
fn khr_swapchain_name() -> (r: String)
    ensures
        r@ == swapchain_name(),
{
    ash::extensions::khr::Swapchain::name().to_string_lossy().into_owned()
}

/// `ash::vk::KhrMaintenance1Fn::name`, as an owned string. The name is the
/// fixed text `VK_KHR_maintenance1`.
#[verifier::external_body]
fn khr_maintenance1_name() -> (r: String)
    ensures
        r@ == maintenance1_name(),
{
    ash::vk::KhrMaintenance1Fn::name().to_string_lossy().into_owned()
}

/// `ash::vk::KhrMaintenance2Fn::name`, as an owned string. The name is the
/// fixed text `VK_KHR_maintenance2`.
#[verifier::external_body]
fn khr_maintenance2_name() -> (r: String)
    ensures
        r@ == maintenance2_name(),
{
    ash::vk::KhrMaintenance2Fn::name().to_string_lossy().into_owned()
}

/// The flags with which the abstraction layer is asked for its instance
/// extensions: validation and debug in debug mode, none otherwise.
pub fn instance_flags(debug_enabled: bool) -> (r: InstanceFlags)
    ensures
        r.bits == if debug_enabled {
            INSTANCE_VALIDATION | INSTANCE_DEBUG
        } else {
            0u32
        },
{
    let mut bits: u32 = 0;
    if debug_enabled {
        bits = INSTANCE_VALIDATION | INSTANCE_DEBUG;
    }
    InstanceFlags { bits }
}

/// `required_extensions` of the abstraction layer's instance on the native
/// API, with the names as owned strings. The layer asks the native loader
/// behind `entry` which extensions there are, and keeps those of its wishes
/// that are there; so the answer depends on the machine. Of the answer only
/// this is claimed: the layer wishes for the debug utilities extension only
/// where the debug flag is set.
#[verifier::external_body]
fn required_instance_extensions(entry: &ash::Entry, flags: InstanceFlags) -> (r: Result<
    Vec<String>,
    wgpu_hal::InstanceError,
>)
    ensures
        r matches Ok(list) ==> (flags.bits & INSTANCE_DEBUG == 0 ==> !names(list@).contains(
            debug_utils_name(),
        )),
{
    let flags = wgpu_hal::InstanceFlags::from_bits_truncate(flags.bits);
    let list = <wgpu_hal::api::Vulkan as wgpu_hal::Api>::Instance::required_extensions(
        entry,
        flags,
    )?;
    Ok(list.iter().map(|name| name.to_string_lossy().into_owned()).collect())
}

/// Asks the abstraction layer which instance extensions it needs with the
/// given flags. Gives nothing if the layer cannot list them.
pub fn query_instance_extensions(entry: &ash::Entry, flags: InstanceFlags) -> (r: Option<
    Vec<String>,
>)
    ensures
        r matches Some(list) ==> (flags.bits & INSTANCE_DEBUG == 0 ==> !names(list@).contains(
            debug_utils_name(),
        )),
{
    let answer: Result<Vec<String>, wgpu_hal::InstanceError> =
        required_instance_extensions(entry, flags);
    let listed = extension_query_answer(answer);
    listed
}

/// The instance extensions that the abstraction layer needs, from the answer
/// to the query for them: the list as it was given, or the failure of the
/// query.
pub fn instance_extensions_outcome(queried: Option<Vec<String>>) -> (r: Result<
    Vec<String>,
    BridgeError,
>)
    ensures
        queried is Some ==> r == Ok::<Vec<String>, BridgeError>(queried->Some_0),
        queried is None ==> r == Err::<Vec<String>, BridgeError>(
            BridgeError::ExtensionQueryError,
        ),
{
    match queried {
        Some(list) => Ok(list),
        None => Err(BridgeError::ExtensionQueryError),
    }
}

/// The instance extensions that the abstraction layer needs to work on the
/// native API: in debug mode it is asked with the validation and debug
/// flags. The version is not asked about: the layer's wishes are the same for
/// every version. Fails only with an extension query error; without debug
/// mode the debug utilities extension is never among the extensions.
pub fn get_vulkan_instance_extensions(entry: &ash::Entry, version: u32, debug_enabled: bool) -> (r:
    Result<Vec<String>, BridgeError>)
    ensures
        r matches Err(e) ==> e == BridgeError::ExtensionQueryError,
        r matches Ok(list) ==> (!debug_enabled ==> !names(list@).contains(debug_utils_name())),
{
    let flags = instance_flags(debug_enabled);
    assert(0u32 & INSTANCE_DEBUG == 0) by (bit_vector);
    instance_extensions_outcome(query_instance_extensions(entry, flags))
}

/// What the query for the abstraction layer's instance extensions gives for
/// the layer's answer: the list as the layer gave it, or nothing where the
/// layer could not work on the native API of this machine.
pub fn extension_query_answer(answer: Result<Vec<String>, wgpu_hal::InstanceError>) -> (r: Option<
    Vec<String>,
>)
    ensures
        answer is Ok ==> r == Some(answer->Ok_0),
        answer is Err ==> r.is_none(),
{
    match answer {
        Ok(list) => Some(list),
        Err(_) => None,
    }
}

/// The device extensions that the bridge requires for an API version.
pub fn get_vulkan_device_extensions(version: u32) -> (r: Vec<String>)
    ensures
        names(r@) == required_device_extensions(version),
        r@.len() == required_device_extensions(version).len(),
        forall|i: int|
            0 <= i < r@.len() ==> (#[trigger] r@[i])@ == required_device_extensions(version)[i],
{
    let mut extensions: Vec<String> = Vec::new();
    extensions.push(khr_swapchain_name());
    if version < API_VERSION_1_1 {
        extensions.push(khr_maintenance1_name());
        extensions.push(khr_maintenance2_name());
    }
    assert(names(extensions@) =~= required_device_extensions(version));
    extensions
}

/// Puts the required extensions in front of the ones the caller supplied.
/// Nothing is dropped and nothing reordered.
pub fn merge_extensions(required: Vec<String>, supplied: &Vec<String>) -> (r: Vec<String>)
    ensures
        names(r@) == names(required@) + names(supplied@),
        r@.len() == required@.len() + supplied@.len(),
{
    let ghost first = names(required@);
    let mut merged = required;
    let mut i: usize = 0;
    while i < supplied.len()
        invariant
            i <= supplied.len(),
            names(merged@) == first + names(supplied@.subrange(0, i as int)),
        decreases supplied.len() - i,
    {
        let ghost before = merged@;
        let name = supplied[i].clone();
        merged.push(name);
        proof {
            let taken = supplied@.subrange(0, i as int);
            let next = supplied@.subrange(0, i as int + 1);
            assert(names(merged@) =~= names(before).push(supplied@[i as int]@));
            assert(names(next) =~= names(taken).push(supplied@[i as int]@));
            assert(names(merged@) =~= first + names(next));
        }
        i = i + 1;
    }
    assert(supplied@.subrange(0, i as int) =~= supplied@);
    assert(names(merged@).len() == merged@.len());
    merged
}

/// From 1.1 on the required device extensions hold neither maintenance
/// extension; before 1.1 they hold both. The swapchain extension is always
/// there, and comes first.
pub proof fn lemma_maintenance_extensions(version: u32)
    ensures
        version >= API_VERSION_1_1 ==> !required_device_extensions(version).contains(
            maintenance1_name(),
        ) && !required_device_extensions(version).contains(maintenance2_name()),
        version < API_VERSION_1_1 ==> required_device_extensions(version).contains(
            maintenance1_name(),
        ) && required_device_extensions(version).contains(maintenance2_name()),
        required_device_extensions(version).len() >= 1,
        required_device_extensions(version)[0] == swapchain_name(),
{
    lemma_names_differ();
    let list = required_device_extensions(version);
    if version < API_VERSION_1_1 {
        assert(list[1] == maintenance1_name());
        assert(list[2] == maintenance2_name());
    }
}

/// The three extension names are three different texts.
pub proof fn lemma_names_differ()
    ensures
        swapchain_name() != maintenance1_name(),
        swapchain_name() != maintenance2_name(),
        maintenance1_name() != maintenance2_name(),
{
    reveal_strlit("VK_KHR_swapchain");
    reveal_strlit("VK_KHR_maintenance1");
    reveal_strlit("VK_KHR_maintenance2");
    assert(swapchain_name().len() == 16);
    assert(maintenance1_name().len() == 19);
    assert(maintenance1_name()[18] == '1');
    assert(maintenance2_name()[18] == '2');
}

} // verus!
