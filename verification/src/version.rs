//! Encoded native API versions. A version packs variant, major, minor and
//! patch into one number, so that versions of one variant compare numerically.

use vstd::prelude::*;

verus! {

/// The API version that a context made by the library itself targets: 1.0.0.
pub const TARGET_VULKAN_VERSION: u32 = 0x0040_0000;

/// Version 1.1.0, from which the maintenance extensions are part of the core.
pub const API_VERSION_1_1: u32 = 0x0040_1000;

/// The largest major number that the encoding holds.
pub const MAX_MAJOR: u32 = 0x7f;

/// The largest minor number that the encoding holds.
pub const MAX_MINOR: u32 = 0x3ff;

/// The largest patch number that the encoding holds.
pub const MAX_PATCH: u32 = 0xfff;

/// The encoding of a version: 3 bits of variant, 7 of major, 10 of minor and
/// 12 of patch, from the top.
pub open spec fn make_api_version_spec(variant: u32, major: u32, minor: u32, patch: u32) -> u32 {
    (variant << 29u32) | (major << 22u32) | (minor << 12u32) | patch
}

/// Encodes a version.
pub fn make_api_version(variant: u32, major: u32, minor: u32, patch: u32) -> (r: u32)
    ensures
        r == make_api_version_spec(variant, major, minor, patch),
{
    (variant << 29u32) | (major << 22u32) | (minor << 12u32) | patch
}

/// The variant of an encoded version.
pub fn api_version_variant(version: u32) -> (r: u32)
    ensures
        r == version >> 29u32,
{
    version >> 29u32
}

/// The major number of an encoded version.
pub fn api_version_major(version: u32) -> (r: u32)
    ensures
        r == (version >> 22u32) & 0x7fu32,
{
    (version >> 22u32) & 0x7fu32
}

/// The minor number of an encoded version.
pub fn api_version_minor(version: u32) -> (r: u32)
    ensures
        r == (version >> 12u32) & 0x3ffu32,
{
    (version >> 12u32) & 0x3ffu32
}

/// The patch number of an encoded version.
pub fn api_version_patch(version: u32) -> (r: u32)
    ensures
        r == version & 0xfffu32,
{
    version & 0xfffu32
}

/// The two named versions are the encodings of 1.0.0 and 1.1.0.
pub proof fn lemma_named_versions()
    ensures
        TARGET_VULKAN_VERSION == make_api_version_spec(0, 1, 0, 0),
        API_VERSION_1_1 == make_api_version_spec(0, 1, 1, 0),
        TARGET_VULKAN_VERSION < API_VERSION_1_1,
{
    assert(0x0040_0000u32 == (0u32 << 29u32) | (1u32 << 22u32) | (0u32 << 12u32) | 0u32)
        by (bit_vector);
    assert(0x0040_1000u32 == (0u32 << 29u32) | (1u32 << 22u32) | (1u32 << 12u32) | 0u32)
        by (bit_vector);
}

/// Decoding gives back what was encoded, as long as each part fits its field.
pub proof fn lemma_version_round_trip(variant: u32, major: u32, minor: u32, patch: u32)
    requires
        variant <= 7,
        major <= MAX_MAJOR,
        minor <= MAX_MINOR,
        patch <= MAX_PATCH,
    ensures
        make_api_version_spec(variant, major, minor, patch) >> 29u32 == variant,
        (make_api_version_spec(variant, major, minor, patch) >> 22u32) & 0x7fu32 == major,
        (make_api_version_spec(variant, major, minor, patch) >> 12u32) & 0x3ffu32 == minor,
        make_api_version_spec(variant, major, minor, patch) & 0xfffu32 == patch,
{
    assert(variant <= 7 && major <= 0x7f && minor <= 0x3ff && patch <= 0xfff ==> {
        let v = (variant << 29u32) | (major << 22u32) | (minor << 12u32) | patch;
        &&& v >> 29u32 == variant
        &&& (v >> 22u32) & 0x7fu32 == major
        &&& (v >> 12u32) & 0x3ffu32 == minor
        &&& v & 0xfffu32 == patch
    }) by (bit_vector);
}

/// Versions of the base variant compare numerically as their (major, minor,
/// patch) triples compare: in particular a version is at least 1.1.0 exactly
/// when its major and minor numbers are at least (1, 1).
pub proof fn lemma_version_order(major: u32, minor: u32, patch: u32)
    requires
        major <= MAX_MAJOR,
        minor <= MAX_MINOR,
        patch <= MAX_PATCH,
    ensures
        make_api_version_spec(0, major, minor, patch) >= API_VERSION_1_1 <==> (major > 1 || (major
            == 1 && minor >= 1)),
{
    assert(major <= 0x7f && minor <= 0x3ff && patch <= 0xfff ==> (((0u32 << 29u32) | (major
        << 22u32) | (minor << 12u32) | patch) >= 0x0040_1000u32 <==> (major > 1 || (major == 1
        && minor >= 1)))) by (bit_vector);
}

} // verus!
