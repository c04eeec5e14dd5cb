//! Usage bitsets of the three API vocabularies and the translation between them.

use vstd::prelude::*;

verus! {

/// Runtime usage bit: the image may be a color rendering target.
pub const XR_COLOR_ATTACHMENT: u64 = 0x01;

/// Runtime usage bit: the image may be a depth/stencil rendering target.
pub const XR_DEPTH_STENCIL_ATTACHMENT: u64 = 0x02;

/// Runtime usage bit: unordered access. It has no translation.
pub const XR_UNORDERED_ACCESS: u64 = 0x04;

/// Runtime usage bit: the image may be the source of a transfer.
pub const XR_TRANSFER_SRC: u64 = 0x08;

/// Runtime usage bit: the image may be the destination of a transfer.
pub const XR_TRANSFER_DST: u64 = 0x10;

/// Runtime usage bit: the image may be sampled by a shader.
pub const XR_SAMPLED: u64 = 0x20;

/// Runtime usage bit: mutable format. It has no translation.
pub const XR_MUTABLE_FORMAT: u64 = 0x40;

/// Runtime usage bit: the image may be used as an input attachment.
pub const XR_INPUT_ATTACHMENT: u64 = 0x80;

/// Native image usage bit: source of transfer operations.
pub const VK_TRANSFER_SRC: u32 = 0x01;

/// Native image usage bit: destination of transfer operations.
pub const VK_TRANSFER_DST: u32 = 0x02;

/// Native image usage bit: can be sampled from.
pub const VK_SAMPLED: u32 = 0x04;

/// Native image usage bit: framebuffer color attachment.
pub const VK_COLOR_ATTACHMENT: u32 = 0x10;

/// Native image usage bit: framebuffer depth/stencil attachment.
pub const VK_DEPTH_STENCIL_ATTACHMENT: u32 = 0x20;

/// Native image usage bit: framebuffer input attachment.
pub const VK_INPUT_ATTACHMENT: u32 = 0x80;

/// Abstraction-layer use bit: copy source.
pub const HAL_COPY_SRC: u32 = 0x01;

/// Abstraction-layer use bit: copy destination.
pub const HAL_COPY_DST: u32 = 0x02;

/// Abstraction-layer use bit: shader resource.
pub const HAL_RESOURCE: u32 = 0x04;

/// Abstraction-layer use bit: color target.
pub const HAL_COLOR_TARGET: u32 = 0x08;

/// Abstraction-layer use bit: depth/stencil read.
pub const HAL_DEPTH_STENCIL_READ: u32 = 0x10;

/// Abstraction-layer use bit: depth/stencil write.
pub const HAL_DEPTH_STENCIL_WRITE: u32 = 0x20;

/// High-level usage bit: copy source.
pub const WGPU_COPY_SRC: u32 = 0x01;

/// High-level usage bit: copy destination.
pub const WGPU_COPY_DST: u32 = 0x02;

/// High-level usage bit: texture binding in a bind group.
pub const WGPU_TEXTURE_BINDING: u32 = 0x04;

/// High-level usage bit: output attachment of a render pass.
pub const WGPU_RENDER_ATTACHMENT: u32 = 0x10;

/// A set of runtime swapchain usage bits.
#[derive(Clone, Copy, Debug, PartialEq, Eq, Structural)]
pub struct SwapchainUsageFlags {
    pub bits: u64,
}

/// A set of native image usage bits.
#[derive(Clone, Copy, Debug, PartialEq, Eq, Structural)]
pub struct ImageUsageFlags {
    pub bits: u32,
}

/// A set of abstraction-layer texture use bits.
#[derive(Clone, Copy, Debug, PartialEq, Eq, Structural)]
pub struct TextureUses {
    pub bits: u32,
}

/// A set of high-level texture usage bits.
#[derive(Clone, Copy, Debug, PartialEq, Eq, Structural)]
pub struct TextureUsages {
    pub bits: u32,
}

/// The three usage sets that one runtime usage set translates into.
#[derive(Clone, Copy, Debug, PartialEq, Eq, Structural)]
pub struct TranslatedUsage {
    pub native: ImageUsageFlags,
    pub abstraction: TextureUses,
    pub high_level: TextureUsages,
}

/// `bit` if `usage` holds every bit of `flag`, else nothing.
pub open spec fn pick32(usage: u64, flag: u64, bit: u32) -> u32 {
    if usage & flag == flag {
        bit
    } else {
        0u32
    }
}

/// The native usage bits of a runtime usage set: one row of the table per set bit.
pub open spec fn native_bits(usage: u64) -> u32 {
    pick32(usage, XR_COLOR_ATTACHMENT, VK_COLOR_ATTACHMENT)
        | pick32(usage, XR_DEPTH_STENCIL_ATTACHMENT, VK_DEPTH_STENCIL_ATTACHMENT)
        | pick32(usage, XR_TRANSFER_SRC, VK_TRANSFER_SRC)
        | pick32(usage, XR_TRANSFER_DST, VK_TRANSFER_DST)
        | pick32(usage, XR_SAMPLED, VK_SAMPLED)
        | pick32(usage, XR_INPUT_ATTACHMENT, VK_INPUT_ATTACHMENT)
}

/// The abstraction-layer use bits of a runtime usage set.
pub open spec fn abstraction_bits(usage: u64) -> u32 {
    pick32(usage, XR_COLOR_ATTACHMENT, HAL_COLOR_TARGET)
        | pick32(
        usage,
        XR_DEPTH_STENCIL_ATTACHMENT,
        HAL_DEPTH_STENCIL_READ | HAL_DEPTH_STENCIL_WRITE,
    )
        | pick32(usage, XR_TRANSFER_SRC, HAL_COPY_SRC)
        | pick32(usage, XR_TRANSFER_DST, HAL_COPY_DST)
        | pick32(usage, XR_SAMPLED, HAL_RESOURCE)
}

/// The high-level usage bits of a runtime usage set.
pub open spec fn high_level_bits(usage: u64) -> u32 {
    pick32(usage, XR_COLOR_ATTACHMENT, WGPU_RENDER_ATTACHMENT)
        | pick32(usage, XR_DEPTH_STENCIL_ATTACHMENT, WGPU_RENDER_ATTACHMENT)
        | pick32(usage, XR_TRANSFER_SRC, WGPU_COPY_SRC)
        | pick32(usage, XR_TRANSFER_DST, WGPU_COPY_DST)
        | pick32(usage, XR_SAMPLED, WGPU_TEXTURE_BINDING)
}

/// What a runtime usage set translates into.
pub open spec fn translate_spec(usage: SwapchainUsageFlags) -> TranslatedUsage {
    TranslatedUsage {
        native: ImageUsageFlags { bits: native_bits(usage.bits) },
        abstraction: TextureUses { bits: abstraction_bits(usage.bits) },
        high_level: TextureUsages { bits: high_level_bits(usage.bits) },
    }
}

impl SwapchainUsageFlags {
    /// The empty set.
    pub fn empty() -> (r: Self)
        ensures
            r.bits == 0,
    {
        SwapchainUsageFlags { bits: 0 }
    }

    /// The set with exactly the given bits.
    pub fn from_raw(bits: u64) -> (r: Self)
        ensures
            r.bits == bits,
    {
        SwapchainUsageFlags { bits }
    }

    /// The bits of the set.
    pub fn into_raw(self) -> (r: u64)
        ensures
            r == self.bits,
    {
        self.bits
    }

    /// Whether every bit of `other` is in `self`.
    pub fn contains(self, other: Self) -> (r: bool)
        ensures
            r == (self.bits & other.bits == other.bits),
    {
        self.bits & other.bits == other.bits
    }

    /// The union of two sets.
    pub fn union(self, other: Self) -> (r: Self)
        ensures
            r.bits == self.bits | other.bits,
    {
        SwapchainUsageFlags { bits: self.bits | other.bits }
    }
}

impl TranslatedUsage {
    /// The bitwise union of two translations, column by column.
    pub open spec fn union_spec(self, other: Self) -> Self {
        TranslatedUsage {
            native: ImageUsageFlags { bits: self.native.bits | other.native.bits },
            abstraction: TextureUses { bits: self.abstraction.bits | other.abstraction.bits },
            high_level: TextureUsages { bits: self.high_level.bits | other.high_level.bits },
        }
    }

    /// The bitwise union of two translations, column by column.
    pub fn union(self, other: Self) -> (r: Self)
        ensures
            r == self.union_spec(other),
    {
        TranslatedUsage {
            native: ImageUsageFlags { bits: self.native.bits | other.native.bits },
            abstraction: TextureUses { bits: self.abstraction.bits | other.abstraction.bits },
            high_level: TextureUsages { bits: self.high_level.bits | other.high_level.bits },
        }
    }
}

/// Translates a runtime usage set into the native, abstraction-layer and
/// high-level usage sets, bit by bit. Unordered access and mutable format
/// contribute nothing.
pub fn translate(usage: SwapchainUsageFlags) -> (r: TranslatedUsage)
    ensures
        r == translate_spec(usage),
{
    let mut vk_usage: u32 = 0;
    let mut hal_usage: u32 = 0;
    let mut wgpu_usage: u32 = 0;
    let u: u64 = usage.bits;

    proof {
        lemma_or_zero();
    }
    if usage.contains(SwapchainUsageFlags { bits: XR_COLOR_ATTACHMENT }) {
        vk_usage = vk_usage | VK_COLOR_ATTACHMENT;
        hal_usage = hal_usage | HAL_COLOR_TARGET;
        wgpu_usage = wgpu_usage | WGPU_RENDER_ATTACHMENT;
    }
    if usage.contains(SwapchainUsageFlags { bits: XR_DEPTH_STENCIL_ATTACHMENT }) {
        vk_usage = vk_usage | VK_DEPTH_STENCIL_ATTACHMENT;
        hal_usage = hal_usage | (HAL_DEPTH_STENCIL_READ | HAL_DEPTH_STENCIL_WRITE);
        wgpu_usage = wgpu_usage | WGPU_RENDER_ATTACHMENT;
    }
    if usage.contains(SwapchainUsageFlags { bits: XR_TRANSFER_SRC }) {
        vk_usage = vk_usage | VK_TRANSFER_SRC;
        hal_usage = hal_usage | HAL_COPY_SRC;
        wgpu_usage = wgpu_usage | WGPU_COPY_SRC;
    }
    if usage.contains(SwapchainUsageFlags { bits: XR_TRANSFER_DST }) {
        vk_usage = vk_usage | VK_TRANSFER_DST;
        hal_usage = hal_usage | HAL_COPY_DST;
        wgpu_usage = wgpu_usage | WGPU_COPY_DST;
    }
    if usage.contains(SwapchainUsageFlags { bits: XR_SAMPLED }) {
        vk_usage = vk_usage | VK_SAMPLED;
        hal_usage = hal_usage | HAL_RESOURCE;
        wgpu_usage = wgpu_usage | WGPU_TEXTURE_BINDING;
    }
    if usage.contains(SwapchainUsageFlags { bits: XR_INPUT_ATTACHMENT }) {
        vk_usage = vk_usage | VK_INPUT_ATTACHMENT;
    }
    TranslatedUsage {
        native: ImageUsageFlags { bits: vk_usage },
        abstraction: TextureUses { bits: hal_usage },
        high_level: TextureUsages { bits: wgpu_usage },
    }
}

/// Zero is the unit of bitwise or.
proof fn lemma_or_zero()
    ensures
        forall|a: u32| #[trigger] (a | 0u32) == a,
        forall|a: u32| #[trigger] (0u32 | a) == a,
{
    assert forall|a: u32| #[trigger] (a | 0u32) == a by {
        assert(a | 0u32 == a) by (bit_vector);
    }
    assert forall|a: u32| #[trigger] (0u32 | a) == a by {
        assert(0u32 | a == a) by (bit_vector);
    }
}

/// Translation is additive: translating the union of two runtime usage sets
/// gives the union of their translations, column by column. In particular this
/// holds of disjoint sets, and the order of the two does not matter.
pub proof fn lemma_translate_additive(a: SwapchainUsageFlags, b: SwapchainUsageFlags)
    ensures
        translate_spec(SwapchainUsageFlags { bits: a.bits | b.bits }) == translate_spec(
            a,
        ).union_spec(translate_spec(b)),
        translate_spec(a).union_spec(translate_spec(b)) == translate_spec(b).union_spec(
            translate_spec(a),
        ),
{
    lemma_bits_additive(a.bits, b.bits);
}

/// The empty runtime usage set translates into three empty sets.
pub proof fn lemma_translate_empty()
    ensures
        translate_spec(SwapchainUsageFlags { bits: 0 }) == (TranslatedUsage {
            native: ImageUsageFlags { bits: 0 },
            abstraction: TextureUses { bits: 0 },
            high_level: TextureUsages { bits: 0 },
        }),
{
    lemma_bits_empty();
}

/// The two bits without a translation are dropped: a usage set translates as
/// the same set without them.
pub proof fn lemma_translate_drops_unmapped(a: SwapchainUsageFlags)
    ensures
        translate_spec(a) == translate_spec(
            SwapchainUsageFlags { bits: a.bits & !(XR_UNORDERED_ACCESS | XR_MUTABLE_FORMAT) },
        ),
{
    lemma_bits_drop_unmapped(a.bits);
}

proof fn lemma_bits_additive(a: u64, b: u64)
    by (bit_vector)
    ensures
        native_bits(a | b) == native_bits(a) | native_bits(b),
        abstraction_bits(a | b) == abstraction_bits(a) | abstraction_bits(b),
        high_level_bits(a | b) == high_level_bits(a) | high_level_bits(b),
        native_bits(a) | native_bits(b) == native_bits(b) | native_bits(a),
        abstraction_bits(a) | abstraction_bits(b) == abstraction_bits(b) | abstraction_bits(a),
        high_level_bits(a) | high_level_bits(b) == high_level_bits(b) | high_level_bits(a),
{
}

proof fn lemma_bits_empty()
    by (bit_vector)
    ensures
        native_bits(0) == 0,
        abstraction_bits(0) == 0,
        high_level_bits(0) == 0,
{
}

proof fn lemma_bits_drop_unmapped(a: u64)
    by (bit_vector)
    ensures
        native_bits(a) == native_bits(a & !(XR_UNORDERED_ACCESS | XR_MUTABLE_FORMAT)),
        abstraction_bits(a) == abstraction_bits(a & !(XR_UNORDERED_ACCESS | XR_MUTABLE_FORMAT)),
        high_level_bits(a) == high_level_bits(a & !(XR_UNORDERED_ACCESS | XR_MUTABLE_FORMAT)),
{
}

} // verus!
