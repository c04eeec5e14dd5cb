//! Provision of a swapchain: its native images, supplied or created, and one
//! imported texture for each.

use vstd::prelude::*;
use ash::vk::{Format, Image};
use wgpu::TextureFormat;
use crate::context::Context;
use crate::error::BridgeError;
use crate::ownership::{layer_destroys_image, OwnershipMode};
use crate::usage::{
    translate,
    translate_spec,
    ImageUsageFlags,
    SwapchainUsageFlags,
    TextureUsages,
    TextureUses,
};

verus! {

/// The number of images of a swapchain for which no number is given.
pub const DEFAULT_IMAGE_COUNT: usize = 2;

/// Native image creation flag: cube views can be made of the image.
pub const IMAGE_CREATE_CUBE_COMPATIBLE: u32 = 0x10;

/// Where the images of a swapchain come from.
#[derive(Debug)]
pub enum SwapchainCreateData {
    /// The caller supplies the images, and keeps them.
    External(Vec<Image>),
    /// This many images are created.
    Count(usize),
    /// The default number of images is created.
    Default,
}

/// The dimensionality of a native image.
#[derive(Clone, Copy, Debug, PartialEq, Eq, Structural)]
pub enum ImageType {
    Type1d,
    Type2d,
    Type3d,
}

/// How the texels of a native image are laid out in memory.
#[derive(Clone, Copy, Debug, PartialEq, Eq, Structural)]
pub enum ImageTiling {
    Optimal,
    Linear,
}

/// Whether several queue families may use a native image at once.
#[derive(Clone, Copy, Debug, PartialEq, Eq, Structural)]
pub enum SharingMode {
    Exclusive,
    Concurrent,
}

/// The layout in which a native image starts.
#[derive(Clone, Copy, Debug, PartialEq, Eq, Structural)]
pub enum ImageLayout {
    Undefined,
    Preinitialized,
}

/// The dimensionality of a texture.
#[derive(Clone, Copy, Debug, PartialEq, Eq, Structural)]
pub enum TextureDimension {
    D1,
    D2,
    D3,
}

/// The extent of a native image.
#[derive(Clone, Copy, Debug, PartialEq, Eq, Structural)]
pub struct Extent3D {
    pub width: u32,
    pub height: u32,
    pub depth: u32,
}

/// The extent of a texture.
#[derive(Clone, Copy, Debug, PartialEq, Eq, Structural)]
pub struct Extent3d {
    pub width: u32,
    pub height: u32,
    pub depth_or_array_layers: u32,
}

/// The parameters of native image creation.
#[derive(Clone, Copy, Debug)]
pub struct ImageCreateInfo {
    /// Image creation flag bits.
    pub flags: u32,
    pub image_type: ImageType,
    pub format: Format,
    pub extent: Extent3D,
    pub mip_levels: u32,
    pub array_layers: u32,
    /// Sample count flag bits.
    pub samples: u32,
    pub tiling: ImageTiling,
    pub usage: ImageUsageFlags,
    pub sharing_mode: SharingMode,
    pub initial_layout: ImageLayout,
}

/// What the abstraction layer is told of a native image that it imports.
#[derive(Clone, Copy, Debug)]
pub struct HalTextureDescriptor {
    pub size: Extent3d,
    pub mip_level_count: u32,
    pub sample_count: u32,
    pub dimension: TextureDimension,
    pub format: TextureFormat,
    pub usage: TextureUses,
    /// Memory flag bits.
    pub memory_flags: u32,
}

/// What the high-level API is told of a texture.
#[derive(Clone, Copy, Debug)]
pub struct TextureDescriptor {
    pub size: Extent3d,
    pub mip_level_count: u32,
    pub sample_count: u32,
    pub dimension: TextureDimension,
    pub format: TextureFormat,
    pub usage: TextureUsages,
}

/// A native image imported as a texture: the image, how it is described to
/// the two upper layers, and whether a drop guard goes with it.
#[derive(Clone, Copy, Debug)]
pub struct Texture {
    pub image: Image,
    pub hal_descriptor: HalTextureDescriptor,
    pub descriptor: TextureDescriptor,
    pub drop_guard: bool,
}

/// A block of device memory bound to an image of a swapchain.
#[derive(Clone, Copy, Debug, PartialEq, Eq, Structural)]
pub struct MemoryBlock {
    pub handle: u64,
}

/// The shape of the images of a swapchain, as the runtime asks for it.
#[derive(Clone, Copy, Debug)]
pub struct SwapchainShape {
    pub usage: SwapchainUsageFlags,
    pub format: TextureFormat,
    pub vk_format: Format,
    pub sample_count: u32,
    pub width: u32,
    pub height: u32,
    pub cubemap: bool,
    pub array_size: u32,
    pub mip_count: u32,
}

/// A swapchain: its textures and, in the same order, the native images under
/// them. The position of an image is the index by which the runtime names it.
#[derive(Debug)]
pub struct Swapchain {
    pub textures: Vec<Texture>,
    pub raw_images: Vec<Image>,
    pub memory: Vec<MemoryBlock>,
    pub array_size: u32,
}

/// A swapchain, as mathematical values.
pub struct SwapchainView {
    pub textures: Seq<Texture>,
    pub raw_images: Seq<Image>,
    pub memory: Seq<MemoryBlock>,
    pub array_size: u32,
}

impl View for Swapchain {
    type V = SwapchainView;

    open spec fn view(&self) -> SwapchainView {
        SwapchainView {
            textures: self.textures@,
            raw_images: self.raw_images@,
            memory: self.memory@,
            array_size: self.array_size,
        }
    }
}

/// Who destroys the images of a swapchain: the caller those that it
/// supplied, the swapchain those that were created for it.
pub open spec fn ownership_of(data: SwapchainCreateData) -> OwnershipMode {
    match data {
        SwapchainCreateData::External(_) => OwnershipMode::Borrowed,
        _ => OwnershipMode::Owned,
    }
}

/// The images that the caller supplied.
pub open spec fn supplied_images(data: SwapchainCreateData) -> Seq<Image> {
    match data {
        SwapchainCreateData::External(images) => images@,
        _ => Seq::empty(),
    }
}

/// How many images have to be created.
pub open spec fn images_to_create(data: SwapchainCreateData) -> nat {
    match data {
        SwapchainCreateData::External(_) => 0,
        SwapchainCreateData::Count(count) => count as nat,
        SwapchainCreateData::Default => DEFAULT_IMAGE_COUNT as nat,
    }
}

/// The parameters with which each image of a swapchain of this shape is
/// created: a two-dimensional image of depth one with optimal tiling,
/// exclusive to one queue family, in no particular layout, with the native
/// translation of the usage.
pub open spec fn image_create_info_for(shape: SwapchainShape) -> ImageCreateInfo {
    ImageCreateInfo {
        flags: if shape.cubemap {
            IMAGE_CREATE_CUBE_COMPATIBLE
        } else {
            0u32
        },
        image_type: ImageType::Type2d,
        format: shape.vk_format,
        extent: Extent3D { width: shape.width, height: shape.height, depth: 1 },
        mip_levels: shape.mip_count,
        array_layers: shape.array_size,
        samples: shape.sample_count,
        tiling: ImageTiling::Optimal,
        usage: translate_spec(shape.usage).native,
        sharing_mode: SharingMode::Exclusive,
        initial_layout: ImageLayout::Undefined,
    }
}

/// The extent under which an image of a swapchain of this shape is imported.
pub open spec fn texture_size(shape: SwapchainShape) -> Extent3d {
    Extent3d { width: shape.width, height: shape.height, depth_or_array_layers: shape.array_size }
}

/// The texture as which an image of a swapchain of this shape is imported.
pub open spec fn texture_for(image: Image, shape: SwapchainShape, ownership: OwnershipMode)
    -> Texture {
    Texture {
        image,
        hal_descriptor: HalTextureDescriptor {
            size: texture_size(shape),
            mip_level_count: shape.mip_count,
            sample_count: shape.sample_count,
            dimension: TextureDimension::D2,
            format: shape.format,
            usage: translate_spec(shape.usage).abstraction,
            memory_flags: 0,
        },
        descriptor: TextureDescriptor {
            size: texture_size(shape),
            mip_level_count: shape.mip_count,
            sample_count: shape.sample_count,
            dimension: TextureDimension::D2,
            format: shape.format,
            usage: translate_spec(shape.usage).high_level,
        },
        drop_guard: !ownership.owned(),
    }
}

/// The swapchain that is made of these images.
pub open spec fn swapchain_of(images: Seq<Image>, shape: SwapchainShape, ownership: OwnershipMode)
    -> SwapchainView {
    SwapchainView {
        textures: Seq::new(images.len(), |i: int| texture_for(images[i], shape, ownership)),
        raw_images: images,
        memory: Seq::empty(),
        array_size: shape.array_size,
    }
}

/// The parameters with which each image of a swapchain of this shape is
/// created.
pub fn image_create_info(shape: &SwapchainShape) -> (r: ImageCreateInfo)
    ensures
        r == image_create_info_for(*shape),
{
    let mut flags: u32 = 0;
    if shape.cubemap {
        flags = IMAGE_CREATE_CUBE_COMPATIBLE;
    }
    ImageCreateInfo {
        flags,
        image_type: ImageType::Type2d,
        format: shape.vk_format,
        extent: Extent3D { width: shape.width, height: shape.height, depth: 1 },
        mip_levels: shape.mip_count,
        array_layers: shape.array_size,
        samples: shape.sample_count,
        tiling: ImageTiling::Optimal,
        usage: translate(shape.usage).native,
        sharing_mode: SharingMode::Exclusive,
        initial_layout: ImageLayout::Undefined,
    }
}

/// Imports one image of a swapchain as a texture.
pub fn import_texture(image: Image, shape: &SwapchainShape, ownership: OwnershipMode) -> (r:
    Texture)
    ensures
        r == texture_for(image, *shape, ownership),
{
    let usage = translate(shape.usage);
    let size = Extent3d {
        width: shape.width,
        height: shape.height,
        depth_or_array_layers: shape.array_size,
    };
    Texture {
        image,
        hal_descriptor: HalTextureDescriptor {
            size,
            mip_level_count: shape.mip_count,
            sample_count: shape.sample_count,
            dimension: TextureDimension::D2,
            format: shape.format,
            usage: usage.abstraction,
            memory_flags: 0,
        },
        descriptor: TextureDescriptor {
            size,
            mip_level_count: shape.mip_count,
            sample_count: shape.sample_count,
            dimension: TextureDimension::D2,
            format: shape.format,
            usage: usage.high_level,
        },
        drop_guard: ownership.image_drop_guard(),
    }
}

/// Makes the swapchain of a complete set of images: one texture for each
/// image, in the order of the images, and no memory blocks.
pub fn assemble_swapchain(images: Vec<Image>, shape: &SwapchainShape, ownership: OwnershipMode)
    -> (r: Swapchain)
    ensures
        r@ == swapchain_of(images@, *shape, ownership),
{
    let mut textures: Vec<Texture> = Vec::new();
    let mut i: usize = 0;
    while i < images.len()
        invariant
            i <= images.len(),
            textures@ == Seq::new(
                i as nat,
                |k: int| texture_for(images@[k], *shape, ownership),
            ),
        decreases images.len() - i,
    {
        textures.push(import_texture(images[i], shape, ownership));
        i = i + 1;
    }
    Swapchain { textures, raw_images: images, memory: Vec::new(), array_size: shape.array_size }
}

/// The provision of a swapchain whose images are created one by one, between
/// two image creations of the caller. At least one image is still to come.
#[derive(Debug)]
pub struct SwapchainBuilder {
    shape: SwapchainShape,
    created: Vec<Image>,
    remaining: usize,
}

/// A step of the provision of a swapchain.
#[derive(Debug)]
pub enum SwapchainStep {
    /// The caller has to create one native image with these parameters, and
    /// to hand the outcome to the builder. No memory is bound to the image.
    CreateImage { builder: SwapchainBuilder, info: ImageCreateInfo },
    /// The swapchain is there. Each of its textures has to be imported as
    /// it is described.
    Done { swapchain: Swapchain },
}

impl SwapchainBuilder {
    #[verifier::type_invariant]
    spec fn more_to_come(self) -> bool {
        self.remaining > 0
    }

    /// The shape of the images.
    pub closed spec fn shape(self) -> SwapchainShape {
        self.shape
    }

    /// The images created so far, in the order of their creation.
    pub closed spec fn created(self) -> Seq<Image> {
        self.created@
    }

    /// How many images are still to be created.
    pub closed spec fn remaining(self) -> nat {
        self.remaining as nat
    }

    /// The images created so far. Where a creation fails, these are the
    /// images that nobody has released yet.
    pub fn created_images(&self) -> (r: &Vec<Image>)
        ensures
            r@ == self.created(),
    {
        &self.created
    }

    /// How many images are still to be created: at least one.
    pub fn remaining_images(&self) -> (r: usize)
        ensures
            r == self.remaining(),
            r > 0,
    {
        proof {
            use_type_invariant(self);
        }
        self.remaining
    }

    /// Takes the outcome of the image creation that the caller was asked
    /// for. A failure ends the provision with an image creation error; the
    /// images created before it are not released. A created image is the
    /// next image of the swapchain: if it was the last to come, the
    /// swapchain is assembled, else the next image is asked for.
    pub fn image_created(self, outcome: Result<Image, i32>) -> (r: Result<
        SwapchainStep,
        BridgeError,
    >)
        ensures
            self.remaining() > 0,
            outcome matches Err(code) ==> r == Err::<SwapchainStep, BridgeError>(
                BridgeError::ImageCreationError { code },
            ),
            outcome matches Ok(image) ==> r is Ok && match r->Ok_0 {
                SwapchainStep::Done { swapchain } => {
                    &&& self.remaining() == 1
                    &&& swapchain@ == swapchain_of(
                        self.created().push(image),
                        self.shape(),
                        OwnershipMode::Owned,
                    )
                },
                SwapchainStep::CreateImage { builder, info } => {
                    &&& self.remaining() > 1
                    &&& builder.shape() == self.shape()
                    &&& builder.created() == self.created().push(image)
                    &&& builder.remaining() == self.remaining() - 1
                    &&& info == image_create_info_for(self.shape())
                },
            },
    {
        proof {
            use_type_invariant(&self);
        }
        match outcome {
            Err(code) => Err(BridgeError::ImageCreationError { code }),
            Ok(image) => {
                let shape = self.shape;
                let mut created = self.created;
                created.push(image);
                let remaining = self.remaining - 1;
                if remaining == 0 {
                    Ok(
                        SwapchainStep::Done {
                            swapchain: assemble_swapchain(created, &shape, OwnershipMode::Owned),
                        },
                    )
                } else {
                    let info = image_create_info(&shape);
                    Ok(
                        SwapchainStep::CreateImage {
                            builder: SwapchainBuilder { shape, created, remaining },
                            info,
                        },
                    )
                }
            },
        }
    }
}

/// What provisions swapchains for a context.
#[derive(Debug)]
pub struct Compositor {
    pub context: Context,
}

impl Compositor {
    /// A compositor for a finished context.
    pub fn new(context: Context) -> (r: Self)
        ensures
            r.context == context,
    {
        Compositor { context }
    }

    /// Starts the provision of a swapchain. Images that the caller supplies
    /// are taken as they are, in their order, and stay the caller's: the
    /// swapchain is there at once. Otherwise the given number of images, or
    /// the default number, is created one by one with the native translation
    /// of the usage, and the swapchain owns them.
    pub fn create_swapchain(
        &self,
        data: SwapchainCreateData,
        usage: SwapchainUsageFlags,
        format: TextureFormat,
        vk_format: Format,
        sample_count: u32,
        width: u32,
        height: u32,
        cubemap: bool,
        array_size: u32,
        mip_count: u32,
    ) -> (r: SwapchainStep)
        ensures
            match r {
                SwapchainStep::Done { swapchain } => {
                    &&& images_to_create(data) == 0
                    &&& swapchain@ == swapchain_of(
                        supplied_images(data),
                        SwapchainShape {
                            usage,
                            format,
                            vk_format,
                            sample_count,
                            width,
                            height,
                            cubemap,
                            array_size,
                            mip_count,
                        },
                        ownership_of(data),
                    )
                },
                SwapchainStep::CreateImage { builder, info } => {
                    &&& images_to_create(data) > 0
                    &&& builder.shape() == (SwapchainShape {
                        usage,
                        format,
                        vk_format,
                        sample_count,
                        width,
                        height,
                        cubemap,
                        array_size,
                        mip_count,
                    })
                    &&& builder.created() == Seq::<Image>::empty()
                    &&& builder.remaining() == images_to_create(data)
                    &&& info == image_create_info_for(builder.shape())
                },
            },
    {
        let shape = SwapchainShape {
            usage,
            format,
            vk_format,
            sample_count,
            width,
            height,
            cubemap,
            array_size,
            mip_count,
        };
        let count = match data {
            SwapchainCreateData::External(images) => {
                return SwapchainStep::Done {
                    swapchain: assemble_swapchain(images, &shape, OwnershipMode::Borrowed),
                };
            },
            SwapchainCreateData::Count(count) => count,
            SwapchainCreateData::Default => DEFAULT_IMAGE_COUNT,
        };
        if count == 0 {
            SwapchainStep::Done {
                swapchain: assemble_swapchain(Vec::new(), &shape, OwnershipMode::Owned),
            }
        } else {
            let info = image_create_info(&shape);
            SwapchainStep::CreateImage {
                builder: SwapchainBuilder { shape, created: Vec::new(), remaining: count },
                info,
            }
        }
    }
}

/// A swapchain has one texture for each of its images, in the order of the
/// images. Each texture is tagged with the format, extent, mip count, array
/// layer count and sample count of the shape and with the translations of its
/// usage, and the abstraction layer destroys the image under a texture
/// exactly when the swapchain owns it. No memory blocks are bound.
pub proof fn lemma_swapchain_of(images: Seq<Image>, shape: SwapchainShape, ownership: OwnershipMode)
    ensures
        swapchain_of(images, shape, ownership).raw_images == images,
        swapchain_of(images, shape, ownership).textures.len() == images.len(),
        swapchain_of(images, shape, ownership).memory.len() == 0,
        swapchain_of(images, shape, ownership).array_size == shape.array_size,
        forall|i: int|
            0 <= i < images.len() ==> {
                let texture = #[trigger] swapchain_of(images, shape, ownership).textures[i];
                &&& texture.image == images[i]
                &&& texture.descriptor.format == shape.format
                &&& texture.hal_descriptor.format == shape.format
                &&& texture.descriptor.size == texture_size(shape)
                &&& texture.hal_descriptor.size == texture_size(shape)
                &&& texture.descriptor.size.depth_or_array_layers == shape.array_size
                &&& texture.descriptor.mip_level_count == shape.mip_count
                &&& texture.hal_descriptor.mip_level_count == shape.mip_count
                &&& texture.descriptor.sample_count == shape.sample_count
                &&& texture.hal_descriptor.sample_count == shape.sample_count
                &&& texture.hal_descriptor.usage == translate_spec(shape.usage).abstraction
                &&& texture.descriptor.usage == translate_spec(shape.usage).high_level
                &&& layer_destroys_image(texture.drop_guard) == ownership.owned()
            },
{
}

/// Images that the caller supplies are never destroyed by the abstraction
/// layer, and none has to be created; without supplied images the swapchain
/// owns what is created for it, and the default is two images.
pub proof fn lemma_supply_modes(data: SwapchainCreateData)
    ensures
        data is External ==> ownership_of(data) == OwnershipMode::Borrowed && images_to_create(data)
            == 0,
        data matches SwapchainCreateData::Count(count) ==> ownership_of(data)
            == OwnershipMode::Owned && images_to_create(data) == count && supplied_images(data).len() == 0,
        data is Default ==> ownership_of(data) == OwnershipMode::Owned && images_to_create(data)
            == 2 && supplied_images(data).len() == 0,
{
}

/// What the creation of `remaining` more images ends with, when the image
/// creations from position `next` on have the given outcomes: the swapchain
/// of all images once none remains, the error of the first failure, or
/// nothing yet where the outcomes run out before either.
pub open spec fn collected(
    created: Seq<Image>,
    remaining: nat,
    outcomes: Seq<Result<Image, i32>>,
    next: int,
    shape: SwapchainShape,
) -> Option<Result<SwapchainView, BridgeError>>
    decreases remaining,
{
    if remaining == 0 {
        Some(Ok(swapchain_of(created, shape, OwnershipMode::Owned)))
    } else if next < 0 || next >= outcomes.len() {
        None
    } else {
        match outcomes[next] {
            Err(code) => Some(Err(BridgeError::ImageCreationError { code })),
            Ok(image) => collected(
                created.push(image),
                (remaining - 1) as nat,
                outcomes,
                next + 1,
                shape,
            ),
        }
    }
}

/// What the provision of a swapchain ends with, when the image creations
/// that it asks for have the given outcomes, in order.
pub open spec fn provisioned(
    data: SwapchainCreateData,
    shape: SwapchainShape,
    outcomes: Seq<Result<Image, i32>>,
) -> Option<Result<SwapchainView, BridgeError>> {
    match data {
        SwapchainCreateData::External(images) => Some(
            Ok(swapchain_of(images@, shape, OwnershipMode::Borrowed)),
        ),
        _ => collected(Seq::empty(), images_to_create(data), outcomes, 0, shape),
    }
}

/// The outcome as mathematical values.
pub open spec fn provision_view(r: Option<Result<Swapchain, BridgeError>>) -> Option<
    Result<SwapchainView, BridgeError>,
> {
    match r {
        None => None,
        Some(Err(e)) => Some(Err(e)),
        Some(Ok(swapchain)) => Some(Ok(swapchain@)),
    }
}

impl Compositor {
    /// Provisions a swapchain from image creations whose outcomes are known:
    /// it answers each request for an image with the next outcome. Gives
    /// nothing if the outcomes run out while an image is still asked for;
    /// outcomes beyond the last request are not looked at.
    pub fn create_swapchain_with(
        &self,
        data: SwapchainCreateData,
        shape: &SwapchainShape,
        outcomes: &Vec<Result<Image, i32>>,
    ) -> (r: Option<Result<Swapchain, BridgeError>>)
        ensures
            provision_view(r) == provisioned(data, *shape, outcomes@),
    {
        let mut step = self.create_swapchain(
            data,
            shape.usage,
            shape.format,
            shape.vk_format,
            shape.sample_count,
            shape.width,
            shape.height,
            shape.cubemap,
            shape.array_size,
            shape.mip_count,
        );
        let mut i: usize = 0;
        loop
            invariant
                i <= outcomes.len(),
                match step {
                    SwapchainStep::Done { swapchain } => provisioned(data, *shape, outcomes@)
                        == Some(Ok::<SwapchainView, BridgeError>(swapchain@)),
                    SwapchainStep::CreateImage { builder, .. } => {
                        &&& builder.shape() == *shape
                        &&& provisioned(data, *shape, outcomes@) == collected(
                            builder.created(),
                            builder.remaining(),
                            outcomes@,
                            i as int,
                            *shape,
                        )
                    },
                },
            decreases outcomes.len() - i,
        {
            match step {
                SwapchainStep::Done { swapchain } => {
                    return Some(Ok(swapchain));
                },
                SwapchainStep::CreateImage { builder, info: _ } => {
                    if i >= outcomes.len() {
                        let _left: usize = builder.remaining_images();
                        return None;
                    }
                    let outcome = outcomes[i];
                    proof {
                        reveal_with_fuel(collected, 2);
                    }
                    match builder.image_created(outcome) {
                        Err(e) => {
                            return Some(Err(e));
                        },
                        Ok(next_step) => {
                            step = next_step;
                            i = i + 1;
                        },
                    }
                },
            }
        }
    }
}

/// The images of a run of successful image creations, from position `next`.
pub open spec fn created_images(outcomes: Seq<Result<Image, i32>>, next: int, count: nat) -> Seq<
    Image,
> {
    Seq::new(count, |k: int| outcomes[next + k]->Ok_0)
}

proof fn lemma_collected_all_created(
    created: Seq<Image>,
    remaining: nat,
    outcomes: Seq<Result<Image, i32>>,
    next: int,
    shape: SwapchainShape,
)
    requires
        0 <= next,
        next + remaining <= outcomes.len(),
        forall|k: int| next <= k < next + remaining ==> (#[trigger] outcomes[k]) is Ok,
    ensures
        collected(created, remaining, outcomes, next, shape) == Some(
            Ok::<SwapchainView, BridgeError>(
                swapchain_of(
                    created + created_images(outcomes, next, remaining),
                    shape,
                    OwnershipMode::Owned,
                ),
            ),
        ),
    decreases remaining,
{
    if remaining == 0 {
        assert(created + created_images(outcomes, next, remaining) =~= created);
    } else {
        assert(outcomes[next] is Ok);
        let image = outcomes[next]->Ok_0;
        lemma_collected_all_created(
            created.push(image),
            (remaining - 1) as nat,
            outcomes,
            next + 1,
            shape,
        );
        assert(created.push(image) + created_images(outcomes, next + 1, (remaining - 1) as nat)
            =~= created + created_images(outcomes, next, remaining));
    }
}

proof fn lemma_collected_first_failure(
    created: Seq<Image>,
    remaining: nat,
    outcomes: Seq<Result<Image, i32>>,
    next: int,
    failed: int,
    shape: SwapchainShape,
)
    requires
        0 <= next <= failed < next + remaining,
        failed < outcomes.len(),
        forall|k: int| next <= k < failed ==> (#[trigger] outcomes[k]) is Ok,
        outcomes[failed] is Err,
    ensures
        collected(created, remaining, outcomes, next, shape) == Some(
            Err::<SwapchainView, BridgeError>(
                BridgeError::ImageCreationError { code: outcomes[failed]->Err_0 },
            ),
        ),
    decreases remaining,
{
    if next < failed {
        assert(outcomes[next] is Ok);
        lemma_collected_first_failure(
            created.push(outcomes[next]->Ok_0),
            (remaining - 1) as nat,
            outcomes,
            next + 1,
            failed,
            shape,
        );
    }
}

/// With images that the caller supplies, the swapchain has exactly these
/// images, in their order, whatever else happens; none is created, and the
/// abstraction layer destroys none of them.
pub proof fn lemma_supplied_images_are_kept(
    images: Vec<Image>,
    shape: SwapchainShape,
    outcomes: Seq<Result<Image, i32>>,
)
    ensures
        provisioned(SwapchainCreateData::External(images), shape, outcomes) matches Some(
            Ok(swapchain),
        ) && swapchain.raw_images == images@ && swapchain.textures.len() == images@.len()
            && forall|i: int|
            0 <= i < images@.len() ==> (#[trigger] swapchain.textures[i]).image == images@[i]
                && !layer_destroys_image(swapchain.textures[i].drop_guard),
{
    lemma_swapchain_of(images@, shape, OwnershipMode::Borrowed);
}

/// Where every image creation succeeds, a swapchain without supplied images
/// has exactly as many images as were asked for (two by default): the created
/// images, in the order of their creation, each under a texture of the shape
/// that the abstraction layer destroys with it.
pub proof fn lemma_created_images_are_counted(
    data: SwapchainCreateData,
    shape: SwapchainShape,
    outcomes: Seq<Result<Image, i32>>,
)
    requires
        !(data is External),
        images_to_create(data) <= outcomes.len(),
        forall|k: int| 0 <= k < images_to_create(data) ==> (#[trigger] outcomes[k]) is Ok,
    ensures
        provisioned(data, shape, outcomes) == Some(
            Ok::<SwapchainView, BridgeError>(
                swapchain_of(
                    created_images(outcomes, 0, images_to_create(data)),
                    shape,
                    OwnershipMode::Owned,
                ),
            ),
        ),
        provisioned(data, shape, outcomes) matches Some(Ok(swapchain)) && swapchain.textures.len()
            == images_to_create(data) && swapchain.raw_images.len() == images_to_create(data)
            && forall|i: int|
            0 <= i < images_to_create(data) ==> (#[trigger] swapchain.textures[i])
                == texture_for(outcomes[i]->Ok_0, shape, OwnershipMode::Owned),
{
    let count = images_to_create(data);
    lemma_collected_all_created(Seq::empty(), count, outcomes, 0, shape);
    assert(Seq::<Image>::empty() + created_images(outcomes, 0, count) =~= created_images(
        outcomes,
        0,
        count,
    ));
}

/// The first image creation that fails ends the provision with an image
/// creation error that holds its result code.
pub proof fn lemma_first_failure_aborts(
    data: SwapchainCreateData,
    shape: SwapchainShape,
    outcomes: Seq<Result<Image, i32>>,
    failed: int,
)
    requires
        !(data is External),
        0 <= failed < images_to_create(data),
        failed < outcomes.len(),
        forall|k: int| 0 <= k < failed ==> (#[trigger] outcomes[k]) is Ok,
        outcomes[failed] is Err,
    ensures
        provisioned(data, shape, outcomes) == Some(
            Err::<SwapchainView, BridgeError>(
                BridgeError::ImageCreationError { code: outcomes[failed]->Err_0 },
            ),
        ),
{
    lemma_collected_first_failure(
        Seq::empty(),
        images_to_create(data),
        outcomes,
        0,
        failed,
        shape,
    );
}

} // verus!
