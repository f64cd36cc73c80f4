//! The two images of the relay: what they, their views and their samplers are created as.
use vstd::prelude::*;

use crate::pixel::{GRID_HEIGHT, GRID_WIDTH};

verus! {

/// How the numbers of a texel or a vertex are stored.
#[derive(Clone, Copy, Debug, PartialEq, Eq, Structural)]
pub enum Format {
    /// Red, green, blue and opacity, each as a byte that stands for a number from zero to one.
    R8G8B8A8Unorm,
    /// Two floating-point numbers of 32 bits.
    R32G32Sfloat,
}

impl Format {
    /// How many bytes one texel or vertex takes.
    pub open spec fn bytes(self) -> int {
        match self {
            Format::R8G8B8A8Unorm => 4,
            Format::R32G32Sfloat => 8,
        }
    }
}

/// How many directions an image extends in.
#[derive(Clone, Copy, Debug, PartialEq, Eq, Structural)]
pub enum ImageType {
    Dim1d,
    Dim2d,
    Dim3d,
}

/// What of an image is accessed.
#[derive(Clone, Copy, Debug, PartialEq, Eq, Structural)]
pub enum ImageAspect {
    Color,
    Depth,
}

/// The layout of an image in memory.
#[derive(Clone, Copy, Debug, PartialEq, Eq, Structural)]
pub enum ImageLayout {
    /// The content of the image is not kept.
    Undefined,
    /// Any access is possible.
    General,
}

/// What an image, or a view of one, may be used for.
#[derive(Clone, Copy, Debug, PartialEq, Eq, Structural)]
pub struct ImageUsage {
    /// It may be the destination of a transfer.
    pub transfer_dst: bool,
    /// It may be sampled by a shader.
    pub sampled: bool,
    /// A shader may store to it.
    pub storage: bool,
    /// It may be drawn to.
    pub color_attachment: bool,
}

impl ImageUsage {
    /// Everything that `other` allows is allowed.
    pub open spec fn covers(self, other: ImageUsage) -> bool {
        &&& other.transfer_dst ==> self.transfer_dst
        &&& other.sampled ==> self.sampled
        &&& other.storage ==> self.storage
        &&& other.color_attachment ==> self.color_attachment
    }
}

/// The size of an image, in texels.
#[derive(Clone, Copy, Debug, PartialEq, Eq, Structural)]
pub struct ImageExtent {
    pub width: u32,
    pub height: u32,
    pub depth: u32,
}

impl ImageExtent {
    /// The number of texels.
    pub open spec fn texels(self) -> int {
        self.width * self.height * self.depth
    }
}

/// What an image is created as.
#[derive(Clone, Copy, Debug, PartialEq, Eq, Structural)]
pub struct ImageSpec {
    pub image_type: ImageType,
    pub format: Format,
    /// Whether views of the image may read it in another format.
    pub mutable_format: bool,
    pub extent: ImageExtent,
    pub usage: ImageUsage,
}

/// The size that all images of the relay have.
#[verifier::allow_in_spec]
pub fn grid_extent() -> ImageExtent
    returns
        (ImageExtent { width: GRID_WIDTH, height: GRID_HEIGHT, depth: 1 }),
{
    ImageExtent { width: GRID_WIDTH, height: GRID_HEIGHT, depth: 1 }
}

/// What stands in the task graph for the image that a frame reads.
#[verifier::allow_in_spec]
pub fn virtual_src_image() -> ImageSpec
    returns
        (ImageSpec {
            image_type: ImageType::Dim2d,
            format: Format::R8G8B8A8Unorm,
            mutable_format: false,
            extent: grid_extent(),
            usage: ImageUsage {
                transfer_dst: true,
                sampled: true,
                storage: false,
                color_attachment: false,
            },
        }),
{
    ImageSpec {
        image_type: ImageType::Dim2d,
        format: Format::R8G8B8A8Unorm,
        mutable_format: false,
        extent: grid_extent(),
        usage: ImageUsage {
            transfer_dst: true,
            sampled: true,
            storage: false,
            color_attachment: false,
        },
    }
}

/// What stands in the task graph for the image that a frame writes.
#[verifier::allow_in_spec]
pub fn virtual_dst_image() -> ImageSpec
    returns
        (ImageSpec {
            image_type: ImageType::Dim2d,
            format: Format::R8G8B8A8Unorm,
            mutable_format: false,
            extent: grid_extent(),
            usage: ImageUsage {
                transfer_dst: false,
                sampled: true,
                storage: true,
                color_attachment: false,
            },
        }),
{
    ImageSpec {
        image_type: ImageType::Dim2d,
        format: Format::R8G8B8A8Unorm,
        mutable_format: false,
        extent: grid_extent(),
        usage: ImageUsage {
            transfer_dst: false,
            sampled: true,
            storage: true,
            color_attachment: false,
        },
    }
}

/// What the image is created as that the first frame reads.
#[verifier::allow_in_spec]
pub fn src_image() -> ImageSpec
    returns
        (ImageSpec {
            image_type: ImageType::Dim2d,
            format: Format::R8G8B8A8Unorm,
            mutable_format: true,
            extent: grid_extent(),
            usage: ImageUsage {
                transfer_dst: true,
                sampled: true,
                storage: true,
                color_attachment: false,
            },
        }),
{
    ImageSpec {
        image_type: ImageType::Dim2d,
        format: Format::R8G8B8A8Unorm,
        mutable_format: true,
        extent: grid_extent(),
        usage: ImageUsage {
            transfer_dst: true,
            sampled: true,
            storage: true,
            color_attachment: false,
        },
    }
}

/// What the image is created as that the first frame writes.
#[verifier::allow_in_spec]
pub fn dst_image() -> ImageSpec
    returns
        (ImageSpec {
            image_type: ImageType::Dim2d,
            format: Format::R8G8B8A8Unorm,
            mutable_format: true,
            extent: grid_extent(),
            usage: ImageUsage {
                transfer_dst: false,
                sampled: true,
                storage: true,
                color_attachment: false,
            },
        }),
{
    ImageSpec {
        image_type: ImageType::Dim2d,
        format: Format::R8G8B8A8Unorm,
        mutable_format: true,
        extent: grid_extent(),
        usage: ImageUsage {
            transfer_dst: false,
            sampled: true,
            storage: true,
            color_attachment: false,
        },
    }
}

/// What a view of an image is created as.
#[derive(Clone, Copy, Debug, PartialEq, Eq, Structural)]
pub struct ImageViewSpec {
    pub format: Format,
    pub aspect: ImageAspect,
    pub usage: ImageUsage,
    /// The layout that the image has when it is accessed through the view.
    pub layout: ImageLayout,
}

/// What the view that a shader stores through is created as.
#[verifier::allow_in_spec]
pub fn storage_view() -> ImageViewSpec
    returns
        (ImageViewSpec {
            format: Format::R8G8B8A8Unorm,
            aspect: ImageAspect::Color,
            usage: ImageUsage {
                transfer_dst: false,
                sampled: false,
                storage: true,
                color_attachment: false,
            },
            layout: ImageLayout::General,
        }),
{
    ImageViewSpec {
        format: Format::R8G8B8A8Unorm,
        aspect: ImageAspect::Color,
        usage: ImageUsage {
            transfer_dst: false,
            sampled: false,
            storage: true,
            color_attachment: false,
        },
        layout: ImageLayout::General,
    }
}

/// What the view that a shader samples through is created as.
#[verifier::allow_in_spec]
pub fn sampled_view() -> ImageViewSpec
    returns
        (ImageViewSpec {
            format: Format::R8G8B8A8Unorm,
            aspect: ImageAspect::Color,
            usage: ImageUsage {
                transfer_dst: false,
                sampled: true,
                storage: true,
                color_attachment: false,
            },
            layout: ImageLayout::General,
        }),
{
    ImageViewSpec {
        format: Format::R8G8B8A8Unorm,
        aspect: ImageAspect::Color,
        usage: ImageUsage {
            transfer_dst: false,
            sampled: true,
            storage: true,
            color_attachment: false,
        },
        layout: ImageLayout::General,
    }
}

/// How a sampler reads between texels, or between the levels of an image.
#[derive(Clone, Copy, Debug, PartialEq, Eq, Structural)]
pub enum Filter {
    /// The nearest one counts.
    Nearest,
    /// The neighbors are mixed.
    Linear,
}

/// How a sampler reads beyond the edges of an image.
#[derive(Clone, Copy, Debug, PartialEq, Eq, Structural)]
pub enum AddressMode {
    /// The image is repeated.
    Repeat,
    /// The texels at the edge are.
    ClampToEdge,
}

/// What a sampler is created as.
#[derive(Clone, Copy, Debug, PartialEq, Eq, Structural)]
pub struct SamplerSpec {
    pub mag_filter: Filter,
    pub min_filter: Filter,
    pub mipmap_mode: Filter,
    pub address_mode_u: AddressMode,
    pub address_mode_v: AddressMode,
    pub address_mode_w: AddressMode,
}

/// What the sampler of either image is created as.
#[verifier::allow_in_spec]
pub fn sampler() -> SamplerSpec
    returns
        (SamplerSpec {
            mag_filter: Filter::Linear,
            min_filter: Filter::Linear,
            mipmap_mode: Filter::Nearest,
            address_mode_u: AddressMode::Repeat,
            address_mode_v: AddressMode::Repeat,
            address_mode_w: AddressMode::Repeat,
        }),
{
    SamplerSpec {
        mag_filter: Filter::Linear,
        min_filter: Filter::Linear,
        mipmap_mode: Filter::Nearest,
        address_mode_u: AddressMode::Repeat,
        address_mode_v: AddressMode::Repeat,
        address_mode_w: AddressMode::Repeat,
    }
}

/// An image of the relay, with all that goes with it.
#[derive(Clone, Copy, Debug, PartialEq, Eq, Structural)]
pub struct RelayImage {
    pub image: ImageSpec,
    pub sampler: SamplerSpec,
    pub storage_view: ImageViewSpec,
    pub sampled_view: ImageViewSpec,
}

/// The image that the first frame reads, with all that goes with it.
#[verifier::allow_in_spec]
pub fn src_relay_image() -> RelayImage
    returns
        (RelayImage {
            image: src_image(),
            sampler: sampler(),
            storage_view: storage_view(),
            sampled_view: sampled_view(),
        }),
{
    RelayImage {
        image: src_image(),
        sampler: sampler(),
        storage_view: storage_view(),
        sampled_view: sampled_view(),
    }
}

/// The image that the first frame writes, with all that goes with it.
#[verifier::allow_in_spec]
pub fn dst_relay_image() -> RelayImage
    returns
        (RelayImage {
            image: dst_image(),
            sampler: sampler(),
            storage_view: storage_view(),
            sampled_view: sampled_view(),
        }),
{
    RelayImage {
        image: dst_image(),
        sampler: sampler(),
        storage_view: storage_view(),
        sampled_view: sampled_view(),
    }
}

/// Both images allow what each of their views allows, and have the format of their views.
pub proof fn lemma_images_cover_their_views()
    ensures
        src_relay_image().image.usage.covers(src_relay_image().storage_view.usage),
        src_relay_image().image.usage.covers(src_relay_image().sampled_view.usage),
        src_relay_image().image.format == src_relay_image().storage_view.format,
        src_relay_image().image.format == src_relay_image().sampled_view.format,
        dst_relay_image().image.usage.covers(dst_relay_image().storage_view.usage),
        dst_relay_image().image.usage.covers(dst_relay_image().sampled_view.usage),
        dst_relay_image().image.format == dst_relay_image().storage_view.format,
        dst_relay_image().image.format == dst_relay_image().sampled_view.format,
{
}

/// The images can change roles: they differ in nothing but that only the first can be uploaded to,
/// and both can be sampled and stored to.
pub proof fn lemma_images_differ_in_the_upload_only()
    ensures
        dst_relay_image() == (RelayImage {
            image: ImageSpec {
                usage: ImageUsage { transfer_dst: false, ..src_relay_image().image.usage },
                ..src_relay_image().image
            },
            ..src_relay_image()
        }),
        src_relay_image().sampler == dst_relay_image().sampler,
        src_relay_image().image.usage.sampled && src_relay_image().image.usage.storage,
        dst_relay_image().image.usage.sampled && dst_relay_image().image.usage.storage,
{
}

/// The image that is bound in the first frame allows what its stand-in in the task graph allows,
/// and has its type, its format and its size.
pub proof fn lemma_first_frame_covers_the_virtual_images()
    ensures
        src_image().usage.covers(virtual_src_image().usage),
        src_image().image_type == virtual_src_image().image_type,
        src_image().format == virtual_src_image().format,
        src_image().extent == virtual_src_image().extent,
        dst_image().usage.covers(virtual_dst_image().usage),
        dst_image().image_type == virtual_dst_image().image_type,
        dst_image().format == virtual_dst_image().format,
        dst_image().extent == virtual_dst_image().extent,
{
}

} // verus!
