//! The compute task: the texels it starts from, and the commands it records in a frame.
use rand::rngs::ThreadRng;
use vstd::prelude::*;

use crate::buffer::{BufferSpec, BufferUsage, MemoryPreference};
use crate::image::{grid_extent, Format, ImageAspect, ImageExtent, ImageLayout};
use crate::pixel;
use crate::pixel::{grid_of_bytes, random_colors, Pixel, GRID_HEIGHT, GRID_WIDTH};
use crate::render::RenderContext;

verus! {

/// A place in an image.
#[derive(Clone, Copy, Debug, PartialEq, Eq, Structural)]
pub struct ImageOffset {
    pub x: u32,
    pub y: u32,
    pub z: u32,
}

/// Which texels of a buffer go to which places of an image.
#[derive(Clone, Copy, Debug, PartialEq, Eq, Structural)]
pub struct BufferImageCopy {
    /// The byte that the first texel starts at.
    pub buffer_offset: u64,
    /// How many texels lie from the start of a row to that of the next; if zero, as many as the
    /// copy is wide.
    pub buffer_row_length: u32,
    /// How many rows lie from the start of a slice to that of the next; if zero, as many as the
    /// copy is high.
    pub buffer_image_height: u32,
    pub aspect: ImageAspect,
    /// The place that the first texel goes to.
    pub image_offset: ImageOffset,
    pub image_extent: ImageExtent,
}

impl BufferImageCopy {
    /// The distance of two rows in the buffer, in texels.
    pub open spec fn row_texels(self) -> int {
        if self.buffer_row_length == 0 {
            self.image_extent.width as int
        } else {
            self.buffer_row_length as int
        }
    }

    /// The distance of two slices in the buffer, in rows.
    pub open spec fn slice_rows(self) -> int {
        if self.buffer_image_height == 0 {
            self.image_extent.height as int
        } else {
            self.buffer_image_height as int
        }
    }

    /// The copy writes the place.
    pub open spec fn writes(self, x: int, y: int, z: int) -> bool {
        &&& self.image_offset.x <= x < self.image_offset.x + self.image_extent.width
        &&& self.image_offset.y <= y < self.image_offset.y + self.image_extent.height
        &&& self.image_offset.z <= z < self.image_offset.z + self.image_extent.depth
    }

    /// The byte of the buffer at which the texel starts that the place gets.
    pub open spec fn first_byte(self, format: Format, x: int, y: int, z: int) -> int {
        let row = (z - self.image_offset.z) * self.slice_rows() + (y - self.image_offset.y);
        let texel = row * self.row_texels() + (x - self.image_offset.x);
        self.buffer_offset + texel * format.bytes()
    }
}

/// The number of the texel that a place of the grid gets: row by row, and from the left to the
/// right.
pub open spec fn texel_index(x: int, y: int) -> int {
    grid_extent().width * y + x
}

/// A command that brings the first texels into an image.
pub enum UploadCommand<I> {
    /// Change the layout of the image.
    Transition {
        image: I,
        aspect: ImageAspect,
        old_layout: ImageLayout,
        new_layout: ImageLayout,
    },
    /// Copy texels of the upload buffer to the image.
    CopyFromBuffer { image: I, layout: ImageLayout, region: BufferImageCopy },
}

/// The texels that an image starts with, the buffer that takes them, and the commands that bring
/// them from there to the image.
pub struct Upload<I> {
    pub pixels: Vec<Pixel>,
    pub buffer: BufferSpec,
    pub commands: Vec<UploadCommand<I>>,
}

/// The region of the upload: all texels, without gaps, to the whole image.
#[verifier::allow_in_spec]
pub fn upload_region() -> BufferImageCopy
    returns
        (BufferImageCopy {
            buffer_offset: 0,
            buffer_row_length: 0,
            buffer_image_height: 0,
            aspect: ImageAspect::Color,
            image_offset: ImageOffset { x: 0, y: 0, z: 0 },
            image_extent: grid_extent(),
        }),
{
    BufferImageCopy {
        buffer_offset: 0,
        buffer_row_length: 0,
        buffer_image_height: 0,
        aspect: ImageAspect::Color,
        image_offset: ImageOffset { x: 0, y: 0, z: 0 },
        image_extent: grid_extent(),
    }
}

/// The commands that fill an image with the texels of the upload buffer.
pub open spec fn upload_sequence<I>(image: I) -> Seq<UploadCommand<I>> {
    seq![
        UploadCommand::Transition {
            image,
            aspect: ImageAspect::Color,
            old_layout: ImageLayout::Undefined,
            new_layout: ImageLayout::General,
        },
        UploadCommand::CopyFromBuffer {
            image,
            layout: ImageLayout::General,
            region: upload_region(),
        },
    ]
}

/// What the upload buffer is created as: it holds all bytes of the texels.
#[verifier::allow_in_spec]
pub fn upload_buffer() -> BufferSpec
    returns
        (BufferSpec {
            usage: BufferUsage::TransferSrc,
            memory: MemoryPreference::Host,
            host_sequential_write: true,
            size: 4_194_304,
        }),
{
    BufferSpec {
        usage: BufferUsage::TransferSrc,
        memory: MemoryPreference::Host,
        host_sequential_write: true,
        size: 4_194_304,
    }
}

impl<I: Copy> Upload<I> {
    /// The texels of the given colors, for the image.  There are as many as the copy takes.
    pub fn of_bytes(image: I, bytes: &Vec<u8>) -> (upload: Self)
        requires
            bytes@.len() == 3 * GRID_WIDTH * GRID_HEIGHT,
        ensures
            upload.pixels@.len() == grid_extent().texels(),
            pixel::are_colors_of(bytes@, upload.pixels@),
            upload.buffer == upload_buffer(),
            upload.commands@ == upload_sequence(image),
    {
        assert(grid_extent().texels() == GRID_WIDTH * GRID_HEIGHT);
        Upload {
            pixels: grid_of_bytes(bytes),
            buffer: upload_buffer(),
            commands: upload_commands(image),
        }
    }

    /// Texels of random colors, for the image: the bytes of the colors are drawn one after another,
    /// texel by texel.
    pub fn new(image: I) -> (upload: Self)
        ensures
            upload.pixels@.len() == grid_extent().texels(),
            forall|index: int|
                0 <= index < upload.pixels@.len() ==> (
                #[trigger] upload.pixels@[index]).is_opaque(),
            exists|draws: Seq<&mut ThreadRng>, bytes: Seq<u8>|
                {
                    &&& #[trigger] pixel::are_draws(draws, bytes)
                    &&& forall|index: int|
                        0 < index < draws.len() ==> *final(draws[index - 1]) == *(
                        #[trigger] draws[index])
                    &&& pixel::are_colors_of(bytes, upload.pixels@)
                },
            upload.buffer == upload_buffer(),
            upload.commands@ == upload_sequence(image),
    {
        let mut rng = rand::rng();
        let bytes = random_colors(&mut rng);
        Upload::of_bytes(image, &bytes)
    }
}

/// The commands that fill an image with the texels of the upload buffer.
pub fn upload_commands<I: Copy>(image: I) -> (commands: Vec<UploadCommand<I>>)
    ensures
        commands@ == upload_sequence(image),
{
    let mut commands: Vec<UploadCommand<I>> = Vec::new();
    commands.push(
        UploadCommand::Transition {
            image,
            aspect: ImageAspect::Color,
            old_layout: ImageLayout::Undefined,
            new_layout: ImageLayout::General,
        },
    );
    commands.push(
        UploadCommand::CopyFromBuffer {
            image,
            layout: ImageLayout::General,
            region: upload_region(),
        },
    );
    assert(commands@ =~= upload_sequence(image));
    commands
}

/// What the compute shader is told in a frame.
pub struct ComputeConstants<P, S, T> {
    pub sampler_id: P,
    /// The image to sample.
    pub src_image: T,
    /// The image to store to.
    pub dst_image: S,
}

/// How many texels a work group of the shader computes in each direction.
pub const WORK_GROUP_WIDTH: u32 = 8;

/// See [`WORK_GROUP_WIDTH`].
pub const WORK_GROUP_HEIGHT: u32 = 8;

/// See [`WORK_GROUP_WIDTH`].
pub const WORK_GROUP_DEPTH: u32 = 1;

/// A command of the compute task.
pub enum ComputeCommand<'a, L, P, S, T> {
    /// Bind the pipeline.
    BindPipeline(&'a L),
    /// Tell the shader of the pipeline this, from the given byte of its constants on.
    PushConstants { pipeline: &'a L, offset: u32, constants: ComputeConstants<P, S, T> },
    /// Run so many work groups in each direction.
    Dispatch { x: u32, y: u32, z: u32 },
}

/// The shader samples the source image and stores to the destination image.
pub open spec fn compute_constants<C, I, P, S, T>(
    world: RenderContext<C, I, P, S, T>,
) -> ComputeConstants<P, S, T> {
    ComputeConstants {
        sampler_id: world.src.sampler_id,
        src_image: world.src.sampled_image_id,
        dst_image: world.dst.storage_image_id,
    }
}

/// The commands of the compute task in a frame.
pub open spec fn compute_sequence<'a, L, C, I, P, S, T>(
    pipeline: &'a L,
    world: RenderContext<C, I, P, S, T>,
) -> Seq<ComputeCommand<'a, L, P, S, T>> {
    seq![
        ComputeCommand::BindPipeline(pipeline),
        ComputeCommand::PushConstants { pipeline, offset: 0, constants: compute_constants(world) },
        ComputeCommand::Dispatch { x: 128, y: 128, z: 1 },
    ]
}

/// The task that computes the destination image from the source image.
pub struct ComputeTask<L> {
    pub pipeline: L,
}

impl<L> ComputeTask<L> {
    /// The task that runs the given pipeline.
    pub fn new(pipeline: L) -> (task: Self)
        ensures
            task.pipeline == pipeline,
    {
        ComputeTask { pipeline }
    }

    /// The commands that the task records in a frame.
    pub fn execute<'a, C, I, P: Copy, S: Copy, T: Copy>(
        &'a self,
        world: &RenderContext<C, I, P, S, T>,
    ) -> (commands: Vec<ComputeCommand<'a, L, P, S, T>>)
        ensures
            commands@ == compute_sequence(&self.pipeline, *world),
    {
        let mut commands: Vec<ComputeCommand<'a, L, P, S, T>> = Vec::new();
        commands.push(ComputeCommand::BindPipeline(&self.pipeline));
        commands.push(
            ComputeCommand::PushConstants {
                pipeline: &self.pipeline,
                offset: 0,
                constants: ComputeConstants {
                    sampler_id: world.src.sampler_id,
                    src_image: world.src.sampled_image_id,
                    dst_image: world.dst.storage_image_id,
                },
            },
        );
        commands.push(ComputeCommand::Dispatch { x: 128, y: 128, z: 1 });
        assert(commands@ =~= compute_sequence(&self.pipeline, *world));
        commands
    }
}

impl<C, I: Copy, P, S, T> RenderContext<C, I, P, S, T> {
    /// The upload that is made before the first frame: random texels for the source image.
    pub fn first_upload(&self) -> (upload: Upload<I>)
        ensures
            upload.pixels@.len() == grid_extent().texels(),
            forall|index: int|
                0 <= index < upload.pixels@.len() ==> (
                #[trigger] upload.pixels@[index]).is_opaque(),
            exists|draws: Seq<&mut ThreadRng>, bytes: Seq<u8>|
                {
                    &&& #[trigger] pixel::are_draws(draws, bytes)
                    &&& forall|index: int|
                        0 < index < draws.len() ==> *final(draws[index - 1]) == *(
                        #[trigger] draws[index])
                    &&& pixel::are_colors_of(bytes, upload.pixels@)
                },
            upload.buffer == upload_buffer(),
            upload.commands@ == upload_sequence(self.src.image_id),
    {
        Upload::new(self.src.image_id)
    }
}

/// The upload fills the whole image that the first frame reads: it has the size of that image, which
/// may be the destination of a transfer, and it copies to the layout that it has just changed to.
pub proof fn lemma_upload_fills_the_source_image<I>(image: I)
    ensures
        crate::image::src_image().usage.transfer_dst,
        upload_sequence(image).len() == 2,
        upload_sequence(image)[0] matches UploadCommand::Transition {
            image: target,
            aspect,
            old_layout,
            new_layout,
        } && target == image && aspect == upload_region().aspect
            && old_layout == ImageLayout::Undefined && upload_sequence(image)[1] == (
        UploadCommand::CopyFromBuffer { image, layout: new_layout, region: upload_region() }),
        upload_region().image_offset == (ImageOffset { x: 0, y: 0, z: 0 }),
        upload_region().image_extent == crate::image::src_image().extent,
{
}

/// The upload buffer holds every byte of every texel, and nothing else.
pub proof fn lemma_upload_buffer_holds_the_texels()
    ensures
        upload_buffer().size == grid_extent().texels() * crate::image::src_image().format.bytes(),
{
    assert(grid_extent().texels() == GRID_WIDTH * GRID_HEIGHT);
}

/// The number of a texel, with the width of the grid as a plain number.
proof fn lemma_texel_index(x: int, y: int)
    ensures
        texel_index(x, y) == 1024 * y + x,
        y * upload_region().row_texels() == 1024 * y,
{
    let width = grid_extent().width;
    assert(width * y == 1024 * y && y * width == 1024 * y) by (nonlinear_arith)
        requires
            width == 1024,
    ;
}

/// Every place of the image gets the texel with its number, all of whose bytes lie in the upload
/// buffer.
pub proof fn lemma_places_get_the_texels_row_by_row(x: int, y: int)
    requires
        0 <= x < grid_extent().width,
        0 <= y < grid_extent().height,
    ensures
        upload_region().writes(x, y, 0),
        0 <= texel_index(x, y) < grid_extent().texels(),
        upload_region().first_byte(crate::image::src_image().format, x, y, 0) == texel_index(x, y)
            * crate::image::src_image().format.bytes(),
        0 <= upload_region().first_byte(crate::image::src_image().format, x, y, 0),
        upload_region().first_byte(crate::image::src_image().format, x, y, 0)
            + crate::image::src_image().format.bytes() <= upload_buffer().size,
{
    assert(grid_extent().texels() == GRID_WIDTH * GRID_HEIGHT);
    assert(0 * upload_region().slice_rows() == 0);
    lemma_texel_index(x, y);
}

/// The copy writes nothing but the places of the grid.
pub proof fn lemma_copy_stays_in_the_image(x: int, y: int, z: int)
    requires
        upload_region().writes(x, y, z),
    ensures
        0 <= x < crate::image::src_image().extent.width,
        0 <= y < crate::image::src_image().extent.height,
        0 <= z < crate::image::src_image().extent.depth,
{
}

/// No two places get the same texel.
pub proof fn lemma_places_have_their_own_texels(x: int, y: int, other_x: int, other_y: int)
    requires
        0 <= x < grid_extent().width,
        0 <= y < grid_extent().height,
        0 <= other_x < grid_extent().width,
        0 <= other_y < grid_extent().height,
        texel_index(x, y) == texel_index(other_x, other_y),
    ensures
        x == other_x,
        y == other_y,
{
    lemma_texel_index(x, y);
    lemma_texel_index(other_x, other_y);
}

/// Every texel goes to some place.
pub proof fn lemma_every_texel_has_a_place(index: int)
    requires
        0 <= index < grid_extent().texels(),
    ensures
        exists|x: int, y: int|
            {
                &&& 0 <= x < grid_extent().width
                &&& 0 <= y < grid_extent().height
                &&& #[trigger] texel_index(x, y) == index
            },
{
    assert(grid_extent().texels() == GRID_WIDTH * GRID_HEIGHT);
    let x = index % (grid_extent().width as int);
    let y = index / (grid_extent().width as int);
    lemma_texel_index(x, y);
    assert(texel_index(x, y) == index);
}

/// A place of the image shows the three bytes of its color, and is opaque.
pub proof fn lemma_places_show_their_colors(bytes: Seq<u8>, pixels: Seq<Pixel>, x: int, y: int)
    requires
        pixel::are_colors_of(bytes, pixels),
        pixels.len() == grid_extent().texels(),
        0 <= x < grid_extent().width,
        0 <= y < grid_extent().height,
    ensures
        pixels[texel_index(x, y)].position@ == seq![
            bytes[3 * texel_index(x, y)],
            bytes[3 * texel_index(x, y) + 1],
            bytes[3 * texel_index(x, y) + 2],
            255u8,
        ],
{
    lemma_places_get_the_texels_row_by_row(x, y);
}

/// Texels are numbered from the first place on, along the rows, and on from the end of a row to the
/// start of the next.
pub proof fn lemma_texels_are_numbered_along_the_rows(x: int, y: int)
    ensures
        texel_index(0, 0) == 0,
        texel_index(x + 1, y) == texel_index(x, y) + 1,
        texel_index(x, y + 1) == texel_index(x, y) + grid_extent().width,
        texel_index(0, y + 1) == texel_index(grid_extent().width - 1, y) + 1,
{
    lemma_texel_index(0, 0);
    lemma_texel_index(x, y);
    lemma_texel_index(x + 1, y);
    lemma_texel_index(x, y + 1);
    lemma_texel_index(0, y + 1);
    lemma_texel_index(grid_extent().width - 1, y);
}

/// In every frame, whatever the window and the images are, the commands end in one dispatch, and its
/// work groups cover the grid exactly.
pub proof fn lemma_dispatch_covers_the_grid<'a, L, C, I, P, S, T>(
    pipeline: &'a L,
    world: RenderContext<C, I, P, S, T>,
)
    ensures
        compute_sequence(pipeline, world).len() > 0,
        compute_sequence(pipeline, world).last() matches ComputeCommand::Dispatch { x, y, z } && {
            &&& x * WORK_GROUP_WIDTH == grid_extent().width
            &&& y * WORK_GROUP_HEIGHT == grid_extent().height
            &&& z * WORK_GROUP_DEPTH == grid_extent().depth
        },
        forall|earlier: int|
            0 <= earlier < compute_sequence(pipeline, world).len() - 1 ==> !((
            #[trigger] compute_sequence(pipeline, world)[earlier]) is Dispatch),
{
}

/// In every frame each place of the grid has a work group of its own, and no work group reaches
/// beyond the grid.
pub proof fn lemma_places_have_their_own_work_groups<'a, L, C, I, P, S, T>(
    pipeline: &'a L,
    world: RenderContext<C, I, P, S, T>,
    place_x: int,
    place_y: int,
)
    requires
        0 <= place_x,
        0 <= place_y,
    ensures
        compute_sequence(pipeline, world).last() matches ComputeCommand::Dispatch { x, y, .. } && ((
        place_x < grid_extent().width && place_y < grid_extent().height) <==> (place_x / (
        WORK_GROUP_WIDTH as int) < x && place_y / (WORK_GROUP_HEIGHT as int) < y)),
{
}

/// Before the dispatch the pipeline is bound, and its shader is told, from the start of its
/// constants on, to sample the source image with the sampler of that image and to store to the
/// destination image.
pub proof fn lemma_shader_is_told_of_both_images<'a, L, C, I, P, S, T>(
    pipeline: &'a L,
    world: RenderContext<C, I, P, S, T>,
)
    ensures
        compute_sequence(pipeline, world).len() == 3,
        compute_sequence(pipeline, world)[0] matches ComputeCommand::BindPipeline(bound)
            && *bound == *pipeline,
        compute_sequence(pipeline, world)[1] matches ComputeCommand::PushConstants {
            pipeline: told,
            offset,
            constants,
        } && {
            &&& *told == *pipeline
            &&& offset == 0
            &&& constants.sampler_id == world.src.sampler_id
            &&& constants.src_image == world.src.sampled_image_id
            &&& constants.dst_image == world.dst.storage_image_id
        },
{
}

/// A frame computes the same on the same images: neither the swapchain nor the window nor the
/// identifiers of the task graph make a difference.
pub proof fn lemma_computation_depends_on_the_images_alone<'a, L, C, I, P, S, T>(
    pipeline: &'a L,
    world: RenderContext<C, I, P, S, T>,
    other: RenderContext<C, I, P, S, T>,
)
    requires
        world.src == other.src,
        world.dst == other.dst,
    ensures
        compute_sequence(pipeline, world) == compute_sequence(pipeline, other),
{
}

} // verus!
