//! The triangle task: the quad it draws, and the commands it records in a frame.
use vstd::prelude::*;

use crate::buffer::{BufferSpec, BufferUsage, MemoryPreference};
use crate::image::Format;
use crate::render::RenderContext;
use crate::swapchain::WindowSize;

verus! {

/// A corner of the quad.  Both coordinates run from -1 to 1 over the whole picture.
#[derive(Clone, Copy, Debug, PartialEq, Eq, Structural)]
pub struct Corner {
    pub x: i32,
    pub y: i32,
}

/// The corners of the quad, in the order in which they are drawn.
pub open spec fn corners() -> Seq<Corner> {
    seq![
        Corner { x: -1 as i32, y: -1 as i32 },
        Corner { x: -1 as i32, y: 1 },
        Corner { x: 1, y: 1 },
        Corner { x: 1, y: -1 as i32 },
    ]
}

/// The corners of the quad, as the vertices to draw.
pub fn quad() -> (vertices: Vec<Corner>)
    ensures
        vertices@ == corners(),
{
    let mut vertices: Vec<Corner> = Vec::new();
    vertices.push(Corner { x: -1, y: -1 });
    vertices.push(Corner { x: -1, y: 1 });
    vertices.push(Corner { x: 1, y: 1 });
    vertices.push(Corner { x: 1, y: -1 });
    assert(vertices@ =~= corners());
    vertices
}

/// How vertices make triangles.
#[derive(Clone, Copy, Debug, PartialEq, Eq, Structural)]
pub enum PrimitiveTopology {
    /// Every three vertices make one triangle.
    TriangleList,
    /// Every two neighbors make one triangle with the first vertex.
    TriangleFan,
}

impl PrimitiveTopology {
    /// The places of the vertices of the triangle with the given number.
    pub open spec fn triangle(self, number: int) -> (int, int, int) {
        match self {
            PrimitiveTopology::TriangleList => (3 * number, 3 * number + 1, 3 * number + 2),
            PrimitiveTopology::TriangleFan => (0, number + 1, number + 2),
        }
    }
}

/// How the pipeline of the triangle task differs from a pipeline with default settings.
#[derive(Clone, Copy, Debug, PartialEq, Eq, Structural)]
pub struct PipelinePlan {
    pub topology: PrimitiveTopology,
    /// Whether the viewport is set by a command, and not fixed in the pipeline.
    pub dynamic_viewport: bool,
    /// How many color attachments the pipeline blends to.
    pub color_attachments: u32,
    /// How the position of a vertex is stored.
    pub position_format: Format,
}

/// The settings of the pipeline of the triangle task.
#[verifier::allow_in_spec]
pub fn pipeline_plan() -> PipelinePlan
    returns
        (PipelinePlan {
            topology: PrimitiveTopology::TriangleFan,
            dynamic_viewport: true,
            color_attachments: 1,
            position_format: Format::R32G32Sfloat,
        }),
{
    PipelinePlan {
        topology: PrimitiveTopology::TriangleFan,
        dynamic_viewport: true,
        color_attachments: 1,
        position_format: Format::R32G32Sfloat,
    }
}

/// What the buffer of the corners is created as.
#[verifier::allow_in_spec]
pub fn vertex_buffer() -> BufferSpec
    returns
        (BufferSpec {
            usage: BufferUsage::VertexBuffer,
            memory: MemoryPreference::Device,
            host_sequential_write: true,
            size: 32,
        }),
{
    BufferSpec {
        usage: BufferUsage::VertexBuffer,
        memory: MemoryPreference::Device,
        host_sequential_write: true,
        size: 32,
    }
}

/// A color, as eight bits each of red, green, blue and opacity.
#[derive(Clone, Copy, Debug, PartialEq, Eq, Structural)]
pub struct ClearColor {
    pub red: u8,
    pub green: u8,
    pub blue: u8,
    pub alpha: u8,
}

/// The color that a swapchain's current image is cleared to.
pub struct ClearValue<C> {
    pub swapchain_id: C,
    pub color: ClearColor,
}

/// What the fragment shader is told in a frame.
pub struct FragmentConstants<P, T> {
    pub sampler_id: P,
    /// The image to show.
    pub dst_image: T,
}

/// A command of the triangle task.
pub enum GraphicsCommand<'a, L, B, P, T> {
    /// Let the viewport with the given number be the whole of a picture of this size.
    SetViewport { number: u32, extent: WindowSize },
    /// Bind the pipeline.
    BindPipeline(&'a L),
    /// Take the vertices of the given binding from the buffer, from the given byte on.
    BindVertexBuffer { binding: u32, buffer: B, buffer_offset: u64 },
    /// Tell the shader of the pipeline this, from the given byte of its constants on.
    PushConstants { pipeline: &'a L, offset: u32, constants: FragmentConstants<P, T> },
    /// Draw the vertices.
    Draw { vertex_count: u32, instance_count: u32, first_vertex: u32, first_instance: u32 },
}

/// The shader samples the destination image.
pub open spec fn fragment_constants<C, I, P, S, T>(
    world: RenderContext<C, I, P, S, T>,
) -> FragmentConstants<P, T> {
    FragmentConstants {
        sampler_id: world.dst.sampler_id,
        dst_image: world.dst.sampled_image_id,
    }
}

/// The commands of the triangle task in a frame.
pub open spec fn graphics_sequence<'a, L, B, C, I, P, S, T>(
    pipeline: &'a L,
    vertex_buffer_id: B,
    world: RenderContext<C, I, P, S, T>,
) -> Seq<GraphicsCommand<'a, L, B, P, T>> {
    seq![
        GraphicsCommand::SetViewport { number: 0, extent: world.viewport_extent },
        GraphicsCommand::BindPipeline(pipeline),
        GraphicsCommand::BindVertexBuffer { binding: 0, buffer: vertex_buffer_id, buffer_offset: 0 },
        GraphicsCommand::PushConstants {
            pipeline,
            offset: 0,
            constants: fragment_constants(world),
        },
        GraphicsCommand::Draw {
            vertex_count: 4,
            instance_count: 1,
            first_vertex: 0,
            first_instance: 0,
        },
    ]
}

/// The task that shows the destination image.
pub struct TriangleTask<L, B, C> {
    /// There is no pipeline until the task graph is compiled.
    pub pipeline: Option<L>,
    pub vertex_buffer_id: B,
    pub swapchain_id: C,
}

impl<L, B: Copy, C: Copy> TriangleTask<L, B, C> {
    /// The task that draws the vertices of a buffer to the images of a swapchain.
    pub fn new(vertex_buffer_id: B, swapchain_id: C) -> (task: Self)
        ensures
            task.pipeline is None,
            task.vertex_buffer_id == vertex_buffer_id,
            task.swapchain_id == swapchain_id,
    {
        TriangleTask { pipeline: None, vertex_buffer_id, swapchain_id }
    }

    /// The task that draws the vertices of a buffer to the swapchain of the task graph.
    pub fn for_context<I, P, S, T>(
        vertex_buffer_id: B,
        context: &RenderContext<C, I, P, S, T>,
    ) -> (task: Self)
        ensures
            task.pipeline is None,
            task.vertex_buffer_id == vertex_buffer_id,
            task.swapchain_id == context.virtual_swapchain_id,
    {
        TriangleTask::new(vertex_buffer_id, context.virtual_swapchain_id)
    }

    /// Gives the task the pipeline that it draws with.
    pub fn create_pipeline(&mut self, pipeline: L)
        ensures
            *final(self) == (TriangleTask { pipeline: Some(pipeline), ..*old(self) }),
    {
        self.pipeline = Some(pipeline);
    }

    /// What the image is cleared to before the task draws.
    pub fn clear_values(&self) -> (clear: ClearValue<C>)
        ensures
            clear.swapchain_id == self.swapchain_id,
            clear.color == (ClearColor { red: 2, green: 6, blue: 24, alpha: 255 }),
    {
        ClearValue {
            swapchain_id: self.swapchain_id,
            color: ClearColor { red: 2, green: 6, blue: 24, alpha: 255 },
        }
    }

    /// The commands that the task records in a frame.
    pub fn execute<'a, I, P: Copy, S, T: Copy>(
        &'a self,
        world: &RenderContext<C, I, P, S, T>,
    ) -> (commands: Vec<GraphicsCommand<'a, L, B, P, T>>)
        requires
            self.pipeline is Some,
        ensures
            commands@ == graphics_sequence(&self.pipeline->0, self.vertex_buffer_id, *world),
    {
        let pipeline = self.pipeline.as_ref().unwrap();
        let mut commands: Vec<GraphicsCommand<'a, L, B, P, T>> = Vec::new();
        commands.push(GraphicsCommand::SetViewport { number: 0, extent: world.viewport_extent });
        commands.push(GraphicsCommand::BindPipeline(pipeline));
        commands.push(
            GraphicsCommand::BindVertexBuffer {
                binding: 0,
                buffer: self.vertex_buffer_id,
                buffer_offset: 0,
            },
        );
        commands.push(
            GraphicsCommand::PushConstants {
                pipeline,
                offset: 0,
                constants: FragmentConstants {
                    sampler_id: world.dst.sampler_id,
                    dst_image: world.dst.sampled_image_id,
                },
            },
        );
        commands.push(
            GraphicsCommand::Draw {
                vertex_count: 4,
                instance_count: 1,
                first_vertex: 0,
                first_instance: 0,
            },
        );
        assert(commands@ =~= graphics_sequence(
            &self.pipeline->0,
            self.vertex_buffer_id,
            *world,
        ));
        commands
    }
}

/// Twice the area of the triangle from the origin over two points, negative if it is walked
/// against the other direction.
pub open spec fn cross(ax: int, ay: int, bx: int, by: int) -> int {
    ax * by - ay * bx
}

/// The point (`x` / `scale`, `y` / `scale`) lies on the same side of the edge from `a` to `b` as
/// the inside of a triangle that is walked clockwise, or on the edge itself.
pub open spec fn inside_edge(a: Corner, b: Corner, x: int, y: int, scale: int) -> bool {
    cross(b.x - a.x, b.y - a.y, x - scale * a.x, y - scale * a.y) <= 0
}

/// The point (`x` / `scale`, `y` / `scale`) lies in the triangle with the given number that the
/// pipeline makes of the corners.
pub open spec fn in_triangle(number: int, x: int, y: int, scale: int) -> bool {
    let (first, second, third) = pipeline_plan().topology.triangle(number);
    &&& inside_edge(corners()[first], corners()[second], x, y, scale)
    &&& inside_edge(corners()[second], corners()[third], x, y, scale)
    &&& inside_edge(corners()[third], corners()[first], x, y, scale)
}

/// The edges of the two triangles, as bounds on the coordinates.
proof fn lemma_triangle_edges(x: int, y: int, scale: int)
    ensures
        in_triangle(0, x, y, scale) <==> -scale <= x && y <= scale && x <= y,
        in_triangle(1, x, y, scale) <==> y <= x && x <= scale && -scale <= y,
{
    let (a, b, c, d) = (corners()[0], corners()[1], corners()[2], corners()[3]);
    assert(scale * a.x == -scale && scale * a.y == -scale) by (nonlinear_arith)
        requires
            a.x == -1,
            a.y == -1,
    ;
    assert(scale * b.x == -scale && scale * b.y == scale) by (nonlinear_arith)
        requires
            b.x == -1,
            b.y == 1,
    ;
    assert(scale * c.x == scale && scale * c.y == scale) by (nonlinear_arith)
        requires
            c.x == 1,
            c.y == 1,
    ;
    assert(scale * d.x == scale && scale * d.y == -scale) by (nonlinear_arith)
        requires
            d.x == 1,
            d.y == -1,
    ;
    assert(cross(0, 2, x + scale, y + scale) == -2 * (x + scale));
    assert(cross(2, 0, x + scale, y - scale) == 2 * (y - scale));
    assert(cross(-2, -2, x - scale, y - scale) == 2 * (x - y));
    assert(cross(2, 2, x + scale, y + scale) == 2 * (y - x));
    assert(cross(0, -2, x - scale, y - scale) == 2 * (x - scale));
    assert(cross(-2, 0, x - scale, y + scale) == -2 * (y + scale));
}

/// The quad covers the whole picture: every point with both coordinates from -1 to 1 lies in one of
/// its two triangles.
pub proof fn lemma_quad_covers_the_picture(x: int, y: int, scale: int)
    requires
        scale > 0,
        -scale <= x <= scale,
        -scale <= y <= scale,
    ensures
        in_triangle(0, x, y, scale) || in_triangle(1, x, y, scale),
{
    lemma_triangle_edges(x, y, scale);
}

/// The quad covers nothing else: every point of its two triangles has both coordinates from -1 to 1.
pub proof fn lemma_quad_covers_only_the_picture(x: int, y: int, scale: int)
    requires
        scale > 0,
        in_triangle(0, x, y, scale) || in_triangle(1, x, y, scale),
    ensures
        -scale <= x <= scale,
        -scale <= y <= scale,
{
    lemma_triangle_edges(x, y, scale);
}

/// A frame draws every corner of the quad once, from the start of the buffer.
pub proof fn lemma_draw_takes_every_corner<'a, L, B, C, I, P, S, T>(
    pipeline: &'a L,
    vertex_buffer_id: B,
    world: RenderContext<C, I, P, S, T>,
)
    ensures
        graphics_sequence(pipeline, vertex_buffer_id, world).last() matches GraphicsCommand::Draw {
            vertex_count,
            instance_count,
            first_vertex,
            first_instance,
        } && vertex_count == corners().len() && instance_count == 1 && first_vertex == 0
            && first_instance == 0,
{
}

/// The buffer of the corners holds every byte of every corner, and nothing else.
pub proof fn lemma_vertex_buffer_holds_the_corners()
    ensures
        vertex_buffer().size == corners().len() * pipeline_plan().position_format.bytes(),
{
}

/// In every frame the only viewport that is set is the first one, before anything else, and it is
/// exactly as large as frames are drawn.  The only draw comes last.
pub proof fn lemma_viewport_is_the_whole_picture<'a, L, B, C, I, P, S, T>(
    pipeline: &'a L,
    vertex_buffer_id: B,
    world: RenderContext<C, I, P, S, T>,
)
    ensures
        ({
            let commands = graphics_sequence(pipeline, vertex_buffer_id, world);
            &&& commands.len() > 1
            &&& commands[0] matches GraphicsCommand::SetViewport { number, extent } && number == 0
                && extent.width == world.viewport_extent.width && extent.height
                == world.viewport_extent.height
            &&& forall|later: int|
                0 < later < commands.len() ==> !((#[trigger] commands[later]) is SetViewport)
            &&& commands.last() is Draw
            &&& forall|earlier: int|
                0 <= earlier < commands.len() - 1 ==> !((#[trigger] commands[earlier]) is Draw)
        }),
{
}

/// Every pixel is drawn: the middle of any pixel of the picture lies in one of the two triangles,
/// through the viewport that the frame sets.
pub proof fn lemma_every_pixel_is_drawn<'a, L, B, C, I, P, S, T>(
    pipeline: &'a L,
    vertex_buffer_id: B,
    world: RenderContext<C, I, P, S, T>,
    column: int,
    row: int,
)
    requires
        0 <= column < world.viewport_extent.width,
        0 <= row < world.viewport_extent.height,
    ensures
        graphics_sequence(pipeline, vertex_buffer_id, world)[0]
            matches GraphicsCommand::SetViewport { extent, .. } && ({
            let x = (2 * column + 1 - extent.width) * extent.height;
            let y = (2 * row + 1 - extent.height) * extent.width;
            let scale = extent.width * extent.height;
            in_triangle(0, x, y, scale) || in_triangle(1, x, y, scale)
        }),
{
    let (width, height) = (world.viewport_extent.width as int, world.viewport_extent.height as int);
    let x = (2 * column + 1 - width) * height;
    let y = (2 * row + 1 - height) * width;
    let scale = width * height;
    assert(scale > 0) by (nonlinear_arith)
        requires
            width > 0,
            height > 0,
            scale == width * height,
    ;
    assert(-scale <= x <= scale) by (nonlinear_arith)
        requires
            0 <= column < width,
            height > 0,
            x == (2 * column + 1 - width) * height,
            scale == width * height,
    ;
    assert(-scale <= y <= scale) by (nonlinear_arith)
        requires
            0 <= row < height,
            width > 0,
            y == (2 * row + 1 - height) * width,
            scale == width * height,
    ;
    lemma_quad_covers_the_picture(x, y, scale);
}

/// Between the viewport and the draw the pipeline is bound, the corners are taken from the start of
/// their buffer, and the shader is told, from the start of its constants on, to sample the destination
/// image with the sampler of that image.
pub proof fn lemma_quad_shows_the_destination_image<'a, L, B, C, I, P, S, T>(
    pipeline: &'a L,
    vertex_buffer_id: B,
    world: RenderContext<C, I, P, S, T>,
)
    ensures
        ({
            let commands = graphics_sequence(pipeline, vertex_buffer_id, world);
            &&& commands.len() == 5
            &&& commands[1] matches GraphicsCommand::BindPipeline(bound) && *bound == *pipeline
            &&& commands[2] matches GraphicsCommand::BindVertexBuffer {
                binding,
                buffer,
                buffer_offset,
            } && binding == 0 && buffer == vertex_buffer_id && buffer_offset == 0
            &&& commands[3] matches GraphicsCommand::PushConstants {
                pipeline: told,
                offset,
                constants,
            } && *told == *pipeline && offset == 0 && constants.sampler_id == world.dst.sampler_id
                && constants.dst_image == world.dst.sampled_image_id
        }),
{
}

/// A frame draws the same for the same picture: of the state, the size of the picture and the
/// destination image alone make a difference.
pub proof fn lemma_drawing_depends_on_the_shown_image_alone<'a, L, B, C, I, P, S, T>(
    pipeline: &'a L,
    vertex_buffer_id: B,
    world: RenderContext<C, I, P, S, T>,
    other: RenderContext<C, I, P, S, T>,
)
    requires
        world.viewport_extent == other.viewport_extent,
        world.dst == other.dst,
    ensures
        graphics_sequence(pipeline, vertex_buffer_id, world) == graphics_sequence(
            pipeline,
            vertex_buffer_id,
            other,
        ),
{
}

} // verus!
