//! The task graph of a frame: what its tasks access, and in which order they run.
use vstd::prelude::*;

use crate::image::ImageUsage;

verus! {

/// An image as the task graph knows it.
#[derive(Clone, Copy, Debug, PartialEq, Eq, Structural)]
pub enum VirtualImage {
    /// The image that the frame reads.
    Source,
    /// The image that the frame writes.
    Destination,
    /// The image that the frame presents.
    Swapchain,
}

/// How a task accesses an image.
#[derive(Clone, Copy, Debug, PartialEq, Eq, Structural)]
pub enum AccessType {
    ComputeShaderStorageWrite,
    ComputeShaderSampledRead,
    FragmentShaderSampledRead,
    ColorAttachmentWrite,
}

impl AccessType {
    /// The access changes the image.
    pub open spec fn writes(self) -> bool {
        self is ComputeShaderStorageWrite || self is ColorAttachmentWrite
    }

    /// An image with this use permits the access.
    pub open spec fn permitted_by(self, usage: ImageUsage) -> bool {
        match self {
            AccessType::ComputeShaderStorageWrite => usage.storage,
            AccessType::ComputeShaderSampledRead => usage.sampled,
            AccessType::FragmentShaderSampledRead => usage.sampled,
            AccessType::ColorAttachmentWrite => usage.color_attachment,
        }
    }
}

/// The layout that an image has while it is accessed.
#[derive(Clone, Copy, Debug, PartialEq, Eq, Structural)]
pub enum ImageLayoutType {
    General,
    Optimal,
}

/// The kind of queue family that a task asks for.
#[derive(Clone, Copy, Debug, PartialEq, Eq, Structural)]
pub enum QueueFamilyType {
    Graphics,
    Compute,
}

/// One access of a task.
#[derive(Clone, Copy, Debug, PartialEq, Eq, Structural)]
pub struct ImageAccess {
    pub image: VirtualImage,
    pub access: AccessType,
    pub layout: ImageLayoutType,
}

/// An image that a task draws to.
#[derive(Clone, Copy, Debug, PartialEq, Eq, Structural)]
pub struct ColorAttachment {
    pub target: ImageAccess,
    /// Whether the image is cleared before the task draws.
    pub clear: bool,
}

/// A task of the graph.
pub struct TaskNode {
    pub name: &'static str,
    pub queue_family: QueueFamilyType,
    pub color_attachment: Option<ColorAttachment>,
    pub accesses: Vec<ImageAccess>,
}

impl TaskNode {
    /// The task makes the access, as a plain access or by drawing.
    pub open spec fn makes(self, access: ImageAccess) -> bool {
        ||| self.accesses@.contains(access)
        ||| self.color_attachment matches Some(attachment) && attachment.target == access
    }
}

/// Tasks, and pairs of places of tasks of which the first runs before the second.
pub struct GraphPlan {
    pub nodes: Vec<TaskNode>,
    pub edges: Vec<(usize, usize)>,
}

impl GraphPlan {
    /// One task runs before the other.
    pub open spec fn ordered(self, first: int, second: int) -> bool {
        exists|edge: int|
            #![trigger self.edges@[edge]]
            0 <= edge < self.edges@.len() && self.edges@[edge].0 == first && self.edges@[edge].1
                == second
    }

    /// Wherever two tasks access one image and one of them changes it, the graph says which of
    /// the two runs first.
    pub open spec fn hazards_are_ordered(self) -> bool {
        forall|one: int, other: int, a: ImageAccess, b: ImageAccess|
            #![trigger self.nodes@[one].makes(a), self.nodes@[other].makes(b)]
            {
                &&& 0 <= one < self.nodes@.len()
                &&& 0 <= other < self.nodes@.len()
                &&& one != other
                &&& self.nodes@[one].makes(a)
                &&& self.nodes@[other].makes(b)
                &&& a.image == b.image
                &&& a.access.writes() || b.access.writes()
            } ==> self.ordered(one, other) || self.ordered(other, one)
    }

    /// The tasks stand in an order in which they can run.
    pub open spec fn edges_point_forward(self) -> bool {
        forall|edge: int|
            0 <= edge < self.edges@.len() ==> (#[trigger] self.edges@[edge]).0
                < self.edges@[edge].1 < self.nodes@.len()
    }
}

/// The place of the compute task.
pub const COMPUTE_NODE: usize = 0;

/// The place of the triangle task.
pub const TRIANGLE_NODE: usize = 1;

/// The compute task stores to the destination image and samples the source image.
pub open spec fn compute_accesses() -> Seq<ImageAccess> {
    seq![
        ImageAccess {
            image: VirtualImage::Destination,
            access: AccessType::ComputeShaderStorageWrite,
            layout: ImageLayoutType::General,
        },
        ImageAccess {
            image: VirtualImage::Source,
            access: AccessType::ComputeShaderSampledRead,
            layout: ImageLayoutType::General,
        },
    ]
}

/// The triangle task samples the destination image.
pub open spec fn triangle_accesses() -> Seq<ImageAccess> {
    seq![
        ImageAccess {
            image: VirtualImage::Destination,
            access: AccessType::FragmentShaderSampledRead,
            layout: ImageLayoutType::General,
        },
    ]
}

/// The triangle task draws to the image that is presented, which is cleared before.
pub open spec fn triangle_attachment() -> ColorAttachment {
    ColorAttachment {
        target: ImageAccess {
            image: VirtualImage::Swapchain,
            access: AccessType::ColorAttachmentWrite,
            layout: ImageLayoutType::Optimal,
        },
        clear: true,
    }
}

/// The plan is that of a frame: the compute task, then the triangle task.
pub open spec fn is_frame_graph(plan: GraphPlan) -> bool {
    &&& plan.nodes@.len() == 2
    &&& plan.nodes@[COMPUTE_NODE as int].name@ == "Compute"@
    &&& plan.nodes@[COMPUTE_NODE as int].queue_family == QueueFamilyType::Compute
    &&& plan.nodes@[COMPUTE_NODE as int].color_attachment is None
    &&& plan.nodes@[COMPUTE_NODE as int].accesses@ == compute_accesses()
    &&& plan.nodes@[TRIANGLE_NODE as int].name@ == "Triangle"@
    &&& plan.nodes@[TRIANGLE_NODE as int].queue_family == QueueFamilyType::Graphics
    &&& plan.nodes@[TRIANGLE_NODE as int].color_attachment == Some(triangle_attachment())
    &&& plan.nodes@[TRIANGLE_NODE as int].accesses@ == triangle_accesses()
    &&& plan.edges@ == seq![(COMPUTE_NODE, TRIANGLE_NODE)]
}

/// The task graph of a frame.
pub fn frame_graph() -> (plan: GraphPlan)
    ensures
        is_frame_graph(plan),
{
    let mut compute: Vec<ImageAccess> = Vec::new();
    compute.push(
        ImageAccess {
            image: VirtualImage::Destination,
            access: AccessType::ComputeShaderStorageWrite,
            layout: ImageLayoutType::General,
        },
    );
    compute.push(
        ImageAccess {
            image: VirtualImage::Source,
            access: AccessType::ComputeShaderSampledRead,
            layout: ImageLayoutType::General,
        },
    );
    let mut triangle: Vec<ImageAccess> = Vec::new();
    triangle.push(
        ImageAccess {
            image: VirtualImage::Destination,
            access: AccessType::FragmentShaderSampledRead,
            layout: ImageLayoutType::General,
        },
    );
    assert(compute@ =~= compute_accesses());
    assert(triangle@ =~= triangle_accesses());
    let mut nodes: Vec<TaskNode> = Vec::new();
    nodes.push(
        TaskNode {
            name: "Compute",
            queue_family: QueueFamilyType::Compute,
            color_attachment: None,
            accesses: compute,
        },
    );
    nodes.push(
        TaskNode {
            name: "Triangle",
            queue_family: QueueFamilyType::Graphics,
            color_attachment: Some(
                ColorAttachment {
                    target: ImageAccess {
                        image: VirtualImage::Swapchain,
                        access: AccessType::ColorAttachmentWrite,
                        layout: ImageLayoutType::Optimal,
                    },
                    clear: true,
                },
            ),
            accesses: triangle,
        },
    );
    let mut edges: Vec<(usize, usize)> = Vec::new();
    edges.push((COMPUTE_NODE, TRIANGLE_NODE));
    assert(edges@ =~= seq![(COMPUTE_NODE, TRIANGLE_NODE)]);
    GraphPlan { nodes, edges }
}

/// The graph of a frame can be run, and orders every two tasks that would disturb each other.
pub proof fn lemma_frame_graph_is_sound(plan: GraphPlan)
    requires
        is_frame_graph(plan),
    ensures
        plan.edges_point_forward(),
        plan.hazards_are_ordered(),
        plan.ordered(COMPUTE_NODE as int, TRIANGLE_NODE as int),
{
    assert(plan.edges@[0].0 == COMPUTE_NODE && plan.edges@[0].1 == TRIANGLE_NODE);
}

/// What the triangle task samples is what the compute task has stored to before, in a layout
/// that both agree on.
pub proof fn lemma_triangle_samples_what_compute_stored(plan: GraphPlan, read: ImageAccess)
    requires
        is_frame_graph(plan),
        plan.nodes@[TRIANGLE_NODE as int].accesses@.contains(read),
    ensures
        exists|write: ImageAccess|
            {
                &&& #[trigger] plan.nodes@[COMPUTE_NODE as int].accesses@.contains(write)
                &&& write.access.writes()
                &&& write.image == read.image
                &&& write.layout == read.layout
            },
{
    assert(plan.nodes@[COMPUTE_NODE as int].accesses@.contains(compute_accesses()[0]));
}

/// Each image of the relay permits every access to the source and the destination image, so the
/// two may change roles.
pub proof fn lemma_either_image_takes_either_role(plan: GraphPlan, node: int, access: int)
    requires
        is_frame_graph(plan),
        0 <= node < plan.nodes@.len(),
        0 <= access < plan.nodes@[node].accesses@.len(),
    ensures
        plan.nodes@[node].accesses@[access].access.permitted_by(crate::image::src_image().usage),
        plan.nodes@[node].accesses@[access].access.permitted_by(crate::image::dst_image().usage),
{
    assert(node == COMPUTE_NODE || node == TRIANGLE_NODE);
    assert(access == 0 || access == 1);
}

/// The images of the swapchain permit what the triangle task does to them.
pub proof fn lemma_swapchain_images_can_be_drawn_to(plan: GraphPlan)
    requires
        is_frame_graph(plan),
    ensures
        plan.nodes@[TRIANGLE_NODE as int].color_attachment matches Some(attachment)
            && attachment.target.image is Swapchain && attachment.target.access.permitted_by(
            crate::swapchain::swapchain_image_usage(),
        ),
{
}

} // verus!
