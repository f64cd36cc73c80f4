//! The swapchain that frames are presented through.
use vstd::prelude::*;

use crate::image::ImageUsage;

verus! {

/// How many frames may be in flight at once.
pub const MAX_FRAMES_IN_FLIGHT: u32 = 2;

/// The least number of images that the swapchain is created with.
pub const MIN_SWAPCHAIN_IMAGES: u32 = MAX_FRAMES_IN_FLIGHT + 1;

/// The size of the window, in pixels.
#[derive(Clone, Copy, Debug, PartialEq, Eq, Structural)]
pub struct WindowSize {
    pub width: u32,
    pub height: u32,
}

impl WindowSize {
    /// Whether the window shows anything at all.
    #[verifier::allow_in_spec]
    pub fn is_visible(self) -> bool
        returns
            self.width != 0 && self.height != 0,
    {
        !(self.width == 0 || self.height == 0)
    }
}

/// What a device reports of the surface of the window.
pub struct SurfaceReport<F, S, A> {
    /// The least number of images that a swapchain of the surface has.
    pub min_image_count: u32,
    /// The formats of the surface, each with its color space, the preferred one first.
    pub formats: Vec<(F, S)>,
    /// The ways in which the opacity of the images can be treated.
    pub composite_alphas: Vec<A>,
}

/// What the swapchain is created as.
pub struct SwapchainPlan<F, A> {
    pub min_image_count: u32,
    pub image_format: F,
    pub image_extent: WindowSize,
    pub image_usage: ImageUsage,
    pub composite_alpha: A,
}

/// What stands for the swapchain in the task graph.
pub struct VirtualSwapchain<F> {
    pub image_format: F,
}

impl<F: Copy, A> SwapchainPlan<F, A> {
    /// What stands for the swapchain in the task graph: something with images of its format.
    pub fn stand_in(&self) -> (stand_in: VirtualSwapchain<F>)
        ensures
            stand_in.image_format == self.image_format,
    {
        VirtualSwapchain { image_format: self.image_format }
    }
}

/// What the images of the swapchain are used for: they are drawn to.
#[verifier::allow_in_spec]
pub fn swapchain_image_usage() -> ImageUsage
    returns
        (ImageUsage {
            transfer_dst: false,
            sampled: false,
            storage: false,
            color_attachment: true,
        }),
{
    ImageUsage { transfer_dst: false, sampled: false, storage: false, color_attachment: true }
}

/// Plans the swapchain of a window: as large as the window, in the first format and the first
/// treatment of opacity of the surface, with an image more than there are frames in flight.
pub fn plan_swapchain<F: Copy, S, A: Copy>(
    report: &SurfaceReport<F, S, A>,
    window_size: WindowSize,
) -> (plan: SwapchainPlan<F, A>)
    requires
        report.formats@.len() > 0,
        report.composite_alphas@.len() > 0,
    ensures
        plan.min_image_count == (if report.min_image_count > MIN_SWAPCHAIN_IMAGES {
            report.min_image_count
        } else {
            MIN_SWAPCHAIN_IMAGES
        }),
        plan.image_format == report.formats@[0].0,
        plan.image_extent == window_size,
        plan.image_usage == swapchain_image_usage(),
        plan.composite_alpha == report.composite_alphas@[0],
        report.min_image_count <= plan.min_image_count,
        MAX_FRAMES_IN_FLIGHT < plan.min_image_count,
{
    let min_image_count = if report.min_image_count > MIN_SWAPCHAIN_IMAGES {
        report.min_image_count
    } else {
        MIN_SWAPCHAIN_IMAGES
    };
    SwapchainPlan {
        min_image_count,
        image_format: report.formats[0].0,
        image_extent: window_size,
        image_usage: swapchain_image_usage(),
        composite_alpha: report.composite_alphas[0],
    }
}

/// A window shows something if and only if it has an area.
pub proof fn lemma_visible_windows_have_an_area(size: WindowSize)
    ensures
        size.is_visible() <==> size.width * size.height > 0,
{
    let (width, height) = (size.width as int, size.height as int);
    assert(width > 0 && height > 0 ==> width * height > 0) by (nonlinear_arith);
    assert(width == 0 || height == 0 ==> width * height == 0) by (nonlinear_arith);
}

} // verus!
