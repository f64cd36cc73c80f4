//! The state of the program between frames, and how events move it.
use vstd::prelude::*;

use crate::graph::VirtualImage;
use crate::swapchain::WindowSize;

verus! {

/// The handles of one image of the relay: the image itself, the sampler that goes with it, and
/// the views that shaders store to it and sample it through.
pub struct ImageHandles<I, P, S, T> {
    pub image_id: I,
    pub sampler_id: P,
    pub storage_image_id: S,
    pub sampled_image_id: T,
}

/// What is kept from frame to frame.  The identifiers are of whatever types the program has for
/// swapchains, images, samplers, storage views and sampled views.
pub struct RenderContext<C, I, P, S, T> {
    pub swapchain_id: C,
    /// The size that frames are drawn in.
    pub viewport_extent: WindowSize,
    /// Whether the swapchain has to be created anew before the next frame.
    pub recreate_swapchain: bool,
    /// What stands for the swapchain in the task graph.
    pub virtual_swapchain_id: C,
    /// What stands in the task graph for the image that a frame reads.
    pub virtual_src_image_id: I,
    /// What stands in the task graph for the image that a frame writes.
    pub virtual_dst_image_id: I,
    /// The image that the next frame reads.
    pub src: ImageHandles<I, P, S, T>,
    /// The image that the next frame writes.
    pub dst: ImageHandles<I, P, S, T>,
}

/// An identifier of the task graph, and what stands behind it.
pub struct Binding<X> {
    pub virtual_id: X,
    pub actual_id: X,
}

/// Which swapchain and which images stand behind the identifiers of the task graph in a frame.
pub struct FrameBindings<C, I> {
    pub swapchain: Binding<C>,
    pub src_image: Binding<I>,
    pub dst_image: Binding<I>,
}

/// An event of the window.
#[derive(Clone, Copy, Debug, PartialEq, Eq, Structural)]
pub enum WindowEvent {
    CloseRequested,
    Resized,
    /// The window is to be redrawn; it now has this size.
    RedrawRequested(WindowSize),
    Other,
}

/// How the execution of a frame ended.
#[derive(Clone, Copy, Debug, PartialEq, Eq, Structural)]
pub enum FrameOutcome {
    /// The frame was executed.
    Presented,
    /// The swapchain no longer fits its surface.
    OutOfDate,
    /// Any other failure.
    Failed,
}

/// What is to be done next.
pub enum Action<C, I> {
    Nothing,
    /// Leave the event loop.
    Exit,
    /// Ask the window for a redraw.
    RequestRedraw,
    /// Create the swapchain anew, in the given size.
    RecreateSwapchain { swapchain_id: C, image_extent: WindowSize },
    /// Execute the task graph with these bindings.
    DrawFrame(FrameBindings<C, I>),
    /// Give up: the frame could not be executed.
    Abort,
}

/// One thing that happens to the state: an event of the window, or the end of work that was to be
/// done.
pub enum Step<C> {
    Event(WindowEvent),
    /// The swapchain was created anew, in the given size.
    Recreated { swapchain_id: C, image_extent: WindowSize },
    Finished(FrameOutcome),
}

impl<C, I, P, S, T> RenderContext<C, I, P, S, T> {
    /// What stands behind the identifiers of the task graph in the next frame.
    pub open spec fn spec_bindings(self) -> FrameBindings<C, I> {
        FrameBindings {
            swapchain: Binding {
                virtual_id: self.virtual_swapchain_id,
                actual_id: self.swapchain_id,
            },
            src_image: Binding {
                virtual_id: self.virtual_src_image_id,
                actual_id: self.src.image_id,
            },
            dst_image: Binding {
                virtual_id: self.virtual_dst_image_id,
                actual_id: self.dst.image_id,
            },
        }
    }

    /// The swapchain has to be created anew.
    pub open spec fn stale(self) -> Self {
        RenderContext { recreate_swapchain: true, ..self }
    }

    /// The swapchain was created anew.
    pub open spec fn renewed(self, swapchain_id: C, image_extent: WindowSize) -> Self {
        RenderContext {
            swapchain_id,
            viewport_extent: image_extent,
            recreate_swapchain: false,
            ..self
        }
    }

    /// The images have changed roles.
    pub open spec fn turned(self) -> Self {
        RenderContext { src: self.dst, dst: self.src, ..self }
    }

    /// The state after a step.
    pub open spec fn after(self, step: Step<C>) -> Self {
        match step {
            Step::Event(WindowEvent::Resized) => self.stale(),
            Step::Event(_) => self,
            Step::Recreated { swapchain_id, image_extent } => self.renewed(
                swapchain_id,
                image_extent,
            ),
            Step::Finished(FrameOutcome::Presented) => self.turned(),
            Step::Finished(FrameOutcome::OutOfDate) => self.stale(),
            Step::Finished(FrameOutcome::Failed) => self,
        }
    }

    /// The state after several steps.
    pub open spec fn after_all(self, steps: Seq<Step<C>>) -> Self
        decreases steps.len(),
    {
        if steps.len() == 0 {
            self
        } else {
            self.after_all(steps.drop_last()).after(steps.last())
        }
    }

    /// What an event asks for.
    pub open spec fn answer(self, event: WindowEvent) -> Action<C, I> {
        match event {
            WindowEvent::CloseRequested => Action::Exit,
            WindowEvent::RedrawRequested(size) => if !size.is_visible() {
                Action::Nothing
            } else if self.recreate_swapchain {
                Action::RecreateSwapchain { swapchain_id: self.swapchain_id, image_extent: size }
            } else {
                Action::DrawFrame(self.spec_bindings())
            },
            WindowEvent::Resized | WindowEvent::Other => Action::Nothing,
        }
    }
}

impl<C: Copy, I: Copy, P, S, T> RenderContext<C, I, P, S, T> {
    /// The state before the first frame of a window.
    pub fn new(
        swapchain_id: C,
        window_size: WindowSize,
        virtual_swapchain_id: C,
        virtual_src_image_id: I,
        virtual_dst_image_id: I,
        src: ImageHandles<I, P, S, T>,
        dst: ImageHandles<I, P, S, T>,
    ) -> (context: Self)
        ensures
            context == (RenderContext {
                swapchain_id,
                viewport_extent: window_size,
                recreate_swapchain: false,
                virtual_swapchain_id,
                virtual_src_image_id,
                virtual_dst_image_id,
                src,
                dst,
            }),
    {
        RenderContext {
            swapchain_id,
            viewport_extent: window_size,
            recreate_swapchain: false,
            virtual_swapchain_id,
            virtual_src_image_id,
            virtual_dst_image_id,
            src,
            dst,
        }
    }

    /// The identifier of an image of the relay in the task graph; the image that is presented is
    /// none of them.
    pub fn virtual_image_id(&self, image: VirtualImage) -> (id: Option<I>)
        ensures
            id == (match image {
                VirtualImage::Source => Some(self.virtual_src_image_id),
                VirtualImage::Destination => Some(self.virtual_dst_image_id),
                VirtualImage::Swapchain => None,
            }),
    {
        match image {
            VirtualImage::Source => Some(self.virtual_src_image_id),
            VirtualImage::Destination => Some(self.virtual_dst_image_id),
            VirtualImage::Swapchain => None,
        }
    }

    /// What stands behind the identifiers of the task graph in the next frame.
    pub fn bindings(&self) -> (bindings: FrameBindings<C, I>)
        ensures
            bindings == self.spec_bindings(),
            bindings.swapchain.virtual_id == self.virtual_swapchain_id,
            bindings.swapchain.actual_id == self.swapchain_id,
            bindings.src_image.virtual_id == self.virtual_src_image_id,
            bindings.src_image.actual_id == self.src.image_id,
            bindings.dst_image.virtual_id == self.virtual_dst_image_id,
            bindings.dst_image.actual_id == self.dst.image_id,
    {
        FrameBindings {
            swapchain: Binding {
                virtual_id: self.virtual_swapchain_id,
                actual_id: self.swapchain_id,
            },
            src_image: Binding {
                virtual_id: self.virtual_src_image_id,
                actual_id: self.src.image_id,
            },
            dst_image: Binding {
                virtual_id: self.virtual_dst_image_id,
                actual_id: self.dst.image_id,
            },
        }
    }
}

/// The program as its event loop sees it.
pub struct App<C, I, P, S, T> {
    /// There is nothing to render with until the program has resumed.
    pub rcx: Option<RenderContext<C, I, P, S, T>>,
}

impl<C: Copy, I: Copy, P, S, T> App<C, I, P, S, T> {
    /// A program that has not resumed yet.
    pub fn new() -> (app: Self)
        ensures
            app.rcx is None,
    {
        App { rcx: None }
    }

    /// The program has resumed, with a window and all that is rendered with.
    pub fn resumed(&mut self, context: RenderContext<C, I, P, S, T>)
        ensures
            final(self).rcx == Some(context),
    {
        self.rcx = Some(context);
    }

    /// Takes an event of the window and says what is to be done.
    pub fn window_event(&mut self, event: WindowEvent) -> (action: Action<C, I>)
        requires
            old(self).rcx is Some,
        ensures
            action == old(self).rcx->0.answer(event),
            final(self).rcx == Some(old(self).rcx->0.after(Step::Event(event))),
    {
        match &mut self.rcx {
            Some(context) => match event {
                WindowEvent::CloseRequested => Action::Exit,
                WindowEvent::Resized => {
                    context.recreate_swapchain = true;
                    Action::Nothing
                },
                WindowEvent::RedrawRequested(size) => {
                    if !size.is_visible() {
                        return Action::Nothing;
                    }
                    if context.recreate_swapchain {
                        return Action::RecreateSwapchain {
                            swapchain_id: context.swapchain_id,
                            image_extent: size,
                        };
                    }
                    Action::DrawFrame(context.bindings())
                },
                WindowEvent::Other => Action::Nothing,
            },
            None => Action::Nothing,
        }
    }

    /// Takes the swapchain that was created anew, and says what the frame is drawn with.
    pub fn swapchain_recreated(
        &mut self,
        swapchain_id: C,
        image_extent: WindowSize,
    ) -> (action: Action<C, I>)
        requires
            old(self).rcx is Some,
        ensures
            final(self).rcx == Some(
                old(self).rcx->0.after(Step::Recreated { swapchain_id, image_extent }),
            ),
            action == Action::<C, I>::DrawFrame(final(self).rcx->0.spec_bindings()),
            action matches Action::DrawFrame(bindings) && bindings.swapchain.actual_id
                == swapchain_id && bindings.swapchain.virtual_id
                == old(self).rcx->0.virtual_swapchain_id,
            final(self).rcx->0.viewport_extent == image_extent,
    {
        match &mut self.rcx {
            Some(context) => {
                context.swapchain_id = swapchain_id;
                context.viewport_extent = image_extent;
                context.recreate_swapchain = false;
                Action::DrawFrame(context.bindings())
            },
            None => Action::Nothing,
        }
    }

    /// Takes the outcome of a frame, and says whether to go on.
    pub fn frame_finished(&mut self, outcome: FrameOutcome) -> (action: Action<C, I>)
        requires
            old(self).rcx is Some,
        ensures
            final(self).rcx == Some(old(self).rcx->0.after(Step::Finished(outcome))),
            action == (if outcome is Failed {
                Action::<C, I>::Abort
            } else {
                Action::<C, I>::Nothing
            }),
    {
        match &mut self.rcx {
            Some(context) => match outcome {
                FrameOutcome::Presented => {
                    core::mem::swap(&mut context.src, &mut context.dst);
                    Action::Nothing
                },
                FrameOutcome::OutOfDate => {
                    context.recreate_swapchain = true;
                    Action::Nothing
                },
                FrameOutcome::Failed => Action::Abort,
            },
            None => Action::Nothing,
        }
    }

    /// All events are dealt with: a redraw is asked for.
    pub fn about_to_wait(&self) -> (action: Action<C, I>)
        requires
            self.rcx is Some,
        ensures
            action == Action::<C, I>::RequestRedraw,
    {
        Action::RequestRedraw
    }
}

} // verus!
