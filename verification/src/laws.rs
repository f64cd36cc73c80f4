//! What holds of the relay over any number of events and frames.
use vstd::prelude::*;

use crate::compute;
use crate::compute::UploadCommand;
use crate::graphics;
use crate::graphics::GraphicsCommand;
use crate::render::{Action, FrameOutcome, RenderContext, Step, WindowEvent};
use crate::swapchain::WindowSize;

verus! {

/// The number of frames that were presented.
pub open spec fn presented<C>(steps: Seq<Step<C>>) -> nat
    decreases steps.len(),
{
    if steps.len() == 0 {
        0
    } else if steps.last() == Step::<C>::Finished(FrameOutcome::Presented) {
        presented(steps.drop_last()) + 1
    } else {
        presented(steps.drop_last())
    }
}

/// The step makes it necessary to create the swapchain anew.
pub open spec fn outdates<C>(step: Step<C>) -> bool {
    ||| step == Step::<C>::Event(WindowEvent::Resized)
    ||| step == Step::<C>::Finished(FrameOutcome::OutOfDate)
}

/// The views of each image are views of that image, where the two functions say which image a
/// storage view and a sampled view belong to.
pub open spec fn coherent<C, I, P, S, T>(
    context: RenderContext<C, I, P, S, T>,
    stored_image: spec_fn(S) -> I,
    sampled_image: spec_fn(T) -> I,
) -> bool {
    &&& stored_image(context.src.storage_image_id) == context.src.image_id
    &&& sampled_image(context.src.sampled_image_id) == context.src.image_id
    &&& stored_image(context.dst.storage_image_id) == context.dst.image_id
    &&& sampled_image(context.dst.sampled_image_id) == context.dst.image_id
}

/// The images change roles with every frame that is presented, and at no other time: after an even
/// number of such frames each has its first role again, after an odd number the other one.
pub proof fn lemma_roles_alternate<C, I, P, S, T>(
    context: RenderContext<C, I, P, S, T>,
    steps: Seq<Step<C>>,
)
    ensures
        presented(steps) % 2 == 0 ==> context.after_all(steps).src == context.src
            && context.after_all(steps).dst == context.dst,
        presented(steps) % 2 == 1 ==> context.after_all(steps).src == context.dst
            && context.after_all(steps).dst == context.src,
    decreases steps.len(),
{
    if steps.len() > 0 {
        lemma_roles_alternate(context, steps.drop_last());
    }
}

/// The identifiers of the task graph stay what they are.
pub proof fn lemma_graph_identifiers_stay<C, I, P, S, T>(
    context: RenderContext<C, I, P, S, T>,
    steps: Seq<Step<C>>,
)
    ensures
        context.after_all(steps).virtual_swapchain_id == context.virtual_swapchain_id,
        context.after_all(steps).virtual_src_image_id == context.virtual_src_image_id,
        context.after_all(steps).virtual_dst_image_id == context.virtual_dst_image_id,
    decreases steps.len(),
{
    if steps.len() > 0 {
        lemma_graph_identifiers_stay(context, steps.drop_last());
    }
}

/// Views stay with their images, whatever happens.
pub proof fn lemma_coherence_is_kept<C, I, P, S, T>(
    context: RenderContext<C, I, P, S, T>,
    steps: Seq<Step<C>>,
    stored_image: spec_fn(S) -> I,
    sampled_image: spec_fn(T) -> I,
)
    requires
        coherent(context, stored_image, sampled_image),
    ensures
        coherent(context.after_all(steps), stored_image, sampled_image),
{
    lemma_roles_alternate(context, steps);
}

/// Within a frame, the compute task samples the image that is bound as the source and stores to
/// the image that is bound as the destination, and the triangle task shows the latter.
pub proof fn lemma_tasks_use_the_bound_images<C, I, P, S, T>(
    context: RenderContext<C, I, P, S, T>,
    stored_image: spec_fn(S) -> I,
    sampled_image: spec_fn(T) -> I,
)
    requires
        coherent(context, stored_image, sampled_image),
    ensures
        sampled_image(compute::compute_constants(context).src_image)
            == context.spec_bindings().src_image.actual_id,
        stored_image(compute::compute_constants(context).dst_image)
            == context.spec_bindings().dst_image.actual_id,
        sampled_image(graphics::fragment_constants(context).dst_image)
            == context.spec_bindings().dst_image.actual_id,
{
}

/// What a presented frame has stored is what the next frame samples, and what it has sampled is
/// what the next frame overwrites, whatever else happens between the two frames.
pub proof fn lemma_next_frame_reads_what_was_written<C, I, P, S, T>(
    context: RenderContext<C, I, P, S, T>,
    steps: Seq<Step<C>>,
    stored_image: spec_fn(S) -> I,
    sampled_image: spec_fn(T) -> I,
)
    requires
        coherent(context, stored_image, sampled_image),
        presented(steps) == 1,
    ensures
        sampled_image(compute::compute_constants(context.after_all(steps)).src_image)
            == stored_image(compute::compute_constants(context).dst_image),
        stored_image(compute::compute_constants(context.after_all(steps)).dst_image)
            == sampled_image(compute::compute_constants(context).src_image),
{
    lemma_roles_alternate(context, steps);
}

/// Until a frame is presented, every frame samples the image that the first texels were uploaded to:
/// it is bound as the source, and the compute task samples it.
pub proof fn lemma_first_frame_reads_the_upload<C, I, P, S, T>(
    context: RenderContext<C, I, P, S, T>,
    steps: Seq<Step<C>>,
    stored_image: spec_fn(S) -> I,
    sampled_image: spec_fn(T) -> I,
)
    requires
        coherent(context, stored_image, sampled_image),
        presented(steps) == 0,
    ensures
        ({
            let later = context.after_all(steps);
            let upload = compute::upload_sequence(context.src.image_id);
            &&& upload.last() matches UploadCommand::CopyFromBuffer { image, .. }
                && later.spec_bindings().src_image.actual_id == image
                && sampled_image(compute::compute_constants(later).src_image) == image
            &&& later.spec_bindings().src_image.virtual_id == context.virtual_src_image_id
        }),
{
    lemma_roles_alternate(context, steps);
    lemma_graph_identifiers_stay(context, steps);
}

/// A frame that was not presented is repeated on the same images.
pub proof fn lemma_unpresented_frames_are_repeated<C, I, P, S, T>(
    context: RenderContext<C, I, P, S, T>,
    steps: Seq<Step<C>>,
)
    requires
        presented(steps) == 0,
    ensures
        compute::compute_constants(context.after_all(steps))
            == compute::compute_constants(context),
        graphics::fragment_constants(context.after_all(steps))
            == graphics::fragment_constants(context),
        context.after_all(steps).spec_bindings().src_image == context.spec_bindings().src_image,
        context.after_all(steps).spec_bindings().dst_image == context.spec_bindings().dst_image,
{
    lemma_roles_alternate(context, steps);
    lemma_graph_identifiers_stay(context, steps);
}

/// No frame samples the image that it stores to, if the two images differ at first.
pub proof fn lemma_frames_never_read_what_they_write<C, I, P, S, T>(
    context: RenderContext<C, I, P, S, T>,
    steps: Seq<Step<C>>,
    stored_image: spec_fn(S) -> I,
    sampled_image: spec_fn(T) -> I,
)
    requires
        coherent(context, stored_image, sampled_image),
        context.src.image_id != context.dst.image_id,
    ensures
        sampled_image(compute::compute_constants(context.after_all(steps)).src_image)
            != stored_image(compute::compute_constants(context.after_all(steps)).dst_image),
{
    lemma_roles_alternate(context, steps);
}

/// Once the window was resized or the swapchain was found out of date, a redraw of a visible window
/// asks for a new swapchain of the size of the window, until there is one.
pub proof fn lemma_outdated_swapchains_are_recreated<C, I, P, S, T>(
    context: RenderContext<C, I, P, S, T>,
    steps: Seq<Step<C>>,
    outdated: int,
    size: WindowSize,
)
    requires
        0 <= outdated < steps.len(),
        outdates(steps[outdated]),
        forall|later: int|
            outdated < later < steps.len() ==> !((#[trigger] steps[later]) is Recreated),
        size.is_visible(),
    ensures
        context.after_all(steps).answer(WindowEvent::RedrawRequested(size)) == (
        Action::<C, I>::RecreateSwapchain {
            swapchain_id: context.after_all(steps).swapchain_id,
            image_extent: size,
        }),
    decreases steps.len(),
{
    if outdated < steps.len() - 1 {
        let earlier = steps.drop_last();
        assert(earlier[outdated] == steps[outdated]);
        assert forall|later: int| outdated < later < earlier.len() implies !((
        #[trigger] earlier[later]) is Recreated) by {
            assert(earlier[later] == steps[later]);
        }
        lemma_outdated_swapchains_are_recreated(context, earlier, outdated, size);
        assert(!(steps[steps.len() - 1] is Recreated));
    }
}

/// Once a swapchain was created anew, and until the window is resized or the swapchain is found out
/// of date, a redraw of a visible window draws a frame to that swapchain, in the size that it was
/// created with.
pub proof fn lemma_frames_fit_the_swapchain<C, I, P, S, T>(
    context: RenderContext<C, I, P, S, T>,
    steps: Seq<Step<C>>,
    recreated: int,
    size: WindowSize,
)
    requires
        0 <= recreated < steps.len(),
        steps[recreated] is Recreated,
        forall|later: int|
            recreated < later < steps.len() ==> !((#[trigger] steps[later]) is Recreated)
                && !outdates(steps[later]),
        size.is_visible(),
    ensures
        context.after_all(steps).answer(WindowEvent::RedrawRequested(size))
            == Action::<C, I>::DrawFrame(context.after_all(steps).spec_bindings()),
        context.after_all(steps).swapchain_id == steps[recreated]->swapchain_id,
        context.after_all(steps).viewport_extent == steps[recreated]->image_extent,
    decreases steps.len(),
{
    if recreated < steps.len() - 1 {
        let earlier = steps.drop_last();
        assert(earlier[recreated] == steps[recreated]);
        assert forall|later: int| recreated < later < earlier.len() implies !((
        #[trigger] earlier[later]) is Recreated) && !outdates(earlier[later]) by {
            assert(earlier[later] == steps[later]);
        }
        lemma_frames_fit_the_swapchain(context, earlier, recreated, size);
        assert(!(steps[steps.len() - 1] is Recreated));
        assert(!outdates(steps[steps.len() - 1]));
    }
}

/// A window that shows nothing is left alone: a redraw of it asks for nothing and changes nothing.
pub proof fn lemma_hidden_windows_are_left_alone<C, I, P, S, T>(
    context: RenderContext<C, I, P, S, T>,
    size: WindowSize,
)
    requires
        !size.is_visible(),
    ensures
        context.answer(WindowEvent::RedrawRequested(size)) == Action::<C, I>::Nothing,
        context.after(Step::Event(WindowEvent::RedrawRequested(size))) == context,
{
}

/// In every frame the swapchain stands behind the identifier of the swapchain in the task graph, the
/// image to read behind that of the source, and the image to write behind that of the destination.
pub proof fn lemma_bindings_put_everything_in_its_place<C, I, P, S, T>(
    context: RenderContext<C, I, P, S, T>,
)
    ensures
        context.spec_bindings().swapchain.virtual_id == context.virtual_swapchain_id,
        context.spec_bindings().swapchain.actual_id == context.swapchain_id,
        context.spec_bindings().src_image.virtual_id == context.virtual_src_image_id,
        context.spec_bindings().src_image.actual_id == context.src.image_id,
        context.spec_bindings().dst_image.virtual_id == context.virtual_dst_image_id,
        context.spec_bindings().dst_image.actual_id == context.dst.image_id,
{
}

/// A presented frame exchanges what stands behind the source and the destination, and nothing else
/// of the bindings.
pub proof fn lemma_presenting_exchanges_the_bound_images<C, I, P, S, T>(
    context: RenderContext<C, I, P, S, T>,
)
    ensures
        ({
            let before = context.spec_bindings();
            let after = context.after(Step::Finished(FrameOutcome::Presented)).spec_bindings();
            &&& after.src_image.actual_id == before.dst_image.actual_id
            &&& after.dst_image.actual_id == before.src_image.actual_id
            &&& after.src_image.virtual_id == before.src_image.virtual_id
            &&& after.dst_image.virtual_id == before.dst_image.virtual_id
            &&& after.swapchain == before.swapchain
        }),
{
}

/// An event changes nothing of the state but whether the swapchain has to be created anew, and that
/// only where the window was resized: from then on it has to be.
pub proof fn lemma_events_change_nothing_but_the_flag<C, I, P, S, T>(
    context: RenderContext<C, I, P, S, T>,
    event: WindowEvent,
)
    ensures
        ({
            let after = context.after(Step::Event(event));
            &&& after.recreate_swapchain <==> context.recreate_swapchain || event is Resized
            &&& after.swapchain_id == context.swapchain_id
            &&& after.viewport_extent == context.viewport_extent
            &&& after.virtual_swapchain_id == context.virtual_swapchain_id
            &&& after.virtual_src_image_id == context.virtual_src_image_id
            &&& after.virtual_dst_image_id == context.virtual_dst_image_id
            &&& after.src == context.src
            &&& after.dst == context.dst
        }),
{
}

/// The end of a frame changes the state in one respect at most: a presented frame exchanges the
/// images, a swapchain that is out of date has to be created anew, and any other failure changes
/// nothing.
pub proof fn lemma_frames_change_one_thing_at_most<C, I, P, S, T>(
    context: RenderContext<C, I, P, S, T>,
    outcome: FrameOutcome,
)
    ensures
        ({
            let after = context.after(Step::Finished(outcome));
            &&& outcome is Presented ==> after.src == context.dst && after.dst == context.src
            &&& !(outcome is Presented) ==> after.src == context.src && after.dst == context.dst
            &&& after.recreate_swapchain <==> context.recreate_swapchain || outcome is OutOfDate
            &&& after.swapchain_id == context.swapchain_id
            &&& after.viewport_extent == context.viewport_extent
            &&& after.virtual_swapchain_id == context.virtual_swapchain_id
            &&& after.virtual_src_image_id == context.virtual_src_image_id
            &&& after.virtual_dst_image_id == context.virtual_dst_image_id
        }),
{
}

/// A new swapchain takes the place of the old one, in the size that it was created with, and need
/// not be created anew; the images and the identifiers of the task graph stay.
pub proof fn lemma_new_swapchains_replace_the_old<C, I, P, S, T>(
    context: RenderContext<C, I, P, S, T>,
    swapchain_id: C,
    image_extent: WindowSize,
)
    ensures
        ({
            let after = context.after(Step::Recreated { swapchain_id, image_extent });
            &&& after.swapchain_id == swapchain_id
            &&& after.viewport_extent == image_extent
            &&& !after.recreate_swapchain
            &&& after.virtual_swapchain_id == context.virtual_swapchain_id
            &&& after.virtual_src_image_id == context.virtual_src_image_id
            &&& after.virtual_dst_image_id == context.virtual_dst_image_id
            &&& after.src == context.src
            &&& after.dst == context.dst
        }),
{
}

/// Steps are taken one after another: without steps nothing changes, and several steps have the
/// effect of some of them followed by that of the rest.
pub proof fn lemma_steps_follow_one_another<C, I, P, S, T>(
    context: RenderContext<C, I, P, S, T>,
    steps: Seq<Step<C>>,
    later: Seq<Step<C>>,
    step: Step<C>,
)
    ensures
        context.after_all(Seq::empty()) == context,
        context.after_all(seq![step]) == context.after(step),
        context.after_all(steps + later) == context.after_all(steps).after_all(later),
    decreases later.len(),
{
    assert(seq![step].drop_last() =~= Seq::<Step<C>>::empty());
    reveal_with_fuel(RenderContext::after_all, 2);
    if later.len() == 0 {
        assert(steps + later =~= steps);
    } else {
        lemma_steps_follow_one_another(context, steps, later.drop_last(), step);
        assert((steps + later).drop_last() =~= steps + later.drop_last());
        assert((steps + later).last() == later.last());
    }
}

/// The program leaves the event loop when the window is to be closed, and at no other event.
pub proof fn lemma_closing_alone_ends_the_program<C, I, P, S, T>(
    context: RenderContext<C, I, P, S, T>,
    event: WindowEvent,
)
    ensures
        context.answer(event) is Exit <==> event is CloseRequested,
        !(context.answer(event) is Abort),
        !(context.answer(event) is RequestRedraw),
{
}

/// Nothing but the redraw of a window with an area leads to a frame or to a new swapchain; such a
/// redraw leads to exactly one of the two, by whether the swapchain has to be created anew.
pub proof fn lemma_redraws_of_visible_windows_lead_to_frames<C, I, P, S, T>(
    context: RenderContext<C, I, P, S, T>,
    event: WindowEvent,
)
    ensures
        context.answer(event) is DrawFrame <==> {
            &&& event matches WindowEvent::RedrawRequested(size) && size.width * size.height > 0
            &&& !context.recreate_swapchain
        },
        context.answer(event) is RecreateSwapchain <==> {
            &&& event matches WindowEvent::RedrawRequested(size) && size.width * size.height > 0
            &&& context.recreate_swapchain
        },
{
    if let WindowEvent::RedrawRequested(size) = event {
        crate::swapchain::lemma_visible_windows_have_an_area(size);
    }
}

/// A new swapchain is asked for in place of the present one, and in the size that the window has now.
pub proof fn lemma_new_swapchains_fit_the_window<C, I, P, S, T>(
    context: RenderContext<C, I, P, S, T>,
    event: WindowEvent,
)
    ensures
        context.answer(event) matches Action::RecreateSwapchain { swapchain_id, image_extent } ==> {
            &&& swapchain_id == context.swapchain_id
            &&& event matches WindowEvent::RedrawRequested(size) && image_extent.width
                == size.width && image_extent.height == size.height
        },
{
}

/// The swapchain and the size of frames are those of the latest swapchain that was created, whatever
/// has happened since.
pub proof fn lemma_latest_swapchain_is_kept<C, I, P, S, T>(
    context: RenderContext<C, I, P, S, T>,
    steps: Seq<Step<C>>,
    recreated: int,
)
    requires
        0 <= recreated < steps.len(),
        steps[recreated] is Recreated,
        forall|later: int|
            recreated < later < steps.len() ==> !((#[trigger] steps[later]) is Recreated),
    ensures
        context.after_all(steps).swapchain_id == steps[recreated]->swapchain_id,
        context.after_all(steps).viewport_extent == steps[recreated]->image_extent,
    decreases steps.len(),
{
    if recreated < steps.len() - 1 {
        let earlier = steps.drop_last();
        assert(earlier[recreated] == steps[recreated]);
        assert forall|later: int| recreated < later < earlier.len() implies !((
        #[trigger] earlier[later]) is Recreated) by {
            assert(earlier[later] == steps[later]);
        }
        lemma_latest_swapchain_is_kept(context, earlier, recreated);
        assert(!(steps[steps.len() - 1] is Recreated));
    }
}

/// Until a swapchain is created anew, the first one and its size are kept.
pub proof fn lemma_first_swapchain_is_kept<C, I, P, S, T>(
    context: RenderContext<C, I, P, S, T>,
    steps: Seq<Step<C>>,
)
    requires
        forall|step: int| 0 <= step < steps.len() ==> !((#[trigger] steps[step]) is Recreated),
    ensures
        context.after_all(steps).swapchain_id == context.swapchain_id,
        context.after_all(steps).viewport_extent == context.viewport_extent,
    decreases steps.len(),
{
    if steps.len() > 0 {
        let earlier = steps.drop_last();
        assert forall|step: int| 0 <= step < earlier.len() implies !((
        #[trigger] earlier[step]) is Recreated) by {
            assert(earlier[step] == steps[step]);
        }
        lemma_first_swapchain_is_kept(context, earlier);
        assert(!(steps[steps.len() - 1] is Recreated));
    }
}

/// Once a swapchain was created anew, and until it is outdated or replaced, a redraw of a visible
/// window asks for a frame that has this swapchain behind the identifier that the task graph had for
/// the first one.
pub proof fn lemma_frames_go_to_the_latest_swapchain<C, I, P, S, T>(
    context: RenderContext<C, I, P, S, T>,
    steps: Seq<Step<C>>,
    recreated: int,
    size: WindowSize,
)
    requires
        0 <= recreated < steps.len(),
        steps[recreated] is Recreated,
        forall|later: int|
            recreated < later < steps.len() ==> !((#[trigger] steps[later]) is Recreated)
                && !outdates(steps[later]),
        size.width > 0,
        size.height > 0,
    ensures
        context.after_all(steps).answer(
            WindowEvent::RedrawRequested(size),
        ) matches Action::DrawFrame(bindings) && {
            &&& bindings.swapchain.actual_id == steps[recreated]->swapchain_id
            &&& bindings.swapchain.virtual_id == context.virtual_swapchain_id
        },
{
    lemma_frames_fit_the_swapchain(context, steps, recreated, size);
    lemma_graph_identifiers_stay(context, steps);
}

/// As long as the first swapchain is neither outdated nor replaced, a redraw of a visible window asks
/// for a frame that is drawn to it.
pub proof fn lemma_first_frames_go_to_the_first_swapchain<C, I, P, S, T>(
    context: RenderContext<C, I, P, S, T>,
    steps: Seq<Step<C>>,
    size: WindowSize,
)
    requires
        !context.recreate_swapchain,
        forall|step: int|
            0 <= step < steps.len() ==> !((#[trigger] steps[step]) is Recreated)
                && !outdates(steps[step]),
        size.width > 0,
        size.height > 0,
    ensures
        !context.after_all(steps).recreate_swapchain,
        context.after_all(steps).answer(
            WindowEvent::RedrawRequested(size),
        ) matches Action::DrawFrame(bindings) && {
            &&& bindings.swapchain.actual_id == context.swapchain_id
            &&& bindings.swapchain.virtual_id == context.virtual_swapchain_id
        },
    decreases steps.len(),
{
    if steps.len() > 0 {
        let earlier = steps.drop_last();
        assert forall|step: int| 0 <= step < earlier.len() implies !((
        #[trigger] earlier[step]) is Recreated) && !outdates(earlier[step]) by {
            assert(earlier[step] == steps[step]);
        }
        lemma_first_frames_go_to_the_first_swapchain(context, earlier, size);
        assert(!(steps[steps.len() - 1] is Recreated));
        assert(!outdates(steps[steps.len() - 1]));
    }
    lemma_first_swapchain_is_kept(context, steps);
    lemma_graph_identifiers_stay(context, steps);
}

/// Once a swapchain was created anew in some size, and until the next one is, every frame sets the
/// viewport to that size, and draws every pixel of an image of that size.
pub proof fn lemma_frames_fill_the_latest_swapchain<'a, L, B, C, I, P, S, T>(
    pipeline: &'a L,
    vertex_buffer_id: B,
    context: RenderContext<C, I, P, S, T>,
    steps: Seq<Step<C>>,
    recreated: int,
    column: int,
    row: int,
)
    requires
        0 <= recreated < steps.len(),
        steps[recreated] is Recreated,
        forall|later: int|
            recreated < later < steps.len() ==> !((#[trigger] steps[later]) is Recreated),
        0 <= column < steps[recreated]->image_extent.width,
        0 <= row < steps[recreated]->image_extent.height,
    ensures
        graphics::graphics_sequence(
            pipeline,
            vertex_buffer_id,
            context.after_all(steps),
        )[0] matches GraphicsCommand::SetViewport { number, extent } && ({
            let x = (2 * column + 1 - extent.width) * extent.height;
            let y = (2 * row + 1 - extent.height) * extent.width;
            let scale = extent.width * extent.height;
            &&& number == 0
            &&& extent == steps[recreated]->image_extent
            &&& graphics::in_triangle(0, x, y, scale) || graphics::in_triangle(1, x, y, scale)
        }),
{
    lemma_latest_swapchain_is_kept(context, steps, recreated);
    graphics::lemma_every_pixel_is_drawn(
        pipeline,
        vertex_buffer_id,
        context.after_all(steps),
        column,
        row,
    );
}

} // verus!
