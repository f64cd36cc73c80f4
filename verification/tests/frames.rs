use texel_relay::buffer::{BufferSpec, BufferUsage, MemoryPreference};
use texel_relay::compute::{ComputeCommand, ComputeTask, UploadCommand};
use texel_relay::graph::VirtualImage;
use texel_relay::graphics::{
    pipeline_plan, quad, vertex_buffer, ClearColor, Corner, GraphicsCommand, PrimitiveTopology,
    TriangleTask,
};
use texel_relay::image::{Format, ImageUsage};
use texel_relay::render::{
    Action, App, FrameOutcome, ImageHandles, RenderContext, WindowEvent,
};
use texel_relay::swapchain::{
    plan_swapchain, SurfaceReport, WindowSize, MAX_FRAMES_IN_FLIGHT, MIN_SWAPCHAIN_IMAGES,
};

type TestContext = RenderContext<u32, u32, u32, u32, u32>;
type TestApp = App<u32, u32, u32, u32, u32>;

const WINDOW: WindowSize = WindowSize { width: 800, height: 600 };

fn context() -> TestContext {
    RenderContext::new(
        1,
        WINDOW,
        101,
        102,
        103,
        ImageHandles { image_id: 10, sampler_id: 11, storage_image_id: 12, sampled_image_id: 13 },
        ImageHandles { image_id: 20, sampler_id: 21, storage_image_id: 22, sampled_image_id: 23 },
    )
}

fn running() -> TestApp {
    let mut app = App::new();
    app.resumed(context());
    app
}

fn rcx(app: &TestApp) -> &TestContext {
    app.rcx.as_ref().unwrap()
}

#[test]
fn nothing_to_render_with_before_resuming() {
    let app: TestApp = App::new();
    assert!(app.rcx.is_none());
}

#[test]
fn resuming_starts_with_a_fresh_swapchain() {
    let app = running();
    assert!(!rcx(&app).recreate_swapchain);
    assert_eq!(rcx(&app).viewport_extent, WINDOW);
    assert_eq!(rcx(&app).swapchain_id, 1);
}

#[test]
fn closing_leaves_the_loop() {
    let mut app = running();
    assert!(matches!(app.window_event(WindowEvent::CloseRequested), Action::Exit));
}

#[test]
fn other_events_are_ignored() {
    let mut app = running();
    assert!(matches!(app.window_event(WindowEvent::Other), Action::Nothing));
    assert!(!rcx(&app).recreate_swapchain);
}

#[test]
fn waiting_asks_for_a_redraw() {
    assert!(matches!(running().about_to_wait(), Action::RequestRedraw));
}

#[test]
fn redraw_binds_source_and_destination() {
    let mut app = running();
    match app.window_event(WindowEvent::RedrawRequested(WINDOW)) {
        Action::DrawFrame(bindings) => {
            assert_eq!(bindings.swapchain.virtual_id, 101);
            assert_eq!(bindings.swapchain.actual_id, 1);
            assert_eq!(bindings.src_image.virtual_id, 102);
            assert_eq!(bindings.src_image.actual_id, 10);
            assert_eq!(bindings.dst_image.virtual_id, 103);
            assert_eq!(bindings.dst_image.actual_id, 20);
        }
        _ => panic!("a frame was to be drawn"),
    }
}

#[test]
fn hidden_windows_are_left_alone() {
    let mut app = running();
    app.window_event(WindowEvent::Resized);
    for size in [
        WindowSize { width: 0, height: 5 },
        WindowSize { width: 5, height: 0 },
        WindowSize { width: 0, height: 0 },
    ] {
        assert!(!size.is_visible());
        assert!(matches!(
            app.window_event(WindowEvent::RedrawRequested(size)),
            Action::Nothing
        ));
        assert!(rcx(&app).recreate_swapchain);
    }
}

#[test]
fn resizing_recreates_the_swapchain_once() {
    let mut app = running();
    assert!(matches!(app.window_event(WindowEvent::Resized), Action::Nothing));
    let size = WindowSize { width: 300, height: 200 };
    match app.window_event(WindowEvent::RedrawRequested(size)) {
        Action::RecreateSwapchain { swapchain_id, image_extent } => {
            assert_eq!(swapchain_id, 1);
            assert_eq!(image_extent, size);
        }
        _ => panic!("a new swapchain was to be asked for"),
    }
    match app.swapchain_recreated(2, size) {
        Action::DrawFrame(bindings) => assert_eq!(bindings.swapchain.actual_id, 2),
        _ => panic!("a frame was to be drawn"),
    }
    assert_eq!(rcx(&app).viewport_extent, size);
    assert!(matches!(app.frame_finished(FrameOutcome::Presented), Action::Nothing));
    assert!(matches!(
        app.window_event(WindowEvent::RedrawRequested(size)),
        Action::DrawFrame(_)
    ));
}

#[test]
fn presented_frames_swap_all_handles() {
    let mut app = running();
    app.frame_finished(FrameOutcome::Presented);
    let after = rcx(&app);
    assert_eq!((after.src.image_id, after.dst.image_id), (20, 10));
    assert_eq!((after.src.sampler_id, after.dst.sampler_id), (21, 11));
    assert_eq!((after.src.storage_image_id, after.dst.storage_image_id), (22, 12));
    assert_eq!((after.src.sampled_image_id, after.dst.sampled_image_id), (23, 13));
    assert_eq!(after.virtual_src_image_id, 102);
    assert_eq!(after.virtual_dst_image_id, 103);
}

#[test]
fn two_presented_frames_restore_the_roles() {
    let mut app = running();
    app.frame_finished(FrameOutcome::Presented);
    app.window_event(WindowEvent::Resized);
    app.frame_finished(FrameOutcome::Presented);
    assert_eq!(rcx(&app).src.image_id, 10);
    assert_eq!(rcx(&app).dst.image_id, 20);
}

#[test]
fn out_of_date_frames_are_repeated_on_a_new_swapchain() {
    let mut app = running();
    assert!(matches!(app.frame_finished(FrameOutcome::OutOfDate), Action::Nothing));
    assert_eq!(rcx(&app).src.image_id, 10);
    assert!(matches!(
        app.window_event(WindowEvent::RedrawRequested(WINDOW)),
        Action::RecreateSwapchain { swapchain_id: 1, image_extent: WINDOW }
    ));
}

#[test]
fn failed_frames_abort() {
    let mut app = running();
    assert!(matches!(app.frame_finished(FrameOutcome::Failed), Action::Abort));
    assert_eq!(rcx(&app).src.image_id, 10);
    assert!(!rcx(&app).recreate_swapchain);
}

#[test]
fn compute_task_reads_source_and_writes_destination() {
    let task = ComputeTask::new("pipeline");
    assert_eq!(task.pipeline, "pipeline");
    let commands = task.execute(&context());
    assert_eq!(commands.len(), 3);
    assert!(matches!(commands[0], ComputeCommand::BindPipeline(&"pipeline")));
    match &commands[1] {
        ComputeCommand::PushConstants { pipeline, offset, constants } => {
            assert_eq!(**pipeline, "pipeline");
            assert_eq!(*offset, 0);
            assert_eq!(constants.sampler_id, 11);
            assert_eq!(constants.src_image, 13);
            assert_eq!(constants.dst_image, 22);
        }
        _ => panic!("constants were to be pushed"),
    }
    assert!(matches!(commands[2], ComputeCommand::Dispatch { x: 128, y: 128, z: 1 }));
}

#[test]
fn next_frame_reads_what_was_written() {
    let mut app = running();
    let task = ComputeTask::new(());
    app.frame_finished(FrameOutcome::Presented);
    match &task.execute(rcx(&app))[1] {
        ComputeCommand::PushConstants { constants, .. } => {
            assert_eq!(constants.sampler_id, 21);
            assert_eq!(constants.src_image, 23);
            assert_eq!(constants.dst_image, 12);
        }
        _ => panic!("constants were to be pushed"),
    }
}

#[test]
fn triangle_task_shows_the_destination() {
    let mut task = TriangleTask::new(5u32, 101u32);
    assert!(task.pipeline.is_none());
    task.create_pipeline("pipeline");
    assert_eq!(task.pipeline, Some("pipeline"));
    assert_eq!(task.vertex_buffer_id, 5);
    assert_eq!(task.swapchain_id, 101);

    let commands = task.execute(&context());
    assert_eq!(commands.len(), 5);
    assert!(matches!(
        commands[0],
        GraphicsCommand::SetViewport { number: 0, extent: WINDOW }
    ));
    assert!(matches!(commands[1], GraphicsCommand::BindPipeline(&"pipeline")));
    assert!(matches!(
        commands[2],
        GraphicsCommand::BindVertexBuffer { binding: 0, buffer: 5, buffer_offset: 0 }
    ));
    match &commands[3] {
        GraphicsCommand::PushConstants { pipeline, offset, constants } => {
            assert_eq!(**pipeline, "pipeline");
            assert_eq!(*offset, 0);
            assert_eq!(constants.sampler_id, 21);
            assert_eq!(constants.dst_image, 23);
        }
        _ => panic!("constants were to be pushed"),
    }
    assert!(matches!(
        commands[4],
        GraphicsCommand::Draw {
            vertex_count: 4,
            instance_count: 1,
            first_vertex: 0,
            first_instance: 0,
        }
    ));
}

#[test]
fn first_frame_reads_the_upload() {
    let mut app = running();
    let upload = rcx(&app).first_upload();
    assert_eq!(upload.pixels.len(), 1024 * 1024);
    let bindings = match app.window_event(WindowEvent::RedrawRequested(WINDOW)) {
        Action::DrawFrame(bindings) => bindings,
        _ => panic!("a frame was to be drawn"),
    };
    for command in &upload.commands {
        match command {
            UploadCommand::Transition { image, .. }
            | UploadCommand::CopyFromBuffer { image, .. } => {
                assert_eq!(*image, bindings.src_image.actual_id);
            }
        }
    }
}

#[test]
fn triangle_task_draws_to_the_swapchain_of_the_graph() {
    let task: TriangleTask<(), u32, u32> = TriangleTask::for_context(5, &context());
    assert!(task.pipeline.is_none());
    assert_eq!(task.vertex_buffer_id, 5);
    assert_eq!(task.swapchain_id, 101);
}

#[test]
fn graph_images_have_their_identifiers() {
    let context = context();
    assert_eq!(context.virtual_image_id(VirtualImage::Source), Some(102));
    assert_eq!(context.virtual_image_id(VirtualImage::Destination), Some(103));
    assert_eq!(context.virtual_image_id(VirtualImage::Swapchain), None);
}

#[test]
fn clear_color_is_dark_blue() {
    let task: TriangleTask<(), u32, u32> = TriangleTask::new(5, 101);
    let clear = task.clear_values();
    assert_eq!(clear.swapchain_id, 101);
    assert_eq!(clear.color, ClearColor { red: 2, green: 6, blue: 24, alpha: 255 });
}

#[test]
fn quad_is_a_fan_over_the_picture() {
    assert_eq!(
        quad(),
        vec![
            Corner { x: -1, y: -1 },
            Corner { x: -1, y: 1 },
            Corner { x: 1, y: 1 },
            Corner { x: 1, y: -1 },
        ]
    );
    let plan = pipeline_plan();
    assert_eq!(plan.topology, PrimitiveTopology::TriangleFan);
    assert!(plan.dynamic_viewport);
    assert_eq!(plan.color_attachments, 1);
    assert_eq!(plan.position_format, Format::R32G32Sfloat);
}

#[test]
fn vertex_buffer_holds_the_corners() {
    assert_eq!(
        vertex_buffer(),
        BufferSpec {
            usage: BufferUsage::VertexBuffer,
            memory: MemoryPreference::Device,
            host_sequential_write: true,
            size: 4 * 2 * 4,
        }
    );
}

#[test]
fn swapchain_takes_the_first_format_and_opacity() {
    let report = SurfaceReport {
        min_image_count: 2,
        formats: vec![("bgra", "srgb"), ("rgba", "srgb")],
        composite_alphas: vec!["opaque", "inherit"],
    };
    let plan = plan_swapchain(&report, WINDOW);
    assert_eq!(plan.min_image_count, 3);
    assert_eq!(plan.image_format, "bgra");
    assert_eq!(plan.stand_in().image_format, "bgra");
    assert_eq!(plan.image_extent, WINDOW);
    assert_eq!(
        plan.image_usage,
        ImageUsage { transfer_dst: false, sampled: false, storage: false, color_attachment: true }
    );
    assert_eq!(plan.composite_alpha, "opaque");
}

#[test]
fn swapchain_has_the_images_that_the_surface_demands() {
    let report = SurfaceReport {
        min_image_count: 5,
        formats: vec![(0u8, 0u8)],
        composite_alphas: vec![1u8],
    };
    assert_eq!(plan_swapchain(&report, WINDOW).min_image_count, 5);
    assert_eq!(MAX_FRAMES_IN_FLIGHT, 2);
    assert_eq!(MIN_SWAPCHAIN_IMAGES, 3);
}
