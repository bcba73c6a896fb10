use rust_renderer::mesh::{AccessorView, ByteRange, IndexView, Mesh};
use rust_renderer::renderer::{
    AcquireOutcome, FrameEvent, FramePhase, FramePlan, RenderCommand, RendererState, SurfaceConfig,
    next_phase,
};

fn sample_mesh() -> Mesh {
    Mesh::from_accessor_views(
        1000,
        Some(IndexView { offset: 0, length: 100, count: 50 }),
        Some(AccessorView { offset: 100, length: 200 }),
        Some(AccessorView { offset: 300, length: 100 }),
        Some(AccessorView { offset: 400, length: 160 }),
        Some(AccessorView { offset: 560, length: 80 }),
    )
    .unwrap()
}

#[test]
fn the_frame_lifecycle_walks_its_states() {
    let mut p = FramePhase::Uninitialized;
    let walk = [
        (FrameEvent::Initialized, FramePhase::Ready),
        (FrameEvent::FrameBegun, FramePhase::Acquiring),
        (FrameEvent::ImageAcquired, FramePhase::Recording),
        (FrameEvent::WorkSubmitted, FramePhase::Submitted),
        (FrameEvent::ImagePresented, FramePhase::Presented),
        (FrameEvent::FrameCompleted, FramePhase::Ready),
        (FrameEvent::ResizeRequested, FramePhase::Resizing),
        (FrameEvent::SurfaceReconfigured, FramePhase::Ready),
    ];
    for (event, expected) in walk {
        p = next_phase(p, event);
        assert_eq!(p, expected);
    }
}

#[test]
fn a_lost_surface_detours_through_resizing() {
    let p = next_phase(FramePhase::Acquiring, FrameEvent::AcquireFailedRecoverable);
    assert_eq!(p, FramePhase::Resizing);
    assert_eq!(next_phase(p, FrameEvent::SurfaceReconfigured), FramePhase::Ready);
    assert_eq!(
        next_phase(FramePhase::Acquiring, FrameEvent::AcquireFailedFatal),
        FramePhase::Fatal
    );
}

#[test]
fn an_event_out_of_place_changes_nothing() {
    assert_eq!(next_phase(FramePhase::Ready, FrameEvent::ImagePresented), FramePhase::Ready);
    assert_eq!(next_phase(FramePhase::Fatal, FrameEvent::FrameBegun), FramePhase::Fatal);
}

#[test]
fn resize_adopts_non_degenerate_sizes_only() {
    let mut s = RendererState::new(640, 480);
    assert_eq!(s.surface_config, SurfaceConfig { width: 640, height: 480 });
    s.resize(800, 600);
    assert_eq!(s.surface_config, SurfaceConfig { width: 800, height: 600 });
    s.resize(0, 600);
    assert_eq!(s.surface_config, SurfaceConfig { width: 800, height: 600 });
    s.resize(800, 0);
    assert_eq!(s.surface_config, SurfaceConfig { width: 800, height: 600 });
}

#[test]
fn an_acquired_frame_records_the_whole_pass() {
    let mesh = sample_mesh();
    let mut s = RendererState::new(640, 480);
    let plan = s.render(AcquireOutcome::Acquired, &mesh, true);
    let cmds = match plan {
        FramePlan::Draw(cmds) => cmds,
        _ => panic!("an acquired frame must draw"),
    };
    let expected = vec![
        RenderCommand::BeginRenderPass {
            clear_r: 100_000,
            clear_g: 800_000,
            clear_b: 700_000,
            clear_a: 1_000_000,
            with_depth: true,
            clear_depth: 1_000_000,
        },
        RenderCommand::SetPipeline,
        RenderCommand::SetBindGroup { slot: 0 },
        RenderCommand::SetBindGroup { slot: 1 },
        RenderCommand::SetVertexBuffer { slot: 0, range: ByteRange { start: 100, end: 300 } },
        RenderCommand::SetVertexBuffer { slot: 1, range: ByteRange { start: 300, end: 400 } },
        RenderCommand::SetVertexBuffer { slot: 2, range: ByteRange { start: 400, end: 560 } },
        RenderCommand::SetVertexBuffer { slot: 3, range: ByteRange { start: 560, end: 640 } },
        RenderCommand::SetIndexBuffer { range: ByteRange { start: 0, end: 100 } },
        RenderCommand::DrawIndexed { index_count: 50 },
        RenderCommand::EndRenderPass,
        RenderCommand::Submit,
        RenderCommand::Present,
    ];
    assert_eq!(cmds, expected);
    assert!(s.surface_ready);
}

#[test]
fn surface_errors_follow_the_recovery_policy() {
    let mesh = sample_mesh();
    let mut s = RendererState::new(640, 480);
    assert!(matches!(s.render(AcquireOutcome::TimedOut, &mesh, true), FramePlan::Skip));
    assert!(s.surface_ready);
    assert!(matches!(s.render(AcquireOutcome::Outdated, &mesh, true), FramePlan::Reconfigure));
    assert!(!s.surface_ready);
    s.resize(640, 480);
    assert!(s.surface_ready);
    assert!(matches!(s.render(AcquireOutcome::Lost, &mesh, true), FramePlan::Reconfigure));
    assert!(!s.surface_ready);
    assert!(matches!(s.render(AcquireOutcome::OutOfMemory, &mesh, true), FramePlan::Fatal));
}
