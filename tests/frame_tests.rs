use synesthesia::frame::{
    AcquireOutcome, FrameAction, FrameOp, FrameOrchestrator, PresentOutcome, ProjectionKind,
    RenderingError, RenderingState,
};
use synesthesia::swapchain::{plan_recreate, RecreatePlan};

fn acquired(index: usize) -> AcquireOutcome {
    AcquireOutcome::Acquired { index, suboptimal: false }
}

fn begin_recording(o: &mut FrameOrchestrator, index: usize) {
    assert_eq!(o.start_render(), Ok(FrameAction::AcquireImage));
    assert_eq!(o.image_acquired(acquired(index)), Ok(FrameAction::BeginRenderPass(index)));
}

#[test]
fn full_frame_succeeds() {
    let mut o = FrameOrchestrator::new();
    assert_eq!(o.state(), RenderingState::Stopped);
    begin_recording(&mut o, 2);
    assert_eq!(o.state(), RenderingState::Deferred);
    for _ in 0..3 {
        assert_eq!(o.add_model(), Ok(FrameAction::DrawGeometry));
    }
    assert_eq!(o.calculate_ambient_light(), Ok(FrameAction::NextSubpassAmbient));
    assert_eq!(o.state(), RenderingState::Ambient);
    assert_eq!(o.calculate_directional_light(), Ok(FrameAction::DrawDirectional));
    assert_eq!(o.calculate_directional_light(), Ok(FrameAction::DrawDirectional));
    assert_eq!(o.state(), RenderingState::Directional);
    assert_eq!(o.finish_render(), Ok(FrameAction::SubmitAndPresent(2)));
    assert_eq!(o.presented(PresentOutcome::Presented), Ok(FrameAction::Done));
    assert_eq!(o.state(), RenderingState::Stopped);
    assert!(!o.is_recording());
}

#[test]
fn frame_without_models_succeeds() {
    let mut o = FrameOrchestrator::new();
    begin_recording(&mut o, 0);
    assert_eq!(o.calculate_ambient_light(), Ok(FrameAction::NextSubpassAmbient));
    assert_eq!(o.calculate_directional_light(), Ok(FrameAction::DrawDirectional));
    assert_eq!(o.finish_render(), Ok(FrameAction::SubmitAndPresent(0)));
}

#[test]
fn ambient_twice_advances_once() {
    let mut o = FrameOrchestrator::new();
    begin_recording(&mut o, 1);
    assert_eq!(o.calculate_ambient_light(), Ok(FrameAction::NextSubpassAmbient));
    assert_eq!(o.calculate_ambient_light(), Ok(FrameAction::Done));
    assert_eq!(o.state(), RenderingState::Ambient);
    assert_eq!(o.calculate_directional_light(), Ok(FrameAction::DrawDirectional));
}

#[test]
fn begin_twice_is_call_order_error() {
    let mut o = FrameOrchestrator::new();
    begin_recording(&mut o, 0);
    assert_eq!(
        o.start_render(),
        Err(RenderingError::NonConformingState(FrameOp::BeginFrame))
    );
    assert_eq!(o.state(), RenderingState::Stopped);
    assert!(!o.is_recording());
    // The next frame starts normally.
    begin_recording(&mut o, 1);
}

#[test]
fn illegal_operations_reset_to_stopped() {
    let mut o = FrameOrchestrator::new();
    assert_eq!(o.add_model(), Err(RenderingError::NonConformingState(FrameOp::SubmitGeometry)));
    assert_eq!(o.state(), RenderingState::Stopped);
    assert_eq!(
        o.calculate_ambient_light(),
        Err(RenderingError::NonConformingState(FrameOp::ResolveAmbient))
    );
    assert_eq!(
        o.calculate_directional_light(),
        Err(RenderingError::NonConformingState(FrameOp::ResolveDirectional))
    );
    assert_eq!(o.finish_render(), Err(RenderingError::NonConformingState(FrameOp::EndFrame)));
    assert_eq!(
        o.presented(PresentOutcome::Presented),
        Err(RenderingError::NonConformingState(FrameOp::PresentReport))
    );
    assert_eq!(
        o.image_acquired(acquired(0)),
        Err(RenderingError::NonConformingState(FrameOp::AcquireReport))
    );
    assert_eq!(
        o.swapchain_recreated(true),
        Err(RenderingError::NonConformingState(FrameOp::RecreationReport))
    );
    assert_eq!(o.state(), RenderingState::Stopped);

    // Mid-frame: a directional light before the ambient one.
    begin_recording(&mut o, 0);
    assert_eq!(o.add_model(), Ok(FrameAction::DrawGeometry));
    assert_eq!(
        o.calculate_directional_light(),
        Err(RenderingError::NonConformingState(FrameOp::ResolveDirectional))
    );
    assert_eq!(o.state(), RenderingState::Stopped);
    assert!(!o.is_recording());
    // Geometry after the lighting pass began.
    begin_recording(&mut o, 0);
    assert_eq!(o.calculate_ambient_light(), Ok(FrameAction::NextSubpassAmbient));
    assert_eq!(o.add_model(), Err(RenderingError::NonConformingState(FrameOp::SubmitGeometry)));
    assert_eq!(o.state(), RenderingState::Stopped);
}

#[test]
fn geometry_before_image_is_refused() {
    let mut o = FrameOrchestrator::new();
    assert_eq!(o.start_render(), Ok(FrameAction::AcquireImage));
    assert_eq!(o.state(), RenderingState::Deferred);
    assert_eq!(o.add_model(), Err(RenderingError::NonConformingState(FrameOp::SubmitGeometry)));
    assert_eq!(o.state(), RenderingState::Stopped);
}

#[test]
fn resize_then_begin_recreates_once() {
    let mut o = FrameOrchestrator::new();
    o.notify_resize();
    assert_eq!(o.state(), RenderingState::WaitingRedraw);
    assert_eq!(o.start_render(), Ok(FrameAction::RecreateSwapchain));
    assert_eq!(o.swapchain_recreated(true), Ok(FrameAction::AcquireImage));
    assert_eq!(o.image_acquired(acquired(3)), Ok(FrameAction::BeginRenderPass(3)));
    assert_eq!(o.state(), RenderingState::Deferred);
    assert!(!o.is_stale());
    assert_eq!(o.add_model(), Ok(FrameAction::DrawGeometry));
}

#[test]
fn resize_mid_frame_discards_it() {
    let mut o = FrameOrchestrator::new();
    begin_recording(&mut o, 0);
    assert_eq!(o.add_model(), Ok(FrameAction::DrawGeometry));
    o.notify_resize();
    assert_eq!(o.state(), RenderingState::WaitingRedraw);
    assert!(!o.is_recording());
    // A misordered call keeps the pending rebuild for the next frame.
    assert_eq!(o.add_model(), Err(RenderingError::NonConformingState(FrameOp::SubmitGeometry)));
    assert_eq!(o.state(), RenderingState::Stopped);
    assert_eq!(o.start_render(), Ok(FrameAction::RecreateSwapchain));
}

#[test]
fn skipped_recreation_gives_no_image() {
    let mut o = FrameOrchestrator::new();
    o.notify_resize();
    assert_eq!(o.start_render(), Ok(FrameAction::RecreateSwapchain));
    assert_eq!(o.swapchain_recreated(false), Err(RenderingError::NoImage));
    assert_eq!(o.state(), RenderingState::WaitingRedraw);
    assert_eq!(o.start_render(), Ok(FrameAction::RecreateSwapchain));
    assert_eq!(o.swapchain_recreated(true), Ok(FrameAction::AcquireImage));
}

#[test]
fn out_of_date_acquire_gives_no_image() {
    let mut o = FrameOrchestrator::new();
    assert_eq!(o.start_render(), Ok(FrameAction::AcquireImage));
    assert_eq!(o.image_acquired(AcquireOutcome::OutOfDate), Ok(FrameAction::RecreateSwapchain));
    assert_eq!(o.state(), RenderingState::WaitingRedraw);
    assert_eq!(o.swapchain_recreated(true), Err(RenderingError::NoImage));
    assert_eq!(o.state(), RenderingState::Stopped);
    assert!(!o.is_stale());
    assert!(!o.is_recording());
    // The next frame acquires without another rebuild.
    assert_eq!(o.start_render(), Ok(FrameAction::AcquireImage));
}

#[test]
fn out_of_date_acquire_with_degenerate_surface_waits() {
    let mut o = FrameOrchestrator::new();
    assert_eq!(o.start_render(), Ok(FrameAction::AcquireImage));
    assert_eq!(o.image_acquired(AcquireOutcome::OutOfDate), Ok(FrameAction::RecreateSwapchain));
    assert_eq!(o.swapchain_recreated(false), Err(RenderingError::NoImage));
    assert_eq!(o.state(), RenderingState::WaitingRedraw);
    assert!(o.is_stale());
    assert_eq!(o.start_render(), Ok(FrameAction::RecreateSwapchain));
}

#[test]
fn suboptimal_image_defers_recreation() {
    let mut o = FrameOrchestrator::new();
    assert_eq!(o.start_render(), Ok(FrameAction::AcquireImage));
    assert_eq!(
        o.image_acquired(AcquireOutcome::Acquired { index: 1, suboptimal: true }),
        Ok(FrameAction::BeginRenderPass(1))
    );
    assert_eq!(o.state(), RenderingState::Deferred);
    assert_eq!(o.calculate_ambient_light(), Ok(FrameAction::NextSubpassAmbient));
    assert_eq!(o.calculate_directional_light(), Ok(FrameAction::DrawDirectional));
    assert_eq!(o.finish_render(), Ok(FrameAction::SubmitAndPresent(1)));
    assert_eq!(o.state(), RenderingState::Stopped);
    assert!(o.is_stale());
    assert_eq!(o.presented(PresentOutcome::Presented), Ok(FrameAction::Done));
    assert_eq!(o.state(), RenderingState::Stopped);
    assert_eq!(o.start_render(), Ok(FrameAction::RecreateSwapchain));
    assert_eq!(o.swapchain_recreated(true), Ok(FrameAction::AcquireImage));
}

#[test]
fn out_of_date_present_resets_completion() {
    let mut o = FrameOrchestrator::new();
    begin_recording(&mut o, 0);
    o.calculate_ambient_light().unwrap();
    o.calculate_directional_light().unwrap();
    assert_eq!(o.finish_render(), Ok(FrameAction::SubmitAndPresent(0)));
    assert_eq!(o.presented(PresentOutcome::OutOfDate), Ok(FrameAction::ResetCompletion));
    assert_eq!(o.state(), RenderingState::WaitingRedraw);
    assert!(o.is_stale());
}

#[test]
fn failed_present_resets_completion() {
    let mut o = FrameOrchestrator::new();
    begin_recording(&mut o, 0);
    o.calculate_ambient_light().unwrap();
    o.calculate_directional_light().unwrap();
    o.finish_render().unwrap();
    assert_eq!(o.presented(PresentOutcome::Failed), Ok(FrameAction::ResetCompletion));
    assert_eq!(o.state(), RenderingState::Stopped);
    assert!(!o.is_stale());
}

#[test]
fn end_frame_while_waiting_recreates() {
    let mut o = FrameOrchestrator::new();
    o.set_view();
    assert_eq!(o.state(), RenderingState::WaitingRedraw);
    assert_eq!(o.finish_render(), Ok(FrameAction::RecreateSwapchain));
    assert_eq!(o.swapchain_recreated(true), Ok(FrameAction::Done));
    assert_eq!(o.state(), RenderingState::Stopped);
    assert_eq!(o.start_render(), Ok(FrameAction::AcquireImage));
}

#[test]
fn projection_kind_is_kept_for_resizes() {
    let mut o = FrameOrchestrator::new();
    assert_eq!(o.projection(), ProjectionKind::Perspective);
    o.set_projection(ProjectionKind::Orthogonal);
    assert_eq!(o.projection(), ProjectionKind::Orthogonal);
    assert_eq!(o.state(), RenderingState::WaitingRedraw);
    o.notify_resize();
    assert_eq!(o.projection(), ProjectionKind::Orthogonal);
}

#[test]
fn legal_cells_of_the_table() {
    assert!(FrameOp::BeginFrame.is_legal_in(RenderingState::Stopped));
    assert!(FrameOp::BeginFrame.is_legal_in(RenderingState::WaitingRedraw));
    assert!(!FrameOp::BeginFrame.is_legal_in(RenderingState::Deferred));
    assert!(FrameOp::ResolveAmbient.is_legal_in(RenderingState::Ambient));
    assert!(!FrameOp::ResolveAmbient.is_legal_in(RenderingState::Directional));
    assert!(FrameOp::EndFrame.is_legal_in(RenderingState::WaitingRedraw));
    assert!(!FrameOp::EndFrame.is_legal_in(RenderingState::Ambient));
    assert!(!FrameOp::SubmitGeometry.is_legal_in(RenderingState::Stopped));
}

#[test]
fn degenerate_surface_skips_recreation() {
    assert_eq!(plan_recreate(0, 600), RecreatePlan::Skip);
    assert_eq!(plan_recreate(800, 0), RecreatePlan::Skip);
    assert_eq!(plan_recreate(800, 600), RecreatePlan::Rebuild { width: 800, height: 600 });
}
