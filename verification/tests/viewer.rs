use vulkan_fractal::viewer::{ViewerAction, ViewerEvent, ViewerState};

fn state(dragging: bool, window_resized: bool, recreate_swapchain: bool) -> ViewerState {
    ViewerState { dragging, window_resized, recreate_swapchain }
}

#[test]
fn new_state_is_idle() {
    assert_eq!(ViewerState::new(), state(false, false, false));
}

#[test]
fn close_exits() {
    let mut s = ViewerState::new();
    assert_eq!(s.step(ViewerEvent::CloseRequested), ViewerAction::Exit);
    assert_eq!(s, ViewerState::new());
}

#[test]
fn reset_and_wheel_actions() {
    let mut s = ViewerState::new();
    assert_eq!(s.step(ViewerEvent::ResetKey), ViewerAction::ResetView);
    assert_eq!(s.step(ViewerEvent::WheelLines), ViewerAction::ZoomByWheel);
    assert_eq!(s.step(ViewerEvent::WheelPixels), ViewerAction::Nothing);
    assert_eq!(s.step(ViewerEvent::Other), ViewerAction::Nothing);
    assert_eq!(s, ViewerState::new());
}

#[test]
fn drag_cycle() {
    let mut s = ViewerState::new();
    assert_eq!(s.step(ViewerEvent::CursorMoved), ViewerAction::RecordDragOrigin);
    assert_eq!(s.step(ViewerEvent::LeftPressed), ViewerAction::Nothing);
    assert!(s.dragging);
    assert_eq!(s.step(ViewerEvent::CursorMoved), ViewerAction::PanView);
    assert_eq!(s.step(ViewerEvent::MainEventsCleared), ViewerAction::BeginFrame { recreate_swapchain: false });
    assert_eq!(s.step(ViewerEvent::CursorMoved), ViewerAction::PanView);
    assert_eq!(s.step(ViewerEvent::LeftReleased), ViewerAction::Nothing);
    assert!(!s.dragging);
    assert_eq!(s.step(ViewerEvent::CursorMoved), ViewerAction::RecordDragOrigin);
}

#[test]
fn resize_rebuilds_swapchain_once() {
    let mut s = ViewerState::new();
    assert_eq!(s.step(ViewerEvent::Resized), ViewerAction::Nothing);
    assert_eq!(s, state(false, true, false));
    assert_eq!(s.step(ViewerEvent::CursorMoved), ViewerAction::RecordDragOrigin);
    assert_eq!(s.step(ViewerEvent::MainEventsCleared), ViewerAction::BeginFrame { recreate_swapchain: true });
    assert_eq!(s, ViewerState::new());
    assert_eq!(s.step(ViewerEvent::MainEventsCleared), ViewerAction::BeginFrame { recreate_swapchain: false });
}

#[test]
fn out_of_date_acquire_skips_and_rebuilds_next_frame() {
    let mut s = ViewerState::new();
    assert_eq!(s.step(ViewerEvent::MainEventsCleared), ViewerAction::BeginFrame { recreate_swapchain: false });
    assert_eq!(s.step(ViewerEvent::AcquireOutOfDate), ViewerAction::SkipFrame);
    assert_eq!(s, state(false, false, true));
    assert_eq!(s.step(ViewerEvent::MainEventsCleared), ViewerAction::BeginFrame { recreate_swapchain: true });
}

#[test]
fn suboptimal_image_is_drawn_and_rebuilt_later() {
    let mut s = ViewerState::new();
    assert_eq!(s.step(ViewerEvent::ImageAcquired { suboptimal: true }), ViewerAction::DrawFrame);
    assert_eq!(s, state(false, false, true));
    let mut t = ViewerState::new();
    assert_eq!(t.step(ViewerEvent::ImageAcquired { suboptimal: false }), ViewerAction::DrawFrame);
    assert_eq!(t, ViewerState::new());
}

#[test]
fn present_outcomes() {
    let mut s = ViewerState::new();
    assert_eq!(s.step(ViewerEvent::PresentSucceeded), ViewerAction::WaitForGpu);
    assert_eq!(s.step(ViewerEvent::PresentFailed), ViewerAction::ReportPresentError);
    assert_eq!(s, ViewerState::new());
    assert_eq!(s.step(ViewerEvent::PresentOutOfDate), ViewerAction::Nothing);
    assert_eq!(s, state(false, false, true));
}

#[test]
fn pending_rebuild_survives_other_events() {
    let mut s = state(true, false, false);
    s.step(ViewerEvent::PresentOutOfDate);
    for e in [
        ViewerEvent::Resized,
        ViewerEvent::LeftReleased,
        ViewerEvent::ImageAcquired { suboptimal: false },
        ViewerEvent::PresentSucceeded,
        ViewerEvent::WheelLines,
    ] {
        s.step(e);
    }
    assert_eq!(s.step(ViewerEvent::MainEventsCleared), ViewerAction::BeginFrame { recreate_swapchain: true });
    assert_eq!(s, state(false, false, false));
}
