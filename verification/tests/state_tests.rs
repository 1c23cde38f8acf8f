use world_sandbox::control::{InputState, KeyCode};
use world_sandbox::engine::state::{
    EventAction, FrameDecision, SurfaceSize, SurfaceStatus, ViewerState, WindowEvent,
};

#[test]
fn fresh_viewer() {
    let v = ViewerState::new(1366, 768);
    assert_eq!(v.surface, SurfaceSize { width: 1366, height: 768 });
    assert_eq!(v.input, InputState::new());
}

#[test]
fn close_request_exits() {
    let mut v = ViewerState::new(10, 10);
    assert_eq!(v.handle_event(WindowEvent::CloseRequested), EventAction::Exit);
    assert_eq!(v, ViewerState::new(10, 10));
}

#[test]
fn resize_to_drawable_size_reconfigures() {
    let mut v = ViewerState::new(1366, 768);
    let a = v.handle_event(WindowEvent::Resized { width: 800, height: 600 });
    assert_eq!(a, EventAction::Reconfigure);
    assert_eq!(v.surface, SurfaceSize { width: 800, height: 600 });
}

#[test]
fn resize_to_zero_is_ignored() {
    let mut v = ViewerState::new(1366, 768);
    assert_eq!(v.handle_event(WindowEvent::Resized { width: 0, height: 600 }), EventAction::Nothing);
    assert_eq!(v.handle_event(WindowEvent::Resized { width: 800, height: 0 }), EventAction::Nothing);
    assert_eq!(v.surface, SurfaceSize { width: 1366, height: 768 });
}

#[test]
fn resize_method_reports_reconfiguration() {
    let mut v = ViewerState::new(1, 1);
    assert!(v.resize(2, 3));
    assert!(!v.resize(0, 0));
    assert_eq!(v.surface, SurfaceSize { width: 2, height: 3 });
}

#[test]
fn resize_twice_is_idempotent() {
    let mut v = ViewerState::new(5, 5);
    v.handle_event(WindowEvent::Resized { width: 640, height: 480 });
    let once = v;
    v.handle_event(WindowEvent::Resized { width: 640, height: 480 });
    assert_eq!(v, once);
}

#[test]
fn movement_keys_update_input_only() {
    let mut v = ViewerState::new(100, 100);
    let a = v.handle_event(WindowEvent::KeyboardInput { code: KeyCode::KeyW, pressed: true });
    assert_eq!(a, EventAction::Nothing);
    assert!(v.input.forward);
    assert_eq!(v.surface, SurfaceSize { width: 100, height: 100 });
    v.handle_event(WindowEvent::KeyboardInput { code: KeyCode::KeyW, pressed: false });
    assert!(!v.input.forward);
}

#[test]
fn escape_exits_on_press_and_release() {
    let mut v = ViewerState::new(100, 100);
    let pressed = v.handle_event(WindowEvent::KeyboardInput { code: KeyCode::Escape, pressed: true });
    let released = v.handle_event(WindowEvent::KeyboardInput { code: KeyCode::Escape, pressed: false });
    assert_eq!(pressed, EventAction::Exit);
    assert_eq!(released, EventAction::Exit);
    assert_eq!(v, ViewerState::new(100, 100));
}

#[test]
fn redraw_updates_and_renders() {
    let mut v = ViewerState::new(100, 100);
    assert_eq!(v.handle_event(WindowEvent::RedrawRequested), EventAction::UpdateAndRender);
    assert_eq!(v.handle_event(WindowEvent::Other), EventAction::Nothing);
}

#[test]
fn frame_decisions() {
    let v = ViewerState::new(800, 600);
    assert_eq!(v.frame_decision(SurfaceStatus::Success), FrameDecision::Draw);
    assert_eq!(v.frame_decision(SurfaceStatus::Suboptimal), FrameDecision::Draw);
    assert_eq!(v.frame_decision(SurfaceStatus::Outdated), FrameDecision::Reconfigure);
    assert_eq!(v.frame_decision(SurfaceStatus::Lost), FrameDecision::Reconfigure);
    assert_eq!(v.frame_decision(SurfaceStatus::Timeout), FrameDecision::Skip);
    assert_eq!(v.frame_decision(SurfaceStatus::Occluded), FrameDecision::Skip);
    assert_eq!(v.frame_decision(SurfaceStatus::Validation), FrameDecision::Skip);
}

#[test]
fn lost_surface_of_zero_size_is_skipped() {
    let v = ViewerState::new(0, 600);
    assert_eq!(v.frame_decision(SurfaceStatus::Lost), FrameDecision::Skip);
    assert_eq!(v.frame_decision(SurfaceStatus::Outdated), FrameDecision::Skip);
    assert_eq!(v.frame_decision(SurfaceStatus::Success), FrameDecision::Draw);
}
