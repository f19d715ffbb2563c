use render_core::config::RenderConfig;
use render_core::context::RenderCore;
use render_core::errors::{InitError, SurfaceError};
use render_core::events::{Action, AppEvent, KeyCode};
use render_core::geometry::Shape;

fn make_core() -> RenderCore {
    RenderCore::new(640, 480, 7, Shape::Triangle)
}

#[test]
fn new_core_takes_window_size_and_format() {
    let s = make_core();
    assert_eq!(s.config.width, 640);
    assert_eq!(s.config.height, 480);
    assert_eq!(s.config.format, 7);
    assert!(s.config.fifo);
    assert_eq!(s.pipeline.target_format, 7);
    assert!(s.pipeline.triangle_list);
    assert!(s.pipeline.front_face_ccw);
    assert!(s.pipeline.cull_back_faces);
    assert!(s.pipeline.blend_replace);
    assert_eq!(s.pipeline.sample_count, 1);
    assert_eq!(s.shape, Shape::Triangle);
}

#[test]
fn resize_zero_width_keeps_configuration() {
    let mut s = make_core();
    let before = s.config;
    assert!(!s.resize(0, 300));
    assert_eq!(s.config, before);
}

#[test]
fn resize_zero_height_keeps_configuration() {
    let mut s = make_core();
    let before = s.config;
    assert!(!s.resize(300, 0));
    assert_eq!(s.config, before);
}

#[test]
fn resize_both_zero_keeps_configuration() {
    let mut c = RenderConfig::new(10, 20, 3);
    assert!(!c.resize(0, 0));
    assert_eq!(c, RenderConfig::new(10, 20, 3));
}

#[test]
fn resize_positive_updates_and_render_succeeds() {
    let mut s = make_core();
    assert!(s.resize(1920, 1080));
    assert_eq!(s.config.width, 1920);
    assert_eq!(s.config.height, 1080);
    assert_eq!(s.config.format, 7);
    let plan = s.render(Ok(())).expect("render after a positive resize must succeed");
    assert_eq!(plan.commands.len(), 4);
}

#[test]
fn resize_to_one_pixel_then_render_succeeds() {
    let mut s = make_core();
    assert!(s.resize(1, 1));
    assert!(s.render(Ok(())).is_ok());
}

#[test]
fn resize_event_dispatch_reconfigures_only_when_positive() {
    let mut s = make_core();
    let a = s.handle_event(&AppEvent::WindowResized { width: 800, height: 600 });
    assert_eq!(a, Action::Reconfigure);
    assert_eq!(s.config.width, 800);
    let a = s.handle_event(&AppEvent::WindowResized { width: 0, height: 600 });
    assert_eq!(a, Action::Continue);
    assert_eq!(s.config.width, 800);
    assert_eq!(s.config.height, 600);
    let a = s.handle_event(&AppEvent::ScaleFactorChanged { width: 1600, height: 1200 });
    assert_eq!(a, Action::Reconfigure);
    assert_eq!(s.config.width, 1600);
    assert_eq!(s.config.height, 1200);
}

#[test]
fn close_request_exits() {
    let mut s = make_core();
    assert_eq!(s.handle_event(&AppEvent::CloseRequested), Action::Exit);
}

#[test]
fn escape_press_without_modifiers_exits() {
    let mut s = make_core();
    let ev = AppEvent::KeyboardInput { pressed: true, key: KeyCode::Escape, modifiers_active: false };
    assert_eq!(s.handle_event(&ev), Action::Exit);
}

#[test]
fn escape_press_with_modifiers_does_not_exit() {
    let mut s = make_core();
    let ev = AppEvent::KeyboardInput { pressed: true, key: KeyCode::Escape, modifiers_active: true };
    assert_eq!(s.handle_event(&ev), Action::Continue);
}

#[test]
fn escape_release_does_not_exit() {
    let mut s = make_core();
    let ev = AppEvent::KeyboardInput { pressed: false, key: KeyCode::Escape, modifiers_active: false };
    assert_eq!(s.handle_event(&ev), Action::Continue);
}

#[test]
fn other_key_does_not_exit() {
    let mut s = make_core();
    let ev = AppEvent::KeyboardInput { pressed: true, key: KeyCode::Other, modifiers_active: false };
    assert_eq!(s.handle_event(&ev), Action::Continue);
}

#[test]
fn events_cleared_requests_redraw_and_redraw_renders() {
    let mut s = make_core();
    assert_eq!(s.handle_event(&AppEvent::MainEventsCleared), Action::RequestRedraw);
    assert_eq!(s.handle_event(&AppEvent::RedrawRequested), Action::RenderFrame);
    assert_eq!(s.handle_event(&AppEvent::Other), Action::Continue);
}

#[test]
fn input_hook_handles_nothing() {
    let mut s = make_core();
    assert!(!s.input(&AppEvent::Other));
    assert!(!s.input(&AppEvent::CloseRequested));
}

#[test]
fn out_of_memory_outcome_exits() {
    let mut s = make_core();
    assert_eq!(s.after_render(Err(SurfaceError::OutOfMemory)), Action::Exit);
}

#[test]
fn lost_outcome_reconfigures_current_size_and_continues() {
    let mut s = make_core();
    s.resize(1024, 768);
    let a = s.after_render(Err(SurfaceError::Lost));
    assert_eq!(a, Action::Reconfigure);
    assert_ne!(a, Action::Exit);
    assert_eq!(s.config.width, 1024);
    assert_eq!(s.config.height, 768);
}

#[test]
fn transient_outcomes_continue() {
    let mut s = make_core();
    assert_eq!(s.after_render(Err(SurfaceError::Outdated)), Action::Continue);
    assert_eq!(s.after_render(Err(SurfaceError::Timeout)), Action::Continue);
    assert_eq!(s.after_render(Ok(())), Action::Continue);
}

#[test]
fn render_passes_acquire_errors_through() {
    let mut s = make_core();
    assert_eq!(s.render(Err(SurfaceError::Lost)).unwrap_err(), SurfaceError::Lost);
    assert_eq!(s.render(Err(SurfaceError::Outdated)).unwrap_err(), SurfaceError::Outdated);
    assert_eq!(s.render(Err(SurfaceError::Timeout)).unwrap_err(), SurfaceError::Timeout);
    assert_eq!(s.render(Err(SurfaceError::OutOfMemory)).unwrap_err(), SurfaceError::OutOfMemory);
}

#[test]
fn init_check_reports_the_failed_stage() {
    assert_eq!(render_core::errors::init_check(true, true), Ok(()));
    assert_eq!(render_core::errors::init_check(false, true), Err(InitError::AdapterUnavailable));
    assert_eq!(render_core::errors::init_check(false, false), Err(InitError::AdapterUnavailable));
    assert_eq!(render_core::errors::init_check(true, false), Err(InitError::DeviceUnavailable));
}
