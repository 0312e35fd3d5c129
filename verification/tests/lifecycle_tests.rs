use quad_render::frame::{AcquireError, Renderer};
use quad_render::lifecycle::{Action, App, Event};
use quad_render::surface::{AlphaMode, SurfaceFormat};

fn ready_app() -> App {
    let mut app = App::new();
    let fmts = vec![SurfaceFormat { code: 0, srgb: false }, SurfaceFormat { code: 1, srgb: true }];
    let alphas = vec![AlphaMode::Opaque];
    let r = Renderer::new(800, 600, &fmts, &alphas);
    app.install_renderer(r);
    app
}

#[test]
fn resume_creates_the_renderer_once() {
    let mut app = App::new();
    assert_eq!(app.handle_event(Event::Resumed), Action::CreateRenderer);
    let mut app = ready_app();
    assert_eq!(app.handle_event(Event::Resumed), Action::Nothing);
}

#[test]
fn window_events_mean_nothing_before_the_renderer_exists() {
    let mut app = App::new();
    assert_eq!(app.handle_event(Event::RedrawRequested), Action::Nothing);
    assert_eq!(app.handle_event(Event::CloseRequested), Action::Nothing);
    assert_eq!(app.handle_event(Event::Resized { width: 100, height: 100 }), Action::Nothing);
}

#[test]
fn redraw_renders_one_frame() {
    let mut app = ready_app();
    assert_eq!(app.handle_event(Event::RedrawRequested), Action::RenderFrame);
}

#[test]
fn close_request_terminates() {
    let mut app = ready_app();
    assert_eq!(app.handle_event(Event::CloseRequested), Action::Exit);
}

#[test]
fn genuine_resize_reconfigures() {
    let mut app = ready_app();
    let a = app.handle_event(Event::Resized { width: 1920, height: 1080 });
    assert_eq!(a, Action::Reconfigure);
    let r = app.renderer.as_ref().unwrap();
    assert_eq!(r.config.width, 1920);
    assert_eq!(r.config.height, 1080);
}

#[test]
fn zero_area_resize_changes_nothing() {
    let mut app = ready_app();
    assert_eq!(app.handle_event(Event::Resized { width: 0, height: 1080 }), Action::Nothing);
    assert_eq!(app.handle_event(Event::Resized { width: 1920, height: 0 }), Action::Nothing);
    let r = app.renderer.as_ref().unwrap();
    assert_eq!(r.config.width, 800);
    assert_eq!(r.config.height, 600);
}

#[test]
fn out_of_memory_terminates_the_loop() {
    let mut app = ready_app();
    let a = app.handle_event(Event::FrameFailed { error: AcquireError::OutOfMemory });
    assert_eq!(a, Action::Exit);
}

#[test]
fn lost_surface_skips_the_frame_and_continues() {
    let mut app = ready_app();
    let a = app.handle_event(Event::FrameFailed { error: AcquireError::Lost });
    assert_eq!(a, Action::SkipFrame);
    assert_eq!(app.handle_event(Event::RedrawRequested), Action::RenderFrame);
}

#[test]
fn other_failures_skip_the_frame() {
    let mut app = ready_app();
    for e in [AcquireError::Timeout, AcquireError::Outdated, AcquireError::Other] {
        assert_eq!(app.handle_event(Event::FrameFailed { error: e }), Action::SkipFrame);
    }
}
