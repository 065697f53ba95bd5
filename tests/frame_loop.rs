use blorf::event_loop::{Action, App, SurfaceError, UserEvent, WindowEvent};
use blorf::gpu_info::{adapter_report, startup, Startup};
use blorf::surface::{pick_format, Size, State};

fn ready_app(width: u32, height: u32) -> App {
    let mut app = App::new();
    app.user_event(UserEvent::StateReady(State::new(Size::new(width, height))));
    assert_eq!(app.window_event(WindowEvent::Resized(Size::new(width, height))), Action::Configure(Size::new(width, height)));
    app
}

#[test]
fn new_state_raises_zero_dimensions_to_one() {
    let s = State::new(Size::new(0, 0));
    assert_eq!(s.size, Size::new(1, 1));
    assert_eq!(s.config, Size::new(1, 1));
    assert!(!s.state_ready);
    let s = State::new(Size::new(800, 0));
    assert_eq!(s.size, Size::new(800, 1));
}

#[test]
fn resize_with_zero_width_keeps_config() {
    let mut s = State::new(Size::new(640, 480));
    let before = s;
    assert!(!s.resize(Size::new(0, 300)));
    assert_eq!(s, before);
    assert!(!s.resize(Size::new(300, 0)));
    assert!(!s.resize(Size::new(0, 0)));
    assert_eq!(s, before);
}

#[test]
fn resize_with_positive_size_stores_it() {
    let mut s = State::new(Size::new(640, 480));
    assert!(s.resize(Size::new(1024, 768)));
    assert_eq!(s.size, Size::new(1024, 768));
    assert_eq!(s.config, Size::new(1024, 768));
    assert!(s.resize(Size::new(u32::MAX, 1)));
    assert_eq!(s.size, Size::new(u32::MAX, 1));
}

#[test]
fn degenerate_resize_event_asks_no_configure() {
    let mut app = ready_app(640, 480);
    assert_eq!(app.window_event(WindowEvent::Resized(Size::new(0, 480))), Action::Nothing);
    let s = app.state.unwrap();
    assert_eq!(s.size, Size::new(640, 480));
    assert_eq!(s.config, Size::new(640, 480));
    assert!(s.state_ready);
    let mut fresh = App::new();
    fresh.user_event(UserEvent::StateReady(State::new(Size::new(640, 480))));
    let before = fresh;
    assert_eq!(fresh.window_event(WindowEvent::Resized(Size::new(0, 480))), Action::Nothing);
    assert_eq!(fresh, before);
}

#[test]
fn positive_resize_event_configures_new_size() {
    let mut app = ready_app(640, 480);
    assert_eq!(app.window_event(WindowEvent::Resized(Size::new(300, 200))), Action::Configure(Size::new(300, 200)));
    assert_eq!(app.state.unwrap().size, Size::new(300, 200));
}

#[test]
fn events_before_ready_signal_are_ignored() {
    let mut app = App::new();
    assert!(!app.is_ready());
    assert_eq!(app.window_event(WindowEvent::RedrawRequested), Action::Nothing);
    assert_eq!(app.window_event(WindowEvent::Resized(Size::new(10, 10))), Action::Nothing);
    assert_eq!(app.window_event(WindowEvent::RedrawRequested), Action::Nothing);
    assert!(app.state.is_none());
}

#[test]
fn close_and_escape_exit_before_ready_signal() {
    let mut app = App::new();
    assert_eq!(app.window_event(WindowEvent::CloseRequested), Action::Exit);
    assert_eq!(app.window_event(WindowEvent::KeyboardInput { pressed: true, escape: true }), Action::Exit);
    assert_eq!(app.window_event(WindowEvent::KeyboardInput { pressed: false, escape: true }), Action::Nothing);
    assert!(app.state.is_none());
}

#[test]
fn redraw_before_first_resize_is_skipped() {
    let mut app = App::new();
    app.user_event(UserEvent::StateReady(State::new(Size::new(640, 480))));
    assert_eq!(app.window_event(WindowEvent::RedrawRequested), Action::SkipNotReady);
    assert!(!app.is_ready());
    assert_eq!(app.window_event(WindowEvent::Resized(Size::new(0, 0))), Action::Nothing);
    assert!(!app.is_ready());
    assert_eq!(app.window_event(WindowEvent::RedrawRequested), Action::SkipNotReady);
    assert_eq!(app.window_event(WindowEvent::Resized(Size::new(5, 7))), Action::Configure(Size::new(5, 7)));
    assert!(app.is_ready());
    assert_eq!(app.window_event(WindowEvent::RedrawRequested), Action::Draw);
}

#[test]
fn close_and_escape_exit() {
    let mut app = ready_app(640, 480);
    assert_eq!(app.window_event(WindowEvent::CloseRequested), Action::Exit);
    assert_eq!(app.window_event(WindowEvent::KeyboardInput { pressed: true, escape: true }), Action::Exit);
    assert_eq!(app.window_event(WindowEvent::KeyboardInput { pressed: false, escape: true }), Action::Nothing);
    assert_eq!(app.window_event(WindowEvent::KeyboardInput { pressed: true, escape: false }), Action::Nothing);
    assert_eq!(app.window_event(WindowEvent::Other), Action::Nothing);
}

#[test]
fn lost_or_outdated_surface_reconfigures_last_size() {
    let mut app = ready_app(640, 480);
    app.window_event(WindowEvent::Resized(Size::new(0, 100)));
    assert_eq!(app.frame_result(Err(SurfaceError::Lost)), Action::Configure(Size::new(640, 480)));
    assert_eq!(app.frame_result(Err(SurfaceError::Outdated)), Action::Configure(Size::new(640, 480)));
    assert_eq!(app.state.unwrap().size, Size::new(640, 480));
}

#[test]
fn out_of_memory_exits() {
    let mut app = ready_app(640, 480);
    assert_eq!(app.frame_result(Err(SurfaceError::OutOfMemory)), Action::Exit);
}

#[test]
fn timeout_and_success_keep_going() {
    let mut app = ready_app(640, 480);
    assert_eq!(app.frame_result(Err(SurfaceError::Timeout)), Action::SkipTimeout);
    assert_eq!(app.frame_result(Ok(())), Action::Nothing);
    assert_eq!(App::new().frame_result(Err(SurfaceError::OutOfMemory)), Action::Nothing);
}

#[test]
fn no_adapter_aborts_startup() {
    let r = adapter_report(false);
    assert_eq!(r, Err("No suitable GPU adapter found".to_string()));
    assert_eq!(startup(&r), Startup::Abort);
    let r = adapter_report(true);
    assert_eq!(r, Ok(()));
    assert_eq!(startup(&r), Startup::OpenWindow);
}

#[test]
fn pick_format_prefers_first_srgb() {
    assert_eq!(pick_format(&vec![false, true, true]), 1);
    assert_eq!(pick_format(&vec![true, false]), 0);
    assert_eq!(pick_format(&vec![false, false, false]), 0);
    assert_eq!(pick_format(&vec![false, false, true]), 2);
}
