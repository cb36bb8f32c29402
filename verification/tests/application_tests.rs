use irid::application::{
    listener_hears, window_event_for, AppAction, AppEvent, EventLoopState, SurfaceError,
};
use irid::camera::{ElementState, Key, KeyboardInput};
use irid::config::PhysicalSize;

fn key_event(state: ElementState, key: Option<Key>, is_synthetic: bool) -> AppEvent {
    AppEvent::Keyboard { input: KeyboardInput { state, virtual_keycode: key }, is_synthetic }
}

#[test]
fn escape_press_exits_after_camera() {
    let mut s = EventLoopState::new();
    let e = key_event(ElementState::Pressed, Some(Key::Escape), false);
    assert!(listener_hears(&e));
    let input = KeyboardInput { state: ElementState::Pressed, virtual_keycode: Some(Key::Escape) };
    assert_eq!(s.handle(&e, true), vec![AppAction::ProcessCameraInput(input), AppAction::Exit]);
    assert!(s.exit_requested());
}

#[test]
fn escape_release_does_not_exit() {
    let mut s = EventLoopState::new();
    let e = key_event(ElementState::Released, Some(Key::Escape), false);
    assert_eq!(s.handle(&e, true).len(), 1);
    assert!(!s.exit_requested());
}

#[test]
fn synthetic_and_unnamed_keys_are_ignored() {
    let mut s = EventLoopState::new();
    let synthetic = key_event(ElementState::Pressed, Some(Key::Escape), true);
    let unnamed = key_event(ElementState::Pressed, None, false);
    assert!(!listener_hears(&synthetic));
    assert!(!listener_hears(&unnamed));
    assert!(s.handle(&synthetic, true).is_empty());
    assert!(s.handle(&unnamed, true).is_empty());
}

#[test]
fn listener_false_suppresses_defaults() {
    let mut s = EventLoopState::new();
    assert!(s.handle(&AppEvent::CloseRequested, false).is_empty());
    assert!(s.handle(&AppEvent::MainEventsCleared, false).is_empty());
    assert!(s.handle(&AppEvent::Resized(PhysicalSize { width: 1, height: 1 }), false).is_empty());
    assert!(!s.exit_requested());
}

#[test]
fn default_reactions() {
    let mut s = EventLoopState::new();
    let size = PhysicalSize { width: 640, height: 480 };
    assert_eq!(s.handle(&AppEvent::Resized(size), true), vec![AppAction::ResizeRenderer(size)]);
    assert_eq!(s.handle(&AppEvent::ScaleFactorChanged(size), true), vec![AppAction::ResizeRenderer(size)]);
    assert_eq!(s.handle(&AppEvent::MainEventsCleared, true), vec![AppAction::Redraw]);
    assert!(s.handle(&AppEvent::Other, true).is_empty());
    assert!(!s.exit_requested());
    assert_eq!(s.handle(&AppEvent::CloseRequested, true), vec![AppAction::Exit]);
    assert!(s.exit_requested());
    assert!(s.handle(&AppEvent::Other, true).is_empty());
    assert!(s.exit_requested());
}

#[test]
fn redraw_outcomes() {
    let mut s = EventLoopState::new();
    assert!(!listener_hears(&AppEvent::RedrawFinished(None)));
    assert!(s.handle(&AppEvent::RedrawFinished(None), false).is_empty());
    assert_eq!(
        s.handle(&AppEvent::RedrawFinished(Some(SurfaceError::Timeout)), false),
        vec![AppAction::LogError(SurfaceError::Timeout)]
    );
    assert_eq!(
        s.handle(&AppEvent::RedrawFinished(Some(SurfaceError::Outdated)), true),
        vec![AppAction::LogError(SurfaceError::Outdated)]
    );
    assert_eq!(
        s.handle(&AppEvent::RedrawFinished(Some(SurfaceError::Lost)), true),
        vec![AppAction::RefreshSurface]
    );
    assert!(!s.exit_requested());
    assert_eq!(
        s.handle(&AppEvent::RedrawFinished(Some(SurfaceError::OutOfMemory)), true),
        vec![AppAction::Exit]
    );
    assert!(s.exit_requested());
}

#[test]
fn events_of_other_windows_are_ignored() {
    let mine = winit::window::WindowId::from(1u64);
    let other = winit::window::WindowId::from(2u64);
    assert_eq!(window_event_for(&mine, &mine, AppEvent::CloseRequested), AppEvent::CloseRequested);
    let seen = window_event_for(&mine, &other, AppEvent::CloseRequested);
    assert_eq!(seen, AppEvent::OtherWindow);
    assert!(!listener_hears(&seen));
    let mut s = EventLoopState::new();
    assert!(s.handle(&seen, true).is_empty());
    assert!(!s.exit_requested());
}

