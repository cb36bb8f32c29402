//! The application's reactions to the events of its window's event loop.
//!
//! The event loop itself, the listener calls and the renderer's GPU work
//! are the caller's: for each event it asks [`listener_hears`] whether to
//! call the listener, calls it, and hands its answer (whether to keep the
//! default behaviour) to [`EventLoopState::handle`], which says what to do.

use vstd::prelude::*;
use crate::camera::{ElementState, Key, KeyboardInput};
use crate::config::PhysicalSize;

verus! {

/// Why presenting a frame failed.
#[derive(Clone, Copy, Debug, PartialEq, Eq, Structural)]
pub enum SurfaceError {
    /// Acquiring the frame took too long.
    Timeout,
    /// The surface changed and must be updated.
    Outdated,
    /// The surface was lost and must be recreated.
    Lost,
    /// There is no memory left for a new frame.
    OutOfMemory,
}

/// An event of the application's window and event loop.
#[derive(Clone, Copy, Debug, PartialEq, Eq, Structural)]
pub enum AppEvent {
    /// The window's inner size changed.
    Resized(PhysicalSize),
    /// The scale factor changed; the window gets this inner size (after the
    /// listener had its say on it).
    ScaleFactorChanged(PhysicalSize),
    /// The user asked to close the window.
    CloseRequested,
    /// A key was pressed or released. Synthetic events are sent by some
    /// platforms when the window gains or loses the focus.
    Keyboard { input: KeyboardInput, is_synthetic: bool },
    /// All input has been handled: time to draw.
    MainEventsCleared,
    /// Drawing a frame ended, well or with an error.
    RedrawFinished(Option<SurfaceError>),
    /// Any other event: only the listener reacts to it.
    Other,
    /// An event of a window other than the application's: nothing reacts
    /// to it, not even the listener.
    OtherWindow,
}

/// What the application does after an event.
#[derive(Clone, Copy, Debug, PartialEq, Eq, Structural)]
pub enum AppAction {
    /// Resize the renderer (and its surface) to this size.
    ResizeRenderer(PhysicalSize),
    /// Give the keyboard input to the renderer's camera controller.
    ProcessCameraInput(KeyboardInput),
    /// Draw a frame.
    Redraw,
    /// Reconfigure the surface with the current window size.
    RefreshSurface,
    /// Report the error; the next frame should not meet it again.
    LogError(SurfaceError),
    /// Stop the event loop.
    Exit,
}

/// Whether the listener is told of the event. Keyboard events reach it
/// only when they are real (not synthetic) and name a key; the end of a
/// frame is the application's own business.
pub open spec fn hears(event: AppEvent) -> bool {
    match event {
        AppEvent::Keyboard { input, is_synthetic } => !is_synthetic
            && input.virtual_keycode is Some,
        AppEvent::RedrawFinished(_) => false,
        AppEvent::OtherWindow => false,
        _ => true,
    }
}

/// Whether the listener is told of the event.
pub fn listener_hears(event: &AppEvent) -> (r: bool)
    ensures
        r == hears(*event),
{
    match event {
        AppEvent::Keyboard { input, is_synthetic } => !*is_synthetic
            && input.virtual_keycode.is_some(),
        AppEvent::RedrawFinished(_) => false,
        AppEvent::OtherWindow => false,
        _ => true,
    }
}

/// Calls the `PartialEq` that winit derives for `WindowId`, a plain
/// identifier: two ids compare equal exactly when they are the same id.
#[verifier::external_body]
fn same_window(a: &winit::window::WindowId, b: &winit::window::WindowId) -> (r: bool)
    ensures
        r == (*a == *b),
{
    *a == *b
}

/// An event of the window `event_window` as the event loop of the window
/// `window` sees it: an event of another window is
/// [`AppEvent::OtherWindow`].
pub open spec fn seen_by(
    window: winit::window::WindowId,
    event_window: winit::window::WindowId,
    event: AppEvent,
) -> AppEvent {
    if event_window == window {
        event
    } else {
        AppEvent::OtherWindow
    }
}

/// The event, of the window `event_window`, as the event loop of the window
/// `window` sees it: an event of another window becomes
/// [`AppEvent::OtherWindow`].
pub fn window_event_for(
    window: &winit::window::WindowId,
    event_window: &winit::window::WindowId,
    event: AppEvent,
) -> (r: AppEvent)
    ensures
        r == seen_by(*window, *event_window, event),
{
    if same_window(event_window, window) {
        event
    } else {
        AppEvent::OtherWindow
    }
}

/// Whether the event loop ignores the event altogether: it belongs to
/// another window, or it is a keyboard event that is synthetic or names no
/// key.
pub open spec fn is_ignored(event: AppEvent) -> bool {
    match event {
        AppEvent::OtherWindow => true,
        AppEvent::Keyboard { input, is_synthetic } => is_synthetic || input.virtual_keycode is None,
        _ => false,
    }
}

/// Whether the input is the Escape key being pressed.
pub open spec fn is_escape_press(input: KeyboardInput) -> bool {
    input.state == ElementState::Pressed && input.virtual_keycode == Some(Key::Escape)
}

/// The actions for an event, given whether the listener (when it heard the
/// event) asked for the default behaviour. A listener that answers `false`
/// suppresses every action; events it does not hear act on their own.
pub open spec fn actions_for(event: AppEvent, use_default: bool) -> Seq<AppAction> {
    match event {
        AppEvent::RedrawFinished(outcome) => match outcome {
            None => seq![],
            Some(SurfaceError::Lost) => seq![AppAction::RefreshSurface],
            Some(SurfaceError::OutOfMemory) => seq![AppAction::Exit],
            Some(e) => seq![AppAction::LogError(e)],
        },
        _ => if !hears(event) || !use_default {
            seq![]
        } else {
            match event {
                AppEvent::Resized(size) => seq![AppAction::ResizeRenderer(size)],
                AppEvent::ScaleFactorChanged(size) => seq![AppAction::ResizeRenderer(size)],
                AppEvent::CloseRequested => seq![AppAction::Exit],
                AppEvent::Keyboard { input, is_synthetic } => if is_escape_press(input) {
                    seq![AppAction::ProcessCameraInput(input), AppAction::Exit]
                } else {
                    seq![AppAction::ProcessCameraInput(input)]
                },
                AppEvent::MainEventsCleared => seq![AppAction::Redraw],
                _ => seq![],
            }
        },
    }
}

/// Whether the event is a real press of Escape.
pub open spec fn is_real_escape_press(event: AppEvent) -> bool {
    match event {
        AppEvent::Keyboard { input, is_synthetic } => !is_synthetic && is_escape_press(input),
        _ => false,
    }
}

/// A listener that answers `false` to an event it heard suppresses every
/// default reaction to it.
pub proof fn lemma_listener_can_suppress(event: AppEvent)
    requires
        hears(event),
    ensures
        actions_for(event, false) == Seq::<AppAction>::empty(),
{
}

/// The loop is asked to stop by the default reaction to a close request
/// or to a real press of Escape, and by running out of memory while
/// drawing; by nothing else.
pub proof fn lemma_exit_causes(event: AppEvent, use_default: bool)
    ensures
        actions_for(event, use_default).contains(AppAction::Exit) <==> ({
            ||| event == AppEvent::RedrawFinished(Some(SurfaceError::OutOfMemory))
            ||| (use_default && event == AppEvent::CloseRequested)
            ||| (use_default && is_real_escape_press(event))
        }),
{
    let a = actions_for(event, use_default);
    if a.contains(AppAction::Exit) {
        let k = choose|k: int| 0 <= k < a.len() && a[k] == AppAction::Exit;
        assert(a[k] == AppAction::Exit);
    }
    match event {
        AppEvent::RedrawFinished(Some(SurfaceError::OutOfMemory)) => {
            assert(a[0] == AppAction::Exit);
        },
        AppEvent::CloseRequested => {
            if use_default {
                assert(a[0] == AppAction::Exit);
            }
        },
        AppEvent::Keyboard { input, is_synthetic } => {
            if use_default && !is_synthetic && is_escape_press(input) {
                assert(a[1] == AppAction::Exit);
            }
        },
        _ => {},
    }
}

/// Events of other windows, synthetic keyboard events and keyboard events
/// that name no key are ignored: the listener does not hear them, and no
/// action follows, whatever answer is passed along.
pub proof fn lemma_ignored_events(event: AppEvent, use_default: bool)
    requires
        is_ignored(event),
    ensures
        !hears(event),
        actions_for(event, use_default) == Seq::<AppAction>::empty(),
{
}

/// An event of another window is ignored, whatever it is.
pub proof fn lemma_other_windows_ignored(
    window: winit::window::WindowId,
    event_window: winit::window::WindowId,
    event: AppEvent,
    use_default: bool,
)
    requires
        event_window != window,
    ensures
        is_ignored(seen_by(window, event_window, event)),
        !hears(seen_by(window, event_window, event)),
        actions_for(seen_by(window, event_window, event), use_default) == Seq::<AppAction>::empty(),
{
}

/// The default reactions, for every size and every input: a resize (or a
/// scale change) resizes the renderer to exactly the event's size, a close
/// request exits, the end of input handling draws a frame, and a real key
/// goes to the camera, followed by an exit when it is a press of Escape.
pub proof fn lemma_default_reactions(size: PhysicalSize, input: KeyboardInput)
    ensures
        actions_for(AppEvent::Resized(size), true) == seq![AppAction::ResizeRenderer(size)],
        actions_for(AppEvent::ScaleFactorChanged(size), true) == seq![
            AppAction::ResizeRenderer(size),
        ],
        actions_for(AppEvent::CloseRequested, true) == seq![AppAction::Exit],
        actions_for(AppEvent::MainEventsCleared, true) == seq![AppAction::Redraw],
        input.virtual_keycode is Some ==> actions_for(
            AppEvent::Keyboard { input, is_synthetic: false },
            true,
        ) == if input.state == ElementState::Pressed && input.virtual_keycode == Some(Key::Escape) {
            seq![AppAction::ProcessCameraInput(input), AppAction::Exit]
        } else {
            seq![AppAction::ProcessCameraInput(input)]
        },
{
}

/// Every real keyboard input that the listener leaves to the default
/// behaviour reaches the camera controller, first.
pub proof fn lemma_keys_reach_camera(input: KeyboardInput)
    requires
        input.virtual_keycode is Some,
    ensures
        actions_for(AppEvent::Keyboard { input, is_synthetic: false }, true)[0]
            == AppAction::ProcessCameraInput(input),
{
}

/// The state of the event loop: whether it was asked to stop.
#[derive(Debug)]
pub struct EventLoopState {
    exit_requested: bool,
}

impl View for EventLoopState {
    type V = bool;

    closed spec fn view(&self) -> bool {
        self.exit_requested
    }
}

impl EventLoopState {
    /// A running event loop.
    pub fn new() -> (r: Self)
        ensures
            r@ == false,
    {
        EventLoopState { exit_requested: false }
    }

    /// Whether the event loop was asked to stop.
    pub fn exit_requested(&self) -> (r: bool)
        ensures
            r == self@,
    {
        self.exit_requested
    }

    /// React to an event. `use_default` is the listener's answer when it
    /// heard the event (it is ignored otherwise). The loop is asked to stop
    /// when the result holds an exit, and stays asked once it was.
    pub fn handle(&mut self, event: &AppEvent, use_default: bool) -> (r: Vec<AppAction>)
        ensures
            r@ == actions_for(*event, use_default),
            final(self)@ == (old(self)@ || r@.contains(AppAction::Exit)),
            forall|s: PhysicalSize|
                use_default && *event == AppEvent::Resized(s) ==> r@ == seq![
                    AppAction::ResizeRenderer(s),
                ],
            forall|s: PhysicalSize|
                use_default && *event == AppEvent::ScaleFactorChanged(s) ==> r@ == seq![
                    AppAction::ResizeRenderer(s),
                ],
    {
        let mut r: Vec<AppAction> = Vec::new();
        match event {
            AppEvent::RedrawFinished(outcome) => match outcome {
                None => {},
                Some(SurfaceError::Lost) => r.push(AppAction::RefreshSurface),
                Some(SurfaceError::OutOfMemory) => r.push(AppAction::Exit),
                Some(e) => r.push(AppAction::LogError(*e)),
            },
            _ => {
                if listener_hears(event) && use_default {
                    match event {
                        AppEvent::Resized(size) => r.push(AppAction::ResizeRenderer(*size)),
                        AppEvent::ScaleFactorChanged(size) => r.push(
                            AppAction::ResizeRenderer(*size),
                        ),
                        AppEvent::CloseRequested => r.push(AppAction::Exit),
                        AppEvent::Keyboard { input, is_synthetic } => {
                            r.push(AppAction::ProcessCameraInput(*input));
                            let escape = match (input.state, input.virtual_keycode) {
                                (ElementState::Pressed, Some(Key::Escape)) => true,
                                _ => false,
                            };
                            if escape {
                                r.push(AppAction::Exit);
                            }
                        },
                        AppEvent::MainEventsCleared => r.push(AppAction::Redraw),
                        _ => {},
                    }
                }
            },
        }
        proof {
            assert(r@ =~= actions_for(*event, use_default));
        }
        let mut exits = false;
        let mut i: usize = 0;
        while i < r.len()
            invariant
                i <= r@.len(),
                exits == (exists|k: int| 0 <= k < i && r@[k] == AppAction::Exit),
            decreases r@.len() - i,
        {
            if r[i] == AppAction::Exit {
                exits = true;
            }
            i = i + 1;
        }
        if exits {
            self.exit_requested = true;
        }
        r
    }
}

} // verus!
