//! The listener the game logic implements to hear of the event loop's
//! events. Each method answers whether the framework should go on with
//! its default behaviour for the event; by default it should.

use vstd::prelude::*;

verus! {

/// The reason the event loop is resuming.
#[verifier::external_type_specification]
#[verifier::external_body]
pub struct ExStartCause(winit::event::StartCause);

/// The identifier of a window.
#[verifier::external_type_specification]
#[verifier::external_body]
pub struct ExWindowId(winit::window::WindowId);

/// Listener for the generic events of the event loop.
pub trait EventListener {
    /// Emitted when new events arrive from the OS to be processed.
    fn on_new_events(&self, start_cause: winit::event::StartCause) -> (r: bool)
        default_ensures
            r,
    {
        true
    }

    /// Emitted when an event is sent from the event loop's proxy.
    fn on_user_event<T>(&self, event: &T) -> (r: bool)
        default_ensures
            r,
    {
        true
    }

    /// Emitted when the application has been suspended.
    fn on_suspend(&self) -> (r: bool)
        default_ensures
            r,
    {
        true
    }

    /// Emitted when the application has been resumed.
    fn on_resume(&self) -> (r: bool)
        default_ensures
            r,
    {
        true
    }

    /// Emitted when all of the event loop's input events have been
    /// processed and redraw processing is about to begin: the place for
    /// the main body of a game's loop.
    fn on_redraw_begin(&self) -> bool;

    /// Emitted after `on_redraw_begin` when a window should be redrawn.
    fn on_redraw_request(&self, window_id: &winit::window::WindowId) -> (r: bool)
        default_ensures
            r,
    {
        true
    }

    /// Emitted after all `on_redraw_request` events have been processed
    /// and control flow is about to be taken away from the program.
    fn on_redraw_end(&self) -> (r: bool)
        default_ensures
            r,
    {
        true
    }

    /// Emitted when the event loop is being shut down; it is the last event.
    fn on_destroy(&self) -> (r: bool)
        default_ensures
            r,
    {
        true
    }
}

} // verus!
