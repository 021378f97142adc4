//! The decisions of the event loop.

use vstd::prelude::*;

use crate::WindowSize;

verus! {

/// The time between two frames, in nanoseconds: a redraw is asked for once
/// more than this has passed since the last one.
pub const FRAME_INTERVAL_NANOS: u128 = 16_000_000;

/// The time after which the event loop wakes up by itself, in
/// milliseconds.
pub const WAKE_UP_MILLIS: u64 = 10;

/// What the event loop reports, as far as the decisions depend on it.
#[derive(Debug, Clone, Copy, PartialEq, Eq, Structural)]
pub enum LoopEvent {
    /// All events that were waiting have been handled.
    MainEventsCleared,
    /// The window took a new size.
    Resized(WindowSize),
    /// The escape key was pressed.
    EscapePressed,
    /// The window was asked to close.
    CloseRequested,
    /// Any other event of the window.
    WindowEvent,
    /// The window has to be drawn.
    RedrawRequested,
    /// Anything else.
    Other,
}

/// What to do about an event.
#[derive(Debug, Clone, Copy, PartialEq, Eq, Structural)]
pub enum LoopAction {
    /// Ask the window for a redraw, and count the time from now.
    RequestRedraw,
    /// Tell the renderer the new size of the window.
    Resize(WindowSize),
    /// Leave the event loop.
    Exit,
    /// Hand the event to the application.
    HandleInput,
    /// Update the application and draw a frame.
    Draw,
    /// Nothing.
    Wait,
}

/// What is to be done about `event`, `since_redraw` nanoseconds after a
/// redraw was last asked for.
pub open spec fn action_for(event: LoopEvent, since_redraw: u128) -> LoopAction {
    match event {
        LoopEvent::MainEventsCleared => if since_redraw > FRAME_INTERVAL_NANOS {
            LoopAction::RequestRedraw
        } else {
            LoopAction::Wait
        },
        LoopEvent::Resized(size) => LoopAction::Resize(size),
        LoopEvent::EscapePressed => LoopAction::Exit,
        LoopEvent::CloseRequested => LoopAction::Exit,
        LoopEvent::WindowEvent => LoopAction::HandleInput,
        LoopEvent::RedrawRequested => LoopAction::Draw,
        LoopEvent::Other => LoopAction::Wait,
    }
}

/// Decides what to do about `event`, `since_redraw` nanoseconds after a
/// redraw was last asked for.
pub fn on_event(event: LoopEvent, since_redraw: u128) -> (action: LoopAction)
    ensures
        action == action_for(event, since_redraw),
{
    match event {
        LoopEvent::MainEventsCleared => {
            if since_redraw > FRAME_INTERVAL_NANOS {
                LoopAction::RequestRedraw
            } else {
                LoopAction::Wait
            }
        },
        LoopEvent::Resized(size) => LoopAction::Resize(size),
        LoopEvent::EscapePressed | LoopEvent::CloseRequested => LoopAction::Exit,
        LoopEvent::WindowEvent => LoopAction::HandleInput,
        LoopEvent::RedrawRequested => LoopAction::Draw,
        LoopEvent::Other => LoopAction::Wait,
    }
}

} // verus!
