//! What the window system reports to the render loop, and what the render
//! loop asks of its surroundings in answer.

use vstd::prelude::*;
use crate::frame::PointerPosition;
use crate::surface::{SurfaceConfig, WindowSize};

verus! {

/// A key, as far as the render loop tells keys apart.
#[derive(Clone, Copy, Debug, PartialEq, Eq, Structural)]
pub enum KeyCode {
    Escape,
    Other,
}

/// Whether a key went down or up.
#[derive(Clone, Copy, Debug, PartialEq, Eq, Structural)]
pub enum ElementState {
    Pressed,
    Released,
}

/// An event of one window.
#[derive(Clone, Copy, Debug, PartialEq, Eq, Structural)]
pub enum WindowEvent {
    /// The user asked to close the window.
    CloseRequested,
    /// A key changed its state.
    KeyboardInput { key: KeyCode, state: ElementState },
    /// The window has a new size.
    Resized(WindowSize),
    /// The window wants to be drawn anew.
    RedrawRequested,
    /// The pointer moved over the window.
    CursorMoved { position: PointerPosition },
    /// Any other event of the window.
    Other,
}

impl WindowEvent {
    /// The pointer moved: the one kind of event that input handling consumes.
    pub open spec fn is_pointer_move(self) -> bool {
        self is CursorMoved
    }

    /// The event asks the loop to end: a close request, or Escape going down.
    pub open spec fn is_exit_request(self) -> bool {
        ||| self is CloseRequested
        ||| self == (WindowEvent::KeyboardInput {
            key: KeyCode::Escape,
            state: ElementState::Pressed,
        })
    }

    /// Whether the event asks the loop to end.
    pub fn asks_to_exit(&self) -> (yes: bool)
        ensures
            yes == self.is_exit_request(),
    {
        match self {
            WindowEvent::CloseRequested => true,
            WindowEvent::KeyboardInput { key: KeyCode::Escape, state: ElementState::Pressed } => true,
            _ => false,
        }
    }
}

/// An event of the window system.
#[derive(Clone, Copy, Debug, PartialEq, Eq, Structural)]
pub enum Event {
    /// An event of the window with the identifier `window_id`.
    Window { window_id: u64, event: WindowEvent },
    /// No event is pending: the loop is about to go idle.
    AboutToWait,
    /// Any other event.
    Other,
}

/// What the surroundings of the render loop do after an event.
#[derive(Clone, Copy, Debug, PartialEq, Eq)]
pub enum Action {
    /// Nothing: go on with the next event.
    Continue,
    /// End the loop.
    Exit,
    /// Configure the surface with this configuration.
    Reconfigure(SurfaceConfig),
    /// Draw one frame and report how it ended.
    Render,
    /// Ask the window for one redraw.
    RequestRedraw,
    /// Log that the frame was skipped, and go on.
    ReportSkippedFrame,
}

} // verus!
