//! What the windowing system tells the frame loop, reduced to what the loop
//! decides on.

use vstd::prelude::*;
use crate::size::Size;

verus! {

/// Identifies a window among those of the process.
pub type WindowId = u64;

/// Whether a key went down or came up.
#[derive(Clone, Copy, Debug, PartialEq, Eq, Structural)]
pub enum ElementState {
    Pressed,
    Released,
}

/// The key a keyboard event is about, as far as the frame loop cares.
#[derive(Clone, Copy, Debug, PartialEq, Eq, Structural)]
pub enum KeyCode {
    Escape,
    Other,
}

/// An event addressed to one window.
#[derive(Clone, Copy, Debug, PartialEq, Eq, Structural)]
pub enum WindowEvent {
    /// The drawable area now has this extent.
    Resized(Size),
    /// The scale factor changed, and with it the drawable area's extent.
    ScaleFactorChanged { new_inner_size: Size },
    /// The user asked for the window to be closed.
    CloseRequested,
    /// A key changed state. `key` is `None` where the platform could not
    /// name it.
    KeyboardInput { state: ElementState, key: Option<KeyCode> },
    /// Anything else.
    Other,
}

impl WindowEvent {
    /// The extent the event announces, if it announces one.
    pub open spec fn announced_size(self) -> Option<Size> {
        match self {
            WindowEvent::Resized(size) => Some(size),
            WindowEvent::ScaleFactorChanged { new_inner_size } => Some(new_inner_size),
            _ => None,
        }
    }

    /// Whether the event ends the program: a request to close the window, or
    /// the escape key coming up.
    pub open spec fn asks_to_quit(self) -> bool {
        ||| self is CloseRequested
        ||| self == (WindowEvent::KeyboardInput {
            state: ElementState::Released,
            key: Some(KeyCode::Escape),
        })
    }
}

/// One event of the windowing system's event loop.
#[derive(Clone, Copy, Debug, PartialEq, Eq, Structural)]
pub enum Event {
    /// All pending window events of this iteration have been delivered.
    MainEventsCleared,
    /// The window's contents have to be drawn again.
    RedrawRequested { window: WindowId },
    /// Something happened to a window.
    WindowEvent { window: WindowId, event: WindowEvent },
    /// Anything else.
    Other,
}

} // verus!
