//! What reaches the render loop from the window system, and what the loop makes of it.

use vstd::prelude::*;
use crate::geometry::{Resize, Size};

verus! {

/// The keys that the loop itself reacts to.
#[derive(Clone, Copy, Debug, PartialEq, Eq, Structural)]
pub enum Key {
    /// Leaves the viewer.
    Escape,
    /// Switches the backend's instrumentation on or off.
    R,
    /// Any other key, or one that the window system could not name.
    Other,
}

/// One event of the window system, reduced to what the loop reads of it.
#[derive(Clone, Copy, Debug, PartialEq, Eq, Structural)]
pub enum Event {
    /// The window has a new size.
    Resized(Resize),
    /// The user asked to close the window.
    CloseRequested,
    /// A key went down or up.
    Keyboard { key: Key, pressed: bool },
    /// Any other event of the window: pointer, focus, text, touch.
    OtherWindowEvent,
    /// An event that is not the window's: a wake-up, a raw device event.
    Unrelated,
}

/// Whether the scene has to be built anew.
#[derive(Clone, Copy, Debug, PartialEq, Eq, Structural)]
pub enum RebuildDecision {
    Rebuild,
    NoOp,
}

impl RebuildDecision {
    /// The decision that follows from the application's answer to an event: it
    /// answers `true` when what it shows has changed.
    pub fn from_adapter(changed: bool) -> (d: RebuildDecision)
        ensures
            d == (if changed {
                RebuildDecision::Rebuild
            } else {
                RebuildDecision::NoOp
            }),
    {
        if changed {
            RebuildDecision::Rebuild
        } else {
            RebuildDecision::NoOp
        }
    }
}

/// Where an event goes once the loop has done its own part.
#[derive(Clone, Copy, Debug, PartialEq, Eq, Structural)]
pub enum Routing {
    /// The loop ends here.
    Stop,
    /// The application is to see the event, with this logical size to lay out in; its
    /// answer decides whether the scene is rebuilt.
    Delegate { layout: Size },
    /// Nobody needs to see the event.
    Ignore,
}

impl Routing {
    /// The logical size that the application is to lay out in, where the event is
    /// delegated to it.
    pub fn layout(self) -> (l: Option<Size>)
        ensures
            l == (match self {
                Routing::Delegate { layout } => Some(layout),
                _ => None,
            }),
    {
        match self {
            Routing::Delegate { layout } => Some(layout),
            _ => None,
        }
    }

    /// Whether the loop ends with this event.
    pub fn is_stop(self) -> (b: bool)
        ensures
            b == (self == Routing::Stop),
    {
        match self {
            Routing::Stop => true,
            _ => false,
        }
    }
}

} // verus!
