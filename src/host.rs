use vstd::prelude::*;
use crate::surface::PhysicalSize;

verus! {

/// A window event, reduced to what the host decides on.
#[derive(Clone, Copy, Debug, PartialEq, Eq, Structural)]
pub enum HostEvent {
    CloseRequested,
    /// A key was pressed (not released); `escape` tells whether it was Escape.
    KeyPressed { escape: bool },
    Resized(PhysicalSize),
    ScaleFactorChanged(PhysicalSize),
    Other,
}

/// What the host does with an event after the application has seen it.
#[derive(Clone, Copy, Debug, PartialEq, Eq, Structural)]
pub enum HostAction {
    Exit,
    Resize(PhysicalSize),
    Ignore,
}

pub open spec fn default_action(event: HostEvent) -> HostAction {
    match event {
        HostEvent::CloseRequested => HostAction::Exit,
        HostEvent::KeyPressed { escape } => if escape { HostAction::Exit } else { HostAction::Ignore },
        HostEvent::Resized(size) => HostAction::Resize(size),
        HostEvent::ScaleFactorChanged(size) => HostAction::Resize(size),
        HostEvent::Other => HostAction::Ignore,
    }
}

/// The host's default handling of an event: a close request or Escape ends
/// the loop, a resize or scale change resizes the context. An event that the
/// application reported as consumed gets no default handling.
pub fn handle_event(event: HostEvent, consumed: bool) -> (r: HostAction)
    ensures
        r == if consumed { HostAction::Ignore } else { default_action(event) },
{
    if consumed {
        return HostAction::Ignore;
    }
    match event {
        HostEvent::CloseRequested => HostAction::Exit,
        HostEvent::KeyPressed { escape } => if escape { HostAction::Exit } else { HostAction::Ignore },
        HostEvent::Resized(size) => HostAction::Resize(size),
        HostEvent::ScaleFactorChanged(size) => HostAction::Resize(size),
        HostEvent::Other => HostAction::Ignore,
    }
}

} // verus!
