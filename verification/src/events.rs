//! The window event dispatcher: a pure state machine that maps each window
//! event to the action the platform adapter must perform. Keeping this
//! mapping here, as a single entry point with an exact contract, lets the
//! adapter loop stay a thin shell and makes the dispatch testable with
//! synthetic events.

use vstd::prelude::*;

verus! {

/// One window event, as the platform adapter reports it: a resize with the
/// new client-area size in pixels, a redraw request, a close request, a key
/// press (reduced to what the dispatch reads: whether it is the escape key
/// and whether it is an auto-repeat), or anything else.
#[derive(Clone, Copy, PartialEq, Eq, Structural, Debug)]
pub enum Event {
    Resized(u32, u32),
    RedrawRequested,
    CloseRequested,
    KeyPressed { escape: bool, repeat: bool },
    Other,
}

/// The operation the adapter must perform in response to an event.
#[derive(Clone, Copy, PartialEq, Eq, Structural, Debug)]
pub enum Op {
    /// Reconfigure the renderer to the given size.
    Resize(u32, u32),
    /// Render and present one frame.
    Render,
    /// Terminate the application.
    Exit,
    /// Do nothing.
    Nothing,
}

/// The full response to an event: an operation, and whether the adapter must
/// request another redraw afterwards (this is what keeps the render loop
/// running).
#[derive(Clone, Copy, PartialEq, Eq, Structural, Debug)]
pub struct Action {
    pub op: Op,
    pub request_redraw: bool,
}

/// What `on_event` returns for each event: a resize is followed by a redraw
/// request, a redraw request renders and requests the next one, a close
/// request or a non-repeated escape key press exits, and every other event is
/// ignored.
pub open spec fn spec_on_event(e: Event) -> Action {
    match e {
        Event::Resized(w, h) => Action { op: Op::Resize(w, h), request_redraw: true },
        Event::RedrawRequested => Action { op: Op::Render, request_redraw: true },
        Event::CloseRequested => Action { op: Op::Exit, request_redraw: false },
        Event::KeyPressed { escape, repeat } => if escape && !repeat {
            Action { op: Op::Exit, request_redraw: false }
        } else {
            Action { op: Op::Nothing, request_redraw: false }
        },
        Event::Other => Action { op: Op::Nothing, request_redraw: false },
    }
}

/// The single event entry point the platform adapter calls.
pub fn on_event(event: &Event) -> (a: Action)
    ensures
        a == spec_on_event(*event),
{
    match event {
        Event::Resized(w, h) => Action { op: Op::Resize(*w, *h), request_redraw: true },
        Event::RedrawRequested => Action { op: Op::Render, request_redraw: true },
        Event::CloseRequested => Action { op: Op::Exit, request_redraw: false },
        Event::KeyPressed { escape, repeat } => {
            if *escape && !*repeat {
                Action { op: Op::Exit, request_redraw: false }
            } else {
                Action { op: Op::Nothing, request_redraw: false }
            }
        },
        Event::Other => Action { op: Op::Nothing, request_redraw: false },
    }
}

} // verus!
