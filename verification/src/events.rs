//! What the panel does on each event of its window.
//!
//! The window system hands the panel one event after another. For each, the
//! panel decides whether the event goes on to the widgets, whether the loop
//! ends, whether a note is written, and whether a frame is drawn or asked for.
//! The decision is a function of the event alone; carrying it out is the
//! caller's part.

use vstd::prelude::*;

verus! {

/// The keys that the panel tells apart.
#[derive(Clone, Copy, Debug, PartialEq, Eq, Structural)]
pub enum Key {
    F1,
    Other,
}

/// Whether a key went down or came up.
#[derive(Clone, Copy, Debug, PartialEq, Eq, Structural)]
pub enum KeyState {
    Pressed,
    Released,
}

/// An event of the panel's window.
#[derive(Clone, Copy, Debug, PartialEq, Eq, Structural)]
pub enum WindowEvent {
    /// The user asked to close the window.
    CloseRequested,
    /// A key changed state; `key` is `None` where the key has no name.
    KeyboardInput { key: Option<Key>, state: KeyState },
    /// Any other event of the window.
    Other,
}

/// An event of the loop.
#[derive(Clone, Copy, Debug, PartialEq, Eq, Structural)]
pub enum Event {
    /// All pending events have been handed out.
    MainEventsCleared,
    /// The window wants its contents drawn.
    RedrawRequested,
    /// All redraw requests have been handed out.
    RedrawEventsCleared,
    /// Something happened to the window.
    Window(WindowEvent),
    /// Any other event.
    Other,
}

/// What the loop does on one event. The steps that are set are carried out in
/// the order of the fields.
#[derive(Clone, Copy, Debug, PartialEq, Eq, Structural)]
pub struct Reaction {
    /// Hand the event to the widgets.
    pub forward_to_gui: bool,
    /// End the loop.
    pub exit: bool,
    /// Write the note that F1 went down.
    pub log_f1: bool,
    /// Draw a frame now.
    pub redraw: bool,
    /// Ask the window for another redraw.
    pub request_redraw: bool,
}

impl Event {
    /// The event is a key press of F1.
    pub open spec fn is_f1_press(self) -> bool {
        self == Event::Window(
            WindowEvent::KeyboardInput { key: Some(Key::F1), state: KeyState::Pressed },
        )
    }

    /// The event makes the panel draw a frame. Where the platform draws once
    /// the redraw requests are cleared, a single request is answered there and
    /// again, like any other, here.
    pub open spec fn draws(self, draw_on_cleared: bool) -> bool {
        ||| self is MainEventsCleared
        ||| self is RedrawRequested
        ||| self is RedrawEventsCleared && draw_on_cleared
    }

    /// The event makes the panel ask for a further redraw, which keeps the
    /// frames coming: every event of the window does, and every frame drawn
    /// outside the platform's own redraw step.
    pub open spec fn keeps_drawing(self, draw_on_cleared: bool) -> bool {
        ||| self is Window
        ||| self is MainEventsCleared
        ||| self is RedrawRequested && draw_on_cleared
    }
}

/// Decides what the loop does on `event`.
///
/// `draw_on_cleared` says that the platform draws when the redraw requests are
/// cleared, as Windows does, and not on each request.
pub fn react(event: Event, draw_on_cleared: bool) -> (reaction: Reaction)
    ensures
        reaction.forward_to_gui == (event is Window),
        reaction.exit == (event == Event::Window(WindowEvent::CloseRequested)),
        reaction.log_f1 == event.is_f1_press(),
        reaction.redraw == event.draws(draw_on_cleared),
        reaction.request_redraw == event.keeps_drawing(draw_on_cleared),
{
    let idle = Reaction {
        forward_to_gui: false,
        exit: false,
        log_f1: false,
        redraw: false,
        request_redraw: false,
    };
    match event {
        Event::RedrawEventsCleared => Reaction { redraw: draw_on_cleared, ..idle },
        Event::RedrawRequested => Reaction {
            redraw: true,
            request_redraw: draw_on_cleared,
            ..idle
        },
        Event::Window(window_event) => {
            let seen = Reaction { forward_to_gui: true, request_redraw: true, ..idle };
            match window_event {
                WindowEvent::CloseRequested => Reaction { exit: true, ..seen },
                WindowEvent::KeyboardInput { key: Some(Key::F1), state: KeyState::Pressed } => {
                    Reaction { log_f1: true, ..seen }
                },
                _ => seen,
            }
        },
        Event::MainEventsCleared => Reaction { redraw: true, request_redraw: true, ..idle },
        Event::Other => idle,
    }
}

/// The frames never stop: whatever the platform, drawing on a cleared main
/// queue asks for a redraw, and so does every event of the window.
pub proof fn redraw_is_continuous(event: Event, draw_on_cleared: bool)
    ensures
        event is MainEventsCleared ==> event.draws(draw_on_cleared) && event.keeps_drawing(
            draw_on_cleared,
        ),
        event is Window ==> event.keeps_drawing(draw_on_cleared),
        event.draws(draw_on_cleared) && !event.keeps_drawing(draw_on_cleared) ==> (event
            is RedrawRequested && !draw_on_cleared) || (event is RedrawEventsCleared
            && draw_on_cleared),
{
}

} // verus!
