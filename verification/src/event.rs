//! The event taxonomy and the source that yields events.
//!
//! An [`Event`] is a tagged union with mutually exclusive categories; it is
//! produced outside the core and read-only to it. An [`EventSource`] hands
//! events to the pump loop one at a time, in order, and signals exhaustion
//! by returning `None`.

use vstd::prelude::*;

use crate::geometry::Point;

verus! {

/// Whether a button changed to pressed or to released.
#[derive(Clone, Copy, Debug, PartialEq, Eq, Structural)]
pub enum ButtonState {
    Press,
    Release,
}

/// A keyboard key. Only the shift keys steer the editor; every other key is
/// carried as `Other`.
#[derive(Clone, Copy, Debug, PartialEq, Eq, Structural)]
pub enum Key {
    LShift,
    RShift,
    Other,
}

/// A mouse button. Only the left button steers the editor.
#[derive(Clone, Copy, Debug, PartialEq, Eq, Structural)]
pub enum MouseButton {
    Left,
    Right,
    Middle,
    Other,
}

/// The button a press or release event speaks of.
#[derive(Clone, Copy, Debug, PartialEq, Eq, Structural)]
pub enum Button {
    Keyboard(Key),
    Mouse(MouseButton),
    Other,
}

/// Payload of a button event: which button, and in which direction it moved.
#[derive(Clone, Copy, Debug, PartialEq, Eq, Structural)]
pub struct ButtonArgs {
    pub state: ButtonState,
    pub button: Button,
}

/// Payload of a controller axis event.
#[derive(Clone, Copy, Debug, PartialEq, Eq, Structural)]
pub struct ControllerAxisArgs {
    /// The controller the axis belongs to.
    pub id: u32,
    /// The axis that moved.
    pub axis: u8,
    /// The new axis position, in thousandths of the full deflection.
    pub position: i64,
}

/// Payload of a touch event.
#[derive(Clone, Copy, Debug, PartialEq, Eq, Structural)]
pub struct TouchArgs {
    /// The finger or stylus the event speaks of.
    pub id: u64,
    pub x: i64,
    pub y: i64,
}

/// Payload of an idle event: how long the loop idled, in microseconds.
#[derive(Clone, Copy, Debug, PartialEq, Eq, Structural)]
pub struct IdleArgs {
    pub dt_us: u64,
}

/// Payload of an update event: the timestep, in microseconds.
#[derive(Clone, Copy, Debug, PartialEq, Eq, Structural)]
pub struct UpdateArgs {
    pub dt_us: u64,
}

/// Payload of a render event: the current drawable size, in pixels.
#[derive(Clone, Copy, Debug, PartialEq, Eq, Structural)]
pub struct RenderArgs {
    pub width: u32,
    pub height: u32,
}

/// Payload of a resize event: the new window size, in pixels.
#[derive(Clone, Copy, Debug, PartialEq, Eq, Structural)]
pub struct ResizeArgs {
    pub width: u32,
    pub height: u32,
}

/// One raw event. Each variant is one category; the categories are mutually
/// exclusive by construction. `Unclassified` stands for an event that the
/// source could not place in any category; dispatching it is an error.
#[derive(Debug)]
pub enum Event {
    Button(ButtonArgs),
    ControllerAxis(ControllerAxisArgs),
    MouseCursor(Point),
    MouseRelative(Point),
    MouseScroll(Point),
    Press(Button),
    Release(Button),
    Text(String),
    Touch(TouchArgs),
    Idle(IdleArgs),
    Update(UpdateArgs),
    AfterRender,
    Close,
    Cursor(bool),
    Focus(bool),
    Render(RenderArgs),
    Resize(ResizeArgs),
    Unclassified,
}

/// A source of events, consumed by the pump loop.
///
/// `remaining` is the ghost sequence of events the source will still yield,
/// oldest first; `next_event` yields them strictly in that order and returns
/// `None` exactly when the sequence is exhausted.
pub trait EventSource {
    spec fn remaining(&self) -> Seq<Event>;

    fn next_event(&mut self) -> (r: Option<Event>)
        ensures
            match r {
                Some(e) => {
                    &&& old(self).remaining().len() > 0
                    &&& e == old(self).remaining()[0]
                    &&& final(self).remaining() == old(self).remaining().drop_first()
                },
                None => {
                    &&& old(self).remaining().len() == 0
                    &&& final(self).remaining().len() == 0
                },
            },
    ;
}

/// An event source that replays a fixed list of events.
pub struct ScriptedEventSource {
    events: Vec<Event>,
}

impl ScriptedEventSource {
    /// A source that will yield exactly `events`, in order.
    pub fn new(events: Vec<Event>) -> (s: ScriptedEventSource)
        ensures
            s.remaining() == events@,
    {
        ScriptedEventSource { events }
    }
}

impl EventSource for ScriptedEventSource {
    closed spec fn remaining(&self) -> Seq<Event> {
        self.events@
    }

    fn next_event(&mut self) -> (r: Option<Event>) {
        if self.events.len() == 0 {
            None
        } else {
            let e = self.events.remove(0);
            proof {
                assert(self.events@ =~= old(self).events@.drop_first());
            }
            Some(e)
        }
    }
}

} // verus!
