//! Interaction events delivered to components.

use crate::geometry::Geometry;
use vstd::prelude::*;

verus! {

/// Event that indicates interaction with a component.
#[derive(Clone, Copy, Debug, Eq, Hash, PartialEq, Structural)]
pub enum Event {
    /// The user clicked on the component.
    ClickEvent(ClickEvent),
    /// The user moved the mouse inside of the component.
    MotionEvent(MotionEvent),
}

/// Mouse buttons, as reported in a [`ClickEvent`].
#[derive(Clone, Copy, Debug, Eq, Hash, Ord, PartialEq, PartialOrd, Structural)]
pub enum MouseButton {
    Left,
    Middle,
    Right,
    WheelUp,
    WheelDown,
}

impl MouseButton {
    /// The button a raw protocol button index stands for. Indices 2 to 5
    /// name the middle and right buttons and the wheel; everything else is
    /// read as the left button.
    pub fn new(index: u8) -> (r: Self)
        ensures
            index == 5 ==> r is WheelDown,
            index == 4 ==> r is WheelUp,
            index == 3 ==> r is Right,
            index == 2 ==> r is Middle,
            index != 2 && index != 3 && index != 4 && index != 5 ==> r is Left,
    {
        match index {
            5 => MouseButton::WheelDown,
            4 => MouseButton::WheelUp,
            3 => MouseButton::Right,
            2 => MouseButton::Middle,
            _ => MouseButton::Left,
        }
    }
}

/// Mouse click on a component.
#[derive(Clone, Copy, Debug, Eq, Hash, PartialEq, Structural)]
pub struct ClickEvent {
    /// The mouse button which has been used to click on the component.
    pub button: MouseButton,
    /// The position relative to the top-left of the component.
    pub position: Geometry,
    /// Whether this is a button release rather than a press.
    pub released: bool,
}

/// Motion inside a component.
#[derive(Clone, Copy, Debug, Eq, Hash, PartialEq, Structural)]
pub struct MotionEvent {
    /// The position the user moved the mouse to.
    pub position: Geometry,
}

impl Event {
    /// Build a click event from the raw fields of a protocol button press or
    /// release notification: button index, modifier state and pointer
    /// position.
    pub fn click(detail: u8, state: u16, x: i16, y: i16) -> (r: Event)
        ensures
            r matches Event::ClickEvent(c)
                && c.button == (if detail == 5 { MouseButton::WheelDown }
                    else if detail == 4 { MouseButton::WheelUp }
                    else if detail == 3 { MouseButton::Right }
                    else if detail == 2 { MouseButton::Middle }
                    else { MouseButton::Left })
                && c.released == (state != 0)
                && c.position == (Geometry { x, y, width: 0u16, height: 0u16 }),
    {
        Event::ClickEvent(ClickEvent {
            button: MouseButton::new(detail),
            released: state != 0,
            position: Geometry::new(x, y, 0, 0),
        })
    }

    /// Build a motion event from a raw pointer position.
    pub fn motion(x: i16, y: i16) -> (r: Event)
        ensures
            r matches Event::MotionEvent(m)
                && m.position == (Geometry { x, y, width: 0u16, height: 0u16 }),
    {
        Event::MotionEvent(MotionEvent { position: Geometry::new(x, y, 0, 0) })
    }

    /// The x-coordinate an event happened at, used to route it to the
    /// component under the pointer.
    pub fn position_x(&self) -> (r: i16)
        ensures
            r == spec_event_x(*self),
    {
        match *self {
            Event::ClickEvent(ref e) => e.position.x,
            Event::MotionEvent(ref e) => e.position.x,
        }
    }

    /// The same event with its x-position shifted left by `dx`: the form a
    /// component sees, relative to its own left edge.
    pub fn shifted_left(&self, dx: i16) -> (r: Event)
        requires
            -0x8000 <= spec_event_x(*self) - dx <= 0x7fff,
        ensures
            r == spec_shift_event(*self, dx as int),
    {
        match *self {
            Event::ClickEvent(e) => Event::ClickEvent(ClickEvent {
                position: Geometry { x: e.position.x - dx, ..e.position },
                ..e
            }),
            Event::MotionEvent(e) => Event::MotionEvent(MotionEvent {
                position: Geometry { x: e.position.x - dx, ..e.position },
            }),
        }
    }
}

/// The x-coordinate carried by an event.
pub open spec fn spec_event_x(e: Event) -> int {
    match e {
        Event::ClickEvent(c) => c.position.x as int,
        Event::MotionEvent(m) => m.position.x as int,
    }
}

/// The event with its x-position shifted left by `dx` and everything else
/// kept.
pub open spec fn spec_shift_event(e: Event, dx: int) -> Event {
    match e {
        Event::ClickEvent(c) => Event::ClickEvent(ClickEvent {
            position: Geometry { x: (c.position.x - dx) as i16, ..c.position },
            ..c
        }),
        Event::MotionEvent(m) => Event::MotionEvent(MotionEvent {
            position: Geometry { x: (m.position.x - dx) as i16, ..m.position },
        }),
    }
}

} // verus!
