//! Raw records as the kernel hands them out, and the device events the
//! translator makes of them.

use vstd::prelude::*;
use crate::geom::Point;
use crate::input::codes::{EV_KEY, KEY_BUTTON_SCHEME, KEY_ROTATE_DISPLAY, VAL_PRESS, VAL_RELEASE, VAL_REPEAT};

verus! {

/// A point in time by the device clock.
#[derive(Debug, Copy, Clone, PartialEq, Eq, Structural)]
pub struct TimeVal {
    pub sec: i64,
    pub usec: i64,
}

/// One record of a device file.
#[derive(Debug, Copy, Clone, PartialEq, Eq, Structural)]
pub struct InputEvent {
    pub time: TimeVal,
    pub kind: u16,
    pub code: u16,
    pub value: i32,
}

/// Asks the reader to stop or to resume watching one device file.
#[derive(Debug)]
pub struct InputFilterCommand {
    pub path: String,
    pub filtered: bool,
}

/// What a report says of a contact.
#[derive(Debug, Copy, Clone, PartialEq, Eq, Structural)]
pub enum FingerStatus {
    Down,
    Motion,
    Up,
}

/// What a key record says of its button.
#[derive(Debug, Copy, Clone, PartialEq, Eq, Structural)]
pub enum ButtonStatus {
    Pressed,
    Released,
    Repeated,
}

impl ButtonStatus {
    /// The status that a key record's value stands for, if any.
    pub open spec fn of_raw(value: i32) -> Option<ButtonStatus> {
        if value == VAL_RELEASE {
            Some(ButtonStatus::Released)
        } else if value == VAL_PRESS {
            Some(ButtonStatus::Pressed)
        } else if value == VAL_REPEAT {
            Some(ButtonStatus::Repeated)
        } else {
            None
        }
    }

    /// The status of a key record's value; none for a value that is none
    /// of the three.
    pub fn try_from_raw(value: i32) -> (status: Option<ButtonStatus>)
        ensures
            status == ButtonStatus::of_raw(value),
    {
        if value == VAL_RELEASE {
            Some(ButtonStatus::Released)
        } else if value == VAL_PRESS {
            Some(ButtonStatus::Pressed)
        } else if value == VAL_REPEAT {
            Some(ButtonStatus::Repeated)
        } else {
            None
        }
    }
}

/// A logical button; `Raw` carries a code that has no name here.
#[derive(Debug, Copy, Clone, PartialEq, Eq, Hash, Structural)]
pub enum ButtonCode {
    Power,
    Home,
    Light,
    Backward,
    Forward,
    Erase,
    Highlight,
    Raw(u16),
}

/// Which way the page-turn buttons read.
#[derive(Debug, Copy, Clone, PartialEq, Eq, Structural)]
pub enum ButtonScheme {
    Natural,
    Inverted,
}

/// Where power comes from when the device is plugged in.
#[derive(Debug, Copy, Clone, PartialEq, Eq, Structural)]
pub enum PowerSource {
    Host,
    Wall,
}

/// The logical size and rotation of the display.
#[derive(Debug, Copy, Clone)]
pub struct Display {
    pub dims: (u32, u32),
    pub rotation: i8,
}

/// What the translator tells the application.
#[allow(inconsistent_fields)]
#[derive(Debug, Copy, Clone, PartialEq, Eq, Structural)]
pub enum DeviceEvent {
    Finger { id: i32, time: TimeVal, status: FingerStatus, position: Point },
    Button { time: TimeVal, code: ButtonCode, status: ButtonStatus },
    Plug(PowerSource),
    Unplug(PowerSource),
    RotateScreen(i8),
    CoverOn,
    CoverOff,
    NetUp,
    UserActivity,
}

/// The synthetic key record that tells the translator the display's new
/// rotation.
pub fn display_rotate_event(time: TimeVal, n: i8) -> (evt: InputEvent)
    ensures
        evt == (InputEvent { time, kind: EV_KEY, code: KEY_ROTATE_DISPLAY, value: n as i32 }),
{
    InputEvent { time, kind: EV_KEY, code: KEY_ROTATE_DISPLAY, value: n as i32 }
}

/// The synthetic key record that sets the button scheme: `VAL_PRESS` for the
/// inverted scheme, anything else for the natural one.
pub fn button_scheme_event(time: TimeVal, v: i32) -> (evt: InputEvent)
    ensures
        evt == (InputEvent { time, kind: EV_KEY, code: KEY_BUTTON_SCHEME, value: v }),
{
    InputEvent { time, kind: EV_KEY, code: KEY_BUTTON_SCHEME, value: v }
}

} // verus!
