//! The vocabulary of the kernel's input-event protocol, as far as the
//! translator reads it.

use vstd::prelude::*;

verus! {

// Event types
pub const EV_SYN: u16 = 0x00;
pub const EV_KEY: u16 = 0x01;
pub const EV_ABS: u16 = 0x03;
pub const EV_MSC: u16 = 0x04;

// Event codes
pub const ABS_MT_TRACKING_ID: u16 = 0x39;
pub const ABS_MT_SLOT: u16 = 0x2f;
pub const ABS_MT_POSITION_X: u16 = 0x35;
pub const ABS_MT_POSITION_Y: u16 = 0x36;
pub const ABS_MT_PRESSURE: u16 = 0x3a;
pub const ABS_MT_TOUCH_MAJOR: u16 = 0x30;
pub const SYN_MT_REPORT: u16 = 0x02;
/// Stylus X axis.
pub const ABS_X: u16 = 0x00;
/// Stylus Y axis.
pub const ABS_Y: u16 = 0x01;
/// Stylus pressure axis.
pub const ABS_PRESSURE: u16 = 0x18;
pub const MSC_RAW: u16 = 0x03;
pub const SYN_REPORT: u16 = 0x00;

// Event values
pub const MSC_RAW_GSENSOR_PORTRAIT_DOWN: i32 = 0x17;
pub const MSC_RAW_GSENSOR_PORTRAIT_UP: i32 = 0x18;
pub const MSC_RAW_GSENSOR_LANDSCAPE_RIGHT: i32 = 0x19;
pub const MSC_RAW_GSENSOR_LANDSCAPE_LEFT: i32 = 0x1a;

/// The tracking id that says a contact was lifted.
pub const TRACKING_ID_LIFTED: i32 = -1;

pub const VAL_RELEASE: i32 = 0;
pub const VAL_PRESS: i32 = 1;
pub const VAL_REPEAT: i32 = 2;

// Key codes
pub const KEY_POWER: u16 = 116;
pub const KEY_HOME: u16 = 102;
pub const KEY_LIGHT: u16 = 90;
pub const KEY_BACKWARD: u16 = 105;
pub const KEY_FORWARD: u16 = 106;
pub const PEN_ERASE: u16 = 331;
pub const PEN_HIGHLIGHT: u16 = 332;
/// The two codes of the cover sensor.
pub const SLEEP_COVER: [u16; 2] = [59, 35];
/// Synthetic touch button; it repeats what the contact records say.
pub const BTN_TOUCH: u16 = 330;

// Synthetic key codes that carry software toggles in the key stream.
pub const KEY_ROTATE_DISPLAY: u16 = 0xffff;
pub const KEY_BUTTON_SCHEME: u16 = 0xfffe;

/// The slot of the stylus.
pub const PEN_SLOT: i32 = 100;

/// Seconds between two reports of user activity.
pub const ACTIVITY_PERIOD: i64 = 60;

/// The accelerometer's orientation values in clockwise order; the index of a
/// value is the rotation it stands for before the device's own transform.
pub const GYROSCOPE_ROTATIONS: [i32; 4] = [
    MSC_RAW_GSENSOR_LANDSCAPE_LEFT,
    MSC_RAW_GSENSOR_PORTRAIT_UP,
    MSC_RAW_GSENSOR_LANDSCAPE_RIGHT,
    MSC_RAW_GSENSOR_PORTRAIT_DOWN,
];

/// The axis codes of one touch protocol.
#[derive(Debug, Copy, Clone, PartialEq, Eq, Structural)]
pub struct TouchCodes {
    pub pressure: u16,
    pub x: u16,
    pub y: u16,
}

/// The touch protocols a panel may speak.
#[derive(Debug, Copy, Clone, PartialEq, Eq, Structural)]
pub enum TouchProto {
    Single,
    MultiA,
    MultiB,
    MultiC,
}

impl TouchProto {
    /// The axis codes that carry pressure and position under this protocol.
    pub open spec fn spec_codes(self) -> TouchCodes {
        match self {
            TouchProto::Single => TouchCodes { pressure: ABS_PRESSURE, x: ABS_X, y: ABS_Y },
            TouchProto::MultiA => TouchCodes {
                pressure: ABS_MT_TOUCH_MAJOR,
                x: ABS_MT_POSITION_X,
                y: ABS_MT_POSITION_Y,
            },
            TouchProto::MultiB | TouchProto::MultiC => TouchCodes {
                pressure: ABS_MT_PRESSURE,
                x: ABS_MT_POSITION_X,
                y: ABS_MT_POSITION_Y,
            },
        }
    }

    /// The axis codes of this protocol.
    pub fn codes(self) -> (codes: TouchCodes)
        ensures
            codes == self.spec_codes(),
    {
        match self {
            TouchProto::Single => TouchCodes { pressure: ABS_PRESSURE, x: ABS_X, y: ABS_Y },
            TouchProto::MultiA => TouchCodes {
                pressure: ABS_MT_TOUCH_MAJOR,
                x: ABS_MT_POSITION_X,
                y: ABS_MT_POSITION_Y,
            },
            TouchProto::MultiB | TouchProto::MultiC => TouchCodes {
                pressure: ABS_MT_PRESSURE,
                x: ABS_MT_POSITION_X,
                y: ABS_MT_POSITION_Y,
            },
        }
    }
}

} // verus!
