//! What the translator has to know of the device it runs on.

use vstd::prelude::*;
use crate::input::rotate::{rotate_size, rotated_size, Rotation};

verus! {

/// The two surfaces that report positions.
#[derive(Debug, Copy, Clone, PartialEq, Eq, Structural)]
pub enum InputSurface {
    Multitouch,
    Wacom,
}

/// How an input surface is mounted: the rotation that brings it into the
/// portrait frame with the origin at the top left, the axes to mirror after
/// that rotation, and the largest coordinates it reports, unrotated.
#[derive(Debug, Copy, Clone, PartialEq, Eq, Structural)]
pub struct Placement {
    pub rotation: Rotation,
    pub invert_x: bool,
    pub invert_y: bool,
    pub orig_width: u16,
    pub orig_height: u16,
}

impl Placement {
    /// The surface's size in the portrait frame.
    pub open spec fn portrait_size(self) -> (u16, u16) {
        rotated_size(self.rotation, self.orig_width, self.orig_height)
    }

    /// Width and height of the surface in the portrait frame.
    pub fn portrait(&self) -> (size: (u16, u16))
        ensures
            size == self.portrait_size(),
    {
        rotate_size(self.rotation, self.orig_width, self.orig_height)
    }
}

/// The device's quirks, given to the translator when it is made.
#[derive(Debug, Copy, Clone)]
pub struct DeviceProfile {
    pub multitouch: Placement,
    pub wacom: Placement,
    /// The display's width in pixels, in portrait.
    pub display_width: u16,
    /// For each of the four display rotations, whether the page-turn
    /// buttons change places.
    pub invert_buttons: [bool; 4],
    /// For each index of the accelerometer's orientations, the display
    /// rotation it asks for on this device.
    pub gyroscope_rotations: [i8; 4],
}

/// One of the four states of the display's rotation.
pub open spec fn is_rotation(rotation: i8) -> bool {
    0 <= rotation <= 3
}

impl DeviceProfile {
    /// Both surfaces have a width to scale by.
    pub open spec fn wf(self) -> bool {
        &&& self.multitouch.portrait_size().0 > 0
        &&& self.wacom.portrait_size().0 > 0
    }

    /// Whether the profile can be used, which is to say that it is
    /// well-formed.
    pub fn is_usable(&self) -> (usable: bool)
        ensures
            usable == self.wf(),
    {
        self.multitouch.portrait().0 > 0 && self.wacom.portrait().0 > 0
    }

    /// The mounting of a surface.
    pub open spec fn placement(self, surface: InputSurface) -> Placement {
        match surface {
            InputSurface::Multitouch => self.multitouch,
            InputSurface::Wacom => self.wacom,
        }
    }

    /// The device's own inversion of the page-turn buttons: what the table
    /// says for one of the four rotations, and none for any other value.
    pub open spec fn inverts_buttons(self, rotation: i8) -> bool {
        is_rotation(rotation) && self.invert_buttons[rotation as int]
    }

    /// Whether the page-turn buttons change places at this rotation.
    pub fn should_invert_buttons(&self, rotation: i8) -> (invert: bool)
        ensures
            invert == self.inverts_buttons(rotation),
    {
        0 <= rotation && rotation <= 3 && self.invert_buttons[rotation as usize]
    }

    /// The rotation that the orientation of an index asks for.
    pub open spec fn gyroscope_rotation(self, index: int) -> i8
        recommends
            0 <= index < 4,
    {
        self.gyroscope_rotations[index]
    }

    /// The display rotation that the accelerometer's orientation of this
    /// index asks for.
    pub fn transformed_gyroscope_rotation(&self, index: usize) -> (rotation: i8)
        requires
            index < 4,
        ensures
            rotation == self.gyroscope_rotation(index as int),
    {
        self.gyroscope_rotations[index]
    }
}

} // verus!
