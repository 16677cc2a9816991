//! From a raw coordinate of an input surface to a display position.

use vstd::prelude::*;
use crate::geom::Point;
use crate::input::device::{is_rotation, DeviceProfile, InputSurface, Placement};
use crate::input::finger::EvFinger;
use crate::input::rotate::{
    lemma_rotated_part_fits,
    rotate_part,
    rotated_part,
    rotated_point,
    rotated_size,
    CoordinatePart,
    Rotation,
};

verus! {

/// The rotation that takes the portrait frame into the frame of the display
/// at one of its four rotations.
pub open spec fn display_rotation(rotation: i8) -> Rotation {
    if rotation == 0 {
        Rotation::Rot90
    } else if rotation == 1 {
        Rotation::Rot0
    } else if rotation == 2 {
        Rotation::Rot270
    } else {
        Rotation::Rot180
    }
}

/// First stage: the raw coordinate in the portrait frame. The surface's own
/// rotation is undone, then the axes that the mounting mirrors are counted
/// from the far edge.
pub open spec fn portrait_part(placement: Placement, part: CoordinatePart) -> CoordinatePart {
    let size = placement.portrait_size();
    match rotated_part(placement.rotation, part, placement.orig_width, placement.orig_height) {
        CoordinatePart::X(x) => if placement.invert_x {
            CoordinatePart::X((size.0 - x) as u16)
        } else {
            CoordinatePart::X(x)
        },
        CoordinatePart::Y(y) => if placement.invert_y {
            CoordinatePart::Y((size.1 - y) as u16)
        } else {
            CoordinatePart::Y(y)
        },
    }
}

/// Second stage: the portrait coordinate in the frame of the display as it
/// is turned now.
pub open spec fn logical_part(placement: Placement, part: CoordinatePart, rotation: i8)
    -> CoordinatePart {
    let size = placement.portrait_size();
    rotated_part(display_rotation(rotation), portrait_part(placement, part), size.0, size.1)
}

/// A surface coordinate in display pixels: the ratio of the display's width
/// to the surface's width is applied and the fraction dropped; what does not
/// fit in an `i32` becomes the largest one.
pub open spec fn scaled(value: u16, display_width: u16, surface_width: u16) -> i32 {
    let exact = (value as int * display_width as int) / (surface_width as int);
    if exact > i32::MAX {
        i32::MAX
    } else {
        exact as i32
    }
}

/// The contact after one coordinate record: the coordinate goes through
/// both rotations and the scaling and replaces the contact's coordinate on
/// the axis it ends on; the contact has a pending motion.
pub open spec fn positioned(
    profile: DeviceProfile,
    surface: InputSurface,
    part: CoordinatePart,
    rotation: i8,
    finger: EvFinger,
) -> EvFinger {
    let placement = profile.placement(surface);
    let logical = logical_part(placement, part, rotation);
    let pixels = scaled(logical.value(), profile.display_width, placement.portrait_size().0);
    match logical {
        CoordinatePart::X(_) => EvFinger {
            pos: Point { x: pixels, y: finger.pos.y },
            pos_updated: true,
            ..finger
        },
        CoordinatePart::Y(_) => EvFinger {
            pos: Point { x: finger.pos.x, y: pixels },
            pos_updated: true,
            ..finger
        },
    }
}

/// A position of the surface in the portrait frame.
pub open spec fn portrait_point(placement: Placement, x: u16, y: u16) -> (u16, u16) {
    let from_x = portrait_part(placement, CoordinatePart::X(x));
    let from_y = portrait_part(placement, CoordinatePart::Y(y));
    match from_x {
        CoordinatePart::X(_) => (from_x.value(), from_y.value()),
        CoordinatePart::Y(_) => (from_y.value(), from_x.value()),
    }
}

/// A position of the surface in the frame of the display at a rotation,
/// before scaling.
pub open spec fn logical_point(placement: Placement, x: u16, y: u16, rotation: i8) -> (u16, u16) {
    let from_x = logical_part(placement, CoordinatePart::X(x), rotation);
    let from_y = logical_part(placement, CoordinatePart::Y(y), rotation);
    match from_x {
        CoordinatePart::X(_) => (from_x.value(), from_y.value()),
        CoordinatePart::Y(_) => (from_y.value(), from_x.value()),
    }
}

/// The size of the surface in the frame of the display at a rotation.
pub open spec fn logical_size(placement: Placement, rotation: i8) -> (u16, u16) {
    let size = placement.portrait_size();
    rotated_size(display_rotation(rotation), size.0, size.1)
}

/// The rotation of the display that follows a rotation.
pub open spec fn next_rotation(rotation: i8) -> i8 {
    if rotation == 3 {
        0
    } else {
        (rotation + 1) as i8
    }
}

/// The two stages are two rotations of the same position: the second stage
/// is the display's rotation applied to the position in portrait.
pub proof fn lemma_two_stages(placement: Placement, x: u16, y: u16, rotation: i8)
    requires
        x <= placement.orig_width,
        y <= placement.orig_height,
    ensures
        ({
            let upright = portrait_point(placement, x, y);
            let size = placement.portrait_size();
            &&& upright.0 <= size.0
            &&& upright.1 <= size.1
            &&& logical_point(placement, x, y, rotation) == rotated_point(
                display_rotation(rotation),
                upright.0,
                upright.1,
                size.0,
                size.1,
            )
        }),
{
}

/// Turning the display on by one of its four rotations takes every position
/// through one and the same quarter turn; so four such turns in succession
/// bring every position back to where it was, exactly, before scaling.
pub proof fn lemma_display_turns(placement: Placement, x: u16, y: u16, rotation: i8)
    requires
        is_rotation(rotation),
        x <= placement.orig_width,
        y <= placement.orig_height,
    ensures
        ({
            let here = logical_point(placement, x, y, rotation);
            let size = logical_size(placement, rotation);
            &&& here.0 <= size.0
            &&& here.1 <= size.1
            &&& logical_point(placement, x, y, next_rotation(rotation)) == rotated_point(
                Rotation::Rot270,
                here.0,
                here.1,
                size.0,
                size.1,
            )
            &&& logical_size(placement, next_rotation(rotation)) == rotated_size(
                Rotation::Rot270,
                size.0,
                size.1,
            )
            &&& next_rotation(next_rotation(next_rotation(next_rotation(rotation)))) == rotation
        }),
{
}

/// Scaling keeps a coordinate of the surface's width on the display's
/// width, and keeps the order of coordinates.
pub proof fn lemma_scaled_on_display(
    value: u16,
    other: u16,
    display_width: u16,
    surface_width: u16,
)
    requires
        surface_width > 0,
        value <= other,
    ensures
        0 <= scaled(value, display_width, surface_width),
        scaled(value, display_width, surface_width) <= scaled(other, display_width, surface_width),
        other <= surface_width ==> scaled(other, display_width, surface_width) <= display_width,
        scaled(surface_width, display_width, surface_width) == display_width,
        scaled(0, display_width, surface_width) == 0,
{
    let d = display_width as int;
    let w = surface_width as int;
    assert(0 <= value * d <= other * d) by (nonlinear_arith)
        requires
            0 <= value <= other,
            0 <= d,
    ;
    assert((value * d) / w <= (other * d) / w) by (nonlinear_arith)
        requires
            0 <= value * d <= other * d,
            w > 0,
    ;
    assert(0 <= (value * d) / w) by (nonlinear_arith)
        requires
            0 <= value * d,
            w > 0,
    ;
    assert((w * d) / w == d) by (nonlinear_arith)
        requires
            w > 0,
    ;
    if other <= surface_width {
        assert(other * d <= w * d) by (nonlinear_arith)
            requires
                0 <= other <= w,
                0 <= d,
        ;
        assert((other * d) / w <= (w * d) / w) by (nonlinear_arith)
            requires
                other * d <= w * d,
                w > 0,
        ;
    }
    assert((0 * d) / w == 0) by (nonlinear_arith)
        requires
            w > 0,
    ;
}

fn scale(value: u16, display_width: u16, surface_width: u16) -> (pixels: i32)
    requires
        surface_width > 0,
    ensures
        pixels == scaled(value, display_width, surface_width),
{
    assert(value as int * display_width as int <= 65535 * 65535) by (nonlinear_arith)
        requires
            value <= 65535,
            display_width <= 65535,
    ;
    assert(0 <= value as int * display_width as int) by (nonlinear_arith);
    let exact: u64 = (value as u64 * display_width as u64) / (surface_width as u64);
    if exact > i32::MAX as u64 {
        i32::MAX
    } else {
        exact as i32
    }
}

/// Takes one coordinate of a surface into the contact it belongs to.
pub fn update_proper_position(
    profile: &DeviceProfile,
    surface: InputSurface,
    part: CoordinatePart,
    rotation: i8,
    finger: &mut EvFinger,
)
    requires
        profile.wf(),
        is_rotation(rotation),
        part.fits(profile.placement(surface).orig_width, profile.placement(surface).orig_height),
    ensures
        *final(finger) == positioned(*profile, surface, part, rotation, *old(finger)),
{
    let placement = match surface {
        InputSurface::Multitouch => profile.multitouch,
        InputSurface::Wacom => profile.wacom,
    };
    let (width, height) = placement.portrait();

    // Rotate to be in portrait.
    let upright = rotate_part(placement.rotation, part, placement.orig_width, placement.orig_height);
    proof {
        lemma_rotated_part_fits(placement.rotation, part, placement.orig_width, placement.orig_height);
    }
    let upright = match upright {
        CoordinatePart::X(x) => if placement.invert_x {
            CoordinatePart::X(width - x)
        } else {
            upright
        },
        CoordinatePart::Y(y) => if placement.invert_y {
            CoordinatePart::Y(height - y)
        } else {
            upright
        },
    };

    // Rotate to fit the display as it is turned now.
    let turn = if rotation == 0 {
        Rotation::Rot90
    } else if rotation == 1 {
        Rotation::Rot0
    } else if rotation == 2 {
        Rotation::Rot270
    } else {
        Rotation::Rot180
    };
    let logical = rotate_part(turn, upright, width, height);

    // Scale to the display's resolution.
    match logical {
        CoordinatePart::X(value) => {
            finger.pos.x = scale(value, profile.display_width, width);
        },
        CoordinatePart::Y(value) => {
            finger.pos.y = scale(value, profile.display_width, width);
        },
    }
    finger.pos_updated = true;
}

} // verus!
