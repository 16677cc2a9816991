//! Rotation of single coordinates between the frame of an input surface and
//! the frame of the display.
//!
//! The rotation itself is libremarkable's; this module states what it does
//! and builds the two-stage transform of the translator on it.

use vstd::prelude::*;

verus! {

/// A quarter-turn rotation that brings a surface into another frame.
#[derive(Debug, Copy, Clone, PartialEq, Eq, Structural)]
pub enum Rotation {
    Rot0,
    Rot90,
    Rot180,
    Rot270,
}

/// One coordinate of a position, tagged with its axis.
#[derive(Debug, Copy, Clone, PartialEq, Eq, Structural)]
pub enum CoordinatePart {
    X(u16),
    Y(u16),
}

impl CoordinatePart {
    /// The coordinate lies on a surface whose largest coordinates are
    /// `width` and `height`.
    pub open spec fn fits(self, width: u16, height: u16) -> bool {
        match self {
            CoordinatePart::X(x) => x <= width,
            CoordinatePart::Y(y) => y <= height,
        }
    }

    pub open spec fn value(self) -> u16 {
        match self {
            CoordinatePart::X(x) => x,
            CoordinatePart::Y(y) => y,
        }
    }
}

/// Where one coordinate of a surface of the given size goes under a
/// rotation. A quarter turn swaps the axes, and a coordinate that runs
/// against its new axis is counted from the far edge.
pub open spec fn rotated_part(rotation: Rotation, part: CoordinatePart, width: u16, height: u16)
    -> CoordinatePart {
    match part {
        CoordinatePart::X(x) => match rotation {
            Rotation::Rot0 => CoordinatePart::X(x),
            Rotation::Rot90 => CoordinatePart::Y(x),
            Rotation::Rot180 => CoordinatePart::X((width - x) as u16),
            Rotation::Rot270 => CoordinatePart::Y((width - x) as u16),
        },
        CoordinatePart::Y(y) => match rotation {
            Rotation::Rot0 => CoordinatePart::Y(y),
            Rotation::Rot90 => CoordinatePart::X((height - y) as u16),
            Rotation::Rot180 => CoordinatePart::Y((height - y) as u16),
            Rotation::Rot270 => CoordinatePart::X(y),
        },
    }
}

/// The size of a surface after a rotation: a quarter turn swaps the sides.
pub open spec fn rotated_size(rotation: Rotation, width: u16, height: u16) -> (u16, u16) {
    match rotation {
        Rotation::Rot0 | Rotation::Rot180 => (width, height),
        Rotation::Rot90 | Rotation::Rot270 => (height, width),
    }
}

/// A position of a surface under a rotation, both coordinates at once.
pub open spec fn rotated_point(rotation: Rotation, x: u16, y: u16, width: u16, height: u16) -> (
    u16,
    u16,
) {
    let from_x = rotated_part(rotation, CoordinatePart::X(x), width, height);
    let from_y = rotated_part(rotation, CoordinatePart::Y(y), width, height);
    match from_x {
        CoordinatePart::X(_) => (from_x.value(), from_y.value()),
        CoordinatePart::Y(_) => (from_y.value(), from_x.value()),
    }
}

/// Calls `InputDeviceRotation::rotate_part` of libremarkable on a size of
/// `width` by `height`. The contract repeats its eight arms. The subtraction
/// from the size is the crate's plain `-` on `u16`, which fails below zero:
/// the coordinate has to lie on the surface.
#[verifier::external_body]
pub(crate) fn rotate_part(rotation: Rotation, part: CoordinatePart, width: u16, height: u16) -> (out:
    CoordinatePart)
    requires
        part.fits(width, height),
    ensures
        out == rotated_part(rotation, part, width, height),
{
    let outside = match rotation {
        Rotation::Rot0 => libremarkable::device::rotate::InputDeviceRotation::Rot0,
        Rotation::Rot90 => libremarkable::device::rotate::InputDeviceRotation::Rot90,
        Rotation::Rot180 => libremarkable::device::rotate::InputDeviceRotation::Rot180,
        Rotation::Rot270 => libremarkable::device::rotate::InputDeviceRotation::Rot270,
    };
    let seg = match part {
        CoordinatePart::X(x) => libremarkable::device::rotate::CoordinatePart::X(x),
        CoordinatePart::Y(y) => libremarkable::device::rotate::CoordinatePart::Y(y),
    };
    match outside.rotate_part(seg, &libremarkable::cgmath::Vector2 { x: width, y: height }) {
        libremarkable::device::rotate::CoordinatePart::X(x) => CoordinatePart::X(x),
        libremarkable::device::rotate::CoordinatePart::Y(y) => CoordinatePart::Y(y),
    }
}

/// Calls `InputDeviceRotation::rotated_size` of libremarkable, which swaps
/// the two sides for a quarter turn and keeps them otherwise.
#[verifier::external_body]
pub(crate) fn rotate_size(rotation: Rotation, width: u16, height: u16) -> (out: (u16, u16))
    ensures
        out == rotated_size(rotation, width, height),
{
    let outside = match rotation {
        Rotation::Rot0 => libremarkable::device::rotate::InputDeviceRotation::Rot0,
        Rotation::Rot90 => libremarkable::device::rotate::InputDeviceRotation::Rot90,
        Rotation::Rot180 => libremarkable::device::rotate::InputDeviceRotation::Rot180,
        Rotation::Rot270 => libremarkable::device::rotate::InputDeviceRotation::Rot270,
    };
    let size = outside.rotated_size(&libremarkable::cgmath::Vector2 { x: width, y: height });
    (size.x, size.y)
}

/// A coordinate on the surface stays on the rotated surface.
pub proof fn lemma_rotated_part_fits(rotation: Rotation, part: CoordinatePart, width: u16, height: u16)
    requires
        part.fits(width, height),
    ensures
        rotated_part(rotation, part, width, height).fits(
            rotated_size(rotation, width, height).0,
            rotated_size(rotation, width, height).1,
        ),
{
}

impl Rotation {
    /// The rotation that does what `self` and then `next` do: the angles
    /// add up.
    pub open spec fn followed_by(self, next: Rotation) -> Rotation {
        match (self, next) {
            (Rotation::Rot0, _) => next,
            (_, Rotation::Rot0) => self,
            (Rotation::Rot90, Rotation::Rot90) => Rotation::Rot180,
            (Rotation::Rot90, Rotation::Rot180) => Rotation::Rot270,
            (Rotation::Rot90, Rotation::Rot270) => Rotation::Rot0,
            (Rotation::Rot180, Rotation::Rot90) => Rotation::Rot270,
            (Rotation::Rot180, Rotation::Rot180) => Rotation::Rot0,
            (Rotation::Rot180, Rotation::Rot270) => Rotation::Rot90,
            (Rotation::Rot270, Rotation::Rot90) => Rotation::Rot0,
            (Rotation::Rot270, Rotation::Rot180) => Rotation::Rot90,
            (Rotation::Rot270, Rotation::Rot270) => Rotation::Rot180,
        }
    }
}

/// Rotating twice is rotating once by the sum of the angles, for every
/// position of the surface and for the surface's size.
pub proof fn lemma_rotations_compose(
    first: Rotation,
    second: Rotation,
    x: u16,
    y: u16,
    width: u16,
    height: u16,
)
    requires
        x <= width,
        y <= height,
    ensures
        ({
            let at_a = rotated_point(first, x, y, width, height);
            let size_a = rotated_size(first, width, height);
            &&& at_a.0 <= size_a.0
            &&& at_a.1 <= size_a.1
            &&& rotated_point(second, at_a.0, at_a.1, size_a.0, size_a.1) == rotated_point(
                first.followed_by(second),
                x,
                y,
                width,
                height,
            )
            &&& rotated_size(second, size_a.0, size_a.1) == rotated_size(first.followed_by(second), width, height)
        }),
{
}

/// Four equal turns in succession, by a quarter each or by any other of the
/// rotations, bring every position of a surface, and the surface's size,
/// back to where they were.
pub proof fn lemma_four_turns(turn: Rotation, x: u16, y: u16, width: u16, height: u16)
    requires
        x <= width,
        y <= height,
    ensures
        ({
            let at_a = rotated_point(turn, x, y, width, height);
            let size_a = rotated_size(turn, width, height);
            let at_b = rotated_point(turn, at_a.0, at_a.1, size_a.0, size_a.1);
            let size_b = rotated_size(turn, size_a.0, size_a.1);
            let at_c = rotated_point(turn, at_b.0, at_b.1, size_b.0, size_b.1);
            let size_c = rotated_size(turn, size_b.0, size_b.1);
            let at_d = rotated_point(turn, at_c.0, at_c.1, size_c.0, size_c.1);
            let size_d = rotated_size(turn, size_c.0, size_c.1);
            at_d == (x, y) && size_d == (width, height)
        }),
{
}

} // verus!
