//! Ordered dithering to the sixteen gray levels of a coarse panel.

use vstd::prelude::*;

verus! {

/// The side of the square tile of drift values.
pub const DITHER_PITCH: u32 = 128;

/// The distance between two neighbours of the sixteen gray levels.
pub const G16_STEP: u8 = 17;

/// The drift values of one tile, row by row: by how much a gray level is
/// changed at each place of the tile before it is rounded.
#[derive(Debug)]
pub struct DitherProfile {
    drifts: Vec<i8>,
}

/// Where in the table the drift of a pixel stands.
pub open spec fn drift_address(x: u32, y: u32) -> int {
    (x % DITHER_PITCH) + (y % DITHER_PITCH) * DITHER_PITCH
}

/// A value cut off at the ends of the gray scale.
pub open spec fn clamped(v: int) -> int {
    if v < 0 {
        0
    } else if v > 255 {
        255
    } else {
        v
    }
}

/// The nearest of the sixteen levels, which are the multiples of seventeen:
/// down where the remainder is eight or less, up otherwise.
pub open spec fn nearest_g16(c: int) -> int {
    let d = c % (G16_STEP as int);
    if d < 9 {
        c - d
    } else {
        c + (G16_STEP - d)
    }
}

/// One of the sixteen levels.
pub open spec fn is_g16(c: int) -> bool {
    exists|i: int| 0 <= i <= 15 && c == #[trigger] (G16_STEP * i)
}

impl View for DitherProfile {
    type V = Seq<i8>;

    /// The drift values of the tile, row by row.
    closed spec fn view(&self) -> Seq<i8> {
        self.drifts@
    }
}

impl DitherProfile {
    /// The table holds one value for each place of the tile.
    #[verifier::type_invariant]
    spec fn complete(&self) -> bool {
        self.drifts@.len() == DITHER_PITCH * DITHER_PITCH
    }

    /// The drift at a pixel; the tile repeats in both directions.
    pub open spec fn drift_at(&self, x: u32, y: u32) -> i8 {
        self@[drift_address(x, y)]
    }

    /// The gray level of a pixel with its drift, cut off at the ends of the
    /// scale: what is rounded to one of the sixteen levels.
    pub open spec fn drifted(&self, x: u32, y: u32, color: u8) -> int {
        clamped(color + self.drift_at(x, y))
    }

    /// The dithered gray level of a pixel.
    pub open spec fn dithered(&self, x: u32, y: u32, color: u8) -> int {
        nearest_g16(self.drifted(x, y, color))
    }

    /// A profile of the drifts of one tile, if there is one for each place.
    pub fn new(drifts: Vec<i8>) -> (profile: Option<DitherProfile>)
        ensures
            profile is Some <==> drifts@.len() == DITHER_PITCH * DITHER_PITCH,
            profile matches Some(p) ==> p@ == drifts@,
    {
        if drifts.len() == 16384 {
            Some(DitherProfile { drifts })
        } else {
            None
        }
    }

    /// The drift at a pixel.
    pub fn drift(&self, x: u32, y: u32) -> (drift: i8)
        ensures
            drift == self.drift_at(x, y),
    {
        proof {
            use_type_invariant(self);
        }
        let addr = (x % DITHER_PITCH) + (y % DITHER_PITCH) * DITHER_PITCH;
        self.drifts[addr as usize]
    }
}

/// Rounding takes the gray scale onto the sixteen levels and moves no level
/// by more than eight.
pub proof fn lemma_nearest_g16(c: int)
    requires
        0 <= c <= 255,
    ensures
        is_g16(nearest_g16(c)),
        0 <= nearest_g16(c) <= 255,
        nearest_g16(c) % 17 == 0,
        -8 <= nearest_g16(c) - c <= 8,
{
    let d = c % 17;
    let q = c / 17;
    assert(c == 17 * q + d);
    let level = if d < 9 {
        q
    } else {
        q + 1
    };
    assert(nearest_g16(c) == G16_STEP * level);
    assert(0 <= level <= 15);
}

/// Whatever the tile says, the value that is rounded lies on the gray
/// scale, and the dithered level of every pixel is one of the sixteen: so
/// it is for black and for white, and for a constant gray over a whole tile.
pub proof fn lemma_dithered_is_g16(profile: &DitherProfile, x: u32, y: u32, color: u8)
    ensures
        0 <= profile.drifted(x, y, color) <= 255,
        is_g16(profile.dithered(x, y, color)),
        -8 <= profile.dithered(x, y, color) - profile.drifted(x, y, color) <= 8,
{
    lemma_nearest_g16(profile.drifted(x, y, color));
}

/// The level of a pixel on a panel of sixteen grays.
pub fn transform_dither_g16(profile: &DitherProfile, x: u32, y: u32, color: u8) -> (out: u8)
    ensures
        out == profile.dithered(x, y, color),
        is_g16(out as int),
{
    // Apply the drift to the input color.
    let drifted = color as i16 + profile.drift(x, y) as i16;
    let c: i16 = if drifted < 0 {
        0
    } else if drifted > 255 {
        255
    } else {
        drifted
    };
    proof {
        lemma_nearest_g16(c as int);
    }
    // Compute the distance to the previous color in G16.
    let d = c % 17;
    // Return the nearest color in G16.
    if d < 9 {
        (c - d) as u8
    } else {
        (c + (17 - d)) as u8
    }
}

/// The level of a pixel on a panel that shows every gray.
pub fn transform_identity(_x: u32, _y: u32, color: u8) -> (out: u8)
    ensures
        out == color,
{
    color
}

/// What is done to a gray level before it is written.
#[derive(Debug, Copy, Clone, PartialEq, Eq, Structural)]
pub enum ColorTransform {
    Identity,
    DitherG16,
}

impl ColorTransform {
    pub open spec fn applied(self, profile: &DitherProfile, x: u32, y: u32, color: u8) -> int {
        match self {
            ColorTransform::Identity => color as int,
            ColorTransform::DitherG16 => profile.dithered(x, y, color),
        }
    }

    /// The level to write for a pixel.
    pub fn apply(self, profile: &DitherProfile, x: u32, y: u32, color: u8) -> (out: u8)
        ensures
            out == self.applied(profile, x, y, color),
    {
        match self {
            ColorTransform::Identity => transform_identity(x, y, color),
            ColorTransform::DitherG16 => transform_dither_g16(profile, x, y, color),
        }
    }
}

} // verus!
