//! Which refresh the panel is asked for.
//!
//! A refresh is described by a waveform, a temperature, a dither setting and
//! whether the whole update is forced through a full refresh. The choice
//! depends on the update mode, on the quality setting where the mode is
//! partial, and on whether software dithering is on.

use vstd::prelude::*;
use crate::geom::Rectangle;

verus! {

/// What kind of update the application wants.
#[derive(Debug, Copy, Clone, PartialEq, Eq, Structural)]
pub enum UpdateMode {
    Gui,
    Partial,
    Full,
    Fast,
    FastMono,
}

/// How much ghosting a partial update may leave behind.
#[derive(Debug, Copy, Clone, PartialEq, Eq, Structural)]
pub enum RefreshQuality {
    Fast,
    Normal,
    Better,
    Perfect,
}

/// The drive pattern of the panel.
#[derive(Debug, Copy, Clone, PartialEq, Eq, Structural)]
pub enum Waveform {
    /// Monochrome, lowest latency.
    Du,
    /// Gray, low latency.
    Glr16,
    /// Balanced, for user-interface redraws.
    Gc16Fast,
    /// The panel's standard gray.
    Auto,
    /// High fidelity; flashes when the refresh is full.
    Gc16,
}

/// The temperature the panel is told to assume.
#[derive(Debug, Copy, Clone, PartialEq, Eq, Structural)]
pub enum Temperature {
    /// The low-latency setting used while drawing.
    Draw,
    Ambient,
    Max,
}

/// What the panel does to gray levels it cannot show.
#[derive(Debug, Copy, Clone, PartialEq, Eq, Structural)]
pub enum DitherMode {
    Passthrough,
    /// The panel's own dither.
    Panel,
    /// Ordered dither to one bit, used when software dithering is on.
    Y1,
}

/// The quantization setting that goes with every refresh.
pub const DRAWING_QUANT_BIT: i32 = 0x7614_3b24;

/// Everything the panel is told about one refresh but the region.
#[derive(Debug, Copy, Clone, PartialEq, Eq, Structural)]
pub struct RefreshProfile {
    pub waveform: Waveform,
    pub temperature: Temperature,
    pub dither: DitherMode,
    pub quant_bit: i32,
    /// The update goes through a full refresh.
    pub force_full: bool,
    /// The update covers the whole screen, whatever the rectangle.
    pub whole_screen: bool,
}

/// A region of the screen as the panel takes it.
#[derive(Debug, Copy, Clone, PartialEq, Eq, Structural)]
pub struct UpdateRegion {
    pub left: u32,
    pub top: u32,
    pub width: u32,
    pub height: u32,
}

/// One refresh, ready to be issued.
#[derive(Debug, Copy, Clone, PartialEq, Eq, Structural)]
pub struct RefreshCommand {
    pub region: UpdateRegion,
    pub profile: RefreshProfile,
}

/// One call for a refresh. The quality counts only where the mode is
/// partial.
#[derive(Debug, Copy, Clone, PartialEq, Eq, Structural)]
pub struct RefreshRequest {
    pub rect: Rectangle,
    pub mode: UpdateMode,
    pub quality: RefreshQuality,
}

/// The waveform of a mode.
pub open spec fn waveform_of(mode: UpdateMode, quality: RefreshQuality) -> Waveform {
    match mode {
        UpdateMode::FastMono => Waveform::Du,
        UpdateMode::Fast => Waveform::Glr16,
        UpdateMode::Gui => Waveform::Gc16Fast,
        UpdateMode::Partial => match quality {
            RefreshQuality::Fast => Waveform::Gc16Fast,
            RefreshQuality::Normal => Waveform::Auto,
            RefreshQuality::Better | RefreshQuality::Perfect => Waveform::Gc16,
        },
        UpdateMode::Full => Waveform::Gc16,
    }
}

/// The temperature of a mode.
pub open spec fn temperature_of(mode: UpdateMode, quality: RefreshQuality) -> Temperature {
    match mode {
        UpdateMode::FastMono => Temperature::Draw,
        UpdateMode::Fast | UpdateMode::Gui | UpdateMode::Full => Temperature::Ambient,
        UpdateMode::Partial => match quality {
            RefreshQuality::Fast => Temperature::Draw,
            RefreshQuality::Normal | RefreshQuality::Better => Temperature::Ambient,
            RefreshQuality::Perfect => Temperature::Max,
        },
    }
}

/// The dither setting of a mode while software dithering is off.
pub open spec fn default_dither(mode: UpdateMode, quality: RefreshQuality) -> DitherMode {
    match mode {
        UpdateMode::FastMono | UpdateMode::Fast | UpdateMode::Gui => DitherMode::Passthrough,
        UpdateMode::Partial => match quality {
            RefreshQuality::Fast | RefreshQuality::Perfect => DitherMode::Passthrough,
            RefreshQuality::Normal | RefreshQuality::Better => DitherMode::Panel,
        },
        UpdateMode::Full => DitherMode::Panel,
    }
}

/// Whether a mode goes through a full refresh: the full mode always, the
/// partial mode at the two highest qualities, no other.
pub open spec fn forces_full(mode: UpdateMode, quality: RefreshQuality) -> bool {
    match mode {
        UpdateMode::Full => true,
        UpdateMode::Partial => quality == RefreshQuality::Better || quality
            == RefreshQuality::Perfect,
        _ => false,
    }
}

/// The profile of a refresh. Software dithering, where it is on, takes the
/// place of the mode's own dither setting.
pub open spec fn profile_of(mode: UpdateMode, quality: RefreshQuality, dithered: bool)
    -> RefreshProfile {
    RefreshProfile {
        waveform: waveform_of(mode, quality),
        temperature: temperature_of(mode, quality),
        dither: if dithered {
            DitherMode::Y1
        } else {
            default_dither(mode, quality)
        },
        quant_bit: DRAWING_QUANT_BIT,
        force_full: forces_full(mode, quality),
        whole_screen: mode == UpdateMode::Full,
    }
}

/// The region of a rectangle whose corners are on or right of and below the
/// origin and in order; any other rectangle names no region.
pub open spec fn region_of(rect: Rectangle) -> Option<UpdateRegion> {
    if 0 <= rect.min.x <= rect.max.x && 0 <= rect.min.y <= rect.max.y {
        Some(
            UpdateRegion {
                left: rect.min.x as u32,
                top: rect.min.y as u32,
                width: (rect.max.x - rect.min.x) as u32,
                height: (rect.max.y - rect.min.y) as u32,
            },
        )
    } else {
        None
    }
}

/// The refresh that a request asks for, if its rectangle names a region.
pub open spec fn command_of(request: RefreshRequest, dithered: bool) -> Option<RefreshCommand> {
    match region_of(request.rect) {
        Some(region) => Some(
            RefreshCommand { region, profile: profile_of(request.mode, request.quality, dithered) },
        ),
        None => None,
    }
}

/// Chooses waveform, temperature, dither setting and full-refresh flag.
pub fn select_profile(mode: UpdateMode, quality: RefreshQuality, dithered: bool) -> (profile:
    RefreshProfile)
    ensures
        profile == profile_of(mode, quality, dithered),
        mode == UpdateMode::Full ==> profile.force_full,
        mode == UpdateMode::Partial && quality == RefreshQuality::Fast ==> !profile.force_full,
{
    let overwrite_dither = if dithered {
        Some(DitherMode::Y1)
    } else {
        None
    };
    let (waveform, temperature, default_dither, force_full, whole_screen) = match mode {
        UpdateMode::FastMono => (
            Waveform::Du,
            Temperature::Draw,
            DitherMode::Passthrough,
            false,
            false,
        ),
        UpdateMode::Fast => (
            Waveform::Glr16,
            Temperature::Ambient,
            DitherMode::Passthrough,
            false,
            false,
        ),
        UpdateMode::Gui => (
            Waveform::Gc16Fast,
            Temperature::Ambient,
            DitherMode::Passthrough,
            false,
            false,
        ),
        UpdateMode::Partial => match quality {
            RefreshQuality::Fast => (
                Waveform::Gc16Fast,
                Temperature::Draw,
                DitherMode::Passthrough,
                false,
                false,
            ),
            RefreshQuality::Normal => (
                Waveform::Auto,
                Temperature::Ambient,
                DitherMode::Panel,
                false,
                false,
            ),
            RefreshQuality::Better => (
                Waveform::Gc16,
                Temperature::Ambient,
                DitherMode::Panel,
                true,
                false,
            ),
            RefreshQuality::Perfect => (
                Waveform::Gc16,
                Temperature::Max,
                DitherMode::Passthrough,
                true,
                false,
            ),
        },
        UpdateMode::Full => (Waveform::Gc16, Temperature::Ambient, DitherMode::Panel, true, true),
    };
    RefreshProfile {
        waveform,
        temperature,
        dither: match overwrite_dither {
            Some(dither) => dither,
            None => default_dither,
        },
        quant_bit: DRAWING_QUANT_BIT,
        force_full,
        whole_screen,
    }
}

/// The panel's form of a rectangle.
pub fn update_region(rect: &Rectangle) -> (region: Option<UpdateRegion>)
    ensures
        region == region_of(*rect),
{
    if 0 <= rect.min.x && rect.min.x <= rect.max.x && 0 <= rect.min.y && rect.min.y <= rect.max.y {
        Some(
            UpdateRegion {
                left: rect.min.x as u32,
                top: rect.min.y as u32,
                width: rect.max.x as u32 - rect.min.x as u32,
                height: rect.max.y as u32 - rect.min.y as u32,
            },
        )
    } else {
        None
    }
}

/// The refresh to issue for a request.
pub fn refresh_command(request: &RefreshRequest, dithered: bool) -> (command: Option<
    RefreshCommand,
>)
    ensures
        command == command_of(*request, dithered),
{
    match update_region(&request.rect) {
        Some(region) => Some(
            RefreshCommand {
                region,
                profile: select_profile(request.mode, request.quality, dithered),
            },
        ),
        None => None,
    }
}

/// An update in full mode goes through a full refresh at every quality and
/// with dithering on or off; a partial update at the fast quality never
/// does.
pub proof fn lemma_full_refresh(quality: RefreshQuality, dithered: bool)
    ensures
        profile_of(UpdateMode::Full, quality, dithered).force_full,
        profile_of(UpdateMode::Full, quality, dithered) == profile_of(
            UpdateMode::Full,
            RefreshQuality::Fast,
            dithered,
        ),
        !profile_of(UpdateMode::Partial, RefreshQuality::Fast, dithered).force_full,
{
}

/// Outside the partial mode the quality setting changes nothing.
pub proof fn lemma_quality_counts_in_partial_only(
    mode: UpdateMode,
    a: RefreshQuality,
    b: RefreshQuality,
    dithered: bool,
)
    requires
        mode != UpdateMode::Partial,
    ensures
        profile_of(mode, a, dithered) == profile_of(mode, b, dithered),
{
}

} // verus!
