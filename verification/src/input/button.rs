//! From raw key codes to logical buttons.

use vstd::prelude::*;
use crate::geom::LinearDir;
use crate::input::codes::{KEY_BACKWARD, KEY_FORWARD, KEY_HOME, KEY_LIGHT, KEY_POWER};
use crate::input::device::DeviceProfile;
use crate::input::event::{ButtonCode, ButtonScheme};

verus! {

/// The button that a page-turn key stands for: the device's inversion at
/// the current rotation and the inverted scheme each turn the direction
/// round, and two turns cancel.
pub open spec fn resolved_direction(direction: LinearDir, invert: bool, scheme: ButtonScheme)
    -> ButtonCode {
    let turned = if invert != (scheme == ButtonScheme::Inverted) {
        direction.spec_opposite()
    } else {
        direction
    };
    if turned == LinearDir::Forward {
        ButtonCode::Forward
    } else {
        ButtonCode::Backward
    }
}

/// The logical button of a raw key code at a rotation under a scheme.
pub open spec fn button_of_raw(
    code: u16,
    rotation: i8,
    scheme: ButtonScheme,
    profile: DeviceProfile,
) -> ButtonCode {
    if code == KEY_POWER {
        ButtonCode::Power
    } else if code == KEY_HOME {
        ButtonCode::Home
    } else if code == KEY_LIGHT {
        ButtonCode::Light
    } else if code == KEY_BACKWARD {
        resolved_direction(LinearDir::Backward, profile.inverts_buttons(rotation), scheme)
    } else if code == KEY_FORWARD {
        resolved_direction(LinearDir::Forward, profile.inverts_buttons(rotation), scheme)
    } else {
        ButtonCode::Raw(code)
    }
}

/// Resolves a page-turn key at a rotation under a scheme.
pub fn resolve_button_direction(
    direction: LinearDir,
    rotation: i8,
    button_scheme: ButtonScheme,
    profile: &DeviceProfile,
) -> (code: ButtonCode)
    ensures
        code == resolved_direction(direction, profile.inverts_buttons(rotation), button_scheme),
{
    let mut direction = direction;
    if profile.should_invert_buttons(rotation) != (button_scheme == ButtonScheme::Inverted) {
        direction = direction.opposite();
    }
    if direction == LinearDir::Forward {
        return ButtonCode::Forward;
    }
    ButtonCode::Backward
}

impl ButtonCode {
    /// Resolves a raw key code at a rotation under a scheme. The result
    /// depends on nothing but the arguments.
    pub fn from_raw(code: u16, rotation: i8, button_scheme: ButtonScheme, profile: &DeviceProfile)
        -> (button: ButtonCode)
        ensures
            button == button_of_raw(code, rotation, button_scheme, *profile),
    {
        if code == KEY_POWER {
            ButtonCode::Power
        } else if code == KEY_HOME {
            ButtonCode::Home
        } else if code == KEY_LIGHT {
            ButtonCode::Light
        } else if code == KEY_BACKWARD {
            resolve_button_direction(LinearDir::Backward, rotation, button_scheme, profile)
        } else if code == KEY_FORWARD {
            resolve_button_direction(LinearDir::Forward, rotation, button_scheme, profile)
        } else {
            ButtonCode::Raw(code)
        }
    }
}

/// Under the inverted scheme a page-turn key reads the other way round
/// exactly where the device does not invert the buttons itself; where it
/// does, the two inversions cancel and the key reads as it is labelled.
pub proof fn lemma_inverted_scheme(rotation: i8, profile: DeviceProfile)
    ensures
        button_of_raw(KEY_FORWARD, rotation, ButtonScheme::Inverted, profile) == (
        if profile.inverts_buttons(rotation) {
            ButtonCode::Forward
        } else {
            ButtonCode::Backward
        }),
        button_of_raw(KEY_BACKWARD, rotation, ButtonScheme::Inverted, profile) == (
        if profile.inverts_buttons(rotation) {
            ButtonCode::Backward
        } else {
            ButtonCode::Forward
        }),
{
}

/// Changing the scheme at a fixed rotation makes the two page-turn keys
/// change places and leaves every other key as it was.
pub proof fn lemma_scheme_flip(code: u16, rotation: i8, profile: DeviceProfile)
    ensures
        code != KEY_FORWARD && code != KEY_BACKWARD ==> button_of_raw(
            code,
            rotation,
            ButtonScheme::Natural,
            profile,
        ) == button_of_raw(code, rotation, ButtonScheme::Inverted, profile),
        button_of_raw(KEY_FORWARD, rotation, ButtonScheme::Natural, profile) == button_of_raw(
            KEY_BACKWARD,
            rotation,
            ButtonScheme::Inverted,
            profile,
        ),
        button_of_raw(KEY_BACKWARD, rotation, ButtonScheme::Natural, profile) == button_of_raw(
            KEY_FORWARD,
            rotation,
            ButtonScheme::Inverted,
            profile,
        ),
        button_of_raw(KEY_FORWARD, rotation, ButtonScheme::Natural, profile) != button_of_raw(
            KEY_FORWARD,
            rotation,
            ButtonScheme::Inverted,
            profile,
        ),
        button_of_raw(KEY_BACKWARD, rotation, ButtonScheme::Natural, profile) != button_of_raw(
            KEY_BACKWARD,
            rotation,
            ButtonScheme::Inverted,
            profile,
        ),
{
}

} // verus!
