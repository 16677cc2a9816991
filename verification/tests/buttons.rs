use plato_core::geom::LinearDir;
use plato_core::input::button::resolve_button_direction;
use plato_core::input::codes::{
    TouchCodes, TouchProto, KEY_BACKWARD, KEY_FORWARD, KEY_HOME, KEY_LIGHT, KEY_POWER, PEN_ERASE,
    VAL_PRESS, VAL_RELEASE, VAL_REPEAT,
};
use plato_core::input::device::{DeviceProfile, Placement};
use plato_core::input::event::{ButtonCode, ButtonScheme, ButtonStatus};
use plato_core::input::rotate::Rotation;

fn profile(invert_buttons: [bool; 4]) -> DeviceProfile {
    let placement = Placement {
        rotation: Rotation::Rot0,
        invert_x: false,
        invert_y: false,
        orig_width: 100,
        orig_height: 100,
    };
    DeviceProfile {
        multitouch: placement,
        wacom: placement,
        display_width: 100,
        invert_buttons,
        gyroscope_rotations: [0, 1, 2, 3],
    }
}

#[test]
fn button_status_of_the_three_values() {
    assert_eq!(ButtonStatus::try_from_raw(VAL_RELEASE), Some(ButtonStatus::Released));
    assert_eq!(ButtonStatus::try_from_raw(VAL_PRESS), Some(ButtonStatus::Pressed));
    assert_eq!(ButtonStatus::try_from_raw(VAL_REPEAT), Some(ButtonStatus::Repeated));
}

#[test]
fn button_status_of_other_values_is_none() {
    assert_eq!(ButtonStatus::try_from_raw(3), None);
    assert_eq!(ButtonStatus::try_from_raw(-1), None);
    assert_eq!(ButtonStatus::try_from_raw(i32::MAX), None);
    assert_eq!(ButtonStatus::try_from_raw(i32::MIN), None);
}

#[test]
fn fixed_buttons_do_not_depend_on_rotation_or_scheme() {
    let p = profile([true, false, true, false]);
    for rotation in 0..4 {
        for scheme in [ButtonScheme::Natural, ButtonScheme::Inverted] {
            assert_eq!(ButtonCode::from_raw(KEY_POWER, rotation, scheme, &p), ButtonCode::Power);
            assert_eq!(ButtonCode::from_raw(KEY_HOME, rotation, scheme, &p), ButtonCode::Home);
            assert_eq!(ButtonCode::from_raw(KEY_LIGHT, rotation, scheme, &p), ButtonCode::Light);
        }
    }
}

#[test]
fn unnamed_codes_stay_raw() {
    let p = profile([false; 4]);
    assert_eq!(
        ButtonCode::from_raw(PEN_ERASE, 0, ButtonScheme::Natural, &p),
        ButtonCode::Raw(331)
    );
    assert_eq!(ButtonCode::from_raw(0, 2, ButtonScheme::Inverted, &p), ButtonCode::Raw(0));
    assert_eq!(
        ButtonCode::from_raw(u16::MAX, 3, ButtonScheme::Natural, &p),
        ButtonCode::Raw(u16::MAX)
    );
}

#[test]
fn page_turn_keys_read_as_labelled_without_inversion() {
    let p = profile([false; 4]);
    assert_eq!(
        ButtonCode::from_raw(KEY_FORWARD, 1, ButtonScheme::Natural, &p),
        ButtonCode::Forward
    );
    assert_eq!(
        ButtonCode::from_raw(KEY_BACKWARD, 1, ButtonScheme::Natural, &p),
        ButtonCode::Backward
    );
}

#[test]
fn inverted_scheme_swaps_where_the_device_does_not_invert() {
    let p = profile([false, true, false, true]);
    // Rotation 0: the device does not invert, so the scheme alone inverts.
    assert_eq!(
        ButtonCode::from_raw(KEY_FORWARD, 0, ButtonScheme::Inverted, &p),
        ButtonCode::Backward
    );
    assert_eq!(
        ButtonCode::from_raw(KEY_BACKWARD, 0, ButtonScheme::Inverted, &p),
        ButtonCode::Forward
    );
    // Rotation 1: the device inverts too, and the two inversions cancel.
    assert_eq!(
        ButtonCode::from_raw(KEY_FORWARD, 1, ButtonScheme::Inverted, &p),
        ButtonCode::Forward
    );
    assert_eq!(
        ButtonCode::from_raw(KEY_BACKWARD, 1, ButtonScheme::Inverted, &p),
        ButtonCode::Backward
    );
}

#[test]
fn device_inversion_alone_swaps() {
    let p = profile([false, true, false, true]);
    assert_eq!(
        ButtonCode::from_raw(KEY_FORWARD, 3, ButtonScheme::Natural, &p),
        ButtonCode::Backward
    );
    assert_eq!(
        ButtonCode::from_raw(KEY_BACKWARD, 3, ButtonScheme::Natural, &p),
        ButtonCode::Forward
    );
}

#[test]
fn changing_the_scheme_always_swaps_the_page_turn_keys() {
    let p = profile([true, false, false, true]);
    for rotation in 0..4 {
        let natural = ButtonCode::from_raw(KEY_FORWARD, rotation, ButtonScheme::Natural, &p);
        let inverted = ButtonCode::from_raw(KEY_FORWARD, rotation, ButtonScheme::Inverted, &p);
        assert_ne!(natural, inverted);
        assert_eq!(
            natural,
            ButtonCode::from_raw(KEY_BACKWARD, rotation, ButtonScheme::Inverted, &p)
        );
    }
}

#[test]
fn resolution_is_repeatable() {
    let p = profile([true, false, true, false]);
    for code in [KEY_FORWARD, KEY_BACKWARD, KEY_HOME, 7] {
        for rotation in 0..4 {
            let first = ButtonCode::from_raw(code, rotation, ButtonScheme::Inverted, &p);
            let second = ButtonCode::from_raw(code, rotation, ButtonScheme::Inverted, &p);
            assert_eq!(first, second);
        }
    }
}

#[test]
fn no_device_inversion_outside_the_four_rotations() {
    let p = profile([true; 4]);
    assert!(!p.should_invert_buttons(4));
    assert!(!p.should_invert_buttons(-1));
    assert!(p.should_invert_buttons(0));
    assert!(p.should_invert_buttons(3));
    assert_eq!(
        ButtonCode::from_raw(KEY_FORWARD, 5, ButtonScheme::Natural, &p),
        ButtonCode::Forward
    );
}

#[test]
fn direction_resolution() {
    let p = profile([false, true, false, false]);
    assert_eq!(
        resolve_button_direction(LinearDir::Forward, 0, ButtonScheme::Natural, &p),
        ButtonCode::Forward
    );
    assert_eq!(
        resolve_button_direction(LinearDir::Forward, 1, ButtonScheme::Natural, &p),
        ButtonCode::Backward
    );
    assert_eq!(
        resolve_button_direction(LinearDir::Backward, 1, ButtonScheme::Inverted, &p),
        ButtonCode::Backward
    );
    assert_eq!(LinearDir::Forward.opposite(), LinearDir::Backward);
    assert_eq!(LinearDir::Backward.opposite(), LinearDir::Forward);
}

#[test]
fn axis_codes_of_the_touch_protocols() {
    assert_eq!(TouchProto::Single.codes(), TouchCodes { pressure: 0x18, x: 0x00, y: 0x01 });
    assert_eq!(TouchProto::MultiA.codes(), TouchCodes { pressure: 0x30, x: 0x35, y: 0x36 });
    assert_eq!(TouchProto::MultiB.codes(), TouchCodes { pressure: 0x3a, x: 0x35, y: 0x36 });
    assert_eq!(TouchProto::MultiC.codes(), TouchProto::MultiB.codes());
}
