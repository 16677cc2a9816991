use plato_core::framebuffer::controller::RemarkableFramebuffer;
use plato_core::framebuffer::dither::{
    transform_dither_g16, transform_identity, ColorTransform, DitherProfile, DITHER_PITCH,
};
use plato_core::framebuffer::refresh::RefreshQuality;

fn tile(drift_of: fn(u32, u32) -> i8) -> DitherProfile {
    let mut drifts = Vec::new();
    for y in 0..DITHER_PITCH {
        for x in 0..DITHER_PITCH {
            drifts.push(drift_of(x, y));
        }
    }
    DitherProfile::new(drifts).unwrap()
}

fn flat() -> DitherProfile {
    tile(|_, _| 0)
}

fn varied() -> DitherProfile {
    tile(|x, y| ((x * 7 + y * 13) % 256) as u8 as i8)
}

#[test]
fn profile_needs_one_drift_for_each_place() {
    assert!(DitherProfile::new(vec![0; 128 * 128]).is_some());
    assert!(DitherProfile::new(vec![0; 128 * 128 - 1]).is_none());
    assert!(DitherProfile::new(vec![0; 128 * 128 + 1]).is_none());
    assert!(DitherProfile::new(Vec::new()).is_none());
}

#[test]
fn drift_of_a_pixel_repeats_with_the_tile() {
    let p = tile(|x, y| if x == 3 && y == 5 { 42 } else { -1 });
    assert_eq!(p.drift(3, 5), 42);
    assert_eq!(p.drift(5, 3), -1);
    assert_eq!(p.drift(3 + 128, 5), 42);
    assert_eq!(p.drift(3, 5 + 128 * 7), 42);
    assert_eq!(p.drift(u32::MAX, u32::MAX), -1);
    let rows = tile(|_, y| y as i8);
    assert_eq!(rows.drift(100, 0), 0);
    assert_eq!(rows.drift(0, 127), 127);
    assert_eq!(rows.drift(127, 1), 1);
}

#[test]
fn rounding_to_the_nearest_level() {
    let p = flat();
    assert_eq!(transform_dither_g16(&p, 0, 0, 0), 0);
    assert_eq!(transform_dither_g16(&p, 0, 0, 8), 0);
    assert_eq!(transform_dither_g16(&p, 0, 0, 9), 17);
    assert_eq!(transform_dither_g16(&p, 0, 0, 17), 17);
    assert_eq!(transform_dither_g16(&p, 0, 0, 25), 17);
    assert_eq!(transform_dither_g16(&p, 0, 0, 26), 34);
    assert_eq!(transform_dither_g16(&p, 0, 0, 128), 136);
    assert_eq!(transform_dither_g16(&p, 0, 0, 246), 238);
    assert_eq!(transform_dither_g16(&p, 0, 0, 247), 255);
    assert_eq!(transform_dither_g16(&p, 0, 0, 255), 255);
}

#[test]
fn drift_is_added_before_rounding() {
    let p = tile(|x, _| if x == 0 { 9 } else { -9 });
    assert_eq!(transform_dither_g16(&p, 0, 0, 0), 17);
    assert_eq!(transform_dither_g16(&p, 1, 0, 17), 0);
    assert_eq!(transform_dither_g16(&p, 0, 0, 100), 102);
    assert_eq!(transform_dither_g16(&p, 1, 0, 100), 85);
}

#[test]
fn black_and_white_stay_on_the_scale() {
    let down = tile(|_, _| -128);
    let up = tile(|_, _| 127);
    assert_eq!(transform_dither_g16(&down, 9, 9, 0), 0);
    assert_eq!(transform_dither_g16(&up, 9, 9, 255), 255);
    assert_eq!(transform_dither_g16(&down, 9, 9, 255), 119);
    assert_eq!(transform_dither_g16(&up, 9, 9, 0), 119);
    assert_eq!(transform_dither_g16(&down, 9, 9, 100), 0);
    assert_eq!(transform_dither_g16(&up, 9, 9, 200), 255);
}

#[test]
fn constant_gray_over_a_tile_gives_levels_only() {
    let p = varied();
    for color in [0u8, 1, 100, 128, 254, 255] {
        for y in 0..DITHER_PITCH {
            for x in 0..DITHER_PITCH {
                let out = transform_dither_g16(&p, x, y, color);
                assert_eq!(out % 17, 0);
            }
        }
    }
}

#[test]
fn identity_keeps_the_color() {
    for color in [0u8, 1, 127, 255] {
        assert_eq!(transform_identity(0, 0, color), color);
        assert_eq!(transform_identity(u32::MAX, 77, color), color);
    }
}

#[test]
fn transform_by_name() {
    let p = flat();
    assert_eq!(ColorTransform::Identity.apply(&p, 0, 0, 100), 100);
    assert_eq!(ColorTransform::DitherG16.apply(&p, 0, 0, 100), 102);
}

#[test]
fn dithering_is_for_coarse_panels() {
    let p = flat();
    let mut coarse = RemarkableFramebuffer::new(true, RefreshQuality::Normal);
    assert!(!coarse.dithered());
    assert_eq!(coarse.transformed(&p, 0, 0, 100), 100);
    coarse.set_dithered(true);
    assert!(coarse.dithered());
    assert_eq!(coarse.transform(), ColorTransform::DitherG16);
    assert_eq!(coarse.transformed(&p, 0, 0, 100), 102);
    coarse.set_dithered(true);
    assert_eq!(coarse.transform(), ColorTransform::DitherG16);
    coarse.set_dithered(false);
    assert_eq!(coarse.transform(), ColorTransform::Identity);
    assert_eq!(coarse.transformed(&p, 0, 0, 100), 100);

    let mut fine = RemarkableFramebuffer::new(false, RefreshQuality::Normal);
    fine.set_dithered(true);
    assert!(fine.dithered());
    assert_eq!(fine.transform(), ColorTransform::Identity);
    assert_eq!(fine.transformed(&p, 0, 0, 100), 100);
}

#[test]
fn display_flags() {
    let mut fb = RemarkableFramebuffer::new(false, RefreshQuality::Fast);
    assert!(!fb.inverted());
    assert!(!fb.monochrome());
    fb.set_inverted(true);
    assert!(fb.inverted());
    assert!(!fb.monochrome());
    fb.set_monochrome(true);
    assert!(fb.monochrome());
    fb.set_inverted(false);
    assert!(!fb.inverted());
    assert!(fb.monochrome());
    assert_eq!(fb.refresh_quality(), RefreshQuality::Fast);
}
