use plato_core::framebuffer::controller::RemarkableFramebuffer;
use plato_core::framebuffer::refresh::{
    refresh_command, select_profile, update_region, DitherMode, RefreshCommand, RefreshProfile,
    RefreshQuality, RefreshRequest, Temperature, UpdateMode, UpdateRegion, Waveform,
    DRAWING_QUANT_BIT,
};
use plato_core::geom::{Point, Rectangle};

const QUALITIES: [RefreshQuality; 4] = [
    RefreshQuality::Fast,
    RefreshQuality::Normal,
    RefreshQuality::Better,
    RefreshQuality::Perfect,
];

fn rect(x0: i32, y0: i32, x1: i32, y1: i32) -> Rectangle {
    Rectangle::new(Point { x: x0, y: y0 }, Point { x: x1, y: y1 })
}

fn expect(
    waveform: Waveform,
    temperature: Temperature,
    dither: DitherMode,
    force_full: bool,
    whole_screen: bool,
) -> RefreshProfile {
    RefreshProfile {
        waveform,
        temperature,
        dither,
        quant_bit: 0x7614_3b24,
        force_full,
        whole_screen,
    }
}

#[test]
fn quantization_setting() {
    assert_eq!(DRAWING_QUANT_BIT, 0x7614_3b24);
}

#[test]
fn profiles_of_the_modes_without_quality() {
    for quality in QUALITIES {
        assert_eq!(
            select_profile(UpdateMode::FastMono, quality, false),
            expect(Waveform::Du, Temperature::Draw, DitherMode::Passthrough, false, false)
        );
        assert_eq!(
            select_profile(UpdateMode::Fast, quality, false),
            expect(Waveform::Glr16, Temperature::Ambient, DitherMode::Passthrough, false, false)
        );
        assert_eq!(
            select_profile(UpdateMode::Gui, quality, false),
            expect(Waveform::Gc16Fast, Temperature::Ambient, DitherMode::Passthrough, false, false)
        );
        assert_eq!(
            select_profile(UpdateMode::Full, quality, false),
            expect(Waveform::Gc16, Temperature::Ambient, DitherMode::Panel, true, true)
        );
    }
}

#[test]
fn profiles_of_the_partial_mode() {
    assert_eq!(
        select_profile(UpdateMode::Partial, RefreshQuality::Fast, false),
        expect(Waveform::Gc16Fast, Temperature::Draw, DitherMode::Passthrough, false, false)
    );
    assert_eq!(
        select_profile(UpdateMode::Partial, RefreshQuality::Normal, false),
        expect(Waveform::Auto, Temperature::Ambient, DitherMode::Panel, false, false)
    );
    assert_eq!(
        select_profile(UpdateMode::Partial, RefreshQuality::Better, false),
        expect(Waveform::Gc16, Temperature::Ambient, DitherMode::Panel, true, false)
    );
    assert_eq!(
        select_profile(UpdateMode::Partial, RefreshQuality::Perfect, false),
        expect(Waveform::Gc16, Temperature::Max, DitherMode::Passthrough, true, false)
    );
}

#[test]
fn software_dithering_overrides_the_dither_setting_only() {
    let modes = [
        UpdateMode::FastMono,
        UpdateMode::Fast,
        UpdateMode::Gui,
        UpdateMode::Partial,
        UpdateMode::Full,
    ];
    for mode in modes {
        for quality in QUALITIES {
            let plain = select_profile(mode, quality, false);
            let dithered = select_profile(mode, quality, true);
            assert_eq!(dithered.dither, DitherMode::Y1);
            assert_eq!(dithered, RefreshProfile { dither: DitherMode::Y1, ..plain });
        }
    }
}

#[test]
fn full_mode_always_forces_a_full_refresh() {
    for quality in QUALITIES {
        for dithered in [false, true] {
            assert!(select_profile(UpdateMode::Full, quality, dithered).force_full);
            let mut fb = RemarkableFramebuffer::new(true, quality);
            fb.set_dithered(dithered);
            let command = fb.update(&rect(0, 0, 10, 10), UpdateMode::Full).unwrap();
            assert!(command.profile.force_full);
            assert!(command.profile.whole_screen);
        }
    }
}

#[test]
fn fast_partial_never_forces_a_full_refresh() {
    for dithered in [false, true] {
        assert!(!select_profile(UpdateMode::Partial, RefreshQuality::Fast, dithered).force_full);
        let mut fb = RemarkableFramebuffer::new(false, RefreshQuality::Fast);
        fb.set_dithered(dithered);
        let command = fb.update(&rect(3, 4, 10, 10), UpdateMode::Partial).unwrap();
        assert!(!command.profile.force_full);
        assert!(!command.profile.whole_screen);
    }
}

#[test]
fn region_of_a_rectangle() {
    assert_eq!(
        update_region(&rect(10, 20, 110, 70)),
        Some(UpdateRegion { left: 10, top: 20, width: 100, height: 50 })
    );
    assert_eq!(
        update_region(&rect(0, 0, 0, 0)),
        Some(UpdateRegion { left: 0, top: 0, width: 0, height: 0 })
    );
    assert_eq!(
        update_region(&rect(0, 0, i32::MAX, i32::MAX)),
        Some(UpdateRegion { left: 0, top: 0, width: 2147483647, height: 2147483647 })
    );
}

#[test]
fn rectangles_that_name_no_region() {
    assert_eq!(update_region(&rect(-1, 0, 10, 10)), None);
    assert_eq!(update_region(&rect(0, -1, 10, 10)), None);
    assert_eq!(update_region(&rect(5, 0, 4, 10)), None);
    assert_eq!(update_region(&rect(0, 5, 10, 4)), None);
    assert_eq!(update_region(&rect(-5, -5, -1, -1)), None);
    assert_eq!(update_region(&rect(i32::MIN, 0, i32::MAX, 1)), None);
}

#[test]
fn command_of_a_request() {
    let request = RefreshRequest {
        rect: rect(1, 2, 4, 8),
        mode: UpdateMode::Partial,
        quality: RefreshQuality::Perfect,
    };
    assert_eq!(
        refresh_command(&request, false),
        Some(RefreshCommand {
            region: UpdateRegion { left: 1, top: 2, width: 3, height: 6 },
            profile: expect(Waveform::Gc16, Temperature::Max, DitherMode::Passthrough, true, false),
        })
    );
    let request = RefreshRequest { rect: rect(1, 2, 0, 8), ..request };
    assert_eq!(refresh_command(&request, false), None);
    let request = RefreshRequest { mode: UpdateMode::Full, ..request };
    assert_eq!(refresh_command(&request, true), None);
}

#[test]
fn update_reads_the_quality_at_each_call() {
    let mut fb = RemarkableFramebuffer::new(false, RefreshQuality::Normal);
    assert_eq!(fb.refresh_quality(), RefreshQuality::Normal);
    let r = rect(0, 0, 5, 5);
    assert_eq!(fb.update(&r, UpdateMode::Partial).unwrap().profile.waveform, Waveform::Auto);
    fb.set_refresh_quality(RefreshQuality::Better);
    assert_eq!(fb.refresh_quality(), RefreshQuality::Better);
    let command = fb.update(&r, UpdateMode::Partial).unwrap();
    assert_eq!(command.profile.waveform, Waveform::Gc16);
    assert!(command.profile.force_full);
    assert_eq!(command.region, UpdateRegion { left: 0, top: 0, width: 5, height: 5 });
    assert_eq!(fb.update(&rect(0, 0, -5, 5), UpdateMode::Partial), None);
}
