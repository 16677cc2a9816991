use plato_core::framebuffer::pixel::{
    gray_pixel, invert_pixel, invert_region, pixel_rgb, rgb_pixel, shift_pixel, shift_region,
};

#[test]
fn gray_pixels() {
    assert_eq!(gray_pixel(0), [0x00, 0x00]);
    assert_eq!(gray_pixel(255), [0xff, 0xff]);
    assert_eq!(gray_pixel(100), [0x0c, 0x63]);
}

#[test]
fn pixel_of_three_channels() {
    assert_eq!(rgb_pixel([0, 0, 0]), [0x00, 0x00]);
    assert_eq!(rgb_pixel([255, 255, 255]), [0xff, 0xff]);
    assert_eq!(rgb_pixel([255, 0, 0]), [0x00, 0xf8]);
    assert_eq!(rgb_pixel([0, 255, 0]), [0xe0, 0x07]);
    assert_eq!(rgb_pixel([0, 0, 255]), [0x1f, 0x00]);
    assert_eq!(rgb_pixel([255, 127, 0]), [0xe0, 0xfb]);
}

#[test]
fn three_channels_of_a_pixel() {
    assert_eq!(pixel_rgb([0x00, 0x00]), [0, 0, 0]);
    assert_eq!(pixel_rgb([0xff, 0xff]), [255, 255, 255]);
    assert_eq!(pixel_rgb([0x00, 0xf8]), [255, 0, 0]);
    assert_eq!(pixel_rgb([0xe0, 0x07]), [0, 255, 0]);
    assert_eq!(pixel_rgb([0x1f, 0x00]), [0, 0, 255]);
    assert_eq!(pixel_rgb([0xe0, 0xfb]), [255, 125, 0]);
}

#[test]
fn every_pixel_survives_the_way_to_channels_and_back() {
    for packed in 0..=u16::MAX {
        let native = packed.to_le_bytes();
        assert_eq!(rgb_pixel(pixel_rgb(native)), native);
    }
}

#[test]
fn inverted_pixel() {
    assert_eq!(invert_pixel([0x00, 0x00]), [0xff, 0xff]);
    assert_eq!(invert_pixel([0xff, 0xff]), [0x00, 0x00]);
    assert_eq!(invert_pixel([0xe0, 0xfb]), [0x1f, 0x04]);
}

#[test]
fn darkened_pixel_stops_at_black() {
    assert_eq!(shift_pixel([0xff, 0xff], 0), [0xff, 0xff]);
    assert_eq!(shift_pixel([0xff, 0xff], 15), [0x7d, 0xef]);
    assert_eq!(shift_pixel([0xff, 0xff], 255), [0x00, 0x00]);
    assert_eq!(shift_pixel([0x0c, 0x63], 200), [0x00, 0x00]);
    assert_eq!(shift_pixel([0x00, 0xf8], 255), [0x00, 0x00]);
}

#[test]
fn inverted_region() {
    let mut frame = vec![0x00, 0x00, 0xff, 0xff, 0xe0, 0xfb];
    invert_region(&mut frame);
    assert_eq!(frame, vec![0xff, 0xff, 0x00, 0x00, 0x1f, 0x04]);
    let mut none: Vec<u8> = Vec::new();
    invert_region(&mut none);
    assert!(none.is_empty());
}

#[test]
fn region_with_a_byte_left_over() {
    let mut frame = vec![0x00, 0x00, 0x55];
    invert_region(&mut frame);
    assert_eq!(frame, vec![0xff, 0xff, 0x55]);
    let mut frame = vec![0x55];
    shift_region(&mut frame, 9);
    assert_eq!(frame, vec![0x55]);
}

#[test]
fn darkened_region() {
    let mut frame = vec![0xff, 0xff, 0x00, 0x00, 0xff, 0xff];
    shift_region(&mut frame, 15);
    assert_eq!(frame, vec![0x7d, 0xef, 0x00, 0x00, 0x7d, 0xef]);
}
