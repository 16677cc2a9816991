//! Arithmetic on pixels in the panel's own format.
//!
//! The panel holds a pixel in two bytes: five bits of red, six of green and
//! five of blue, the low byte first. The conversions between this format and
//! three channels of eight bits are libremarkable's; this module states what
//! they compute and builds the pixel operations of the display on them.

use vstd::prelude::*;

verus! {

/// The sixteen bits of a pixel: each channel is brought down to its five or
/// six bits and the three are packed, red on top.
pub open spec fn rgb565(r8: u8, g8: u8, b8: u8) -> u16 {
    let r5 = ((r8 + 1) * 0b11111 / 255) as u16;
    let g6 = ((g8 + 1) * 0b111111 / 255) as u16;
    let b5 = ((b8 + 1) * 0b11111 / 255) as u16;
    r5 << 11 | g6 << 5 | b5
}

/// The two bytes of a pixel, the low byte first.
pub open spec fn native_of_rgb(r8: u8, g8: u8, b8: u8) -> Seq<u8> {
    let packed = rgb565(r8, g8, b8);
    seq![(packed & 0xff) as u8, (packed >> 8) as u8]
}

/// The three channels of a pixel: its bits are unpacked and each channel
/// is spread over eight bits.
pub open spec fn rgb_of_native(low: u8, high: u8) -> Seq<u8> {
    let packed = (low as u16) | (high as u16) << 8;
    let r5 = packed >> 11 & 0b11111;
    let g6 = packed >> 5 & 0b111111;
    let b5 = packed & 0b11111;
    seq![(r5 * 255 / 0b11111) as u8, (g6 * 255 / 0b111111) as u8, (b5 * 255 / 0b11111) as u8]
}

/// Calls `color::RGB(..).as_native()` of libremarkable, which scales each
/// channel by `(c + 1) * max / 255`, packs the three with shifts by 11 and 5,
/// and gives the two bytes of the result, low byte first.
#[verifier::external_body]
pub(crate) fn rgb_to_native(rgb: [u8; 3]) -> (native: [u8; 2])
    ensures
        native@ == native_of_rgb(rgb[0], rgb[1], rgb[2]),
{
    libremarkable::framebuffer::common::color::RGB(rgb[0], rgb[1], rgb[2]).as_native()
}

/// Calls `color::NATIVE_COMPONENTS(..).to_rgb8()` of libremarkable, which
/// reads the two bytes as one number, low byte first, takes the three
/// channels out of it with shifts and masks and scales each by
/// `c * 255 / max`.
#[verifier::external_body]
pub(crate) fn native_to_rgb(native: [u8; 2]) -> (rgb: [u8; 3])
    ensures
        rgb@ == rgb_of_native(native[0], native[1]),
{
    libremarkable::framebuffer::common::color::NATIVE_COMPONENTS(native[0], native[1]).to_rgb8()
}

/// Calls `color::GRAY(..).as_native()` of libremarkable, which counts the
/// level from white: the pixel has `255 - level` in each channel.
#[verifier::external_body]
pub(crate) fn gray_to_native(level: u8) -> (native: [u8; 2])
    ensures
        native@ == native_of_rgb((255 - level) as u8, (255 - level) as u8, (255 - level) as u8),
{
    libremarkable::framebuffer::common::color::GRAY(level).as_native()
}

/// A channel mirrored on the scale.
pub open spec fn mirrored(channel: u8) -> u8 {
    (255 - channel) as u8
}

/// A channel darkened by `drift`, and black where that goes below black.
pub open spec fn darkened(channel: u8, drift: u8) -> u8 {
    if channel >= drift {
        (channel - drift) as u8
    } else {
        0
    }
}

/// The pixel with each of its channels mirrored.
pub open spec fn inverted(low: u8, high: u8) -> Seq<u8> {
    let rgb = rgb_of_native(low, high);
    native_of_rgb(mirrored(rgb[0]), mirrored(rgb[1]), mirrored(rgb[2]))
}

/// The pixel with each of its channels darkened by `drift`.
pub open spec fn shifted(low: u8, high: u8, drift: u8) -> Seq<u8> {
    let rgb = rgb_of_native(low, high);
    native_of_rgb(darkened(rgb[0], drift), darkened(rgb[1], drift), darkened(rgb[2], drift))
}

/// The pixel that shows a gray: the same level in each channel.
pub fn gray_pixel(color: u8) -> (native: [u8; 2])
    ensures
        native@ == native_of_rgb(color, color, color),
{
    // The panel's gray counts from white, the application's from black.
    gray_to_native(255 - color)
}

/// The pixel that shows the three channels.
pub fn rgb_pixel(rgb: [u8; 3]) -> (native: [u8; 2])
    ensures
        native@ == native_of_rgb(rgb[0], rgb[1], rgb[2]),
{
    rgb_to_native(rgb)
}

/// The three channels that a pixel shows.
pub fn pixel_rgb(native: [u8; 2]) -> (rgb: [u8; 3])
    ensures
        rgb@ == rgb_of_native(native[0], native[1]),
{
    native_to_rgb(native)
}

/// Inverts one pixel.
pub fn invert_pixel(native: [u8; 2]) -> (out: [u8; 2])
    ensures
        out@ == inverted(native[0], native[1]),
{
    let rgb = native_to_rgb(native);
    let red = 255 - rgb[0];
    let green = 255 - rgb[1];
    let blue = 255 - rgb[2];
    rgb_to_native([red, green, blue])
}

/// Darkens one pixel.
pub fn shift_pixel(native: [u8; 2], drift: u8) -> (out: [u8; 2])
    ensures
        out@ == shifted(native[0], native[1], drift),
{
    let rgb = native_to_rgb(native);
    let red = rgb[0].saturating_sub(drift);
    let green = rgb[1].saturating_sub(drift);
    let blue = rgb[2].saturating_sub(drift);
    rgb_to_native([red, green, blue])
}

/// The bytes hold the pixels of `before`, each inverted; a byte left over
/// at the end is as it was.
pub open spec fn is_inverted(after: Seq<u8>, before: Seq<u8>) -> bool {
    &&& after.len() == before.len()
    &&& forall|k: int|
        0 <= k && 2 * k + 1 < before.len() ==> #[trigger] after.subrange(2 * k, 2 * k + 2)
            == inverted(before[2 * k], before[2 * k + 1])
    &&& before.len() % 2 == 1 ==> after.last() == before.last()
}

/// The bytes hold the pixels of `before`, each darkened by `drift`; a byte
/// left over at the end is as it was.
pub open spec fn is_shifted(after: Seq<u8>, before: Seq<u8>, drift: u8) -> bool {
    &&& after.len() == before.len()
    &&& forall|k: int|
        0 <= k && 2 * k + 1 < before.len() ==> #[trigger] after.subrange(2 * k, 2 * k + 2)
            == shifted(before[2 * k], before[2 * k + 1], drift)
    &&& before.len() % 2 == 1 ==> after.last() == before.last()
}

/// Inverts the pixels of a region, given as the bytes that were read from
/// the panel and that go back to it.
pub fn invert_region(frame: &mut Vec<u8>)
    ensures
        is_inverted(final(frame)@, old(frame)@),
{
    let n = frame.len();
    let mut i: usize = 0;
    while i + 1 < n
        invariant
            n == frame@.len(),
            n == old(frame)@.len(),
            i % 2 == 0,
            i <= n,
            forall|k: int|
                0 <= k && 2 * k + 1 < i ==> #[trigger] frame@.subrange(2 * k, 2 * k + 2) == inverted(
                    old(frame)@[2 * k],
                    old(frame)@[2 * k + 1],
                ),
            forall|j: int| i <= j < n ==> frame@[j] == old(frame)@[j],
        decreases n - i,
    {
        let ghost before = frame@;
        let out = invert_pixel([frame[i], frame[i + 1]]);
        frame.set(i, out[0]);
        frame.set(i + 1, out[1]);
        proof {
            assert(frame@.subrange(i as int, i + 2) =~= out@);
            assert forall|k: int| 0 <= k && 2 * k + 1 < i + 2 implies #[trigger] frame@.subrange(
                2 * k,
                2 * k + 2,
            ) == inverted(old(frame)@[2 * k], old(frame)@[2 * k + 1]) by {
                if 2 * k + 1 < i {
                    assert(frame@.subrange(2 * k, 2 * k + 2) =~= before.subrange(2 * k, 2 * k + 2));
                } else {
                    assert(2 * k == i);
                }
            }
        }
        i += 2;
    }
}

/// Darkens the pixels of a region by `drift`.
pub fn shift_region(frame: &mut Vec<u8>, drift: u8)
    ensures
        is_shifted(final(frame)@, old(frame)@, drift),
{
    let n = frame.len();
    let mut i: usize = 0;
    while i + 1 < n
        invariant
            n == frame@.len(),
            n == old(frame)@.len(),
            i % 2 == 0,
            i <= n,
            forall|k: int|
                0 <= k && 2 * k + 1 < i ==> #[trigger] frame@.subrange(2 * k, 2 * k + 2) == shifted(
                    old(frame)@[2 * k],
                    old(frame)@[2 * k + 1],
                    drift,
                ),
            forall|j: int| i <= j < n ==> frame@[j] == old(frame)@[j],
        decreases n - i,
    {
        let ghost before = frame@;
        let out = shift_pixel([frame[i], frame[i + 1]], drift);
        frame.set(i, out[0]);
        frame.set(i + 1, out[1]);
        proof {
            assert(frame@.subrange(i as int, i + 2) =~= out@);
            assert forall|k: int| 0 <= k && 2 * k + 1 < i + 2 implies #[trigger] frame@.subrange(
                2 * k,
                2 * k + 2,
            ) == shifted(old(frame)@[2 * k], old(frame)@[2 * k + 1], drift) by {
                if 2 * k + 1 < i {
                    assert(frame@.subrange(2 * k, 2 * k + 2) =~= before.subrange(2 * k, 2 * k + 2));
                } else {
                    assert(2 * k == i);
                }
            }
        }
        i += 2;
    }
}

} // verus!
