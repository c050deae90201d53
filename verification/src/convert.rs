//! Conversion of a color from hue, saturation and brightness to red, green
//! and blue, and to hue, saturation and lightness. All of it is computed
//! exactly, in whole numbers: every result is the exact value rounded down.

use vstd::prelude::*;

verus! {

/// Hue, saturation and brightness are those of a sampled color: a hue in
/// degrees, with 360 accepted as a second name for 0, and two percentages.
pub open spec fn is_hsv(hue: int, saturation: int, brightness: int) -> bool {
    0 <= hue <= 360 && 0 <= saturation <= 100 && 0 <= brightness <= 100
}

/// The hue that is converted in place of `hue`: the two ends of the circle,
/// 0 and 360, are moved one degree inwards, away from the seam.
pub open spec fn hue_off_the_seam(hue: int) -> int {
    if hue == 0 {
        1
    } else if hue == 360 {
        359
    } else {
        hue
    }
}

/// The eight-bit channel for the intensity `numerator / denominator`, which
/// lies between 0 and 1: the intensity times 255, rounded down.
pub open spec fn channel(numerator: int, denominator: int) -> int {
    (255 * numerator) / denominator
}

/// The red, green and blue channels of a color given by hue, saturation and
/// brightness. The hue circle is cut into six sectors of 60 degrees; with `f`
/// the sixtieths that the hue has gone into its sector, `s` the saturation
/// and `v` the brightness as fractions of one, the channels are, in an order
/// that depends on the sector, three of `v`, `p = v(1 - s)`,
/// `q = v(1 - f s)` and `t = v(1 - (1 - f) s)`.
pub open spec fn spec_hsv_to_rgb(hue: int, saturation: int, brightness: int) -> (int, int, int) {
    let h = hue_off_the_seam(hue);
    let sector = h / 60;
    let f = h % 60;
    let v = channel(brightness, 100);
    let p = channel(brightness * (100 - saturation), 10000);
    let q = channel(brightness * (6000 - f * saturation), 600000);
    let t = channel(brightness * (6000 - (60 - f) * saturation), 600000);
    if sector == 0 {
        (v, t, p)
    } else if sector == 1 {
        (q, v, p)
    } else if sector == 2 {
        (p, v, t)
    } else if sector == 3 {
        (p, q, v)
    } else if sector == 4 {
        (t, p, v)
    } else {
        (v, p, q)
    }
}

/// The hue, saturation and lightness of a color given by hue, saturation and
/// brightness. With `s` and `v` as fractions of one, `k` is `(2 - s) v`,
/// turned into `2 - k` where it is above one; the lightness is `k / 2` and the
/// saturation `s v / k`, both as percentages rounded down. Where `k` is zero
/// the saturation is zero.
pub open spec fn spec_hsv_to_hsl(hue: int, saturation: int, brightness: int) -> (int, int, int) {
    let k = folded_lightness(saturation, brightness);
    let s = if k == 0 {
        0
    } else {
        (100 * (saturation * brightness)) / k
    };
    (hue, s, k / 200)
}

/// The quantity `k` of `spec_hsv_to_hsl`, in ten-thousandths.
pub open spec fn folded_lightness(saturation: int, brightness: int) -> int {
    let k = (200 - saturation) * brightness;
    if k > 10000 {
        20000 - k
    } else {
        k
    }
}

/// The three numbers of an array of channels.
pub open spec fn rgb_of(channels: [u8; 3]) -> (int, int, int) {
    (channels[0] as int, channels[1] as int, channels[2] as int)
}

/// The three numbers of an array of hue, saturation and lightness.
pub open spec fn hsl_of(parts: [u32; 3]) -> (int, int, int) {
    (parts[0] as int, parts[1] as int, parts[2] as int)
}

/// Computes the channel for the intensity `numerator / denominator`.
fn channel_of(numerator: i64, denominator: i64) -> (value: u8)
    requires
        0 <= numerator <= denominator,
        0 < denominator <= 600000,
    ensures
        value == channel(numerator as int, denominator as int),
{
    assert(0 <= (255 * numerator) / (denominator as int) <= 255) by (nonlinear_arith)
        requires
            0 <= numerator <= denominator,
            0 < denominator,
    ;
    ((255 * numerator) / denominator) as u8
}

/// Convert a color from HSV to RGB.
///
/// Parameters:
/// * `hue`: The hue of the color in the range [0, 360].
/// * `saturation`: The saturation of the color in the range [0, 100].
/// * `brightness`: The brightness of the color in the range [0, 100].
pub fn hsv_to_rgb(hue: i64, saturation: i64, brightness: i64) -> (rgb: [u8; 3])
    requires
        is_hsv(hue as int, saturation as int, brightness as int),
    ensures
        rgb_of(rgb) == spec_hsv_to_rgb(hue as int, saturation as int, brightness as int),
{
    let mut hue = hue;
    if hue == 0 {
        hue = 1;
    }
    if hue == 360 {
        hue = 359;
    }
    let sector = hue / 60;
    let f = hue % 60;
    assert(0 <= f * saturation <= 6000) by (nonlinear_arith)
        requires
            0 <= f < 60,
            0 <= saturation <= 100,
    ;
    assert(0 <= (60 - f) * saturation <= 6000) by (nonlinear_arith)
        requires
            0 <= f < 60,
            0 <= saturation <= 100,
    ;
    let toward = 6000 - f * saturation;
    let away = 6000 - (60 - f) * saturation;
    assert(0 <= brightness * (100 - saturation) <= 10000) by (nonlinear_arith)
        requires
            0 <= brightness <= 100,
            0 <= saturation <= 100,
    ;
    assert(0 <= brightness * toward <= 600000) by (nonlinear_arith)
        requires
            0 <= brightness <= 100,
            0 <= toward <= 6000,
    ;
    assert(0 <= brightness * away <= 600000) by (nonlinear_arith)
        requires
            0 <= brightness <= 100,
            0 <= away <= 6000,
    ;
    let v = channel_of(brightness, 100);
    let p = channel_of(brightness * (100 - saturation), 10000);
    let q = channel_of(brightness * toward, 600000);
    let t = channel_of(brightness * away, 600000);

    let (r, g, b) = match sector {
        0 => (v, t, p),
        1 => (q, v, p),
        2 => (p, v, t),
        3 => (p, q, v),
        4 => (t, p, v),
        _ => (v, p, q),
    };

    [r, g, b]
}

/// Convert a color from HSV to HSL.
///
/// Parameters:
/// * `hue`: The hue of the color in the range [0, 360].
/// * `saturation`: The saturation of the color in the range [0, 100].
/// * `brightness`: The brightness of the color in the range [0, 100].
pub fn hsv_to_hsl(hue: i64, saturation: i64, brightness: i64) -> (hsl: [u32; 3])
    requires
        is_hsv(hue as int, saturation as int, brightness as int),
    ensures
        hsl_of(hsl) == spec_hsv_to_hsl(hue as int, saturation as int, brightness as int),
        hsl[1] <= 100,
        hsl[2] <= 50,
{
    assert(0 <= (200 - saturation) * brightness <= 20000) by (nonlinear_arith)
        requires
            0 <= brightness <= 100,
            0 <= saturation <= 100,
    ;
    assert(0 <= saturation * brightness <= 100 * brightness) by (nonlinear_arith)
        requires
            0 <= brightness <= 100,
            0 <= saturation <= 100,
    ;
    assert((200 - saturation) * brightness == 200 * brightness - saturation * brightness)
        by (nonlinear_arith);
    let mut k = (200 - saturation) * brightness;

    if k > 10000 {
        k = 20000 - k;
    }
    let product = saturation * brightness;
    assert(product <= k);
    let s = if k == 0 {
        0
    } else {
        assert(0 <= (100 * product) / (k as int) <= 100) by (nonlinear_arith)
            requires
                0 <= product <= k,
                0 < k,
        ;
        (100 * product) / k
    };

    [hue as u32, s as u32, (k / 200) as u32]
}

/// The hues 0 and 360 give the same red, green and blue as the hues 1 and 359.
pub proof fn lemma_seam_hues_convert_alike(saturation: int, brightness: int)
    ensures
        spec_hsv_to_rgb(0, saturation, brightness) == spec_hsv_to_rgb(1, saturation, brightness),
        spec_hsv_to_rgb(360, saturation, brightness) == spec_hsv_to_rgb(
            359,
            saturation,
            brightness,
        ),
{
}

/// Every channel of a converted color fits in eight bits, and no channel is
/// above the channel of the brightness alone.
pub proof fn lemma_channels_are_bytes(hue: int, saturation: int, brightness: int)
    requires
        is_hsv(hue, saturation, brightness),
    ensures
        0 <= spec_hsv_to_rgb(hue, saturation, brightness).0 <= channel(brightness, 100) <= 255,
        0 <= spec_hsv_to_rgb(hue, saturation, brightness).1 <= channel(brightness, 100) <= 255,
        0 <= spec_hsv_to_rgb(hue, saturation, brightness).2 <= channel(brightness, 100) <= 255,
{
    let h = hue_off_the_seam(hue);
    let f = h % 60;
    let toward = 6000 - f * saturation;
    let away = 6000 - (60 - f) * saturation;
    assert(0 <= toward <= 6000 && 0 <= away <= 6000) by (nonlinear_arith)
        requires
            0 <= f < 60,
            0 <= saturation <= 100,
            toward == 6000 - f * saturation,
            away == 6000 - (60 - f) * saturation,
    ;
    lemma_dimmed_intensity(brightness, 100 - saturation, 100);
    lemma_dimmed_intensity(brightness, toward, 6000);
    lemma_dimmed_intensity(brightness, away, 6000);
    lemma_channel_is_monotonic(brightness * (100 - saturation), 10000, brightness);
    lemma_channel_is_monotonic(brightness * toward, 600000, brightness);
    lemma_channel_is_monotonic(brightness * away, 600000, brightness);
    assert(0 <= channel(brightness, 100) <= 255);
}

/// A brightness of `percent / 100` that is dimmed by the factor
/// `part / whole`, which is at most one, gives an intensity of at most
/// `percent / 100`.
proof fn lemma_dimmed_intensity(percent: int, part: int, whole: int)
    by (nonlinear_arith)
    requires
        0 <= percent <= 100,
        0 <= part <= whole,
    ensures
        0 <= percent * part,
        100 * (percent * part) <= percent * (100 * whole),
{
}

/// An intensity `numerator / denominator` that is at most `percent / 100` has
/// a channel that is at most the channel of `percent / 100`.
proof fn lemma_channel_is_monotonic(numerator: int, denominator: int, percent: int)
    by (nonlinear_arith)
    requires
        0 < denominator,
        0 <= percent <= 100,
        0 <= numerator,
        100 * numerator <= percent * denominator,
    ensures
        0 <= channel(numerator, denominator) <= channel(percent, 100),
{
}

} // verus!
