use random_color::convert::{hsv_to_hsl, hsv_to_rgb};
use random_color::format::{
    hex_to_rgb, hsl_to_string, hsla_to_string, rgb_to_hex, rgb_to_string, rgba_to_string,
};

#[test]
fn hsv_to_rgb_of_the_documented_color() {
    assert_eq!(hsv_to_rgb(191, 30, 98), [174, 236, 249]);
}

#[test]
fn hsv_to_rgb_in_every_sector() {
    // Sector 0: (v, t, p).
    assert_eq!(hsv_to_rgb(30, 100, 100), [255, 127, 0]);
    // Sector 1: (q, v, p).
    assert_eq!(hsv_to_rgb(90, 100, 100), [127, 255, 0]);
    // Sector 2: (p, v, t).
    assert_eq!(hsv_to_rgb(150, 100, 100), [0, 255, 127]);
    // Sector 3: (p, q, v).
    assert_eq!(hsv_to_rgb(210, 100, 100), [0, 127, 255]);
    // Sector 4: (t, p, v).
    assert_eq!(hsv_to_rgb(264, 97, 56), [59, 4, 142]);
    assert_eq!(hsv_to_rgb(264, 97, 59), [62, 4, 150]);
    // Sector 5: (v, p, q).
    assert_eq!(hsv_to_rgb(330, 100, 100), [255, 0, 127]);
}

#[test]
fn hsv_to_rgb_on_sector_borders() {
    assert_eq!(hsv_to_rgb(60, 100, 100), [255, 255, 0]);
    assert_eq!(hsv_to_rgb(120, 100, 100), [0, 255, 0]);
    assert_eq!(hsv_to_rgb(180, 100, 100), [0, 255, 255]);
    assert_eq!(hsv_to_rgb(240, 100, 100), [0, 0, 255]);
    assert_eq!(hsv_to_rgb(300, 100, 100), [255, 0, 255]);
}

#[test]
fn hsv_to_rgb_rounds_every_channel_down() {
    // 255 * 0.5 = 127.5 and 255 * 0.99 = 252.45.
    assert_eq!(hsv_to_rgb(100, 0, 50), [127, 127, 127]);
    assert_eq!(hsv_to_rgb(100, 0, 99), [252, 252, 252]);
    // 255 * 0.5 * 0.4 = 51 exactly.
    assert_eq!(hsv_to_rgb(1, 60, 50), [127, 52, 51]);
}

#[test]
fn hsv_to_rgb_of_black_white_and_grey() {
    assert_eq!(hsv_to_rgb(200, 0, 0), [0, 0, 0]);
    assert_eq!(hsv_to_rgb(200, 100, 0), [0, 0, 0]);
    assert_eq!(hsv_to_rgb(200, 0, 100), [255, 255, 255]);
    assert_eq!(hsv_to_rgb(200, 0, 20), [51, 51, 51]);
}

#[test]
fn hue_0_converts_like_hue_1_and_hue_360_like_hue_359() {
    for saturation in 0..=100 {
        for brightness in 0..=100 {
            assert_eq!(
                hsv_to_rgb(0, saturation, brightness),
                hsv_to_rgb(1, saturation, brightness)
            );
            assert_eq!(
                hsv_to_rgb(360, saturation, brightness),
                hsv_to_rgb(359, saturation, brightness)
            );
        }
    }
    assert_eq!(hsv_to_rgb(0, 100, 100), [255, 4, 0]);
    assert_eq!(hsv_to_rgb(360, 100, 100), [255, 0, 4]);
}

#[test]
fn conversions_give_the_same_result_for_the_same_input() {
    for hue in (0..=360).step_by(7) {
        for saturation in (0..=100).step_by(5) {
            for brightness in (0..=100).step_by(5) {
                assert_eq!(
                    hsv_to_rgb(hue, saturation, brightness),
                    hsv_to_rgb(hue, saturation, brightness)
                );
                assert_eq!(
                    hsv_to_hsl(hue, saturation, brightness),
                    hsv_to_hsl(hue, saturation, brightness)
                );
            }
        }
    }
}

#[test]
fn no_channel_is_above_the_channel_of_the_brightness() {
    for hue in 0..=360 {
        for saturation in (0..=100).step_by(3) {
            for brightness in (0..=100).step_by(3) {
                let rgb = hsv_to_rgb(hue, saturation, brightness);
                let top = (255 * brightness / 100) as u8;
                assert_eq!(*rgb.iter().max().unwrap(), top);
            }
        }
    }
}

#[test]
fn hsv_to_hsl_of_the_documented_color() {
    assert_eq!(hsv_to_hsl(191, 30, 98), [191, 88, 16]);
}

#[test]
fn hsv_to_hsl_without_folding() {
    // k = 1.5 * 0.5 = 0.75; 0.25 / 0.75 = 33.3 percent; 37.5 percent.
    assert_eq!(hsv_to_hsl(10, 50, 50), [10, 33, 37]);
    // k = 1 * 1 = 1.
    assert_eq!(hsv_to_hsl(359, 100, 100), [359, 100, 50]);
    // k = 2 * 0.5 = 1, which is not above one.
    assert_eq!(hsv_to_hsl(0, 0, 50), [0, 0, 50]);
}

#[test]
fn hsv_to_hsl_with_folding() {
    // k = 2 * 0.54 = 1.08, folded to 0.92.
    assert_eq!(hsv_to_hsl(0, 0, 54), [0, 0, 46]);
    // k = 1.5 * 0.8 = 1.2, folded to 0.8; 0.4 / 0.8.
    assert_eq!(hsv_to_hsl(120, 50, 80), [120, 50, 40]);
    // k = 1.03 * 0.56 = 0.5768.
    assert_eq!(hsv_to_hsl(264, 97, 56), [264, 94, 28]);
}

#[test]
fn hsv_to_hsl_of_black_has_no_saturation() {
    for saturation in 0..=100 {
        assert_eq!(hsv_to_hsl(77, saturation, 0), [77, 0, 0]);
    }
}

#[test]
fn hsv_to_hsl_of_white_folds_to_nothing() {
    assert_eq!(hsv_to_hsl(77, 0, 100), [77, 0, 0]);
}

#[test]
fn hsv_to_hsl_stays_within_its_ranges() {
    for saturation in 0..=100 {
        for brightness in 0..=100 {
            let hsl = hsv_to_hsl(360, saturation, brightness);
            assert_eq!(hsl[0], 360);
            assert!(hsl[1] <= 100);
            assert!(hsl[2] <= 50);
        }
    }
}

#[test]
fn rgb_to_hex_pads_every_channel() {
    assert_eq!(rgb_to_hex([0, 0, 0]), "#000000");
    assert_eq!(rgb_to_hex([1, 2, 3]), "#010203");
    assert_eq!(rgb_to_hex([15, 16, 255]), "#0f10ff");
    assert_eq!(rgb_to_hex([174, 236, 249]), "#aeecf9");
    assert_eq!(rgb_to_hex([62, 4, 150]), "#3e0496");
    assert_eq!(rgb_to_hex([171, 205, 239]), "#abcdef");
}

#[test]
fn rgb_to_hex_is_always_seven_characters() {
    for value in 0..=255u8 {
        let text = rgb_to_hex([value, 255 - value, value / 2]);
        assert_eq!(text.len(), 7);
        assert!(text.starts_with('#'));
        assert!(text[1..].chars().all(|c| c.is_ascii_digit() || ('a'..='f').contains(&c)));
        assert_eq!(
            text,
            format!("#{:02x}{:02x}{:02x}", value, 255 - value, value / 2)
        );
    }
}

#[test]
fn hex_to_rgb_reads_both_cases() {
    assert_eq!(hex_to_rgb("#aeecf9"), Some([174, 236, 249]));
    assert_eq!(hex_to_rgb("#AEECF9"), Some([174, 236, 249]));
    assert_eq!(hex_to_rgb("#AbCdEf"), Some([171, 205, 239]));
    assert_eq!(hex_to_rgb("#000000"), Some([0, 0, 0]));
    assert_eq!(hex_to_rgb("#ffffff"), Some([255, 255, 255]));
    assert_eq!(hex_to_rgb("#0f10ff"), Some([15, 16, 255]));
}

#[test]
fn hex_to_rgb_refuses_other_text() {
    assert_eq!(hex_to_rgb(""), None);
    assert_eq!(hex_to_rgb("#"), None);
    assert_eq!(hex_to_rgb("aeecf9"), None);
    assert_eq!(hex_to_rgb("aeecf9#"), None);
    assert_eq!(hex_to_rgb("#aeecf"), None);
    assert_eq!(hex_to_rgb("#aeecf9a"), None);
    assert_eq!(hex_to_rgb("#aeecfg"), None);
    assert_eq!(hex_to_rgb("#ae cf9"), None);
    assert_eq!(hex_to_rgb("$aeecf9"), None);
    assert_eq!(hex_to_rgb("#aeec\u{e9}9"), None);
    assert_eq!(hex_to_rgb("#\u{ff10}00000"), None);
}

#[test]
fn hex_round_trip_recovers_the_color() {
    for r in 0..=255u8 {
        for g in (0..=255u8).step_by(17) {
            for b in (0..=255u8).step_by(15) {
                assert_eq!(hex_to_rgb(&rgb_to_hex([r, g, b])), Some([r, g, b]));
            }
        }
    }
    for value in 0..=255u8 {
        assert_eq!(hex_to_rgb(&rgb_to_hex([0, value, 0])), Some([0, value, 0]));
        assert_eq!(hex_to_rgb(&rgb_to_hex([0, 0, value])), Some([0, 0, value]));
    }
}

#[test]
fn rgb_to_string_writes_decimal_channels() {
    assert_eq!(rgb_to_string([174, 236, 249]), "rgb(174, 236, 249)");
    assert_eq!(rgb_to_string([0, 0, 0]), "rgb(0, 0, 0)");
    assert_eq!(rgb_to_string([7, 10, 100]), "rgb(7, 10, 100)");
    assert_eq!(rgb_to_string([255, 99, 9]), "rgb(255, 99, 9)");
}

#[test]
fn rgb_to_string_agrees_with_the_standard_formatting() {
    for value in 0..=255u8 {
        assert_eq!(
            rgb_to_string([value, 255 - value, 0]),
            format!("rgb({}, {}, {})", value, 255 - value, 0)
        );
    }
}

#[test]
fn hsl_to_string_writes_percentages() {
    assert_eq!(hsl_to_string([191, 88, 16]), "hsl(191, 88%, 16%)");
    assert_eq!(hsl_to_string([0, 0, 0]), "hsl(0, 0%, 0%)");
    assert_eq!(hsl_to_string([359, 100, 50]), "hsl(359, 100%, 50%)");
    assert_eq!(hsl_to_string([4294967295, 1000, 20]), "hsl(4294967295, 1000%, 20%)");
}

#[test]
fn rgba_to_string_appends_the_alpha_value() {
    assert_eq!(rgba_to_string([174, 236, 249], "1"), "rgba(174, 236, 249, 1)");
    assert_eq!(rgba_to_string([0, 5, 50], "0.69"), "rgba(0, 5, 50, 0.69)");
    assert_eq!(rgba_to_string([0, 5, 50], &0.5f32.to_string()), "rgba(0, 5, 50, 0.5)");
    assert_eq!(rgba_to_string([0, 5, 50], &1.0f32.to_string()), "rgba(0, 5, 50, 1)");
}

#[test]
fn hsla_to_string_appends_the_alpha_value() {
    assert_eq!(hsla_to_string([191, 88, 16], "1"), "hsla(191, 88%, 16%, 1)");
    assert_eq!(hsla_to_string([0, 0, 0], "0.25"), "hsla(0, 0%, 0%, 0.25)");
    assert_eq!(hsla_to_string([359, 100, 50], &0.5f32.to_string()), "hsla(359, 100%, 50%, 0.5)");
}
