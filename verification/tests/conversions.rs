//! RGB and hue-saturation-value conversions on known colors.

use ansi_palette::colors::convert::{hsv_to_rgb, rgb_to_hsv, Hsv, Rgb};
use ansi_palette::fixed::{HUE_SPAN, UNIT};

#[test]
fn primary_hues_land_on_their_angles() {
    let red = rgb_to_hsv(&Rgb { red: UNIT, green: 0, blue: 0 });
    assert_eq!((red.hue, red.saturation, red.value), (0, UNIT, UNIT));

    let green = rgb_to_hsv(&Rgb { red: 0, green: UNIT, blue: 0 });
    assert_eq!((green.hue, green.saturation, green.value), (120_000_000, UNIT, UNIT));

    let blue = rgb_to_hsv(&Rgb { red: 0, green: 0, blue: UNIT });
    assert_eq!((blue.hue, blue.saturation, blue.value), (240_000_000, UNIT, UNIT));
}

#[test]
fn gray_has_no_hue_and_no_saturation() {
    let gray = rgb_to_hsv(&Rgb { red: UNIT / 2, green: UNIT / 2, blue: UNIT / 2 });
    assert_eq!((gray.hue, gray.saturation, gray.value), (0, 0, UNIT / 2));
}

#[test]
fn black_has_zero_value_and_zero_saturation() {
    let black = rgb_to_hsv(&Rgb { red: 0, green: 0, blue: 0 });
    assert_eq!((black.hue, black.saturation, black.value), (0, 0, 0));
}

#[test]
fn desaturated_color_converts_back_to_its_gray() {
    let c = hsv_to_rgb(&Hsv { hue: 0, saturation: 0, value: 700_000 });
    assert_eq!((c.red, c.green, c.blue), (700_000, 700_000, 700_000));
}

#[test]
fn saturated_sectors_convert_back_to_their_channels() {
    let red = hsv_to_rgb(&Hsv { hue: 0, saturation: UNIT, value: UNIT });
    assert_eq!((red.red, red.green, red.blue), (UNIT, 0, 0));

    let cyan = hsv_to_rgb(&Hsv { hue: 180_000_000, saturation: UNIT, value: UNIT });
    assert_eq!((cyan.red, cyan.green, cyan.blue), (0, UNIT, UNIT));
}

#[test]
fn conversion_round_trip_is_loss_bounded() {
    // One fixed-point step of rounding slack per stage is the documented
    // bound; on these values the round trip is exact to a few units.
    let original = Rgb { red: 640_000, green: 480_000, blue: 120_000 };
    let there = rgb_to_hsv(&original);
    let back = hsv_to_rgb(&there);
    assert!((back.red as i64 - original.red as i64).abs() <= 2);
    assert!((back.green as i64 - original.green as i64).abs() <= 2);
    assert!((back.blue as i64 - original.blue as i64).abs() <= 2);
}

#[test]
fn conversions_stay_inside_the_domain() {
    for (r, g, b) in [
        (0, 0, 0),
        (UNIT, UNIT, UNIT),
        (UNIT, 0, 999_999),
        (123_456, 654_321, 42),
        (1, 2, 3),
    ] {
        let h = rgb_to_hsv(&Rgb { red: r, green: g, blue: b });
        assert!(h.hue < HUE_SPAN);
        assert!(h.saturation <= UNIT);
        assert!(h.value <= UNIT);
        let c = hsv_to_rgb(&h);
        assert!(c.red <= UNIT && c.green <= UNIT && c.blue <= UNIT);
    }
}
