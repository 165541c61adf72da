//! The full derivation pipeline: container, synthesis, balancing, assembly.

use ansi_palette::backend::{Backend, BackendEnum, BackendStrategy, BalanceContrast, Dms};
use ansi_palette::colors::convert::{rgb_to_hsv, Hsv, PaletteError, Rgb};
use ansi_palette::dms::balance_contrast::legibility_score;
use ansi_palette::dms::calculator::AnsiResult;
use ansi_palette::dms::{derive_container, generate_ansi_dps, NORMAL_TEXT_TARGET, SECONDARY_TARGET};
use ansi_palette::fixed::{HUE_SPAN, UNIT};

#[test]
fn container_follows_the_exact_formula() {
    // Saturation 0.5 scales to 0.917; value 0.5 scales to 0.2315.
    let seed = Hsv { hue: 10_000_000, saturation: 500_000, value: 500_000 };
    let container = derive_container(&seed);
    assert_eq!(container.hue, 10_000_000);
    assert_eq!(container.saturation, 917_000);
    assert_eq!(container.value, 231_500);
}

#[test]
fn container_of_a_gray_seed_keeps_zero_saturation() {
    let seed = Hsv { hue: 0, saturation: 0, value: 500_000 };
    let container = derive_container(&seed);
    assert_eq!(container.saturation, 0);
    assert_eq!(container.value, 231_500);
}

#[test]
fn full_saturation_clamps_instead_of_overflowing() {
    let seed = Hsv { hue: 42_000_000, saturation: UNIT, value: UNIT };
    let container = derive_container(&seed);
    assert_eq!(container.saturation, UNIT);
    assert_eq!(container.value, 463_000);
}

#[test]
fn saturation_above_the_knee_still_clamps() {
    // 1.834 * 0.56 > 1, so anything from about 0.5453 up hits the cap.
    let seed = Hsv { hue: 0, saturation: 560_000, value: 300_000 };
    assert_eq!(derive_container(&seed).saturation, UNIT);
}

#[test]
fn synthesis_refuses_colors_outside_the_domain() {
    let good = Hsv { hue: 0, saturation: 0, value: 0 };
    let bad_hue = Hsv { hue: HUE_SPAN, saturation: 0, value: 0 };
    let bad_sat = Hsv { hue: 0, saturation: UNIT + 1, value: 0 };
    assert_eq!(
        AnsiResult::get(&bad_hue, &good).err(),
        Some(PaletteError::ColorDerivation)
    );
    assert_eq!(
        AnsiResult::get(&good, &bad_sat).err(),
        Some(PaletteError::ColorDerivation)
    );
    assert!(AnsiResult::get(&good, &good).is_ok());
}

#[test]
fn every_pipeline_stage_stays_inside_the_domain() {
    let seed = Rgb { red: 730_000, green: 210_000, blue: 460_000 };
    let hsv = rgb_to_hsv(&seed);
    assert!(hsv.hue < HUE_SPAN && hsv.saturation <= UNIT && hsv.value <= UNIT);
    let container = derive_container(&hsv);
    assert!(container.hue < HUE_SPAN && container.saturation <= UNIT && container.value <= UNIT);
    let raw = AnsiResult::get(&hsv, &container).expect("valid inputs");
    let balanced = raw.balance_dps_itself(NORMAL_TEXT_TARGET, SECONDARY_TARGET);
    for palette in [&raw, &balanced] {
        for slot in palette.normal.iter().chain(palette.bright.iter()) {
            assert!(slot.hue < HUE_SPAN);
            assert!(slot.saturation <= UNIT);
            assert!(slot.value <= UNIT);
        }
    }
}

#[test]
fn balancing_hits_both_targets_exactly_when_feasible() {
    let seed = rgb_to_hsv(&Rgb { red: 500_000, green: 500_000, blue: 500_000 });
    let container = derive_container(&seed);
    let raw = AnsiResult::get(&seed, &container).expect("valid inputs");
    let balanced = raw.balance_dps_itself(NORMAL_TEXT_TARGET, SECONDARY_TARGET);
    let anchor = balanced.normal[0];

    // Normal text role: white and bright white, 40 score points.
    assert_eq!(legibility_score(&balanced.normal[7], &anchor), 400_000);
    assert_eq!(legibility_score(&balanced.bright[7], &anchor), 400_000);
    // Secondary text role: bright black, 35 score points.
    assert_eq!(legibility_score(&balanced.bright[0], &anchor), 350_000);

    // Hue and saturation of the balanced slots are untouched.
    assert_eq!(balanced.normal[7].hue, raw.normal[7].hue);
    assert_eq!(balanced.normal[7].saturation, raw.normal[7].saturation);
    // The chromatic accents are untouched entirely.
    for i in 1..7 {
        assert_eq!(balanced.normal[i], raw.normal[i]);
        assert_eq!(balanced.bright[i], raw.bright[i]);
    }
}

#[test]
fn infeasible_target_degrades_to_the_top_of_the_domain() {
    // A container this light cannot be 40 points below full value.
    let light = Hsv { hue: 0, saturation: 0, value: 900_000 };
    let raw = AnsiResult::get(&light, &light).expect("valid inputs");
    let balanced = raw.balance_dps_itself(NORMAL_TEXT_TARGET, SECONDARY_TARGET);
    assert_eq!(balanced.normal[7].value, UNIT);
    assert_eq!(balanced.bright[7].value, UNIT);
}

#[test]
fn generate_is_deterministic() {
    let seed = Rgb { red: 640_000, green: 480_000, blue: 120_000 };
    let first = Dms::generate(&seed, Some(BalanceContrast::Dps)).expect("well-formed seed");
    let second = Dms::generate(&seed, Some(BalanceContrast::Dps)).expect("well-formed seed");
    assert_eq!(first.colors, second.colors);
    let third = Dms::generate(&seed, None).expect("well-formed seed");
    assert_eq!(first.colors, third.colors);
}

#[test]
fn skipping_balancing_emits_the_raw_palette() {
    let seed = Rgb { red: 640_000, green: 480_000, blue: 120_000 };
    let generated = Dms::generate(&seed, Some(BalanceContrast::Skip)).expect("well-formed seed");
    let hsv = rgb_to_hsv(&seed);
    let container = derive_container(&hsv);
    let raw = AnsiResult::get(&hsv, &container).expect("valid inputs").to_hex();
    assert_eq!(generated.colors, raw.colors);
}

#[test]
fn default_strategy_is_the_balanced_one() {
    let seed = Rgb { red: 500_000, green: 500_000, blue: 500_000 };
    let defaulted = Dms::generate(&seed, None).expect("well-formed seed");
    let dps = generate_ansi_dps(&seed).expect("well-formed seed");
    assert_eq!(defaulted.colors, dps.colors);
}

#[test]
fn mid_gray_scenario_is_pinned_byte_for_byte() {
    // Seed 0.5 gray: the container is (hue 0, saturation 0, value 0.2315)
    // and the sixteen raw slots follow the synthesis table exactly.
    let seed = Rgb { red: 500_000, green: 500_000, blue: 500_000 };
    let palette = Dms::generate(&seed, Some(BalanceContrast::Skip)).expect("well-formed seed");
    let expected = [
        "3b3b3b", "b35959", "59b359", "b3b359", "5959b3", "b359b3", "59b3b3", "e6e6e6",
        "7b7b7b", "d96c6c", "6cd96c", "d9d96c", "6c6cd9", "d96cd9", "6cd9d9", "f5f5f5",
    ];
    assert_eq!(palette.colors.len(), 16);
    for (slot, want) in palette.colors.iter().zip(expected.iter()) {
        assert_eq!(slot, want);
    }
}

#[test]
fn mid_gray_balanced_scenario_is_pinned() {
    let seed = Rgb { red: 500_000, green: 500_000, blue: 500_000 };
    let palette = generate_ansi_dps(&seed).expect("well-formed seed");
    // Balancing lifts white and bright white to value 0.6315 and bright
    // black to 0.5815; every other slot keeps its raw encoding.
    let expected = [
        "3b3b3b", "b35959", "59b359", "b3b359", "5959b3", "b359b3", "59b3b3", "a1a1a1",
        "949494", "d96c6c", "6cd96c", "d9d96c", "6c6cd9", "d96cd9", "6cd9d9", "a1a1a1",
    ];
    for (slot, want) in palette.colors.iter().zip(expected.iter()) {
        assert_eq!(slot, want);
    }
}

#[test]
fn generated_palettes_are_sixteen_hex_entries() {
    let seed = Rgb { red: 1, green: 999_999, blue: 250_000 };
    for strategy in [None, Some(BalanceContrast::Dps), Some(BalanceContrast::Skip)] {
        let palette = Dms::generate(&seed, strategy).expect("well-formed seed");
        assert_eq!(palette.colors.len(), 16);
        for slot in palette.colors.iter() {
            assert_eq!(slot.len(), 6);
            assert!(slot.chars().all(|c| c.is_ascii_hexdigit()));
        }
    }
}

#[test]
fn backend_label_is_its_display_name() {
    assert_eq!(BackendEnum::Dms.label(), "DMS");
}

#[test]
fn rgb_palette_hex_encodes_in_slot_order() {
    let gray = |v: u64| Rgb { red: v, green: v, blue: v };
    let palette = Backend {
        normal: [
            gray(0),
            Rgb { red: UNIT, green: 0, blue: 0 },
            Rgb { red: 0, green: UNIT, blue: 0 },
            Rgb { red: 0, green: 0, blue: UNIT },
            gray(UNIT / 2),
            gray(UNIT),
            gray(0),
            gray(UNIT),
        ],
        bright: [gray(0); 8],
    };
    let hex = palette.to_hex();
    assert_eq!(hex.colors.len(), 16);
    assert_eq!(hex.colors[0], "000000");
    assert_eq!(hex.colors[1], "ff0000");
    assert_eq!(hex.colors[2], "00ff00");
    assert_eq!(hex.colors[3], "0000ff");
    assert_eq!(hex.colors[4], "808080");
    assert_eq!(hex.colors[5], "ffffff");
    assert_eq!(hex.colors[8], "000000");
    assert_eq!(hex.colors[15], "000000");
}
