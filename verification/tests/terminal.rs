//! The terminal escape text and the command-line data types.

use ansi_palette::backend::{BackendStrategy, BalanceContrast, Dms};
use ansi_palette::cli::{BackEnd, Cli, Mode};
use ansi_palette::colors::convert::Rgb;
use ansi_palette::term::apply;

#[test]
fn apply_renders_one_color_set_sequence_per_slot() {
    let seed = Rgb { red: 500_000, green: 500_000, blue: 500_000 };
    let palette = Dms::generate(&seed, Some(BalanceContrast::Skip)).expect("well-formed seed");
    let text = apply(&palette);
    let mut expected = String::new();
    for (i, hex) in palette.colors.iter().enumerate() {
        expected.push_str(&format!("\u{1b}]4;{i};#{hex}\u{1b}\\"));
    }
    assert_eq!(text, expected);
}

#[test]
fn cli_labels_match_their_display_names() {
    assert_eq!(BackEnd::Dms.label(), "DMS");
    assert_eq!(BackEnd::DmsWcag.label(), "DMS-WCAG");
    assert_eq!(Mode::Dark.label(), "dark");
    assert_eq!(Mode::Light.label(), "light");
}

#[test]
fn cli_carries_the_run_options_as_plain_data() {
    let cli = Cli {
        color: String::from("#aabbcc"),
        from_srgb: false,
        json_dump: true,
        verbose: false,
        backend: BackEnd::Dms,
        mode: Mode::Dark,
    };
    assert_eq!(cli.color, "#aabbcc");
    assert!(cli.json_dump);
    assert_eq!(cli.backend, BackEnd::Dms);
    assert_eq!(cli.mode, Mode::Dark);
}
