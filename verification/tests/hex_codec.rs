//! Hex encoding and decoding: round trips, canonicalization, rejection.

use ansi_palette::colors::convert::{from_hex, rgb_to_hex, PaletteError, Rgb};
use ansi_palette::fixed::UNIT;

#[test]
fn round_trip_lowercase_is_exact() {
    for s in ["000000", "ffffff", "123abc", "deadbe", "0a0b0c", "7f8081"] {
        let rgb = from_hex(s).expect("valid hex");
        assert_eq!(rgb_to_hex(&rgb), s);
    }
}

#[test]
fn uppercase_input_decodes_and_canonicalizes() {
    let rgb = from_hex("AABBCC").expect("valid hex");
    assert_eq!(rgb_to_hex(&rgb), "aabbcc");
}

#[test]
fn hash_prefix_is_accepted() {
    assert_eq!(from_hex("#123456"), from_hex("123456"));
    let rgb = from_hex("#123456").expect("valid hex");
    assert_eq!(rgb_to_hex(&rgb), "123456");
}

#[test]
fn malformed_inputs_are_parse_errors() {
    for s in ["", "12345", "1234567", "#12345", "#1234567", "gg0011", "12345g", "##12345", "#-12345"] {
        assert_eq!(from_hex(s), Err(PaletteError::Parse), "input {s:?}");
    }
}

#[test]
fn byte_multiples_survive_decode_encode_decode() {
    // Channels decoded from hex are exact multiples of 1/255 on the
    // fixed-point grid; the round trip through text is lossless for them.
    let c = from_hex("3b7f2a").expect("valid hex");
    let text = rgb_to_hex(&c);
    assert_eq!(from_hex(&text).expect("valid hex"), c);
}

#[test]
fn encoding_is_idempotent_through_a_decode() {
    let c = Rgb { red: 333_333, green: 1, blue: 999_999 };
    let first = rgb_to_hex(&c);
    let reparsed = from_hex(&first).expect("own output is valid");
    let second = rgb_to_hex(&reparsed);
    assert_eq!(first, second);
}

#[test]
fn channels_round_to_nearest_byte_halves_up() {
    // 0.5 of a channel is 127.5 in byte scale and rounds up to 0x80.
    let mid = Rgb { red: UNIT / 2, green: UNIT / 2, blue: UNIT / 2 };
    assert_eq!(rgb_to_hex(&mid), "808080");
    let full = Rgb { red: UNIT, green: 0, blue: UNIT };
    assert_eq!(rgb_to_hex(&full), "ff00ff");
}
