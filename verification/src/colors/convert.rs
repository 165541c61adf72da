//! Conversions among standard RGB, hue-saturation-value, and 6-hex-digit
//! encoded colors.
//!
//! All conversions are pure and loss-bounded-by-rounding: a hex string decodes
//! to the nearest fixed-point channels, channels encode to the nearest byte,
//! and a byte survives the round trip exactly.

use vstd::prelude::*;
use vstd::string::{StrSliceExecFns, StringExecFns};
use crate::fixed::{
    lemma_rdiv_factor_le, lemma_rdiv_nonneg, lemma_rdiv_pos, rdiv, round_div, HUE_SPAN, SIXTY_DEG,
    UNIT,
};

verus! {

/// Why a color operation was refused.
#[derive(Clone, Copy, Debug, PartialEq, Eq, Structural)]
pub enum PaletteError {
    /// The input was not a well-formed 6-hex-digit color.
    Parse,
    /// A derived color fell outside the valid hue-saturation-value domain.
    ColorDerivation,
}

/// A standard RGB color; each channel is a fixed-point fraction of one,
/// at most [`UNIT`].
#[derive(Clone, Copy, Debug, PartialEq, Eq, Structural)]
pub struct Rgb {
    pub red: u64,
    pub green: u64,
    pub blue: u64,
}

/// A hue-saturation-value color: hue in fixed-point degrees below
/// [`HUE_SPAN`], saturation and value fixed-point fractions of one.
#[derive(Clone, Copy, Debug, PartialEq, Eq, Structural)]
pub struct Hsv {
    pub hue: u64,
    pub saturation: u64,
    pub value: u64,
}

impl Rgb {
    /// Every channel lies in the unit interval.
    pub open spec fn wf(self) -> bool {
        self.red <= UNIT && self.green <= UNIT && self.blue <= UNIT
    }

    /// Runtime check of [`Rgb::wf`].
    pub fn is_wf(&self) -> (b: bool)
        ensures
            b == self.wf(),
    {
        self.red <= UNIT && self.green <= UNIT && self.blue <= UNIT
    }
}

impl Hsv {
    /// Hue below 360 degrees, saturation and value in the unit interval.
    pub open spec fn wf(self) -> bool {
        self.hue < HUE_SPAN && self.saturation <= UNIT && self.value <= UNIT
    }

    /// Runtime check of [`Hsv::wf`].
    pub fn is_wf(&self) -> (b: bool)
        ensures
            b == self.wf(),
    {
        self.hue < HUE_SPAN && self.saturation <= UNIT && self.value <= UNIT
    }
}

/// The largest of three components.
pub open spec fn spec_max3(a: int, b: int, c: int) -> int {
    if a >= b && a >= c {
        a
    } else if b >= c {
        b
    } else {
        c
    }
}

/// The smallest of three components.
pub open spec fn spec_min3(a: int, b: int, c: int) -> int {
    if a <= b && a <= c {
        a
    } else if b <= c {
        b
    } else {
        c
    }
}

/// The standard max/min-channel conversion from RGB to hue-saturation-value:
/// value is the largest channel, saturation the spread over the largest
/// channel (zero when value is zero), hue the sector angle wrapped into
/// `[0, 360)` degrees.
pub open spec fn spec_rgb_to_hsv(c: Rgb) -> Hsv {
    let r = c.red as int;
    let g = c.green as int;
    let b = c.blue as int;
    let maxc = spec_max3(r, g, b);
    let minc = spec_min3(r, g, b);
    let delta = maxc - minc;
    let sat = if maxc == 0 {
        0
    } else {
        rdiv(delta * (UNIT as int), maxc)
    };
    let hue = if delta == 0 {
        0
    } else if maxc == r {
        if g >= b {
            rdiv((g - b) * (SIXTY_DEG as int), delta)
        } else {
            HUE_SPAN as int - rdiv((b - g) * (SIXTY_DEG as int), delta)
        }
    } else if maxc == g {
        if b >= r {
            2 * (SIXTY_DEG as int) + rdiv((b - r) * (SIXTY_DEG as int), delta)
        } else {
            2 * (SIXTY_DEG as int) - rdiv((r - b) * (SIXTY_DEG as int), delta)
        }
    } else {
        if r >= g {
            4 * (SIXTY_DEG as int) + rdiv((r - g) * (SIXTY_DEG as int), delta)
        } else {
            4 * (SIXTY_DEG as int) - rdiv((g - r) * (SIXTY_DEG as int), delta)
        }
    };
    Hsv { hue: hue as u64, saturation: sat as u64, value: maxc as u64 }
}

/// On a well-formed RGB color the conversion lands in the valid
/// hue-saturation-value domain.
pub proof fn lemma_rgb_to_hsv_wf(c: Rgb)
    requires
        c.wf(),
    ensures
        spec_rgb_to_hsv(c).wf(),
{
    let r = c.red as int;
    let g = c.green as int;
    let b = c.blue as int;
    let maxc = spec_max3(r, g, b);
    let minc = spec_min3(r, g, b);
    let delta = maxc - minc;
    let sd = SIXTY_DEG as int;
    if maxc != 0 {
        lemma_rdiv_factor_le(delta, UNIT as int, maxc);
        lemma_rdiv_nonneg(delta * (UNIT as int), maxc);
    }
    if delta != 0 {
        if maxc == r {
            if g >= b {
                lemma_rdiv_factor_le(g - b, sd, delta);
                lemma_rdiv_nonneg((g - b) * sd, delta);
            } else {
                lemma_rdiv_factor_le(b - g, sd, delta);
                lemma_rdiv_pos((b - g) * sd, delta);
            }
        } else if maxc == g {
            if b >= r {
                lemma_rdiv_factor_le(b - r, sd, delta);
                lemma_rdiv_nonneg((b - r) * sd, delta);
            } else {
                lemma_rdiv_factor_le(r - b, sd, delta);
                lemma_rdiv_nonneg((r - b) * sd, delta);
            }
        } else {
            if r >= g {
                lemma_rdiv_factor_le(r - g, sd, delta);
                lemma_rdiv_nonneg((r - g) * sd, delta);
            } else {
                lemma_rdiv_factor_le(g - r, sd, delta);
                lemma_rdiv_nonneg((g - r) * sd, delta);
            }
        }
    }
}

/// Converts a standard RGB color to its hue-saturation-value form.
pub fn rgb_to_hsv(c: &Rgb) -> (h: Hsv)
    requires
        c.wf(),
    ensures
        h == spec_rgb_to_hsv(*c),
        h.wf(),
{
    proof {
        lemma_rgb_to_hsv_wf(*c);
    }
    let r = c.red;
    let g = c.green;
    let b = c.blue;
    let maxc = if r >= g && r >= b {
        r
    } else if g >= b {
        g
    } else {
        b
    };
    let minc = if r <= g && r <= b {
        r
    } else if g <= b {
        g
    } else {
        b
    };
    let delta = maxc - minc;
    let sat = if maxc == 0 {
        0
    } else {
        round_div(delta * UNIT, maxc)
    };
    let hue = if delta == 0 {
        0
    } else if maxc == r {
        if g >= b {
            round_div((g - b) * SIXTY_DEG, delta)
        } else {
            proof {
                lemma_rdiv_factor_le((b - g) as int, SIXTY_DEG as int, delta as int);
                lemma_rdiv_pos(((b - g) * SIXTY_DEG) as int, delta as int);
            }
            HUE_SPAN - round_div((b - g) * SIXTY_DEG, delta)
        }
    } else if maxc == g {
        if b >= r {
            2 * SIXTY_DEG + round_div((b - r) * SIXTY_DEG, delta)
        } else {
            proof {
                lemma_rdiv_factor_le((r - b) as int, SIXTY_DEG as int, delta as int);
                lemma_rdiv_nonneg(((r - b) * SIXTY_DEG) as int, delta as int);
            }
            2 * SIXTY_DEG - round_div((r - b) * SIXTY_DEG, delta)
        }
    } else {
        if r >= g {
            4 * SIXTY_DEG + round_div((r - g) * SIXTY_DEG, delta)
        } else {
            proof {
                lemma_rdiv_factor_le((g - r) as int, SIXTY_DEG as int, delta as int);
                lemma_rdiv_nonneg(((g - r) * SIXTY_DEG) as int, delta as int);
            }
            4 * SIXTY_DEG - round_div((g - r) * SIXTY_DEG, delta)
        }
    };
    Hsv { hue, saturation: sat, value: maxc }
}

/// The standard sector-based conversion from hue-saturation-value back to
/// RGB: the hue picks one of six sectors, the fractional position inside the
/// sector blends the three auxiliary levels.
pub open spec fn spec_hsv_to_rgb(h: Hsv) -> Rgb {
    let u = UNIT as int;
    let hue = h.hue as int;
    let s = h.saturation as int;
    let v = h.value as int;
    let sector = hue / (SIXTY_DEG as int);
    let f = (hue % (SIXTY_DEG as int)) / 60;
    let p = rdiv((u - s) * v, u);
    let q = rdiv((u - rdiv(f * s, u)) * v, u);
    let t = rdiv((u - rdiv((u - f) * s, u)) * v, u);
    if sector == 0 {
        Rgb { red: v as u64, green: t as u64, blue: p as u64 }
    } else if sector == 1 {
        Rgb { red: q as u64, green: v as u64, blue: p as u64 }
    } else if sector == 2 {
        Rgb { red: p as u64, green: v as u64, blue: t as u64 }
    } else if sector == 3 {
        Rgb { red: p as u64, green: q as u64, blue: v as u64 }
    } else if sector == 4 {
        Rgb { red: t as u64, green: p as u64, blue: v as u64 }
    } else {
        Rgb { red: v as u64, green: p as u64, blue: q as u64 }
    }
}

/// On a well-formed hue-saturation-value color the conversion lands on
/// well-formed RGB channels, each at most the color's value.
pub proof fn lemma_hsv_to_rgb_wf(h: Hsv)
    requires
        h.wf(),
    ensures
        spec_hsv_to_rgb(h).wf(),
        spec_hsv_to_rgb(h).red <= h.value,
        spec_hsv_to_rgb(h).green <= h.value,
        spec_hsv_to_rgb(h).blue <= h.value,
{
    let u = UNIT as int;
    let hue = h.hue as int;
    let s = h.saturation as int;
    let v = h.value as int;
    let f = (hue % (SIXTY_DEG as int)) / 60;
    assert(0 <= hue % (SIXTY_DEG as int) < SIXTY_DEG as int);
    assert(0 <= f < u);
    lemma_rdiv_factor_le(f, s, u);
    lemma_rdiv_nonneg(f * s, u);
    lemma_rdiv_factor_le(u - f, s, u);
    lemma_rdiv_nonneg((u - f) * s, u);
    lemma_rdiv_factor_le(u - s, v, u);
    lemma_rdiv_nonneg((u - s) * v, u);
    lemma_rdiv_factor_le(u - rdiv(f * s, u), v, u);
    lemma_rdiv_nonneg((u - rdiv(f * s, u)) * v, u);
    lemma_rdiv_factor_le(u - rdiv((u - f) * s, u), v, u);
    lemma_rdiv_nonneg((u - rdiv((u - f) * s, u)) * v, u);
}

/// Converts a hue-saturation-value color to standard RGB.
pub fn hsv_to_rgb(h: &Hsv) -> (c: Rgb)
    requires
        h.wf(),
    ensures
        c == spec_hsv_to_rgb(*h),
        c.wf(),
{
    proof {
        lemma_hsv_to_rgb_wf(*h);
    }
    let s = h.saturation;
    let v = h.value;
    let sector = h.hue / SIXTY_DEG;
    let f = (h.hue % SIXTY_DEG) / 60;
    proof {
        assert(f <= 999_999);
        assert(forall|a: int, b: int|
            0 <= a <= UNIT && 0 <= b <= UNIT ==> #[trigger] (a * b) <= 1_000_000_000_000)
            by (nonlinear_arith);
        lemma_rdiv_factor_le(f as int, s as int, UNIT as int);
        lemma_rdiv_nonneg((f as int) * (s as int), UNIT as int);
        lemma_rdiv_factor_le((UNIT - f) as int, s as int, UNIT as int);
        lemma_rdiv_nonneg(((UNIT - f) as int) * (s as int), UNIT as int);
    }
    let p = round_div((UNIT - s) * v, UNIT);
    let q = round_div((UNIT - round_div(f * s, UNIT)) * v, UNIT);
    let t = round_div((UNIT - round_div((UNIT - f) * s, UNIT)) * v, UNIT);
    if sector == 0 {
        Rgb { red: v, green: t, blue: p }
    } else if sector == 1 {
        Rgb { red: q, green: v, blue: p }
    } else if sector == 2 {
        Rgb { red: p, green: v, blue: t }
    } else if sector == 3 {
        Rgb { red: p, green: q, blue: v }
    } else if sector == 4 {
        Rgb { red: t, green: p, blue: v }
    } else {
        Rgb { red: v, green: p, blue: q }
    }
}

/// The lowercase hex digit for a value below sixteen.
pub open spec fn spec_hex_digit(n: int) -> char {
    if n == 0 {
        '0'
    } else if n == 1 {
        '1'
    } else if n == 2 {
        '2'
    } else if n == 3 {
        '3'
    } else if n == 4 {
        '4'
    } else if n == 5 {
        '5'
    } else if n == 6 {
        '6'
    } else if n == 7 {
        '7'
    } else if n == 8 {
        '8'
    } else if n == 9 {
        '9'
    } else if n == 10 {
        'a'
    } else if n == 11 {
        'b'
    } else if n == 12 {
        'c'
    } else if n == 13 {
        'd'
    } else if n == 14 {
        'e'
    } else {
        'f'
    }
}

/// The value of a hex digit character, either case; `-1` for anything else.
pub open spec fn hex_digit_value(c: char) -> int {
    if c == '0' {
        0
    } else if c == '1' {
        1
    } else if c == '2' {
        2
    } else if c == '3' {
        3
    } else if c == '4' {
        4
    } else if c == '5' {
        5
    } else if c == '6' {
        6
    } else if c == '7' {
        7
    } else if c == '8' {
        8
    } else if c == '9' {
        9
    } else if c == 'a' || c == 'A' {
        10
    } else if c == 'b' || c == 'B' {
        11
    } else if c == 'c' || c == 'C' {
        12
    } else if c == 'd' || c == 'D' {
        13
    } else if c == 'e' || c == 'E' {
        14
    } else if c == 'f' || c == 'F' {
        15
    } else {
        -1
    }
}

/// A lowercase hex digit character.
pub open spec fn is_lower_hex_char(c: char) -> bool {
    c == '0' || c == '1' || c == '2' || c == '3' || c == '4' || c == '5' || c == '6' || c == '7'
        || c == '8' || c == '9' || c == 'a' || c == 'b' || c == 'c' || c == 'd' || c == 'e' || c
        == 'f'
}

/// A channel scaled to `[0, 255]` and rounded to the nearest byte.
pub open spec fn spec_byte_of_channel(ch: int) -> int {
    rdiv(ch * 255, UNIT as int)
}

/// A byte scaled back to the nearest fixed-point channel.
pub open spec fn spec_channel_of_byte(b: int) -> int {
    rdiv(b * (UNIT as int), 255)
}

/// The two lowercase hex digits of a byte.
pub open spec fn spec_byte_chars(b: int) -> Seq<char> {
    seq![spec_hex_digit(b / 16), spec_hex_digit(b % 16)]
}

/// The 6-hex-digit encoding of an RGB color: each channel rounded to a byte
/// and written as two lowercase digits, in red, green, blue order.
pub open spec fn spec_rgb_to_hex(c: Rgb) -> Seq<char> {
    spec_byte_chars(spec_byte_of_channel(c.red as int)) + spec_byte_chars(
        spec_byte_of_channel(c.green as int),
    ) + spec_byte_chars(spec_byte_of_channel(c.blue as int))
}

/// The digits of a candidate hex string, with an optional `#` prefix
/// stripped.
pub open spec fn spec_hex_body(s: Seq<char>) -> Seq<char> {
    if s.len() == 7 && s[0] == '#' {
        s.subrange(1, 7)
    } else {
        s
    }
}

/// A well-formed input to hex decoding: exactly six hex digits after the
/// optional prefix.
pub open spec fn spec_hex_valid(s: Seq<char>) -> bool {
    let b = spec_hex_body(s);
    b.len() == 6 && (forall|i: int| 0 <= i < 6 ==> hex_digit_value(#[trigger] b[i]) >= 0)
}

/// The RGB color a valid hex string decodes to.
pub open spec fn spec_parse_hex(s: Seq<char>) -> Rgb {
    let b = spec_hex_body(s);
    let rb = 16 * hex_digit_value(b[0]) + hex_digit_value(b[1]);
    let gb = 16 * hex_digit_value(b[2]) + hex_digit_value(b[3]);
    let bb = 16 * hex_digit_value(b[4]) + hex_digit_value(b[5]);
    Rgb {
        red: spec_channel_of_byte(rb) as u64,
        green: spec_channel_of_byte(gb) as u64,
        blue: spec_channel_of_byte(bb) as u64,
    }
}

/// A digit below sixteen survives the trip through its character.
pub proof fn lemma_digit_value_round_trip(n: int)
    requires
        0 <= n < 16,
    ensures
        hex_digit_value(spec_hex_digit(n)) == n,
        is_lower_hex_char(spec_hex_digit(n)),
{
}

/// A lowercase hex digit character survives the trip through its value.
pub proof fn lemma_char_value_round_trip(c: char)
    requires
        is_lower_hex_char(c),
    ensures
        0 <= hex_digit_value(c) < 16,
        spec_hex_digit(hex_digit_value(c)) == c,
{
}

/// One byte's worth of the round trip: two lowercase digits assemble to a
/// byte, the byte maps to a channel inside the unit interval, and the
/// channel maps back to the byte whose digits are the original characters.
pub proof fn lemma_byte_chars_round_trip(c0: char, c1: char)
    requires
        is_lower_hex_char(c0),
        is_lower_hex_char(c1),
    ensures
        0 <= hex_digit_value(c0) < 16,
        0 <= hex_digit_value(c1) < 16,
        ({
            let b = 16 * hex_digit_value(c0) + hex_digit_value(c1);
            &&& 0 <= b <= 255
            &&& 0 <= spec_channel_of_byte(b) <= UNIT
            &&& spec_byte_of_channel(spec_channel_of_byte(b)) == b
            &&& spec_byte_chars(b) =~= seq![c0, c1]
        }),
{
    let u = UNIT as int;
    lemma_char_value_round_trip(c0);
    lemma_char_value_round_trip(c1);
    let b = 16 * hex_digit_value(c0) + hex_digit_value(c1);
    lemma_rdiv_factor_le(b, u, 255);
    lemma_rdiv_nonneg(b * u, 255);
    crate::fixed::lemma_channel_byte_round_trip(b);
    assert(b / 16 == hex_digit_value(c0) && b % 16 == hex_digit_value(c1));
}

/// Law: decoding a 6-digit lowercase hex string and re-encoding the decoded
/// color gives the original string back, exactly.
pub proof fn lemma_hex_round_trip(s: Seq<char>)
    requires
        s.len() == 6,
        forall|i: int| 0 <= i < 6 ==> is_lower_hex_char(#[trigger] s[i]),
    ensures
        spec_hex_valid(s),
        spec_rgb_to_hex(spec_parse_hex(s)) == s,
{
    lemma_byte_chars_round_trip(s[0], s[1]);
    lemma_byte_chars_round_trip(s[2], s[3]);
    lemma_byte_chars_round_trip(s[4], s[5]);
    assert(spec_hex_body(s) =~= s);
    let rb = 16 * hex_digit_value(s[0]) + hex_digit_value(s[1]);
    let gb = 16 * hex_digit_value(s[2]) + hex_digit_value(s[3]);
    let bb = 16 * hex_digit_value(s[4]) + hex_digit_value(s[5]);
    let parsed = spec_parse_hex(s);
    assert(parsed.red as int == spec_channel_of_byte(rb));
    assert(parsed.green as int == spec_channel_of_byte(gb));
    assert(parsed.blue as int == spec_channel_of_byte(bb));
    assert(spec_rgb_to_hex(parsed) =~= spec_byte_chars(rb) + spec_byte_chars(gb)
        + spec_byte_chars(bb));
    assert(spec_byte_chars(rb) + spec_byte_chars(gb) + spec_byte_chars(bb) =~= s);
}

/// The hex encoding of a well-formed color is six lowercase hex digits.
pub proof fn lemma_rgb_to_hex_lower(c: Rgb)
    requires
        c.wf(),
    ensures
        spec_rgb_to_hex(c).len() == 6,
        forall|i: int| 0 <= i < 6 ==> is_lower_hex_char(#[trigger] spec_rgb_to_hex(c)[i]),
{
    let u = UNIT as int;
    lemma_rdiv_factor_le(c.red as int, 255, u);
    lemma_rdiv_nonneg((c.red as int) * 255, u);
    lemma_rdiv_factor_le(c.green as int, 255, u);
    lemma_rdiv_nonneg((c.green as int) * 255, u);
    lemma_rdiv_factor_le(c.blue as int, 255, u);
    lemma_rdiv_nonneg((c.blue as int) * 255, u);
    assert forall|n: int| 0 <= n <= 255 implies is_lower_hex_char(
        #[trigger] spec_hex_digit(n / 16),
    ) && is_lower_hex_char(spec_hex_digit(n % 16)) by {
        lemma_digit_value_round_trip(n / 16);
        lemma_digit_value_round_trip(n % 16);
    }
}

/// Law: hex encoding is idempotent — encoding, decoding, and re-encoding a
/// well-formed color yields the same string as the first encoding.
pub proof fn lemma_hex_encode_idempotent(c: Rgb)
    requires
        c.wf(),
    ensures
        spec_hex_valid(spec_rgb_to_hex(c)),
        spec_rgb_to_hex(spec_parse_hex(spec_rgb_to_hex(c))) == spec_rgb_to_hex(c),
{
    lemma_rgb_to_hex_lower(c);
    lemma_hex_round_trip(spec_rgb_to_hex(c));
}

/// Law: on channels that are exact images of bytes — multiples of 1/255,
/// rounded into the fixed-point grid — encoding and decoding is exact.
pub proof fn lemma_rgb_round_trip_exact(rb: int, gb: int, bb: int)
    requires
        0 <= rb <= 255,
        0 <= gb <= 255,
        0 <= bb <= 255,
    ensures
        ({
            let c = Rgb {
                red: spec_channel_of_byte(rb) as u64,
                green: spec_channel_of_byte(gb) as u64,
                blue: spec_channel_of_byte(bb) as u64,
            };
            c.wf() && spec_hex_valid(spec_rgb_to_hex(c)) && spec_parse_hex(spec_rgb_to_hex(c))
                == c
        }),
{
    let u = UNIT as int;
    lemma_rdiv_factor_le(rb, u, 255);
    lemma_rdiv_nonneg(rb * u, 255);
    lemma_rdiv_factor_le(gb, u, 255);
    lemma_rdiv_nonneg(gb * u, 255);
    lemma_rdiv_factor_le(bb, u, 255);
    lemma_rdiv_nonneg(bb * u, 255);
    crate::fixed::lemma_channel_byte_round_trip(rb);
    crate::fixed::lemma_channel_byte_round_trip(gb);
    crate::fixed::lemma_channel_byte_round_trip(bb);
    let c = Rgb {
        red: spec_channel_of_byte(rb) as u64,
        green: spec_channel_of_byte(gb) as u64,
        blue: spec_channel_of_byte(bb) as u64,
    };
    lemma_rgb_to_hex_lower(c);
    assert forall|n: int| 0 <= n < 16 implies hex_digit_value(#[trigger] spec_hex_digit(n))
        == n by {
        lemma_digit_value_round_trip(n);
    }
    assert(spec_parse_hex(spec_rgb_to_hex(c)) == c);
}

/// The one-character string of a hex digit.
fn hex_digit_str(n: u8) -> (s: &'static str)
    requires
        n < 16,
    ensures
        s@.len() == 1,
        s@[0] == spec_hex_digit(n as int),
{
    proof {
        reveal_strlit("0");
        reveal_strlit("1");
        reveal_strlit("2");
        reveal_strlit("3");
        reveal_strlit("4");
        reveal_strlit("5");
        reveal_strlit("6");
        reveal_strlit("7");
        reveal_strlit("8");
        reveal_strlit("9");
        reveal_strlit("a");
        reveal_strlit("b");
        reveal_strlit("c");
        reveal_strlit("d");
        reveal_strlit("e");
        reveal_strlit("f");
    }
    match n {
        0 => "0",
        1 => "1",
        2 => "2",
        3 => "3",
        4 => "4",
        5 => "5",
        6 => "6",
        7 => "7",
        8 => "8",
        9 => "9",
        10 => "a",
        11 => "b",
        12 => "c",
        13 => "d",
        14 => "e",
        _ => "f",
    }
}

/// The value of a hex digit character, either case.
fn hex_digit_val(c: char) -> (r: Option<u8>)
    ensures
        r is Some <==> hex_digit_value(c) >= 0,
        r is Some ==> r->0 == hex_digit_value(c) && r->0 < 16,
{
    match c {
        '0' => Some(0),
        '1' => Some(1),
        '2' => Some(2),
        '3' => Some(3),
        '4' => Some(4),
        '5' => Some(5),
        '6' => Some(6),
        '7' => Some(7),
        '8' => Some(8),
        '9' => Some(9),
        'a' | 'A' => Some(10),
        'b' | 'B' => Some(11),
        'c' | 'C' => Some(12),
        'd' | 'D' => Some(13),
        'e' | 'E' => Some(14),
        'f' | 'F' => Some(15),
        _ => None,
    }
}

/// Rounds a channel to its byte.
fn channel_to_byte(ch: u64) -> (b: u8)
    requires
        ch <= UNIT,
    ensures
        b == spec_byte_of_channel(ch as int),
{
    proof {
        lemma_rdiv_factor_le(ch as int, 255, UNIT as int);
        lemma_rdiv_nonneg((ch as int) * 255, UNIT as int);
    }
    round_div(ch * 255, UNIT) as u8
}

/// Encodes an RGB color as six lowercase hex digits.
pub fn rgb_to_hex(c: &Rgb) -> (s: String)
    requires
        c.wf(),
    ensures
        s@ == spec_rgb_to_hex(*c),
        s@.len() == 6,
{
    let rb = channel_to_byte(c.red);
    let gb = channel_to_byte(c.green);
    let bb = channel_to_byte(c.blue);
    let mut s = String::new();
    s.append(hex_digit_str(rb / 16));
    s.append(hex_digit_str(rb % 16));
    s.append(hex_digit_str(gb / 16));
    s.append(hex_digit_str(gb % 16));
    s.append(hex_digit_str(bb / 16));
    s.append(hex_digit_str(bb % 16));
    proof {
        assert(s@ =~= spec_rgb_to_hex(*c));
    }
    s
}

/// Decodes a 6-hex-digit string, optionally prefixed by `#`, to an RGB
/// color. Rejects any other input with [`PaletteError::Parse`].
pub fn from_hex(s: &str) -> (r: Result<Rgb, PaletteError>)
    ensures
        r is Ok <==> spec_hex_valid(s@),
        r is Ok ==> r->Ok_0 == spec_parse_hex(s@) && r->Ok_0.wf(),
        r is Err ==> r->Err_0 == PaletteError::Parse,
{
    let n = s.unicode_len();
    let offset: usize = if n == 7 && s.get_char(0) == '#' {
        1
    } else {
        0
    };
    if n < offset || n - offset != 6 {
        return Err(PaletteError::Parse);
    }
    proof {
        if offset == 1 {
            assert(spec_hex_body(s@) =~= s@.subrange(1, 7));
        }
        assert(forall|i: int|
            0 <= i < 6 ==> #[trigger] spec_hex_body(s@)[i] == s@[i + offset as int]);
    }
    let d0 = match hex_digit_val(s.get_char(offset)) {
        Some(d) => d,
        None => {
            proof {
                assert(hex_digit_value(spec_hex_body(s@)[0]) < 0);
            }
            return Err(PaletteError::Parse);
        },
    };
    let d1 = match hex_digit_val(s.get_char(offset + 1)) {
        Some(d) => d,
        None => {
            proof {
                assert(hex_digit_value(spec_hex_body(s@)[1]) < 0);
            }
            return Err(PaletteError::Parse);
        },
    };
    let d2 = match hex_digit_val(s.get_char(offset + 2)) {
        Some(d) => d,
        None => {
            proof {
                assert(hex_digit_value(spec_hex_body(s@)[2]) < 0);
            }
            return Err(PaletteError::Parse);
        },
    };
    let d3 = match hex_digit_val(s.get_char(offset + 3)) {
        Some(d) => d,
        None => {
            proof {
                assert(hex_digit_value(spec_hex_body(s@)[3]) < 0);
            }
            return Err(PaletteError::Parse);
        },
    };
    let d4 = match hex_digit_val(s.get_char(offset + 4)) {
        Some(d) => d,
        None => {
            proof {
                assert(hex_digit_value(spec_hex_body(s@)[4]) < 0);
            }
            return Err(PaletteError::Parse);
        },
    };
    let d5 = match hex_digit_val(s.get_char(offset + 5)) {
        Some(d) => d,
        None => {
            proof {
                assert(hex_digit_value(spec_hex_body(s@)[5]) < 0);
            }
            return Err(PaletteError::Parse);
        },
    };
    proof {
        assert(spec_hex_valid(s@));
    }
    let rb = 16 * (d0 as u64) + (d1 as u64);
    let gb = 16 * (d2 as u64) + (d3 as u64);
    let bb = 16 * (d4 as u64) + (d5 as u64);
    proof {
        lemma_rdiv_factor_le(rb as int, UNIT as int, 255);
        lemma_rdiv_nonneg((rb as int) * (UNIT as int), 255);
        lemma_rdiv_factor_le(gb as int, UNIT as int, 255);
        lemma_rdiv_nonneg((gb as int) * (UNIT as int), 255);
        lemma_rdiv_factor_le(bb as int, UNIT as int, 255);
        lemma_rdiv_nonneg((bb as int) * (UNIT as int), 255);
    }
    Ok(
        Rgb {
            red: round_div(rb * UNIT, 255),
            green: round_div(gb * UNIT, 255),
            blue: round_div(bb * UNIT, 255),
        },
    )
}

} // verus!
