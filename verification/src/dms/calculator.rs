//! Base palette synthesis: the sixteen raw ANSI swatches derived from the
//! seed color and the container color, before any contrast adjustment.
//!
//! The eight normal slots are black, red, green, yellow, blue, magenta, cyan
//! and white, in the conventional ANSI order; the bright half repeats that
//! order with higher value. Chromatic slots are anchored to the seed's hue
//! family by fixed hue offsets; the black-like slot coincides with the
//! container, and the white-like slots sit at low saturation and near-white
//! value, so the palette spans the surface-to-foreground range.

use vstd::prelude::*;
use crate::colors::convert::{
    hsv_to_rgb, rgb_to_hex, spec_hsv_to_rgb, spec_rgb_to_hex, Hsv, PaletteError,
};
use crate::colors::unified::AnsiPaletteHex;
use crate::fixed::{HUE_SPAN, SIXTY_DEG, UNIT};

verus! {

/// Saturation below this floor is lifted for chromatic slots, so accents
/// stay recognizable even from a gray seed.
pub const CHROMA_SATURATION_FLOOR: u64 = 500_000;

/// Value of the six normal chromatic slots.
pub const NORMAL_CHROMA_VALUE: u64 = 700_000;

/// Value of the six bright chromatic slots.
pub const BRIGHT_CHROMA_VALUE: u64 = 850_000;

/// Saturation cap of the white slot.
pub const WHITE_SATURATION_CAP: u64 = 100_000;

/// Value of the white slot: the palette's near-white anchor.
pub const WHITE_VALUE: u64 = 900_000;

/// Saturation cap of the bright-white slot.
pub const BRIGHT_WHITE_SATURATION_CAP: u64 = 60_000;

/// Value of the bright-white slot.
pub const BRIGHT_WHITE_VALUE: u64 = 960_000;

/// How far the bright-black slot's value is lifted above the container's.
pub const BRIGHT_BLACK_LIFT: u64 = 250_000;

/// The fixed hue offset of a chromatic slot (slots one through six) from the
/// seed hue: red 0, green 120, yellow 60, blue 240, magenta 300, cyan 180
/// degrees.
pub open spec fn spec_hue_offset(i: int) -> int {
    if i == 1 {
        0
    } else if i == 2 {
        2 * (SIXTY_DEG as int)
    } else if i == 3 {
        SIXTY_DEG as int
    } else if i == 4 {
        4 * (SIXTY_DEG as int)
    } else if i == 5 {
        5 * (SIXTY_DEG as int)
    } else {
        3 * (SIXTY_DEG as int)
    }
}

/// A hue rotated by an offset, wrapped back into `[0, 360)` degrees.
pub open spec fn spec_rotate_hue(hue: int, offset: int) -> int {
    if hue + offset >= HUE_SPAN {
        hue + offset - HUE_SPAN
    } else {
        hue + offset
    }
}

/// The raw swatch of slot `i` (0 through 15), before balancing: slot 0 is
/// the container itself, slots 1..=6 the normal chromatic accents, slot 7
/// white; slot 8 is bright black (the container lifted), slots 9..=14 the
/// bright accents, slot 15 bright white.
pub open spec fn spec_raw_slot(seed: Hsv, container: Hsv, i: int) -> Hsv {
    if i == 0 {
        container
    } else if i == 7 {
        Hsv {
            hue: seed.hue,
            saturation: crate::fixed::spec_min(
                seed.saturation as int,
                WHITE_SATURATION_CAP as int,
            ) as u64,
            value: WHITE_VALUE,
        }
    } else if 1 <= i <= 6 {
        Hsv {
            hue: spec_rotate_hue(seed.hue as int, spec_hue_offset(i)) as u64,
            saturation: if seed.saturation >= CHROMA_SATURATION_FLOOR {
                seed.saturation
            } else {
                CHROMA_SATURATION_FLOOR
            },
            value: NORMAL_CHROMA_VALUE,
        }
    } else if i == 8 {
        Hsv {
            hue: container.hue,
            saturation: container.saturation,
            value: crate::fixed::spec_min(
                container.value as int + BRIGHT_BLACK_LIFT as int,
                UNIT as int,
            ) as u64,
        }
    } else if i == 15 {
        Hsv {
            hue: seed.hue,
            saturation: crate::fixed::spec_min(
                seed.saturation as int,
                BRIGHT_WHITE_SATURATION_CAP as int,
            ) as u64,
            value: BRIGHT_WHITE_VALUE,
        }
    } else {
        Hsv {
            hue: spec_rotate_hue(seed.hue as int, spec_hue_offset(i - 8)) as u64,
            saturation: if seed.saturation >= CHROMA_SATURATION_FLOOR {
                seed.saturation
            } else {
                CHROMA_SATURATION_FLOOR
            },
            value: BRIGHT_CHROMA_VALUE,
        }
    }
}

/// Every raw swatch of a well-formed seed and container is well-formed.
pub proof fn lemma_raw_slot_wf(seed: Hsv, container: Hsv, i: int)
    requires
        seed.wf(),
        container.wf(),
        0 <= i < 16,
    ensures
        spec_raw_slot(seed, container, i).wf(),
{
}

/// The sixteen raw swatches, eight normal and eight bright, in fixed ANSI
/// order.
#[derive(Clone, Copy, Debug)]
pub struct AnsiResult {
    pub normal: [Hsv; 8],
    pub bright: [Hsv; 8],
}

impl AnsiResult {
    /// Swatch `i` of 16, counting the normal half first.
    pub open spec fn slot(self, i: int) -> Hsv {
        if i < 8 {
            self.normal[i]
        } else {
            self.bright[i - 8]
        }
    }

    /// Every swatch lies in the valid hue-saturation-value domain.
    pub open spec fn wf(self) -> bool {
        forall|i: int| 0 <= i < 16 ==> (#[trigger] self.slot(i)).wf()
    }

    /// Synthesizes the raw palette from the seed and the container.
    /// Checks defensively — this is the last stage before irreversible
    /// numeric work — that both inputs are inside the valid domain, and
    /// refuses them with [`PaletteError::ColorDerivation`] otherwise.
    pub fn get(seed: &Hsv, container: &Hsv) -> (r: Result<AnsiResult, PaletteError>)
        ensures
            r is Ok <==> seed.wf() && container.wf(),
            r is Ok ==> forall|i: int|
                0 <= i < 16 ==> (r->Ok_0).slot(i) == spec_raw_slot(*seed, *container, i),
            r is Ok ==> (r->Ok_0).wf(),
            r is Err ==> r->Err_0 == PaletteError::ColorDerivation,
    {
        if !seed.is_wf() || !container.is_wf() {
            return Err(PaletteError::ColorDerivation);
        }
        let normal: [Hsv; 8] = [
            raw_slot(seed, container, 0),
            raw_slot(seed, container, 1),
            raw_slot(seed, container, 2),
            raw_slot(seed, container, 3),
            raw_slot(seed, container, 4),
            raw_slot(seed, container, 5),
            raw_slot(seed, container, 6),
            raw_slot(seed, container, 7),
        ];
        let bright: [Hsv; 8] = [
            raw_slot(seed, container, 8),
            raw_slot(seed, container, 9),
            raw_slot(seed, container, 10),
            raw_slot(seed, container, 11),
            raw_slot(seed, container, 12),
            raw_slot(seed, container, 13),
            raw_slot(seed, container, 14),
            raw_slot(seed, container, 15),
        ];
        let result = AnsiResult { normal, bright };
        proof {
            assert forall|i: int| 0 <= i < 16 implies (#[trigger] result.slot(i)) == spec_raw_slot(
                *seed,
                *container,
                i,
            ) by {
                lemma_raw_slot_wf(*seed, *container, i);
            }
        }
        Ok(result)
    }

    /// Hex-encodes the sixteen swatches in slot order.
    pub fn to_hex(&self) -> (r: AnsiPaletteHex)
        requires
            self.wf(),
        ensures
            r.wf(),
            r.view() == Seq::new(16, |i: int| spec_rgb_to_hex(spec_hsv_to_rgb(self.slot(i)))),
    {
        let mut colors: Vec<String> = Vec::new();
        let mut i: usize = 0;
        while i < 16
            invariant
                self.wf(),
                i <= 16,
                colors@.len() == i,
                forall|j: int|
                    0 <= j < i ==> colors@[j]@ == spec_rgb_to_hex(
                        spec_hsv_to_rgb(self.slot(j)),
                    ),
            decreases 16 - i,
        {
            let swatch = if i < 8 {
                self.normal[i]
            } else {
                self.bright[i - 8]
            };
            proof {
                assert(swatch == self.slot(i as int));
                assert(self.slot(i as int).wf());
            }
            let rgb = hsv_to_rgb(&swatch);
            colors.push(rgb_to_hex(&rgb));
            i = i + 1;
        }
        let r = AnsiPaletteHex { colors };
        proof {
            assert(r.view() =~= Seq::new(
                16,
                |i: int| spec_rgb_to_hex(spec_hsv_to_rgb(self.slot(i))),
            ));
        }
        r
    }
}

/// Computes the raw swatch of one slot.
fn raw_slot(seed: &Hsv, container: &Hsv, i: usize) -> (h: Hsv)
    requires
        seed.wf(),
        container.wf(),
        i < 16,
    ensures
        h == spec_raw_slot(*seed, *container, i as int),
        h.wf(),
{
    proof {
        lemma_raw_slot_wf(*seed, *container, i as int);
    }
    if i == 0 {
        *container
    } else if i == 7 {
        let sat = if seed.saturation <= WHITE_SATURATION_CAP {
            seed.saturation
        } else {
            WHITE_SATURATION_CAP
        };
        Hsv { hue: seed.hue, saturation: sat, value: WHITE_VALUE }
    } else if i <= 6 {
        let sat = if seed.saturation >= CHROMA_SATURATION_FLOOR {
            seed.saturation
        } else {
            CHROMA_SATURATION_FLOOR
        };
        Hsv { hue: rotate_hue(seed.hue, hue_offset(i)), saturation: sat, value: NORMAL_CHROMA_VALUE }
    } else if i == 8 {
        let lifted = container.value + BRIGHT_BLACK_LIFT;
        let value = if lifted <= UNIT {
            lifted
        } else {
            UNIT
        };
        Hsv { hue: container.hue, saturation: container.saturation, value }
    } else if i == 15 {
        let sat = if seed.saturation <= BRIGHT_WHITE_SATURATION_CAP {
            seed.saturation
        } else {
            BRIGHT_WHITE_SATURATION_CAP
        };
        Hsv { hue: seed.hue, saturation: sat, value: BRIGHT_WHITE_VALUE }
    } else {
        let sat = if seed.saturation >= CHROMA_SATURATION_FLOOR {
            seed.saturation
        } else {
            CHROMA_SATURATION_FLOOR
        };
        Hsv {
            hue: rotate_hue(seed.hue, hue_offset(i - 8)),
            saturation: sat,
            value: BRIGHT_CHROMA_VALUE,
        }
    }
}

/// The fixed hue offset of a chromatic slot.
fn hue_offset(i: usize) -> (o: u64)
    requires
        1 <= i <= 6,
    ensures
        o == spec_hue_offset(i as int),
        o < HUE_SPAN,
{
    if i == 1 {
        0
    } else if i == 2 {
        2 * SIXTY_DEG
    } else if i == 3 {
        SIXTY_DEG
    } else if i == 4 {
        4 * SIXTY_DEG
    } else if i == 5 {
        5 * SIXTY_DEG
    } else {
        3 * SIXTY_DEG
    }
}

/// Rotates a hue by an offset, wrapping at 360 degrees.
fn rotate_hue(hue: u64, offset: u64) -> (h: u64)
    requires
        hue < HUE_SPAN,
        offset < HUE_SPAN,
    ensures
        h == spec_rotate_hue(hue as int, offset as int),
        h < HUE_SPAN,
{
    if hue + offset >= HUE_SPAN {
        hue + offset - HUE_SPAN
    } else {
        hue + offset
    }
}

} // verus!
