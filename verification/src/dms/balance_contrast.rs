//! Contrast balancing: adjusts the designated foreground slots so their
//! legibility score against the container reaches a numeric target.
//!
//! The legibility score of two colors is the distance between their value
//! components, scaled so that 100 score points span the whole unit interval;
//! it is symmetric, deterministic, pure, and grows monotonically as the two
//! colors diverge in perceived lightness. Targets are given in thousandths
//! of a score point, so one target unit is ten fixed-point value units.
//!
//! The balancing pass runs a bounded bisection over the slot's value
//! component, lightening the slot away from the container until the score
//! reaches the target; when the target is not reachable inside the valid
//! domain the search degrades to the closest achievable point (full value),
//! never to an error.

use vstd::prelude::*;
use crate::colors::convert::Hsv;
use crate::dms::calculator::AnsiResult;
use crate::fixed::UNIT;

verus! {

/// The legibility score of two value components: their fixed-point distance.
pub open spec fn spec_score(a: int, b: int) -> int {
    if a >= b {
        a - b
    } else {
        b - a
    }
}

/// The value a balanced slot converges to: the container value lifted by the
/// target distance, clamped to the top of the domain.
pub open spec fn spec_balanced_value(bg: int, delta: int) -> int {
    if bg + delta <= UNIT {
        bg + delta
    } else {
        UNIT as int
    }
}

/// Two raised to the `n`th power; bounds the bisection's iteration budget.
pub open spec fn pow2i(n: nat) -> int
    decreases n,
{
    if n == 0 {
        1
    } else {
        2 * pow2i((n - 1) as nat)
    }
}

/// The legibility score between a foreground and a background color.
pub fn legibility_score(fg: &Hsv, bg: &Hsv) -> (s: u64)
    ensures
        s == spec_score(fg.value as int, bg.value as int),
{
    if fg.value >= bg.value {
        fg.value - bg.value
    } else {
        bg.value - fg.value
    }
}

/// Searches the value component that brings the score against `bg` to
/// `delta`, by bisection over `[bg, UNIT]` under an explicit iteration
/// budget; lands exactly on the target when it is feasible, and on the top
/// of the domain otherwise.
fn balanced_value(bg: u64, delta: u64) -> (v: u64)
    requires
        bg <= UNIT,
        delta <= UNIT,
    ensures
        v == spec_balanced_value(bg as int, delta as int),
{
    let mut lo: u64 = bg;
    let mut hi: u64 = UNIT;
    let mut fuel: u64 = 21;
    proof {
        assert(pow2i(21) == 2_097_152) by {
            reveal_with_fuel(pow2i, 22);
        }
    }
    while lo < hi && fuel > 0
        invariant
            bg <= lo <= hi <= UNIT,
            delta <= UNIT,
            fuel <= 21,
            hi - lo < pow2i(fuel as nat),
            bg + delta <= UNIT ==> lo <= bg + delta <= hi,
            bg + delta > UNIT ==> hi == UNIT,
        decreases fuel,
    {
        let mid = lo + (hi - lo) / 2;
        let trial = Hsv { hue: 0, saturation: 0, value: mid };
        let anchor = Hsv { hue: 0, saturation: 0, value: bg };
        proof {
            assert(pow2i(fuel as nat) == 2 * pow2i((fuel - 1) as nat));
        }
        if legibility_score(&trial, &anchor) < delta {
            lo = mid + 1;
        } else {
            hi = mid;
        }
        fuel = fuel - 1;
    }
    lo
}

/// The palette after balancing: the white and bright-white slots (the normal
/// text role) are lifted to the normal-text target above the black slot's
/// value — the black slot anchors the container surface — and the
/// bright-black slot (the secondary text role) to the secondary target; hue
/// and saturation are never touched, and every other slot keeps its raw
/// swatch.
pub open spec fn spec_balanced_palette_slot(
    p: AnsiResult,
    normal_text_target: int,
    secondary_target: int,
    i: int,
) -> Hsv {
    let bg = p.slot(0).value as int;
    let raw = p.slot(i);
    if i == 7 || i == 15 {
        Hsv {
            hue: raw.hue,
            saturation: raw.saturation,
            value: spec_balanced_value(bg, normal_text_target * 10) as u64,
        }
    } else if i == 8 {
        Hsv {
            hue: raw.hue,
            saturation: raw.saturation,
            value: spec_balanced_value(bg, secondary_target * 10) as u64,
        }
    } else {
        raw
    }
}

impl AnsiResult {
    /// Balances the palette in place against its own black slot, toward the
    /// two role targets (in thousandths of a score point).
    pub fn balance_dps_itself(self, normal_text_target: u64, secondary_target: u64) -> (r:
        AnsiResult)
        requires
            self.wf(),
            normal_text_target <= 100_000,
            secondary_target <= 100_000,
        ensures
            forall|i: int|
                0 <= i < 16 ==> (#[trigger] r.slot(i)) == spec_balanced_palette_slot(
                    self,
                    normal_text_target as int,
                    secondary_target as int,
                    i,
                ),
            r.wf(),
    {
        let bg = self.normal[0].value;
        assert(self.slot(0).wf());
        let white_value = balanced_value(bg, normal_text_target * 10);
        let dim_value = balanced_value(bg, secondary_target * 10);
        let n = self.normal;
        let b = self.bright;
        let white = Hsv { hue: n[7].hue, saturation: n[7].saturation, value: white_value };
        let bright_white = Hsv { hue: b[7].hue, saturation: b[7].saturation, value: white_value };
        let bright_black = Hsv { hue: b[0].hue, saturation: b[0].saturation, value: dim_value };
        let r = AnsiResult {
            normal: [n[0], n[1], n[2], n[3], n[4], n[5], n[6], white],
            bright: [bright_black, b[1], b[2], b[3], b[4], b[5], b[6], bright_white],
        };
        proof {
            assert forall|i: int| 0 <= i < 16 implies (#[trigger] r.slot(i))
                == spec_balanced_palette_slot(
                self,
                normal_text_target as int,
                secondary_target as int,
                i,
            ) by {
                assert(self.slot(i).wf());
            }
            assert forall|i: int| 0 <= i < 16 implies (#[trigger] r.slot(i)).wf() by {
                assert(self.slot(i).wf());
            }
        }
        r
    }
}

/// Law: when balancing is requested, each designated slot's legibility score
/// against the black (container) slot hits its target exactly whenever the
/// target is feasible inside the valid domain, and otherwise the slot lands
/// on the closest domain-feasible point, the top of the value range.
pub proof fn lemma_balancing_convergence(p: AnsiResult, normal_text_target: int, secondary_target: int)
    requires
        p.wf(),
        0 <= normal_text_target <= 100_000,
        0 <= secondary_target <= 100_000,
    ensures
        ({
            let bg = p.slot(0).value as int;
            let white = spec_balanced_palette_slot(p, normal_text_target, secondary_target, 7);
            let bright_white = spec_balanced_palette_slot(
                p,
                normal_text_target,
                secondary_target,
                15,
            );
            let bright_black = spec_balanced_palette_slot(
                p,
                normal_text_target,
                secondary_target,
                8,
            );
            &&& bg + normal_text_target * 10 <= UNIT ==> spec_score(white.value as int, bg)
                == normal_text_target * 10
            &&& bg + normal_text_target * 10 <= UNIT ==> spec_score(bright_white.value as int, bg)
                == normal_text_target * 10
            &&& bg + normal_text_target * 10 > UNIT ==> white.value == UNIT
                && bright_white.value == UNIT
            &&& bg + secondary_target * 10 <= UNIT ==> spec_score(bright_black.value as int, bg)
                == secondary_target * 10
            &&& bg + secondary_target * 10 > UNIT ==> bright_black.value == UNIT
        }),
{
    assert(p.slot(0).wf());
}

} // verus!
