//! The DMS color pipeline: seed → container → raw palette → balanced
//! palette → hex palette.

use vstd::prelude::*;
use crate::colors::convert::{
    rgb_to_hsv, spec_hsv_to_rgb, spec_rgb_to_hex, spec_rgb_to_hsv, Hsv, PaletteError, Rgb,
};
use crate::colors::unified::AnsiPaletteHex;
use crate::dms::balance_contrast::{spec_balanced_palette_slot, spec_balanced_value};
use crate::dms::calculator::{spec_raw_slot, AnsiResult};
use crate::fixed::{lemma_rdiv_mono, lemma_rdiv_nonneg, rdiv, round_div, spec_min, UNIT};

pub mod balance_contrast;
pub mod calculator;

verus! {

/// The two legibility schemes a balancing pass could target. Only the
/// score-based scheme is wired into the production path; the second pair of
/// targets is kept for the alternate scheme but never reaches a balancing
/// call.
#[derive(Clone, Copy, Debug, PartialEq, Eq, Structural)]
pub enum BalanceContrastBackEnd {
    Dps,
    Wcag,
}

/// Normal-text legibility target of the score-based scheme, in thousandths
/// of a score point (40 points).
pub const NORMAL_TEXT_TARGET: u64 = 40_000;

/// Secondary-text legibility target of the score-based scheme (35 points).
pub const SECONDARY_TARGET: u64 = 35_000;

/// Normal-text target of the alternate contrast-ratio scheme (4.5). Kept for
/// the unwired scheme; no production path consumes it.
pub const ALT_NORMAL_TEXT_TARGET: u64 = 4_500;

/// Secondary-text target of the alternate contrast-ratio scheme (3.5). Kept
/// for the unwired scheme; no production path consumes it.
pub const ALT_SECONDARY_TARGET: u64 = 3_500;

/// The container color of a seed: hue kept, saturation scaled by 1.834 and
/// clamped to one, value scaled by 0.463.
pub open spec fn spec_container(c: Hsv) -> Hsv {
    Hsv {
        hue: c.hue,
        saturation: spec_min(rdiv(c.saturation as int * 1834, 1000), UNIT as int) as u64,
        value: rdiv(c.value as int * 463, 1000) as u64,
    }
}

/// Derives the background/container color from the seed: the hue is kept,
/// the saturation is boosted by the factor 1.834 but capped at one, and the
/// value is scaled down by the factor 0.463.
pub fn derive_container(color: &Hsv) -> (r: Hsv)
    requires
        color.wf(),
    ensures
        r == spec_container(*color),
        r.hue == color.hue,
        r.saturation == spec_min(rdiv(color.saturation as int * 1834, 1000), UNIT as int),
        r.value == rdiv(color.value as int * 463, 1000),
        r.wf(),
{
    proof {
        lemma_rdiv_nonneg(color.saturation as int * 1834, 1000);
        lemma_rdiv_nonneg(color.value as int * 463, 1000);
        lemma_rdiv_mono(color.value as int * 463, (UNIT as int) * 463, 1000);
    }
    let scaled = round_div(color.saturation * 1834, 1000);
    let saturation = if scaled <= UNIT {
        scaled
    } else {
        UNIT
    };
    Hsv { hue: color.hue, saturation, value: round_div(color.value * 463, 1000) }
}

/// The derived container of a well-formed seed is well-formed.
pub proof fn lemma_container_wf(c: Hsv)
    requires
        c.wf(),
    ensures
        spec_container(c).wf(),
{
    lemma_rdiv_nonneg(c.saturation as int * 1834, 1000);
    lemma_rdiv_nonneg(c.value as int * 463, 1000);
    lemma_rdiv_mono(c.value as int * 463, (UNIT as int) * 463, 1000);
}

/// Law: every hue-saturation-value color produced at any pipeline stage —
/// the converted seed, the container, each raw swatch, each balanced
/// swatch — satisfies the domain invariants: hue in `[0, 360)` degrees,
/// saturation and value in `[0, 1]`.
pub proof fn lemma_pipeline_domain_invariants(seed: Rgb, i: int)
    requires
        seed.wf(),
        0 <= i < 16,
    ensures
        spec_rgb_to_hsv(seed).wf(),
        spec_container(spec_rgb_to_hsv(seed)).wf(),
        spec_raw_slot(spec_rgb_to_hsv(seed), spec_container(spec_rgb_to_hsv(seed)), i).wf(),
        spec_dps_slot(seed, i).wf(),
{
    crate::colors::convert::lemma_rgb_to_hsv_wf(seed);
    lemma_container_wf(spec_rgb_to_hsv(seed));
    crate::dms::calculator::lemma_raw_slot_wf(
        spec_rgb_to_hsv(seed),
        spec_container(spec_rgb_to_hsv(seed)),
        i,
    );
}

/// Law: a fully saturated seed forces the container saturation to clamp at
/// one rather than exceed it.
pub proof fn lemma_container_saturation_clamps(c: Hsv)
    requires
        c.wf(),
        c.saturation == UNIT,
    ensures
        spec_container(c).saturation == UNIT,
{
    vstd::arithmetic::div_mod::lemma_fundamental_div_mod_converse_div(
        3_668_001_000,
        2000,
        1_834_000,
        1000,
    );
    assert(rdiv(1_834_000_000, 1000) == 1_834_000);
}

/// The hex encoding of raw swatch `i` of a seed, without balancing.
pub open spec fn spec_generate_raw(seed: Rgb) -> Seq<Seq<char>> {
    let hsv = spec_rgb_to_hsv(seed);
    let container = spec_container(hsv);
    Seq::new(16, |i: int| spec_rgb_to_hex(spec_hsv_to_rgb(spec_raw_slot(hsv, container, i))))
}

/// The swatch of slot `i` after the score-based balancing pass.
pub open spec fn spec_dps_slot(seed: Rgb, i: int) -> Hsv {
    let hsv = spec_rgb_to_hsv(seed);
    let container = spec_container(hsv);
    let raw = spec_raw_slot(hsv, container, i);
    let bg = container.value as int;
    if i == 7 || i == 15 {
        Hsv {
            hue: raw.hue,
            saturation: raw.saturation,
            value: spec_balanced_value(bg, NORMAL_TEXT_TARGET as int * 10) as u64,
        }
    } else if i == 8 {
        Hsv {
            hue: raw.hue,
            saturation: raw.saturation,
            value: spec_balanced_value(bg, SECONDARY_TARGET as int * 10) as u64,
        }
    } else {
        raw
    }
}

/// The hex palette of a seed under the score-based balancing pass.
pub open spec fn spec_generate_dps(seed: Rgb) -> Seq<Seq<char>> {
    Seq::new(16, |i: int| spec_rgb_to_hex(spec_hsv_to_rgb(spec_dps_slot(seed, i))))
}

/// Generates the score-balanced hex palette of a seed color: the seed is
/// converted to hue-saturation-value form, the container derived, the
/// sixteen raw swatches synthesized, the text roles balanced against the
/// container, and the result hex-encoded in slot order. Deterministic: the
/// result is a function of the seed alone.
pub fn generate_ansi_dps(primary: &Rgb) -> (r: Result<AnsiPaletteHex, PaletteError>)
    requires
        primary.wf(),
    ensures
        r is Ok,
        r is Ok ==> (r->Ok_0).wf() && (r->Ok_0).view() == spec_generate_dps(*primary),
{
    let hsv = rgb_to_hsv(primary);
    let based = derive_container(&hsv);
    let ansi = match AnsiResult::get(&hsv, &based) {
        Ok(a) => a,
        Err(e) => {
            return Err(e);
        },
    };
    let ghost raw = ansi;
    let balanced = ansi.balance_dps_itself(NORMAL_TEXT_TARGET, SECONDARY_TARGET);
    let hex = balanced.to_hex();
    proof {
        assert forall|i: int| 0 <= i < 16 implies (#[trigger] balanced.slot(i)) == spec_dps_slot(
            *primary,
            i,
        ) by {
            assert(balanced.slot(i) == spec_balanced_palette_slot(
                raw,
                NORMAL_TEXT_TARGET as int,
                SECONDARY_TARGET as int,
                i,
            ));
            assert(raw.slot(0) == spec_container(spec_rgb_to_hsv(*primary)));
        }
        assert(hex.view() =~= spec_generate_dps(*primary));
    }
    Ok(hex)
}

} // verus!
