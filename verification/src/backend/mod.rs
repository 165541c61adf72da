//! The palette-generation entry point and its strategy selection.

use vstd::prelude::*;
use vstd::string::StringExecFns;
use crate::colors::convert::{rgb_to_hsv, spec_rgb_to_hsv, Hsv, PaletteError, Rgb};
use crate::colors::unified::AnsiPaletteHex;
use crate::dms::balance_contrast::spec_balanced_palette_slot;
use crate::dms::calculator::AnsiResult;
use crate::dms::{
    derive_container, spec_container, spec_dps_slot, spec_generate_dps, spec_generate_raw,
    ALT_NORMAL_TEXT_TARGET, ALT_SECONDARY_TARGET, NORMAL_TEXT_TARGET, SECONDARY_TARGET,
};

verus! {

/// A sixteen-slot palette in some color representation: eight normal slots
/// and their eight bright counterparts, in fixed ANSI order.
pub struct Backend<T> {
    pub normal: [T; 8],
    pub bright: [T; 8],
}

impl<T> Backend<T> {
    /// Slot `i` of 16, counting the normal half first.
    pub open spec fn slot(self, i: int) -> T {
        if i < 8 {
            self.normal[i]
        } else {
            self.bright[i - 8]
        }
    }
}

impl Backend<Rgb> {
    /// Hex-encodes a palette already in RGB form, preserving slot order.
    pub fn to_hex(&self) -> (r: AnsiPaletteHex)
        requires
            forall|i: int| 0 <= i < 16 ==> (#[trigger] self.slot(i)).wf(),
        ensures
            r.wf(),
            r.view() == Seq::new(16, |i: int| crate::colors::convert::spec_rgb_to_hex(self.slot(i))),
    {
        let mut colors: Vec<String> = Vec::new();
        let mut i: usize = 0;
        while i < 16
            invariant
                forall|k: int| 0 <= k < 16 ==> (#[trigger] self.slot(k)).wf(),
                i <= 16,
                colors@.len() == i,
                forall|j: int|
                    0 <= j < i ==> colors@[j]@ == crate::colors::convert::spec_rgb_to_hex(
                        self.slot(j),
                    ),
            decreases 16 - i,
        {
            let slot = if i < 8 {
                self.normal[i]
            } else {
                self.bright[i - 8]
            };
            proof {
                assert(slot == self.slot(i as int));
                assert(self.slot(i as int).wf());
            }
            colors.push(crate::colors::convert::rgb_to_hex(&slot));
            i = i + 1;
        }
        let r = AnsiPaletteHex { colors };
        proof {
            assert(r.view() =~= Seq::new(
                16,
                |i: int| crate::colors::convert::spec_rgb_to_hex(self.slot(i)),
            ));
        }
        r
    }
}

/// The palette working in hue-saturation-value form.
pub type Dms = Backend<Hsv>;

/// The available palette backends.
#[derive(Clone, Copy, Debug, PartialEq, Eq, Structural)]
pub enum BackendEnum {
    Dms,
}

impl BackendEnum {
    /// The backend's display name.
    pub open spec fn spec_label(self) -> Seq<char> {
        "DMS"@
    }

    /// The backend's display name.
    pub fn label(&self) -> (s: String)
        ensures
            s@ == self.spec_label(),
    {
        String::from_str("DMS")
    }
}

/// Whether the generated palette is contrast-balanced against its container
/// before it is hex-encoded.
#[derive(Clone, Copy, Debug, PartialEq, Eq, Structural)]
pub enum BalanceContrast {
    /// Balance the text roles to the score-based targets.
    Dps,
    /// Skip balancing and emit the raw palette.
    Skip,
}

/// The hex palette `generate` returns for a seed and a strategy: the
/// balanced pipeline under the score-based strategy (also the default when
/// none is chosen), the raw pipeline when balancing is skipped.
pub open spec fn spec_generate(seed: Rgb, strategy: Option<BalanceContrast>) -> Seq<Seq<char>> {
    let resolved = if strategy is Some {
        strategy->0
    } else {
        BalanceContrast::Dps
    };
    if resolved is Dps {
        spec_generate_dps(seed)
    } else {
        spec_generate_raw(seed)
    }
}

/// Law: under the no-balancing strategy the returned palette is exactly the
/// hex encoding of the raw palette — the balancing pass is not involved.
pub proof fn lemma_no_balancing_equivalence(seed: Rgb)
    ensures
        spec_generate(seed, Some(BalanceContrast::Skip)) == spec_generate_raw(seed),
{
}

/// A palette backend: one entry point from a seed color and a balancing
/// strategy to the finished hex palette.
pub trait BackendStrategy {
    /// Generates the sixteen-entry hex palette of a seed color under the
    /// chosen balancing strategy (the score-based one when none is given).
    /// Deterministic: the result is a function of the seed and the strategy
    /// alone.
    fn generate(seed_color: &Rgb, strategy: Option<BalanceContrast>) -> (r: Result<
        AnsiPaletteHex,
        PaletteError,
    >)
        requires
            seed_color.wf(),
        ensures
            r is Ok,
            r is Ok ==> (r->Ok_0).wf() && (r->Ok_0).view() == spec_generate(
                *seed_color,
                strategy,
            ),
    ;
}

impl BackendStrategy for Backend<Hsv> {
    fn generate(seed_color: &Rgb, strategy: Option<BalanceContrast>) -> (r: Result<
        AnsiPaletteHex,
        PaletteError,
    >) {
        let strategy = match strategy {
            Some(v) => v,
            None => BalanceContrast::Dps,
        };
        let (normal_text_target, secondary_target) = match strategy {
            BalanceContrast::Dps => (NORMAL_TEXT_TARGET, SECONDARY_TARGET),
            BalanceContrast::Skip => (ALT_NORMAL_TEXT_TARGET, ALT_SECONDARY_TARGET),
        };
        let hsv = rgb_to_hsv(seed_color);
        let base = derive_container(&hsv);
        let ansi = match AnsiResult::get(&hsv, &base) {
            Ok(a) => a,
            Err(e) => {
                return Err(e);
            },
        };
        match strategy {
            BalanceContrast::Dps => {
                let ghost raw = ansi;
                let balanced = ansi.balance_dps_itself(normal_text_target, secondary_target);
                let hex = balanced.to_hex();
                proof {
                    assert forall|i: int| 0 <= i < 16 implies (#[trigger] balanced.slot(i))
                        == spec_dps_slot(*seed_color, i) by {
                        assert(balanced.slot(i) == spec_balanced_palette_slot(
                            raw,
                            NORMAL_TEXT_TARGET as int,
                            SECONDARY_TARGET as int,
                            i,
                        ));
                        assert(raw.slot(0) == spec_container(spec_rgb_to_hsv(*seed_color)));
                    }
                    assert(hex.view() =~= spec_generate_dps(*seed_color));
                }
                Ok(hex)
            },
            BalanceContrast::Skip => {
                let hex = ansi.to_hex();
                proof {
                    assert(hex.view() =~= spec_generate_raw(*seed_color));
                }
                Ok(hex)
            },
        }
    }
}

} // verus!
