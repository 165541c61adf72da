//! The externally consumed palette artifact: sixteen hex-encoded colors.

use vstd::prelude::*;

verus! {

/// The sixteen palette slots, hex-encoded, in fixed ANSI order: eight normal
/// slots (black, red, green, yellow, blue, magenta, cyan, white) followed by
/// their bright counterparts. Immutable once produced.
pub struct AnsiPaletteHex {
    /// One 6-hex-digit lowercase string per slot.
    pub colors: Vec<String>,
}

impl Clone for AnsiPaletteHex {
    /// An exact copy of the palette.
    fn clone(&self) -> (r: Self)
        ensures
            r.view() == self.view(),
    {
        AnsiPaletteHex { colors: self.colors.clone() }
    }
}

impl AnsiPaletteHex {
    /// The palette as a sequence of sixteen character sequences.
    pub open spec fn view(self) -> Seq<Seq<char>> {
        self.colors@.map_values(|s: String| s@)
    }

    /// Well-formed: exactly sixteen entries.
    pub open spec fn wf(self) -> bool {
        self.colors@.len() == 16
    }

    /// The number of slots.
    pub fn len(&self) -> (n: usize)
        ensures
            n == self.colors@.len(),
    {
        self.colors.len()
    }

    /// The hex encoding of one slot.
    pub fn slot(&self, i: usize) -> (s: &String)
        requires
            i < self.colors@.len(),
        ensures
            s@ == self.view()[i as int],
    {
        &self.colors[i]
    }
}

} // verus!
