//! The command-line surface as plain data: the options a run is invoked
//! with. Argument parsing itself is I/O glue and lives outside the library;
//! the library only defines the shape and the display names of the choices.

use vstd::prelude::*;
use vstd::string::StringExecFns;

verus! {

/// The options of one palette-generation run.
#[derive(Debug)]
pub struct Cli {
    /// The seed color, as hex text or as three comma-separated channels.
    pub color: String,
    /// Whether `color` holds three decimal channels instead of hex text.
    pub from_srgb: bool,
    /// Whether the palette is printed as JSON.
    pub json_dump: bool,
    /// Whether progress messages are printed.
    pub verbose: bool,
    /// The chosen backend.
    pub backend: BackEnd,
    /// The chosen lightness mode.
    pub mode: Mode,
}

/// The backend chosen on the command line.
#[derive(Clone, Copy, Debug, PartialEq, Eq, Structural)]
pub enum BackEnd {
    Dms,
    DmsWcag,
}

impl BackEnd {
    /// The display name of the choice.
    pub open spec fn spec_label(self) -> Seq<char> {
        if self is Dms {
            "DMS"@
        } else {
            "DMS-WCAG"@
        }
    }

    /// The display name of the choice.
    pub fn label(&self) -> (s: String)
        ensures
            s@ == self.spec_label(),
    {
        match self {
            BackEnd::Dms => String::from_str("DMS"),
            BackEnd::DmsWcag => String::from_str("DMS-WCAG"),
        }
    }
}

/// The lightness mode chosen on the command line.
#[derive(Clone, Copy, Debug, PartialEq, Eq, Structural)]
pub enum Mode {
    Dark,
    Light,
}

impl Mode {
    /// The display name of the choice.
    pub open spec fn spec_label(self) -> Seq<char> {
        if self is Dark {
            "dark"@
        } else {
            "light"@
        }
    }

    /// The display name of the choice.
    pub fn label(&self) -> (s: String)
        ensures
            s@ == self.spec_label(),
    {
        match self {
            Mode::Dark => String::from_str("dark"),
            Mode::Light => String::from_str("light"),
        }
    }
}

} // verus!
