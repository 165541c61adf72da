//! Color representations and the conversions among them.

pub mod convert;
pub mod unified;
