//! Derivation of a 16-entry ANSI terminal palette from a single seed color.
//!
//! All color arithmetic is carried out in fixed-point integers: a channel or
//! a saturation/value component is a `u64` holding millionths of the unit
//! interval (see [`fixed::UNIT`]), and a hue is a `u64` holding millionths of
//! a degree. This keeps every derivation step exact and provable.

pub mod backend;
pub mod cli;
pub mod colors;
pub mod dms;
pub mod fixed;
pub mod term;
