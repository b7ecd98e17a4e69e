//! Data, grammar and conversions common to `.ass` and `.ssa` files.

pub mod convert;
pub mod data;
pub mod parse;
