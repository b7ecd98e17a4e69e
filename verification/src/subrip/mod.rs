//! SubRip subtitles.

pub mod bytes;
pub mod convert;
pub mod data;
pub mod parse;
pub mod roundtrip;

pub use data::{SubRipEvent, SubRipSubtitle};
