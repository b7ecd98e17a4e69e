//! SubStation Alpha subtitles.

pub mod bytes;
pub mod convert;
pub mod data;
pub mod parse;

pub use data::{SsaEvent, SsaScriptInfo, SsaStyle, SsaSubtitle};
