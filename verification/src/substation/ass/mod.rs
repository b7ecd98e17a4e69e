//! Advanced SubStation Alpha subtitles.

pub mod bytes;
pub mod convert;
pub mod data;
pub mod parse;

pub use data::{AssEvent, AssScriptInfo, AssStyle, AssSubtitle};
