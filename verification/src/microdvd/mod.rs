//! MicroDVD subtitles, timed in frames or, with a frame rate, in
//! milliseconds.

pub mod bytes;
pub mod data;
pub mod parse;

pub use data::{MicroDvdEvent, MicroDvdSubtitle, TimedMicroDvdEvent, TimedMicroDvdSubtitle};
