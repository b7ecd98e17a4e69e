//! Subtitle parsing, editing and conversion between SubRip, WebVTT, MicroDVD,
//! Advanced SubStation Alpha and SubStation Alpha.
//!
//! Every format has a module of its own with its data, its reader and the
//! converters of its formatting tags. A reader takes a file a line at a time
//! and never refuses one: what it cannot read, it passes over. What each
//! function returns is stated in its contract over the mathematical view of
//! its arguments, and proved.

/// One conversion for each pair of formats
pub mod convert;
/// Telling the format of a subtitle
pub mod detection;
/// From the bytes of a file to its lines
pub mod encoding;
mod errors;
/// The scanner behind every formatting converter
pub mod markup;
/// MicroDVD (.sub) format subtitle implementations
pub mod microdvd;
/// Pieces of grammar that several formats share
pub mod parsing;
/// Implementations for plain subtitles
pub mod plain;
/// SubRip (.srt) format subtitle implementations
pub mod subrip;
/// SubStation (.ass / .ssa) format subtitle implementations
pub mod substation;
/// Character-level building blocks
pub mod text;
/// The supported formats, and a subtitle of any of them
pub mod timed_subtitle;
/// Types used for subtitle timing
pub mod timing;
mod traits;
/// WebVTT (.vtt) format subtitle implementations
pub mod webvtt;

pub use detection::{
    detect_format, detect_format_by_content, detect_format_by_content_with_encoding,
    detect_format_by_extension, detect_format_from_str, detect_format_with_encoding,
};
pub use errors::Error;
pub use microdvd::{MicroDvdSubtitle, TimedMicroDvdSubtitle};
pub use plain::PlainSubtitle;
pub use subrip::SubRipSubtitle;
pub use substation::{ass::AssSubtitle, ssa::SsaSubtitle};
pub use timed_subtitle::{Format, TimedSubtitleFile};
pub use timing::{Frame, FrameRate, Moment, TimeDelta};
pub use traits::{
    Subtitle, TextEvent, TextEventInterface, TextSubtitle, TimedEvent, TimedEventInterface,
    TimedSubtitle,
};
pub use webvtt::WebVttSubtitle;
