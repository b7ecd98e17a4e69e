//! The supported formats, and a subtitle of any of them.

use crate::convert::{
    ass_to_microdvd, ass_to_microdvd_spec, ass_to_plain, ass_to_plain_spec, ass_to_ssa,
    ass_to_ssa_spec, ass_to_subrip, ass_to_subrip_spec, ass_to_webvtt, ass_to_webvtt_spec,
    microdvd_to_ass, microdvd_to_ass_spec, microdvd_to_plain, microdvd_to_plain_spec,
    microdvd_to_ssa, microdvd_to_ssa_spec, microdvd_to_subrip, microdvd_to_subrip_spec,
    microdvd_to_webvtt, microdvd_to_webvtt_spec, ssa_to_ass, ssa_to_ass_spec, ssa_to_microdvd,
    ssa_to_microdvd_spec, ssa_to_plain, ssa_to_plain_spec, ssa_to_subrip, ssa_to_subrip_spec,
    ssa_to_webvtt, ssa_to_webvtt_spec, subrip_to_ass, subrip_to_ass_spec, subrip_to_microdvd,
    subrip_to_microdvd_spec, subrip_to_plain, subrip_to_plain_spec, subrip_to_ssa,
    subrip_to_ssa_spec, subrip_to_webvtt, subrip_to_webvtt_spec, webvtt_to_ass, webvtt_to_ass_spec,
    webvtt_to_microdvd, webvtt_to_microdvd_spec, webvtt_to_plain, webvtt_to_plain_spec,
    webvtt_to_ssa, webvtt_to_ssa_spec, webvtt_to_subrip, webvtt_to_subrip_spec,
};
use crate::detection::{
    detected, format_for, format_with_encoding, may_be_extension, name_extension, path_extension,
    plain_name, sample_of,
};
use crate::encoding::{decoded_lines, detect_encoding, detected_encoding, label_view};
use crate::errors::Error;
use crate::microdvd::data::{
    default_rate, raw_from_timed, timed_from_raw, TimedMicroDvdSubtitle, TimedMicroDvdSubtitleView,
};
use crate::microdvd::parse::parse_microdvd;
use crate::plain::{PlainEventView, PlainSubtitle};
use crate::subrip::data::{SubRipEventView, SubRipSubtitle};
use crate::subrip::parse::parse_srt;
use crate::substation::ass::data::{AssSubtitle, AssSubtitleView};
use crate::substation::ass::parse::parse_ass;
use crate::substation::ssa::data::{SsaSubtitle, SsaSubtitleView};
use crate::substation::ssa::parse::parse_ssa;
use crate::webvtt::data::{WebVttSubtitle, WebVttSubtitleView};
use crate::webvtt::parse::parse_vtt;
use crate::text::opt_text;
use vstd::prelude::*;

verus! {

/// Convenience interface for interacting with time-based subtitle files in a generic manner.
///
/// For example, managing a collection of multiple subtitles of unknown or different formats.
///
/// For accessing or modifying format-specific data/methods, such as embedded fonts in SubStation
/// Alpha files,
/// you should convert to the format-specific types using `from()` or `into()`
#[derive(Debug)]
pub enum TimedSubtitleFile {
    /// File in Advanced SubStation Alpha (V4+) (.ass) format
    Ass(AssSubtitle),
    /// Timed version of file in MicroDVD (.sub) format
    MicroDvd(TimedMicroDvdSubtitle),
    /// File in Substation Alpha (V4) (.ssa) format
    Ssa(SsaSubtitle),
    /// File in SubRip (.srt) format
    SubRip(SubRipSubtitle),
    /// File in WebVTT (.vtt) format
    WebVtt(WebVttSubtitle),
}

/// Supported file formats
#[derive(Clone, Copy, Debug, PartialEq, Eq, Structural)]
pub enum Format {
    /// Advanced SubStation Alpha (.ass) subtitle
    Ass,
    /// MicroDVD (.sub) subtitle
    MicroDvd,
    /// SubStation Alpha (.ssa) subtitle
    Ssa,
    /// SubRip (.srt) subtitle
    SubRip,
    /// WebVTT (.vtt) subtitle
    WebVtt,
}

/// A subtitle of any format, as mathematical values.
pub enum TimedSubtitleFileView {
    Ass(AssSubtitleView),
    MicroDvd(TimedMicroDvdSubtitleView),
    Ssa(SsaSubtitleView),
    SubRip(Seq<SubRipEventView>),
    WebVtt(WebVttSubtitleView),
}

impl View for TimedSubtitleFile {
    type V = TimedSubtitleFileView;

    open spec fn view(&self) -> TimedSubtitleFileView {
        match self {
            TimedSubtitleFile::Ass(data) => TimedSubtitleFileView::Ass(data@),
            TimedSubtitleFile::MicroDvd(data) => TimedSubtitleFileView::MicroDvd(data@),
            TimedSubtitleFile::Ssa(data) => TimedSubtitleFileView::Ssa(data@),
            TimedSubtitleFile::SubRip(data) => TimedSubtitleFileView::SubRip(data@),
            TimedSubtitleFile::WebVtt(data) => TimedSubtitleFileView::WebVtt(data@),
        }
    }
}

/// The subtitle that a text holds when it is read as the format `format`.
/// A MicroDVD text is timed at 24 frames per second.
pub open spec fn parsed_as(text: Seq<char>, format: Format) -> TimedSubtitleFileView {
    match format {
        Format::Ass => TimedSubtitleFileView::Ass(crate::substation::ass::parse::parsed(text)),
        Format::MicroDvd => TimedSubtitleFileView::MicroDvd(
            timed_from_raw(crate::microdvd::parse::parsed(text), default_rate()),
        ),
        Format::Ssa => TimedSubtitleFileView::Ssa(crate::substation::ssa::parse::parsed(text)),
        Format::SubRip => TimedSubtitleFileView::SubRip(crate::subrip::parse::parsed(text)),
        Format::WebVtt => TimedSubtitleFileView::WebVtt(crate::webvtt::parse::parsed(text)),
    }
}

/// A subtitle as it is written to a file of its format.
pub open spec fn file_text(s: TimedSubtitleFileView) -> Seq<char> {
    match s {
        TimedSubtitleFileView::Ass(data) => crate::substation::ass::data::subtitle_text(data),
        TimedSubtitleFileView::MicroDvd(data) => crate::microdvd::data::subtitle_text(
            raw_from_timed(data),
        ),
        TimedSubtitleFileView::Ssa(data) => crate::substation::ssa::data::subtitle_text(data),
        TimedSubtitleFileView::SubRip(data) => crate::subrip::data::subtitle_text(data),
        TimedSubtitleFileView::WebVtt(data) => crate::webvtt::data::subtitle_text(data),
    }
}

/// The format of a subtitle.
pub open spec fn format_of(s: TimedSubtitleFileView) -> Format {
    match s {
        TimedSubtitleFileView::Ass(_) => Format::Ass,
        TimedSubtitleFileView::MicroDvd(_) => Format::MicroDvd,
        TimedSubtitleFileView::Ssa(_) => Format::Ssa,
        TimedSubtitleFileView::SubRip(_) => Format::SubRip,
        TimedSubtitleFileView::WebVtt(_) => Format::WebVtt,
    }
}

/// A subtitle as a SubRip one: itself, or its conversion.
pub open spec fn as_subrip(s: TimedSubtitleFileView) -> Seq<SubRipEventView> {
    match s {
        TimedSubtitleFileView::SubRip(data) => data,
        TimedSubtitleFileView::MicroDvd(data) => microdvd_to_subrip_spec(data),
        TimedSubtitleFileView::Ass(data) => ass_to_subrip_spec(data),
        TimedSubtitleFileView::WebVtt(data) => webvtt_to_subrip_spec(data),
        TimedSubtitleFileView::Ssa(data) => ssa_to_subrip_spec(data),
    }
}

/// A subtitle as a WebVTT one: itself, or its conversion.
pub open spec fn as_webvtt(s: TimedSubtitleFileView) -> WebVttSubtitleView {
    match s {
        TimedSubtitleFileView::WebVtt(data) => data,
        TimedSubtitleFileView::Ass(data) => ass_to_webvtt_spec(data),
        TimedSubtitleFileView::MicroDvd(data) => microdvd_to_webvtt_spec(data),
        TimedSubtitleFileView::Ssa(data) => ssa_to_webvtt_spec(data),
        TimedSubtitleFileView::SubRip(data) => subrip_to_webvtt_spec(data),
    }
}

/// A subtitle as an `.ass` one: itself, or its conversion.
pub open spec fn as_ass(s: TimedSubtitleFileView) -> AssSubtitleView {
    match s {
        TimedSubtitleFileView::Ass(data) => data,
        TimedSubtitleFileView::MicroDvd(data) => microdvd_to_ass_spec(data),
        TimedSubtitleFileView::Ssa(data) => ssa_to_ass_spec(data),
        TimedSubtitleFileView::SubRip(data) => subrip_to_ass_spec(data),
        TimedSubtitleFileView::WebVtt(data) => webvtt_to_ass_spec(data),
    }
}

/// A subtitle as an `.ssa` one: itself, or its conversion.
pub open spec fn as_ssa(s: TimedSubtitleFileView) -> SsaSubtitleView {
    match s {
        TimedSubtitleFileView::Ssa(data) => data,
        TimedSubtitleFileView::Ass(data) => ass_to_ssa_spec(data),
        TimedSubtitleFileView::MicroDvd(data) => microdvd_to_ssa_spec(data),
        TimedSubtitleFileView::SubRip(data) => subrip_to_ssa_spec(data),
        TimedSubtitleFileView::WebVtt(data) => webvtt_to_ssa_spec(data),
    }
}

/// A subtitle as a timed MicroDVD one: itself, or its conversion.
pub open spec fn as_microdvd(s: TimedSubtitleFileView) -> TimedMicroDvdSubtitleView {
    match s {
        TimedSubtitleFileView::MicroDvd(data) => data,
        TimedSubtitleFileView::Ass(data) => ass_to_microdvd_spec(data),
        TimedSubtitleFileView::Ssa(data) => ssa_to_microdvd_spec(data),
        TimedSubtitleFileView::SubRip(data) => subrip_to_microdvd_spec(data),
        TimedSubtitleFileView::WebVtt(data) => webvtt_to_microdvd_spec(data),
    }
}

/// A subtitle as a plain one.
pub open spec fn as_plain(s: TimedSubtitleFileView) -> Seq<PlainEventView> {
    match s {
        TimedSubtitleFileView::Ass(data) => ass_to_plain_spec(data),
        TimedSubtitleFileView::MicroDvd(data) => microdvd_to_plain_spec(data),
        TimedSubtitleFileView::Ssa(data) => ssa_to_plain_spec(data),
        TimedSubtitleFileView::SubRip(data) => subrip_to_plain_spec(data),
        TimedSubtitleFileView::WebVtt(data) => webvtt_to_plain_spec(data),
    }
}

/// The subtitle that the decoded lines of a file hold when they are read as
/// the format `format`. A MicroDVD file is timed at 24 frames per second.
pub open spec fn read_as(lines: Seq<Option<Seq<char>>>, format: Format) -> TimedSubtitleFileView {
    match format {
        Format::Ass => TimedSubtitleFileView::Ass(crate::substation::ass::bytes::read(lines)),
        Format::MicroDvd => TimedSubtitleFileView::MicroDvd(
            timed_from_raw(crate::microdvd::bytes::read(lines), default_rate()),
        ),
        Format::Ssa => TimedSubtitleFileView::Ssa(crate::substation::ssa::bytes::read(lines)),
        Format::SubRip => TimedSubtitleFileView::SubRip(crate::subrip::bytes::read(lines)),
        Format::WebVtt => TimedSubtitleFileView::WebVtt(crate::webvtt::bytes::read(lines)),
    }
}

/// How many lines of a file are looked at to guess its encoding before it
/// is read as the format `format`.
pub open spec fn sniffed_lines(format: Format) -> usize {
    match format {
        Format::Ass => 40,
        Format::Ssa => 40,
        _ => 30,
    }
}

/// The subtitle that was opened, if one was.
pub open spec fn opened(r: Result<TimedSubtitleFile, Error>) -> Option<TimedSubtitleFileView> {
    match r {
        Ok(file) => Some(file@),
        Err(_) => None,
    }
}

/// The subtitle that the bytes of a file hold when they are decoded by the
/// encoding that is guessed for them and read as the format that the
/// extension of the file gives or, if it gives none, as the format that
/// their first lines show. Nothing where neither gives a format.
pub open spec fn opened_for(extension: Option<Seq<char>>, bytes: Seq<u8>) -> Option<
    TimedSubtitleFileView,
> {
    let lines = decoded_lines(bytes, Some(detected_encoding(bytes, None)));
    match format_for(extension, detected(sample_of(lines))) {
        Some(format) => Some(read_as(lines, format)),
        None => None,
    }
}

impl TimedSubtitleFile {
    /// Reads the bytes of a file as the format that the extension of the
    /// file, given without its dot, names or, if that tells nothing, as the
    /// format that its contents show. The bytes are read in the encoding
    /// that is guessed for them.
    ///
    /// # Errors
    ///
    /// If the format cannot be successfully detected, returns [`Error::UnknownFileTypeError`]
    pub fn read(extension: Option<&str>, bytes: &Vec<u8>) -> (r: Result<TimedSubtitleFile, Error>)
        ensures
            opened(r) == opened_for(label_view(extension), bytes@),
            r matches Err(e) ==> e is UnknownFileTypeError,
    {
        let encoding = detect_encoding(bytes, None);
        match format_with_encoding(extension, bytes, Some(encoding)) {
            Ok(format) => Ok(
                match format {
                    Format::Ass => TimedSubtitleFile::Ass(
                        AssSubtitle::from_bytes_with_encoding(bytes, Some(encoding)),
                    ),
                    Format::MicroDvd => TimedSubtitleFile::MicroDvd(
                        TimedMicroDvdSubtitle::from_bytes_with_encoding(bytes, Some(encoding)),
                    ),
                    Format::Ssa => TimedSubtitleFile::Ssa(
                        SsaSubtitle::from_bytes_with_encoding(bytes, Some(encoding)),
                    ),
                    Format::SubRip => TimedSubtitleFile::SubRip(
                        SubRipSubtitle::from_bytes_with_encoding(bytes, Some(encoding)),
                    ),
                    Format::WebVtt => TimedSubtitleFile::WebVtt(
                        WebVttSubtitle::from_bytes_with_encoding(bytes, Some(encoding)),
                    ),
                },
            ),
            Err(e) => Err(e),
        }
    }

    /// Attempts to detect the format of a file using the extension of its
    /// path `path` and, if that tells nothing, its contents `bytes`, read in
    /// the encoding that is guessed for them.
    ///
    /// Using the detected format, read the file
    ///
    /// # Errors
    ///
    /// If the format cannot be successfully detected, returns [`Error::UnknownFileTypeError`]
    pub fn new(path: &str, bytes: &Vec<u8>) -> (r: Result<TimedSubtitleFile, Error>)
        ensures
            plain_name(path@) ==> opened(r) == opened_for(name_extension(path@), bytes@),
            exists|extension: Option<Seq<char>>|
                may_be_extension(path@, extension) && opened(r) == opened_for(extension, bytes@),
            r matches Err(e) ==> e is UnknownFileTypeError,
    {
        let extension = path_extension(path);
        let r = match &extension {
            Some(e) => TimedSubtitleFile::read(Some(e.as_str()), bytes),
            None => TimedSubtitleFile::read(None, bytes),
        };
        assert(opened(r) == opened_for(opt_text(extension), bytes@));
        r
    }

    /// Read the bytes of a file as the given format, in the encoding that is
    /// guessed for them
    pub fn with_format(bytes: &Vec<u8>, format: Format) -> (r: Result<TimedSubtitleFile, Error>)
        ensures
            r is Ok,
            r->Ok_0@ == read_as(
                decoded_lines(
                    bytes@,
                    Some(detected_encoding(bytes@, Some(sniffed_lines(format)))),
                ),
                format,
            ),
    {
        Ok(
            match format {
                Format::Ass => TimedSubtitleFile::Ass(AssSubtitle::from_bytes(bytes)),
                Format::MicroDvd => TimedSubtitleFile::MicroDvd(
                    TimedMicroDvdSubtitle::from_bytes(bytes),
                ),
                Format::Ssa => TimedSubtitleFile::Ssa(SsaSubtitle::from_bytes(bytes)),
                Format::SubRip => TimedSubtitleFile::SubRip(SubRipSubtitle::from_bytes(bytes)),
                Format::WebVtt => TimedSubtitleFile::WebVtt(WebVttSubtitle::from_bytes(bytes)),
            },
        )
    }

    /// Read a text as the given format
    pub fn parse(text: &str, format: Format) -> (r: TimedSubtitleFile)
        ensures
            r@ == parsed_as(text@, format),
    {
        match format {
            Format::Ass => TimedSubtitleFile::Ass(parse_ass(text)),
            Format::MicroDvd => TimedSubtitleFile::MicroDvd(
                TimedMicroDvdSubtitle::from_raw(&parse_microdvd(text), None),
            ),
            Format::Ssa => TimedSubtitleFile::Ssa(parse_ssa(text)),
            Format::SubRip => TimedSubtitleFile::SubRip(parse_srt(text)),
            Format::WebVtt => TimedSubtitleFile::WebVtt(parse_vtt(text)),
        }
    }

    /// The format of the subtitle.
    pub fn format(&self) -> (r: Format)
        ensures
            r == format_of(self@),
    {
        match self {
            TimedSubtitleFile::Ass(_) => Format::Ass,
            TimedSubtitleFile::MicroDvd(_) => Format::MicroDvd,
            TimedSubtitleFile::Ssa(_) => Format::Ssa,
            TimedSubtitleFile::SubRip(_) => Format::SubRip,
            TimedSubtitleFile::WebVtt(_) => Format::WebVtt,
        }
    }

    /// Exports contents as the text of a file in the corresponding format
    pub fn export(&self) -> (r: String)
        ensures
            r@ == file_text(self@),
    {
        match self {
            TimedSubtitleFile::Ass(data) => data.to_string(),
            TimedSubtitleFile::MicroDvd(data) => data.to_string(),
            TimedSubtitleFile::Ssa(data) => data.to_string(),
            TimedSubtitleFile::SubRip(data) => data.to_string(),
            TimedSubtitleFile::WebVtt(data) => data.to_string(),
        }
    }
}

impl vstd::std_specs::convert::FromSpecImpl<TimedSubtitleFile> for SubRipSubtitle {
    open spec fn obeys_from_spec() -> bool {
        false
    }

    open spec fn from_spec(v: TimedSubtitleFile) -> SubRipSubtitle {
        arbitrary()
    }
}

/// The subtitle itself where it is a SubRip one, else its conversion.
impl From<TimedSubtitleFile> for SubRipSubtitle {
    fn from(value: TimedSubtitleFile) -> (r: SubRipSubtitle)
        ensures
            r@ == as_subrip(value@),
    {
        match value {
            TimedSubtitleFile::SubRip(data) => data,
            TimedSubtitleFile::MicroDvd(data) => microdvd_to_subrip(&data),
            TimedSubtitleFile::Ass(data) => ass_to_subrip(&data),
            TimedSubtitleFile::WebVtt(data) => webvtt_to_subrip(&data),
            TimedSubtitleFile::Ssa(data) => ssa_to_subrip(&data),
        }
    }
}

impl vstd::std_specs::convert::FromSpecImpl<TimedSubtitleFile> for WebVttSubtitle {
    open spec fn obeys_from_spec() -> bool {
        false
    }

    open spec fn from_spec(v: TimedSubtitleFile) -> WebVttSubtitle {
        arbitrary()
    }
}

/// The subtitle itself where it is a WebVTT one, else its conversion.
impl From<TimedSubtitleFile> for WebVttSubtitle {
    fn from(value: TimedSubtitleFile) -> (r: WebVttSubtitle)
        ensures
            r@ == as_webvtt(value@),
    {
        match value {
            TimedSubtitleFile::WebVtt(data) => data,
            TimedSubtitleFile::Ass(data) => ass_to_webvtt(&data),
            TimedSubtitleFile::MicroDvd(data) => microdvd_to_webvtt(&data),
            TimedSubtitleFile::Ssa(data) => ssa_to_webvtt(&data),
            TimedSubtitleFile::SubRip(data) => subrip_to_webvtt(&data),
        }
    }
}

impl vstd::std_specs::convert::FromSpecImpl<TimedSubtitleFile> for AssSubtitle {
    open spec fn obeys_from_spec() -> bool {
        false
    }

    open spec fn from_spec(v: TimedSubtitleFile) -> AssSubtitle {
        arbitrary()
    }
}

/// The subtitle itself where it is an `.ass` one, else its conversion.
impl From<TimedSubtitleFile> for AssSubtitle {
    fn from(value: TimedSubtitleFile) -> (r: AssSubtitle)
        ensures
            r@ == as_ass(value@),
    {
        match value {
            TimedSubtitleFile::Ass(data) => data,
            TimedSubtitleFile::MicroDvd(data) => microdvd_to_ass(&data),
            TimedSubtitleFile::Ssa(data) => ssa_to_ass(&data),
            TimedSubtitleFile::SubRip(data) => subrip_to_ass(&data),
            TimedSubtitleFile::WebVtt(data) => webvtt_to_ass(&data),
        }
    }
}

impl vstd::std_specs::convert::FromSpecImpl<TimedSubtitleFile> for SsaSubtitle {
    open spec fn obeys_from_spec() -> bool {
        false
    }

    open spec fn from_spec(v: TimedSubtitleFile) -> SsaSubtitle {
        arbitrary()
    }
}

/// The subtitle itself where it is an `.ssa` one, else its conversion.
impl From<TimedSubtitleFile> for SsaSubtitle {
    fn from(value: TimedSubtitleFile) -> (r: SsaSubtitle)
        ensures
            r@ == as_ssa(value@),
    {
        match value {
            TimedSubtitleFile::Ssa(data) => data,
            TimedSubtitleFile::Ass(data) => ass_to_ssa(&data),
            TimedSubtitleFile::MicroDvd(data) => microdvd_to_ssa(&data),
            TimedSubtitleFile::SubRip(data) => subrip_to_ssa(&data),
            TimedSubtitleFile::WebVtt(data) => webvtt_to_ssa(&data),
        }
    }
}

impl vstd::std_specs::convert::FromSpecImpl<TimedSubtitleFile> for TimedMicroDvdSubtitle {
    open spec fn obeys_from_spec() -> bool {
        false
    }

    open spec fn from_spec(v: TimedSubtitleFile) -> TimedMicroDvdSubtitle {
        arbitrary()
    }
}

/// The subtitle itself where it is a timed MicroDVD one, else its
/// conversion.
impl From<TimedSubtitleFile> for TimedMicroDvdSubtitle {
    fn from(value: TimedSubtitleFile) -> (r: TimedMicroDvdSubtitle)
        ensures
            r@ == as_microdvd(value@),
    {
        match value {
            TimedSubtitleFile::MicroDvd(data) => data,
            TimedSubtitleFile::Ass(data) => ass_to_microdvd(&data),
            TimedSubtitleFile::Ssa(data) => ssa_to_microdvd(&data),
            TimedSubtitleFile::SubRip(data) => subrip_to_microdvd(&data),
            TimedSubtitleFile::WebVtt(data) => webvtt_to_microdvd(&data),
        }
    }
}

impl vstd::std_specs::convert::FromSpecImpl<TimedSubtitleFile> for PlainSubtitle {
    open spec fn obeys_from_spec() -> bool {
        false
    }

    open spec fn from_spec(v: TimedSubtitleFile) -> PlainSubtitle {
        arbitrary()
    }
}

/// The plain subtitle that holds the text and timing of the subtitle.
impl From<TimedSubtitleFile> for PlainSubtitle {
    fn from(value: TimedSubtitleFile) -> (r: PlainSubtitle)
        ensures
            r@ == as_plain(value@),
    {
        match value {
            TimedSubtitleFile::Ass(data) => ass_to_plain(&data),
            TimedSubtitleFile::MicroDvd(data) => microdvd_to_plain(&data),
            TimedSubtitleFile::Ssa(data) => ssa_to_plain(&data),
            TimedSubtitleFile::SubRip(data) => subrip_to_plain(&data),
            TimedSubtitleFile::WebVtt(data) => webvtt_to_plain(&data),
        }
    }
}

} // verus!
