//! Telling the format of a subtitle from the name of its file or from its
//! first lines.

use crate::encoding::{
    decode_lines, decoded_lines, detect_encoding, detected_encoding, label_view, lines_view,
};
use crate::errors::Error;
use crate::microdvd::parse::{event_of, parse_microdvd_line};
use crate::parsing::rows_view;
use crate::subrip::parse::{new_line_at, parse_new_line};
use crate::substation::common::parse::{
    has_script_info_heading, join_lines, joined_from, parse_format, parse_script_info_heading,
    script_type_from,
};
use crate::text::{ascii_lower, lower, opt_text, same_chars, string_of, to_chars};
use crate::timed_subtitle::Format;
use crate::webvtt::parse::{is_header_line, parse_header};
use vstd::prelude::*;

verus! {

/// The format that the start of a text shows. The formats are tried in this
/// order: WebVTT, by its header; SubRip, by a first event; SubStation, by the
/// heading of the script info, the advanced format being taken unless the
/// first `ScriptType` entry says otherwise; MicroDVD, by a first event.
pub open spec fn detected(text: Seq<char>) -> Option<Format> {
    if is_header_line(text) {
        Some(Format::WebVtt)
    } else if new_line_at(text, 0) is Some {
        Some(Format::SubRip)
    } else if has_script_info_heading(text) {
        match script_type_from(text, 0) {
            Some(format) => Some(format),
            None => Some(Format::Ass),
        }
    } else if event_of(text) is Some {
        Some(Format::MicroDvd)
    } else {
        None
    }
}

/// The first lines of a file that are valid UTF-8, as many as are looked at
/// to tell its format and at most 32: `taken`, and those among `lines[k..]`.
pub open spec fn sample_from(lines: Seq<Option<Seq<char>>>, k: int, taken: Seq<Seq<char>>) -> Seq<
    Seq<char>,
>
    decreases lines.len() - k,
{
    if k < 0 || k >= lines.len() || taken.len() >= 32 {
        taken
    } else {
        match lines[k] {
            Some(line) => sample_from(lines, k + 1, taken.push(line)),
            None => sample_from(lines, k + 1, taken),
        }
    }
}

/// The text of a file that is looked at to tell its format: its first lines
/// that are valid UTF-8, with a line feed between each two.
pub open spec fn sample_of(lines: Seq<Option<Seq<char>>>) -> Seq<char> {
    joined_from(sample_from(lines, 0, Seq::empty()), 0)
}

/// `s` with its ASCII letters in lower case.
pub open spec fn lowered(s: Seq<char>) -> Seq<char> {
    Seq::new(s.len(), |k: int| ascii_lower(s[k]))
}

/// The format that a file extension names, letters read in any case.
pub open spec fn extension_format(extension: Seq<char>) -> Option<Format> {
    let e = lowered(extension);
    if e == "ass"@ {
        Some(Format::Ass)
    } else if e == "ssa"@ {
        Some(Format::Ssa)
    } else if e == "srt"@ {
        Some(Format::SubRip)
    } else if e == "sub"@ {
        Some(Format::MicroDvd)
    } else if e == "vtt"@ {
        Some(Format::WebVtt)
    } else {
        None
    }
}

/// A format, or the error that none could be told.
pub open spec fn or_unknown(format: Option<Format>) -> Result<Format, Error> {
    match format {
        Some(f) => Ok(f),
        None => Err(Error::UnknownFileTypeError),
    }
}

/// Whether `extension` can be the extension of the file that `path` names:
/// it holds no dot and stands in the path right after one.
pub open spec fn extension_in(path: Seq<char>, extension: Seq<char>) -> bool {
    &&& !extension.contains('.')
    &&& exists|i: int|
        0 < i && i + extension.len() <= path.len() && path[i - 1] == '.' && #[trigger] path.subrange(
            i,
            i + extension.len(),
        ) == extension
}

/// Whether `extension` can be what is found when the extension of the file
/// that `path` names is looked for. That none is found is always possible.
pub open spec fn may_be_extension(path: Seq<char>, extension: Option<Seq<char>>) -> bool {
    match extension {
        Some(e) => extension_in(path, e),
        None => true,
    }
}

/// Whether a path is the plain name of a file: it holds nothing that parts
/// a path on any system, neither `/` nor `\` nor `:`, and is not `..`.
pub open spec fn plain_name(path: Seq<char>) -> bool {
    &&& !path.contains('/')
    &&& !path.contains('\\')
    &&& !path.contains(':')
    &&& path != ".."@
}

/// The index of the last dot among the first `n` characters of `s`, or -1
/// where there is none.
pub open spec fn last_dot(s: Seq<char>, n: int) -> int
    decreases n,
{
    if n <= 0 || n > s.len() {
        -1
    } else if s[n - 1] == '.' {
        n - 1
    } else {
        last_dot(s, n - 1)
    }
}

/// The extension of the plain name of a file: what follows its last dot.
/// A name without a dot has none, nor has one whose only dot is in front.
pub open spec fn name_extension(name: Seq<char>) -> Option<Seq<char>> {
    let dot = last_dot(name, name.len() as int);
    if dot <= 0 {
        None
    } else {
        Some(name.subrange(dot + 1, name.len() as int))
    }
}

/// The extension of the file that a path names (`Path::extension`), where
/// it has one: what follows the last dot of the name of the file. Which part
/// of a path is the name of the file depends on the system, unless the path
/// is a plain name. Of any other path no more is stated than that the
/// extension holds no dot and stands in the path after one.
#[verifier::external_body]
pub(crate) fn path_extension(path: &str) -> (r: Option<String>)
    ensures
        may_be_extension(path@, opt_text(r)),
        plain_name(path@) ==> opt_text(r) == name_extension(path@),
{
    match std::path::Path::new(path).extension() {
        Some(extension) => match extension.to_str() {
            Some(text) => Some(text.to_string()),
            None => None,
        },
        None => None,
    }
}

/// Attempt to detect subtitle format from a file extension, given without
/// its dot
///
/// # Errors
///
/// Returns [`Error::UnknownFileTypeError`] if file extension is not recognised
pub fn format_of_extension(extension: &str) -> (r: Result<Format, Error>)
    ensures
        r == or_unknown(extension_format(extension@)),
{
    let chars = to_chars(extension);
    let mut e: Vec<char> = Vec::new();
    let mut k: usize = 0;
    while k < chars.len()
        invariant
            k <= chars.len(),
            e@ == lowered(chars@).take(k as int),
        decreases chars.len() - k,
    {
        e.push(lower(chars[k]));
        assert(e@ =~= lowered(chars@).take(k + 1));
        k += 1;
    }
    assert(e@ =~= lowered(chars@));
    if same_chars(&e, &to_chars("ass")) {
        Ok(Format::Ass)
    } else if same_chars(&e, &to_chars("ssa")) {
        Ok(Format::Ssa)
    } else if same_chars(&e, &to_chars("srt")) {
        Ok(Format::SubRip)
    } else if same_chars(&e, &to_chars("sub")) {
        Ok(Format::MicroDvd)
    } else if same_chars(&e, &to_chars("vtt")) {
        Ok(Format::WebVtt)
    } else {
        Err(Error::UnknownFileTypeError)
    }
}

/// The format that the extension of a file gives: the one that it names, if
/// the file has an extension and it names one.
pub open spec fn format_by_extension(extension: Option<Seq<char>>) -> Option<Format> {
    match extension {
        Some(e) => extension_format(e),
        None => None,
    }
}

/// The format of a file: the one that its extension gives, or else the one
/// that its contents show.
pub open spec fn format_for(extension: Option<Seq<char>>, content: Option<Format>) -> Option<
    Format,
> {
    match format_by_extension(extension) {
        Some(format) => Some(format),
        None => content,
    }
}

/// Attempt to detect subtitle format from the extension of a file, given
/// without its dot, if the file has one
///
/// # Errors
///
/// Returns [`Error::UnknownFileTypeError`] if file extension is not recognised
pub fn format_of_optional_extension(extension: Option<&str>) -> (r: Result<Format, Error>)
    ensures
        r == or_unknown(format_by_extension(label_view(extension))),
{
    match extension {
        Some(e) => format_of_extension(e),
        None => Err(Error::UnknownFileTypeError),
    }
}

/// Attempt to detect subtitle format using its file extension
///
/// # Errors
///
/// Returns [`Error::UnknownFileTypeError`] if file extension is not recognised
pub fn detect_format_by_extension(path: &str) -> (r: Result<Format, Error>)
    ensures
        plain_name(path@) ==> r == or_unknown(format_by_extension(name_extension(path@))),
        exists|extension: Option<Seq<char>>|
            may_be_extension(path@, extension) && r == or_unknown(format_by_extension(extension)),
{
    let extension = path_extension(path);
    let r = match &extension {
        Some(e) => format_of_optional_extension(Some(e.as_str())),
        None => format_of_optional_extension(None),
    };
    assert(r == or_unknown(format_by_extension(opt_text(extension))));
    r
}

/// Attempt to detect subtitle format from text of the first few lines of the subtitle
///
/// # Errors
///
/// Returns [`Error::UnknownFileTypeError`] if unable to conclusively determine a single format.
pub fn detect_format_from_str(text: &str) -> (r: Result<Format, Error>)
    ensures
        r == or_unknown(detected(text@)),
{
    let v = to_chars(text);
    if parse_header(&v) {
        return Ok(Format::WebVtt);
    }
    if parse_new_line(&v, 0).is_some() {
        return Ok(Format::SubRip);
    }
    if parse_script_info_heading(&v) {
        return match parse_format(&v) {
            Some(format) => Ok(format),
            None => Ok(Format::Ass),
        };
    }
    if parse_microdvd_line(&v).is_some() {
        return Ok(Format::MicroDvd);
    }
    Err(Error::UnknownFileTypeError)
}

/// Attempt to detect subtitle format from the contents of a file, using the
/// encoding that the given label names to read it. Only the first lines of
/// the file are looked at
///
/// # Errors
///
/// Returns [`Error::UnknownFileTypeError`] if unable to conclusively determine a single format.
pub fn detect_format_by_content_with_encoding(bytes: &Vec<u8>, encoding: Option<&str>) -> (r:
    Result<Format, Error>)
    ensures
        r == or_unknown(detected(sample_of(decoded_lines(bytes@, label_view(encoding))))),
{
    let lines = decode_lines(bytes, encoding);
    let mut texts: Vec<Vec<char>> = Vec::new();
    let mut k: usize = 0;
    assert(rows_view(texts@) =~= Seq::<Seq<char>>::empty());
    while k < lines.len() && texts.len() < 32
        invariant
            k <= lines.len(),
            sample_from(lines_view(lines@), 0, Seq::empty()) == sample_from(
                lines_view(lines@),
                k as int,
                rows_view(texts@),
            ),
        decreases lines.len() - k,
    {
        match &lines[k] {
            Some(line) => {
                let ghost before = rows_view(texts@);
                texts.push(to_chars(line.as_str()));
                assert(rows_view(texts@) =~= before.push(line@));
            },
            None => {},
        }
        k += 1;
    }
    detect_format_from_str(string_of(&join_lines(&texts)).as_str())
}

/// Attempt to detect subtitle format from the contents of a file, of which
/// the encoding is guessed
///
/// # Errors
///
/// Returns [`Error::UnknownFileTypeError`] if unable to conclusively determine a single format.
pub fn detect_format_by_content(bytes: &Vec<u8>) -> (r: Result<Format, Error>)
    ensures
        r == or_unknown(
            detected(sample_of(decoded_lines(bytes@, Some(detected_encoding(bytes@, None))))),
        ),
{
    let encoding = detect_encoding(bytes, None);
    detect_format_by_content_with_encoding(bytes, Some(encoding))
}

/// Attempt to detect subtitle format from the extension of a file, given
/// without its dot, then by file contents using the given encoding if that
/// fails
///
/// # Errors
///
/// Returns [`Error::UnknownFileTypeError`] if unable to conclusively determine a single format.
pub fn format_with_encoding(
    extension: Option<&str>,
    bytes: &Vec<u8>,
    encoding: Option<&str>,
) -> (r: Result<Format, Error>)
    ensures
        r == or_unknown(
            format_for(
                label_view(extension),
                detected(sample_of(decoded_lines(bytes@, label_view(encoding)))),
            ),
        ),
{
    match format_of_optional_extension(extension) {
        Ok(format) => Ok(format),
        Err(_) => detect_format_by_content_with_encoding(bytes, encoding),
    }
}

/// Attempt to detect subtitle format from its extension first, then by file contents using the
/// given encoding if that fails
///
/// # Errors
///
/// Returns [`Error::UnknownFileTypeError`] if unable to conclusively determine a single format.
pub fn detect_format_with_encoding(path: &str, bytes: &Vec<u8>, encoding: Option<&str>) -> (r:
    Result<Format, Error>)
    ensures
        plain_name(path@) ==> r == or_unknown(
            format_for(
                name_extension(path@),
                detected(sample_of(decoded_lines(bytes@, label_view(encoding)))),
            ),
        ),
        exists|extension: Option<Seq<char>>|
            may_be_extension(path@, extension) && r == or_unknown(
                format_for(
                    extension,
                    detected(sample_of(decoded_lines(bytes@, label_view(encoding)))),
                ),
            ),
{
    let extension = path_extension(path);
    let r = match &extension {
        Some(e) => format_with_encoding(Some(e.as_str()), bytes, encoding),
        None => format_with_encoding(None, bytes, encoding),
    };
    assert(r == or_unknown(
        format_for(
            opt_text(extension),
            detected(sample_of(decoded_lines(bytes@, label_view(encoding)))),
        ),
    ));
    r
}

/// Attempt to detect subtitle format from its extension first, then by file contents if that fails
///
/// # Errors
///
/// Returns [`Error::UnknownFileTypeError`] if unable to conclusively determine a single format.
pub fn detect_format(path: &str, bytes: &Vec<u8>) -> (r: Result<Format, Error>)
    ensures
        plain_name(path@) ==> r == or_unknown(
            format_for(
                name_extension(path@),
                detected(sample_of(decoded_lines(bytes@, Some(detected_encoding(bytes@, None))))),
            ),
        ),
        exists|extension: Option<Seq<char>>|
            may_be_extension(path@, extension) && r == or_unknown(
                format_for(
                    extension,
                    detected(
                        sample_of(decoded_lines(bytes@, Some(detected_encoding(bytes@, None)))),
                    ),
                ),
            ),
{
    let extension = path_extension(path);
    let by_extension = match &extension {
        Some(e) => format_of_optional_extension(Some(e.as_str())),
        None => format_of_optional_extension(None),
    };
    let r = match by_extension {
        Ok(format) => Ok(format),
        Err(_) => detect_format_by_content(bytes),
    };
    assert(r == or_unknown(
        format_for(
            opt_text(extension),
            detected(sample_of(decoded_lines(bytes@, Some(detected_encoding(bytes@, None))))),
        ),
    ));
    r
}

} // verus!
