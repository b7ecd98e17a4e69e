//! Reading a WebVTT file from its bytes.

use crate::encoding::{
    choose_label, chosen_label, decode_lines, decoded_lines, detected_encoding, label_view,
    lines_view,
};
use crate::webvtt::data::{WebVttSubtitle, WebVttSubtitleView};
use crate::webvtt::parse::{fed, finished, start_draft, WebVttDraft, WebVttParser};
use vstd::prelude::*;

verus! {

/// The draft after the decoded lines `lines[k..]`. A line that
/// is not valid UTF-8 is passed over.
pub open spec fn fed_lines(d: WebVttDraft, lines: Seq<Option<Seq<char>>>, k: int) -> WebVttDraft
    decreases lines.len() - k,
{
    if k < 0 || k >= lines.len() {
        d
    } else {
        fed_lines(
            match lines[k] {
                Some(line) => fed(d, line),
                None => d,
            },
            lines,
            k + 1,
        )
    }
}

/// The text of the first line of a file, which is its header line: empty
/// where the file has no line, or where the line is not valid UTF-8.
pub open spec fn header_line(lines: Seq<Option<Seq<char>>>) -> Seq<char> {
    if lines.len() > 0 && lines[0] is Some {
        lines[0]->0
    } else {
        Seq::empty()
    }
}

/// The subtitle that the decoded lines of a file hold.
pub open spec fn read(lines: Seq<Option<Seq<char>>>) -> WebVttSubtitleView {
    finished(fed_lines(fed(start_draft(), header_line(lines)), lines, 1))
}

impl WebVttSubtitle {
    /// Reads the decoded lines of a file. No line is refused: what cannot be
    /// read is passed over.
    pub fn from_lines(lines: &Vec<Option<String>>) -> (r: WebVttSubtitle)
        ensures
            r@ == read(lines_view(lines@)),
    {
        let mut parser = WebVttParser::new();
        proof {
            reveal_strlit("");
        }
        if lines.len() == 0 {
            parser.feed_line("");
            return parser.finish();
        }
        match &lines[0] {
            Some(line) => {
                parser.feed_line(line.as_str());
            },
            None => {
                parser.feed_line("");
            },
        }
        let mut k: usize = 1;
        while k < lines.len()
            invariant
                k <= lines.len(),
                fed_lines(
                    fed(start_draft(), header_line(lines_view(lines@))),
                    lines_view(lines@),
                    1,
                ) == fed_lines(
                    parser@,
                    lines_view(lines@),
                    k as int,
                ),
            decreases lines.len() - k,
        {
            match &lines[k] {
                Some(line) => {
                    parser.feed_line(line.as_str());
                },
                None => {},
            }
            k += 1;
        }
        parser.finish()
    }

    /// Load subtitle from the bytes of a file, using the encoding that the
    /// given label names. Without a label, the encoding is guessed from the
    /// first 30 lines.
    pub fn from_bytes_with_encoding(bytes: &Vec<u8>, encoding: Option<&str>) -> (r: WebVttSubtitle)
        ensures
            r@ == read(
                decoded_lines(bytes@, Some(chosen_label(bytes@, label_view(encoding), 30))),
            ),
    {
        let label = choose_label(bytes, encoding, 30);
        WebVttSubtitle::from_lines(&decode_lines(bytes, Some(label)))
    }

    /// Load subtitle from the bytes of a file.
    /// Automatically attempts to detect the encoding to use from the file contents.
    pub fn from_bytes(bytes: &Vec<u8>) -> (r: WebVttSubtitle)
        ensures
            r@ == read(decoded_lines(bytes@, Some(detected_encoding(bytes@, Some(30usize))))),
    {
        WebVttSubtitle::from_bytes_with_encoding(bytes, None)
    }
}

} // verus!
