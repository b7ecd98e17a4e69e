//! Reading a SubRip file from its bytes.

use crate::encoding::{
    choose_label, chosen_label, decode_lines, decoded_lines, detected_encoding, label_view,
    lines_view,
};
use crate::subrip::data::{SubRipEventView, SubRipSubtitle};
use crate::subrip::parse::{fed, finished, start_draft, SubRipDraft, SubRipParser};
use vstd::prelude::*;

verus! {

/// The draft after the decoded lines `lines[k..]`. A line that
/// is not valid UTF-8 is passed over.
pub open spec fn fed_lines(d: SubRipDraft, lines: Seq<Option<Seq<char>>>, k: int) -> SubRipDraft
    decreases lines.len() - k,
{
    if k < 0 || k >= lines.len() {
        d
    } else {
        fed_lines(
            match lines[k] {
                Some(line) => fed(d, line),
                None => d,
            },
            lines,
            k + 1,
        )
    }
}

/// The subtitle that the decoded lines of a file hold.
pub open spec fn read(lines: Seq<Option<Seq<char>>>) -> Seq<SubRipEventView> {
    finished(fed_lines(start_draft(), lines, 0))
}

impl SubRipSubtitle {
    /// Reads the decoded lines of a file. No line is refused: what cannot be
    /// read is passed over.
    pub fn from_lines(lines: &Vec<Option<String>>) -> (r: SubRipSubtitle)
        ensures
            r@ == read(lines_view(lines@)),
    {
        let mut parser = SubRipParser::new();
        let mut k: usize = 0;
        while k < lines.len()
            invariant
                k <= lines.len(),
                fed_lines(start_draft(), lines_view(lines@), 0) == fed_lines(
                    parser@,
                    lines_view(lines@),
                    k as int,
                ),
            decreases lines.len() - k,
        {
            match &lines[k] {
                Some(line) => {
                    parser.feed_line(line.as_str());
                },
                None => {},
            }
            k += 1;
        }
        parser.finish()
    }

    /// Load subtitle from the bytes of a file, using the encoding that the
    /// given label names. Without a label, the encoding is guessed from the
    /// first 30 lines.
    pub fn from_bytes_with_encoding(bytes: &Vec<u8>, encoding: Option<&str>) -> (r: SubRipSubtitle)
        ensures
            r@ == read(
                decoded_lines(bytes@, Some(chosen_label(bytes@, label_view(encoding), 30))),
            ),
    {
        let label = choose_label(bytes, encoding, 30);
        SubRipSubtitle::from_lines(&decode_lines(bytes, Some(label)))
    }

    /// Load subtitle from the bytes of a file.
    /// Automatically attempts to detect the encoding to use from the file contents.
    pub fn from_bytes(bytes: &Vec<u8>) -> (r: SubRipSubtitle)
        ensures
            r@ == read(decoded_lines(bytes@, Some(detected_encoding(bytes@, Some(30usize))))),
    {
        SubRipSubtitle::from_bytes_with_encoding(bytes, None)
    }
}

} // verus!
