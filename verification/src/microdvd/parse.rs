//! Reading a MicroDVD file, a line at a time.

use crate::errors::Error;
use crate::microdvd::data::{
    default_rate, timed_from_raw, MicroDvdEvent, MicroDvdEventView, MicroDvdSubtitle,
    TimedMicroDvdSubtitle,
};
use crate::parsing::{lines_of, rows_view, split_lines};
use crate::text::{
    copy_range, find_char, int_at, scan_int, scan_to_char, string_of, to_chars, views,
};
use crate::timing::Frame;
use vstd::prelude::*;

verus! {

/// A frame in braces at `i`: the frame, and the index just past the closing
/// brace.
pub open spec fn frame_at(s: Seq<char>, i: int) -> Option<(Frame, int)> {
    if 0 <= i < s.len() && s[i] == '{' {
        match int_at(s, i + 1) {
            Some((n, j)) => if j < s.len() && s[j] == '}' {
                Some((Frame(n), j + 1))
            } else {
                None
            },
            None => None,
        }
    } else {
        None
    }
}

/// The event that a text starts with: two frames in braces, and the text up
/// to the end of the line.
pub open spec fn event_of(line: Seq<char>) -> Option<MicroDvdEventView> {
    match frame_at(line, 0) {
        Some((start, a)) => match frame_at(line, a) {
            Some((end, b)) => Some(
                MicroDvdEventView { start, end, text: line.subrange(b, find_char(line, b, '\n')) },
            ),
            None => None,
        },
        None => None,
    }
}

/// The events after one more line: the event of the line is added; a line
/// that holds none is passed over.
pub open spec fn fed(events: Seq<MicroDvdEventView>, line: Seq<char>) -> Seq<MicroDvdEventView> {
    match event_of(line) {
        Some(e) => events.push(e),
        None => events,
    }
}

/// The events after the lines `lines[k..]`.
pub open spec fn fed_all(events: Seq<MicroDvdEventView>, lines: Seq<Seq<char>>, k: int) -> Seq<
    MicroDvdEventView,
>
    decreases lines.len() - k,
{
    if k < 0 || k >= lines.len() {
        events
    } else {
        fed_all(fed(events, lines[k]), lines, k + 1)
    }
}

/// The events that the text of a MicroDVD file holds.
pub open spec fn parsed(text: Seq<char>) -> Seq<MicroDvdEventView> {
    fed_all(Seq::empty(), lines_of(text), 0)
}

/// Reads a frame in braces.
pub fn parse_frame(v: &Vec<char>, i: usize) -> (r: Option<(Frame, usize)>)
    requires
        i <= v.len(),
    ensures
        match r {
            Some((frame, j)) => frame_at(v@, i as int) == Some((frame, j as int)) && i < j
                <= v.len(),
            None => frame_at(v@, i as int) is None,
        },
{
    if i < v.len() && v[i] == '{' {
        match scan_int(v, i + 1) {
            Some((n, j)) => if j < v.len() && v[j] == '}' {
                Some((Frame(n), j + 1))
            } else {
                None
            },
            None => None,
        }
    } else {
        None
    }
}

/// Reads the event that a text starts with.
pub fn parse_microdvd_line(line: &Vec<char>) -> (r: Option<MicroDvdEvent>)
    ensures
        match r {
            Some(e) => event_of(line@) == Some(e@),
            None => event_of(line@) is None,
        },
{
    let (start, a) = match parse_frame(line, 0) {
        Some(x) => x,
        None => {
            return None;
        },
    };
    let (end, b) = match parse_frame(line, a) {
        Some(x) => x,
        None => {
            return None;
        },
    };
    let stop = scan_to_char(line, b, '\n');
    Some(MicroDvdEvent { start, end, text: string_of(&copy_range(line, b, stop)) })
}

/// Reader of a MicroDVD file that takes the file a line at a time.
#[derive(Debug)]
pub struct MicroDvdParser {
    events: Vec<MicroDvdEvent>,
}

impl View for MicroDvdParser {
    type V = Seq<MicroDvdEventView>;

    closed spec fn view(&self) -> Seq<MicroDvdEventView> {
        views(self.events@)
    }
}

impl MicroDvdParser {
    /// A reader that has read nothing yet.
    pub fn new() -> (r: MicroDvdParser)
        ensures
            r@ == Seq::<MicroDvdEventView>::empty(),
    {
        let r = MicroDvdParser { events: Vec::new() };
        assert(r@ =~= Seq::empty());
        r
    }

    /// Reads one more line, given without its line ending.
    pub fn feed_line(&mut self, line: &str)
        ensures
            final(self)@ == fed(old(self)@, line@),
    {
        match parse_microdvd_line(&to_chars(line)) {
            Some(e) => {
                self.events.push(e);
                assert(self@ =~= old(self)@.push(e@));
            },
            None => {},
        }
    }

    /// The subtitle that the lines read so far make.
    pub fn finish(self) -> (r: MicroDvdSubtitle)
        ensures
            r@ == self@,
    {
        MicroDvdSubtitle::from_events(self.events)
    }
}

/// Reads the text of a MicroDVD file.
pub fn parse_microdvd(text: &str) -> (r: MicroDvdSubtitle)
    ensures
        r@ == parsed(text@),
{
    let lines = split_lines(&to_chars(text));
    let mut parser = MicroDvdParser::new();
    let mut k: usize = 0;
    while k < lines.len()
        invariant
            k <= lines.len(),
            rows_view(lines@) == lines_of(text@),
            parsed(text@) == fed_all(parser@, lines_of(text@), k as int),
        decreases lines.len() - k,
    {
        parser.feed_line(string_of(&lines[k]).as_str());
        k += 1;
    }
    parser.finish()
}

impl MicroDvdSubtitle {
    /// Reads the text of a MicroDVD file. No text is refused: a line that
    /// cannot be read is passed over.
    pub fn from_str(s: &str) -> (r: Result<MicroDvdSubtitle, Error>)
        ensures
            r is Ok,
            r->Ok_0@ == parsed(s@),
    {
        Ok(parse_microdvd(s))
    }
}

impl core::str::FromStr for MicroDvdSubtitle {
    type Err = Error;

    fn from_str(s: &str) -> (r: Result<MicroDvdSubtitle, Error>)
        ensures
            r is Ok,
            r->Ok_0@ == parsed(s@),
    {
        Ok(parse_microdvd(s))
    }
}

impl TimedMicroDvdSubtitle {
    /// Reads the text of a MicroDVD file and times its events at 24 frames
    /// per second. No text is refused: a line that cannot be read is passed
    /// over.
    pub fn from_str(s: &str) -> (r: Result<TimedMicroDvdSubtitle, Error>)
        ensures
            r is Ok,
            r->Ok_0@ == timed_from_raw(parsed(s@), default_rate()),
    {
        Ok(TimedMicroDvdSubtitle::from_raw(&parse_microdvd(s), None))
    }
}

impl core::str::FromStr for TimedMicroDvdSubtitle {
    type Err = Error;

    fn from_str(s: &str) -> (r: Result<TimedMicroDvdSubtitle, Error>)
        ensures
            r is Ok,
            r->Ok_0@ == timed_from_raw(parsed(s@), default_rate()),
    {
        Ok(TimedMicroDvdSubtitle::from_raw(&parse_microdvd(s), None))
    }
}

} // verus!
