//! Reading a SubRip file, a line at a time.
//!
//! Lines are gathered until an empty line comes. What was gathered is then
//! read as one or more blocks: an event with its number, timing and text, or
//! text alone, which continues the text of the event before it. Where not
//! even one block can be read, the lines are dropped.

use crate::errors::Error;
use crate::parsing::{
    after_block, block_end, interval_at, lines_of, rows_view, scan_block, scan_interval,
    split_lines,
};
use crate::subrip::data::{SubRipEvent, SubRipEventView, SubRipSubtitle};
use crate::text::{
    copy_range, find_char, has_prefix_at, line_ending_at, push_all, push_str, scan_line_ending,
    scan_multispace, scan_to_char, scan_uint, skip_multispace, starts_with_at, string_of, to_chars,
    uint_at, views,
};
use vstd::prelude::*;

verus! {

/// A block of a SubRip file.
#[derive(Debug)]
pub enum SubRipBlock {
    /// An event with its number, timing and text.
    NewLine(SubRipEvent),
    /// Text that continues the event before it.
    LineContinuation(String),
}

/// A block, as mathematical values.
pub enum SubRipBlockView {
    NewLine(SubRipEventView),
    LineContinuation(Seq<char>),
}

impl View for SubRipBlock {
    type V = SubRipBlockView;

    open spec fn view(&self) -> SubRipBlockView {
        match self {
            SubRipBlock::NewLine(e) => SubRipBlockView::NewLine(e@),
            SubRipBlock::LineContinuation(t) => SubRipBlockView::LineContinuation(t@),
        }
    }
}

/// What stands after the timing on its line, if anything does.
pub open spec fn coordinates_of(rest: Seq<char>) -> Option<Seq<char>> {
    if rest.len() == 0 {
        None
    } else {
        Some(rest)
    }
}

/// An event that starts at `i`, white space before it allowed: a number on
/// a line of its own, the timing `start --> end` with whatever follows it on
/// its line as coordinates, and the text up to the next empty line. With it,
/// the index at which reading resumes.
pub open spec fn new_line_at(s: Seq<char>, i: int) -> Option<(SubRipEventView, int)> {
    match uint_at(s, skip_multispace(s, i)) {
        Some((number, a)) => match line_ending_at(s, a) {
            Some(b) => match interval_at(s, b, ',', false) {
                Some((start, end, c)) => {
                    let d = find_char(s, c, '\n');
                    if c <= d < s.len() {
                        Some(
                            (
                                SubRipEventView {
                                    line_number: number as nat,
                                    text: s.subrange(d + 1, block_end(s, d + 1)),
                                    start,
                                    end,
                                    coordinates: coordinates_of(s.subrange(c, d)),
                                },
                                after_block(s, block_end(s, d + 1)),
                            ),
                        )
                    } else {
                        None
                    }
                },
                None => None,
            },
            None => None,
        },
        None => None,
    }
}

/// The block that starts at `i`: an event, or else text up to the next empty
/// line, which must not be empty itself.
pub open spec fn block_at(s: Seq<char>, i: int) -> Option<(SubRipBlockView, int)> {
    match new_line_at(s, i) {
        Some((e, next)) => Some((SubRipBlockView::NewLine(e), next)),
        None => if i < block_end(s, i) {
            Some(
                (
                    SubRipBlockView::LineContinuation(s.subrange(i, block_end(s, i))),
                    after_block(s, block_end(s, i)),
                ),
            )
        } else {
            None
        },
    }
}

/// The events after one more block: a new event is added at the end; text
/// alone is added to the text of the last event after an empty line, and is
/// dropped where there is no event yet.
pub open spec fn with_block(events: Seq<SubRipEventView>, block: SubRipBlockView) -> Seq<
    SubRipEventView,
> {
    match block {
        SubRipBlockView::NewLine(e) => events.push(e),
        SubRipBlockView::LineContinuation(t) => if events.len() > 0 {
            events.update(
                events.len() - 1,
                SubRipEventView { text: events.last().text + "\n\n"@ + t, ..events.last() },
            )
        } else {
            events
        },
    }
}

/// Reading on after a block that ended at `i`: as long as an empty line and
/// a block follow, the block is taken. The events then, and the index at
/// which reading stopped.
pub open spec fn more_blocks(s: Seq<char>, i: int, events: Seq<SubRipEventView>) -> (
    Seq<SubRipEventView>,
    int,
)
    decreases s.len() - i,
{
    if has_prefix_at(s, i, "\n\n"@) {
        match block_at(s, i + 2) {
            Some((block, next)) => if i < next <= s.len() {
                more_blocks(s, next, with_block(events, block))
            } else {
                (events, i)
            },
            None => (events, i),
        }
    } else {
        (events, i)
    }
}

/// What has been read of a file so far: the lines that wait to be read as
/// blocks, each with a line feed after it, and the events.
pub struct SubRipDraft {
    pub queue: Seq<char>,
    pub events: Seq<SubRipEventView>,
}

/// Nothing read yet.
pub open spec fn start_draft() -> SubRipDraft {
    SubRipDraft { queue: Seq::empty(), events: Seq::empty() }
}

/// The draft after an attempt to read the waiting lines as blocks. Where no
/// block stands at their start, they are dropped. Else the blocks are taken
/// and only what follows them waits on.
pub open spec fn attempted(d: SubRipDraft) -> SubRipDraft {
    match block_at(d.queue, 0) {
        Some((block, next)) => {
            let (events, end) = more_blocks(d.queue, next, with_block(d.events, block));
            SubRipDraft { queue: d.queue.subrange(end, d.queue.len() as int), events }
        },
        None => SubRipDraft { queue: Seq::empty(), ..d },
    }
}

/// The draft after one more line: the line waits with the others, and an
/// empty line has them read.
pub open spec fn fed(d: SubRipDraft, line: Seq<char>) -> SubRipDraft {
    let waiting = SubRipDraft { queue: d.queue + line + "\n"@, ..d };
    if line.len() == 0 {
        attempted(waiting)
    } else {
        waiting
    }
}

/// The draft after the lines `lines[k..]`.
pub open spec fn fed_all(d: SubRipDraft, lines: Seq<Seq<char>>, k: int) -> SubRipDraft
    decreases lines.len() - k,
{
    if k < 0 || k >= lines.len() {
        d
    } else {
        fed_all(fed(d, lines[k]), lines, k + 1)
    }
}

/// The events that a draft makes once the file has been read to its end:
/// the waiting lines are read one last time.
pub open spec fn finished(d: SubRipDraft) -> Seq<SubRipEventView> {
    attempted(d).events
}

/// The events that the text of a SubRip file holds.
pub open spec fn parsed(text: Seq<char>) -> Seq<SubRipEventView> {
    finished(fed_all(start_draft(), lines_of(text), 0))
}

/// Reads an event with its number, timing and text.
pub fn parse_new_line(v: &Vec<char>, i: usize) -> (r: Option<(SubRipEvent, usize)>)
    requires
        i <= v.len(),
    ensures
        match r {
            Some((e, next)) => new_line_at(v@, i as int) == Some((e@, next as int)) && i < next
                <= v.len(),
            None => new_line_at(v@, i as int) is None,
        },
{
    let (number, a) = match scan_uint(v, scan_multispace(v, i)) {
        Some(x) => x,
        None => {
            return None;
        },
    };
    let b = match scan_line_ending(v, a) {
        Some(x) => x,
        None => {
            return None;
        },
    };
    let (start, end, c) = match scan_interval(v, b, ',', false) {
        Some(x) => x,
        None => {
            return None;
        },
    };
    let d = scan_to_char(v, c, '\n');
    if d >= v.len() {
        return None;
    }
    let (text_end, next) = scan_block(v, d + 1);
    let coordinates = if c == d {
        None
    } else {
        Some(string_of(&copy_range(v, c, d)))
    };
    Some(
        (
            SubRipEvent {
                line_number: number as usize,
                text: string_of(&copy_range(v, d + 1, text_end)),
                start,
                end,
                coordinates,
            },
            next,
        ),
    )
}

/// Reads a block: an event, or text that continues one.
pub fn parse_block(v: &Vec<char>, i: usize) -> (r: Option<(SubRipBlock, usize)>)
    requires
        i <= v.len(),
    ensures
        match r {
            Some((block, next)) => block_at(v@, i as int) == Some((block@, next as int)) && i < next
                <= v.len(),
            None => block_at(v@, i as int) is None,
        },
{
    match parse_new_line(v, i) {
        Some((e, next)) => Some((SubRipBlock::NewLine(e), next)),
        None => {
            let (end, next) = scan_block(v, i);
            if i < end {
                Some((SubRipBlock::LineContinuation(string_of(&copy_range(v, i, end))), next))
            } else {
                None
            }
        },
    }
}

impl SubRipEvent {
    /// Adds `more` to the text of the event, after an empty line.
    pub fn continue_text(&mut self, more: &str)
        ensures
            final(self)@ == (SubRipEventView {
                text: old(self)@.text + "\n\n"@ + more@,
                ..old(self)@
            }),
    {
        let mut text = to_chars(self.text.as_str());
        push_str(&mut text, "\n\n");
        push_str(&mut text, more);
        self.text = string_of(&text);
    }
}

/// Takes a block into the list of events.
pub fn take_block(events: &mut Vec<SubRipEvent>, block: SubRipBlock)
    ensures
        views(final(events)@) == with_block(views(old(events)@), block@),
{
    match block {
        SubRipBlock::NewLine(e) => {
            events.push(e);
            assert(views(events@) =~= views(old(events)@).push(e@));
        },
        SubRipBlock::LineContinuation(t) => {
            let n = events.len();
            if n > 0 {
                events[n - 1].continue_text(t.as_str());
                assert(views(events@) =~= with_block(views(old(events)@), block@));
            }
        },
    }
}

/// Reader of a SubRip file that takes the file a line at a time.
#[derive(Debug)]
pub struct SubRipParser {
    queue: Vec<char>,
    events: Vec<SubRipEvent>,
}

impl View for SubRipParser {
    type V = SubRipDraft;

    closed spec fn view(&self) -> SubRipDraft {
        SubRipDraft { queue: self.queue@, events: views(self.events@) }
    }
}

impl SubRipParser {
    /// A reader that has read nothing yet.
    pub fn new() -> (r: SubRipParser)
        ensures
            r@ == start_draft(),
    {
        let r = SubRipParser { queue: Vec::new(), events: Vec::new() };
        assert(r@.events =~= Seq::empty());
        r
    }

    /// Tries to read the waiting lines as blocks.
    fn attempt(&mut self)
        ensures
            final(self)@ == attempted(old(self)@),
    {
        let (first, next) = match parse_block(&self.queue, 0) {
            Some(x) => x,
            None => {
                self.queue = Vec::new();
                return ;
            },
        };
        take_block(&mut self.events, first);
        let gap = to_chars("\n\n");
        let mut at = next;
        loop
            invariant
                at <= self.queue.len(),
                self.queue == old(self).queue,
                gap@ == "\n\n"@,
                more_blocks(
                    self.queue@,
                    next as int,
                    with_block(views(old(self).events@), first@),
                ) == more_blocks(self.queue@, at as int, views(self.events@)),
            ensures
                at <= self.queue.len(),
                self.queue == old(self).queue,
                more_blocks(
                    self.queue@,
                    next as int,
                    with_block(views(old(self).events@), first@),
                ) == (views(self.events@), at as int),
            decreases self.queue.len() - at,
        {
            if !starts_with_at(&self.queue, at, &gap) {
                break ;
            }
            proof {
                reveal_strlit("\n\n");
            }
            match parse_block(&self.queue, at + 2) {
                Some((block, after)) => {
                    take_block(&mut self.events, block);
                    at = after;
                },
                None => {
                    break ;
                },
            }
        }
        self.queue = copy_range(&self.queue, at, self.queue.len());
    }

    /// Reads one more line, given without its line ending.
    pub fn feed_line(&mut self, line: &str)
        ensures
            final(self)@ == fed(old(self)@, line@),
    {
        let chars = to_chars(line);
        push_all(&mut self.queue, &chars);
        push_str(&mut self.queue, "\n");
        if chars.len() == 0 {
            self.attempt();
        }
    }

    /// The subtitle that the lines read so far make.
    pub fn finish(self) -> (r: SubRipSubtitle)
        ensures
            r@ == finished(self@),
    {
        let mut parser = self;
        parser.attempt();
        SubRipSubtitle::from_events(parser.events)
    }
}

/// Reads the text of a SubRip file.
pub fn parse_srt(text: &str) -> (r: SubRipSubtitle)
    ensures
        r@ == parsed(text@),
{
    let lines = split_lines(&to_chars(text));
    let mut parser = SubRipParser::new();
    let mut k: usize = 0;
    while k < lines.len()
        invariant
            k <= lines.len(),
            rows_view(lines@) == lines_of(text@),
            fed_all(start_draft(), lines_of(text@), 0) == fed_all(
                parser@,
                lines_of(text@),
                k as int,
            ),
        decreases lines.len() - k,
    {
        parser.feed_line(string_of(&lines[k]).as_str());
        k += 1;
    }
    parser.finish()
}

impl SubRipSubtitle {
    /// Reads the text of a SubRip file. No text is refused: what cannot be
    /// read is passed over.
    pub fn from_str(s: &str) -> (r: Result<SubRipSubtitle, Error>)
        ensures
            r is Ok,
            r->Ok_0@ == parsed(s@),
    {
        Ok(parse_srt(s))
    }
}

impl core::str::FromStr for SubRipSubtitle {
    type Err = Error;

    fn from_str(s: &str) -> (r: Result<SubRipSubtitle, Error>)
        ensures
            r is Ok,
            r->Ok_0@ == parsed(s@),
    {
        Ok(parse_srt(s))
    }
}

} // verus!
