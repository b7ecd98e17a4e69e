//! Reading a WebVTT file, a line at a time.
//!
//! The first line is the header line. The lines after it are gathered until
//! an empty line comes, and what was gathered is then read as blocks: cues,
//! style blocks, notes and region blocks. A block of any other form is passed
//! over.

use crate::errors::Error;
use crate::parsing::{
    after_block, block_end, double_line_ending_at, interval_at, lines_of, rows_view, scan_block,
    scan_double_line_ending, scan_interval, split_lines,
};
use crate::text::{
    copy_range, find_char, find_seq, has_prefix_at, has_prefix_no_case_at, line_ending_at, push_all,
    push_str, scan_line_ending, scan_multispace, scan_space, scan_to_char, scan_to_seq,
    skip_multispace, skip_space, starts_with_at, starts_with_no_case_at, string_of, to_chars, views,
};
use crate::timing::Moment;
use crate::webvtt::data::{WebVttCue, WebVttCueView, WebVttSubtitle, WebVttSubtitleView};
use vstd::prelude::*;

verus! {

/// A block of a WebVTT file.
#[derive(Debug)]
pub enum WebVttBlock {
    /// A cue.
    Cue(WebVttCue),
    /// A block that starts with the line `STYLE`.
    Style(String),
    /// A block that starts with the line `REGION`.
    Region(String),
    /// A note, or a block of no known form.
    Other,
}

/// A block, as mathematical values.
pub enum WebVttBlockView {
    Cue(WebVttCueView),
    Style(Seq<char>),
    Region(Seq<char>),
    Other,
}

impl View for WebVttBlock {
    type V = WebVttBlockView;

    open spec fn view(&self) -> WebVttBlockView {
        match self {
            WebVttBlock::Cue(e) => WebVttBlockView::Cue(e@),
            WebVttBlock::Style(t) => WebVttBlockView::Style(t@),
            WebVttBlock::Region(t) => WebVttBlockView::Region(t@),
            WebVttBlock::Other => WebVttBlockView::Other,
        }
    }
}

/// A text, or nothing where the text is empty.
pub open spec fn non_empty(t: Seq<char>) -> Option<Seq<char>> {
    if t.len() == 0 {
        None
    } else {
        Some(t)
    }
}

/// Whether a line starts with `WEBVTT`, in any case.
pub open spec fn is_header_line(line: Seq<char>) -> bool {
    has_prefix_no_case_at(line, 0, "WEBVTT"@)
}

/// The header that the first line of a file gives: what follows `WEBVTT`,
/// a hyphen if there is one, and the spaces and tabs around it.
pub open spec fn header_of(line: Seq<char>) -> Option<Seq<char>> {
    if is_header_line(line) {
        let a = skip_space(line, 6);
        let b = if a < line.len() && line[a] == '-' {
            a + 1
        } else {
            a
        };
        non_empty(line.subrange(skip_space(line, b), line.len() as int))
    } else {
        None
    }
}

/// The timing line of a cue at `i`: `start --> end`, and whatever follows on
/// the line as settings. With them, the index of the line after it.
pub open spec fn timing_at(
    s: Seq<char>,
    i: int,
) -> Option<(Moment, Moment, Option<Seq<char>>, int)> {
    match interval_at(s, i, '.', true) {
        Some((start, end, a)) => {
            let b = find_char(s, a, '\n');
            if a <= b < s.len() {
                Some((start, end, non_empty(s.subrange(a, b)), b + 1))
            } else {
                None
            }
        },
        None => None,
    }
}

/// The head of a cue at `i`: an identifier on a line of its own and the
/// timing line, or the timing line alone, spaces and tabs before it
/// allowed.
pub open spec fn cue_head_at(s: Seq<char>, i: int) -> Option<
    (Option<Seq<char>>, Moment, Moment, Option<Seq<char>>, int),
> {
    let a = find_char(s, i, '\n');
    let with_identifier = if 0 <= i <= a < s.len() {
        timing_at(s, a + 1)
    } else {
        None
    };
    match with_identifier {
        Some((start, end, settings, next)) => Some(
            (Some(s.subrange(i, a)), start, end, settings, next),
        ),
        None => match timing_at(s, skip_space(s, i)) {
            Some((start, end, settings, next)) => Some((None, start, end, settings, next)),
            None => None,
        },
    }
}

/// The index at which the text of a block starts whose first line is
/// `word`; a note may also have its text on the line of the word, after
/// spaces or tabs.
pub open spec fn word_block_at(s: Seq<char>, i: int, word: Seq<char>, inline: bool) -> Option<int> {
    if has_prefix_at(s, i, word) {
        let a = i + word.len();
        if inline && skip_space(s, a) > a {
            Some(skip_space(s, a))
        } else {
            line_ending_at(s, a)
        }
    } else {
        None
    }
}

/// The block that starts at `i`, white space before it passed over, and the
/// index at which reading resumes. A cue, style block, note or region block
/// reaches to the next empty line and takes that line with it. Anything else
/// reaches to the next empty line, or to the end where there is none, and
/// leaves that line where it is.
pub open spec fn block_at(s: Seq<char>, i: int) -> (WebVttBlockView, int) {
    let a = skip_multispace(s, i);
    match cue_head_at(s, a) {
        Some((identifier, start, end, settings, b)) => (
            WebVttBlockView::Cue(
                WebVttCueView {
                    identifier,
                    text: s.subrange(b, block_end(s, b)),
                    settings,
                    start,
                    end,
                },
            ),
            after_block(s, block_end(s, b)),
        ),
        None => match word_block_at(s, a, "STYLE"@, false) {
            Some(b) => (
                WebVttBlockView::Style(s.subrange(b, block_end(s, b))),
                after_block(s, block_end(s, b)),
            ),
            None => match word_block_at(s, a, "NOTE"@, true) {
                Some(b) => (WebVttBlockView::Other, after_block(s, block_end(s, b))),
                None => match word_block_at(s, a, "REGION"@, false) {
                    Some(b) => (
                        WebVttBlockView::Region(s.subrange(b, block_end(s, b))),
                        after_block(s, block_end(s, b)),
                    ),
                    None => (WebVttBlockView::Other, find_seq(s, a, "\n\n"@)),
                },
            },
        },
    }
}

/// What has been read of a file so far.
pub struct WebVttDraft {
    /// Whether the first line has been read.
    pub started: bool,
    pub header: Option<Seq<char>>,
    /// The lines that wait to be read as blocks, each with a line feed
    /// after it.
    pub queue: Seq<char>,
    pub cues: Seq<WebVttCueView>,
    pub styles: Seq<Seq<char>>,
    pub regions: Seq<Seq<char>>,
}

/// Nothing read yet.
pub open spec fn start_draft() -> WebVttDraft {
    WebVttDraft {
        started: false,
        header: None,
        queue: Seq::empty(),
        cues: Seq::empty(),
        styles: Seq::empty(),
        regions: Seq::empty(),
    }
}

/// The draft with one more block taken.
pub open spec fn with_block(d: WebVttDraft, block: WebVttBlockView) -> WebVttDraft {
    match block {
        WebVttBlockView::Cue(e) => WebVttDraft { cues: d.cues.push(e), ..d },
        WebVttBlockView::Style(t) => WebVttDraft { styles: d.styles.push(t), ..d },
        WebVttBlockView::Region(t) => WebVttDraft { regions: d.regions.push(t), ..d },
        WebVttBlockView::Other => d,
    }
}

/// Reading on after a block that ended at `i`: as long as an empty line
/// follows, the block after it is taken. The draft then, and the index at
/// which reading stopped.
pub open spec fn more_blocks(s: Seq<char>, i: int, d: WebVttDraft) -> (WebVttDraft, int)
    decreases s.len() - i,
{
    match double_line_ending_at(s, i) {
        Some(j) => {
            let (block, next) = block_at(s, j);
            if i < next <= s.len() {
                more_blocks(s, next, with_block(d, block))
            } else {
                (d, i)
            }
        },
        None => (d, i),
    }
}

/// The draft after the waiting lines have been read as blocks: only what
/// follows the blocks waits on.
pub open spec fn attempted(d: WebVttDraft) -> WebVttDraft {
    let (block, next) = block_at(d.queue, 0);
    if 0 <= next <= d.queue.len() {
        let (after, end) = more_blocks(d.queue, next, with_block(d, block));
        WebVttDraft { queue: d.queue.subrange(end, d.queue.len() as int), ..after }
    } else {
        d
    }
}

/// The draft after one more line. The first line gives the header. Any
/// other line waits with those before it, and an empty line has them read.
pub open spec fn fed(d: WebVttDraft, line: Seq<char>) -> WebVttDraft {
    if !d.started {
        WebVttDraft { started: true, header: header_of(line), ..d }
    } else {
        let waiting = WebVttDraft { queue: d.queue + line + "\n"@, ..d };
        if line.len() == 0 {
            attempted(waiting)
        } else {
            waiting
        }
    }
}

/// The draft after the lines `lines[k..]`.
pub open spec fn fed_all(d: WebVttDraft, lines: Seq<Seq<char>>, k: int) -> WebVttDraft
    decreases lines.len() - k,
{
    if k < 0 || k >= lines.len() {
        d
    } else {
        fed_all(fed(d, lines[k]), lines, k + 1)
    }
}

/// The subtitle that a draft makes once the file has been read to its end:
/// the waiting lines are read one last time.
pub open spec fn finished(d: WebVttDraft) -> WebVttSubtitleView {
    let last = attempted(d);
    WebVttSubtitleView {
        header: last.header,
        cues: last.cues,
        styles: last.styles,
        regions: last.regions,
    }
}

/// The subtitle that the text of a WebVTT file holds.
pub open spec fn parsed(text: Seq<char>) -> WebVttSubtitleView {
    finished(fed_all(start_draft(), lines_of(text), 0))
}

/// A text, or nothing where the text is empty.
fn non_empty_string(v: &Vec<char>, from: usize, to: usize) -> (r: Option<String>)
    requires
        from <= to <= v.len(),
    ensures
        crate::text::opt_text(r) == non_empty(v@.subrange(from as int, to as int)),
{
    if from == to {
        None
    } else {
        Some(string_of(&copy_range(v, from, to)))
    }
}

/// Whether a text starts with `WEBVTT`, in any case.
pub fn parse_header(v: &Vec<char>) -> (r: bool)
    ensures
        r == is_header_line(v@),
{
    starts_with_no_case_at(v, 0, &to_chars("WEBVTT"))
}

/// Reads the header that the first line of a file gives.
pub fn parse_header_line(line: &Vec<char>) -> (r: Option<String>)
    ensures
        crate::text::opt_text(r) == header_of(line@),
{
    proof {
        reveal_strlit("WEBVTT");
    }
    if parse_header(line) {
        let a = scan_space(line, 6);
        let b = if a < line.len() && line[a] == '-' {
            a + 1
        } else {
            a
        };
        non_empty_string(line, scan_space(line, b), line.len())
    } else {
        None
    }
}

/// Reads the timing line of a cue.
fn parse_cue_timing(v: &Vec<char>, i: usize) -> (r: Option<(Moment, Moment, Option<String>, usize)>)
    requires
        i <= v.len(),
    ensures
        match r {
            Some((start, end, settings, next)) => timing_at(v@, i as int) == Some(
                (start, end, crate::text::opt_text(settings), next as int),
            ) && i < next <= v.len(),
            None => timing_at(v@, i as int) is None,
        },
{
    match scan_interval(v, i, '.', true) {
        Some((start, end, a)) => {
            let b = scan_to_char(v, a, '\n');
            if b < v.len() {
                Some((start, end, non_empty_string(v, a, b), b + 1))
            } else {
                None
            }
        },
        None => None,
    }
}

/// Reads the index at which the text of a block starts whose first line is
/// `word`.
fn parse_word_block(v: &Vec<char>, i: usize, word: &str, inline: bool) -> (r: Option<usize>)
    requires
        i <= v.len(),
    ensures
        match r {
            Some(b) => word_block_at(v@, i as int, word@, inline) == Some(b as int) && i <= b
                <= v.len(),
            None => word_block_at(v@, i as int, word@, inline) is None,
        },
{
    let w = to_chars(word);
    if starts_with_at(v, i, &w) {
        let a = i + w.len();
        let spaced = scan_space(v, a);
        if inline && spaced > a {
            Some(spaced)
        } else {
            scan_line_ending(v, a)
        }
    } else {
        None
    }
}

/// Reads a block.
pub fn parse_block(v: &Vec<char>, i: usize) -> (r: (WebVttBlock, usize))
    requires
        i <= v.len(),
    ensures
        block_at(v@, i as int) == (r.0@, r.1 as int),
        i <= r.1 <= v.len(),
{
    let a = scan_multispace(v, i);
    let id_end = scan_to_char(v, a, '\n');
    let with_identifier = if id_end < v.len() {
        parse_cue_timing(v, id_end + 1)
    } else {
        None
    };
    let head = match with_identifier {
        Some((start, end, settings, next)) => Some(
            (Some(string_of(&copy_range(v, a, id_end))), start, end, settings, next),
        ),
        None => match parse_cue_timing(v, scan_space(v, a)) {
            Some((start, end, settings, next)) => Some((None, start, end, settings, next)),
            None => None,
        },
    };
    match head {
        Some((identifier, start, end, settings, b)) => {
            let (text_end, next) = scan_block(v, b);
            return (
                WebVttBlock::Cue(
                    WebVttCue {
                        identifier,
                        text: string_of(&copy_range(v, b, text_end)),
                        settings,
                        start,
                        end,
                    },
                ),
                next,
            );
        },
        None => {},
    }
    match parse_word_block(v, a, "STYLE", false) {
        Some(b) => {
            let (text_end, next) = scan_block(v, b);
            return (WebVttBlock::Style(string_of(&copy_range(v, b, text_end))), next);
        },
        None => {},
    }
    match parse_word_block(v, a, "NOTE", true) {
        Some(b) => {
            let (_, next) = scan_block(v, b);
            return (WebVttBlock::Other, next);
        },
        None => {},
    }
    match parse_word_block(v, a, "REGION", false) {
        Some(b) => {
            let (text_end, next) = scan_block(v, b);
            return (WebVttBlock::Region(string_of(&copy_range(v, b, text_end))), next);
        },
        None => {},
    }
    (WebVttBlock::Other, scan_to_seq(v, a, &to_chars("\n\n")))
}

/// Reader of a WebVTT file that takes the file a line at a time.
#[derive(Debug)]
pub struct WebVttParser {
    started: bool,
    header: Option<String>,
    queue: Vec<char>,
    cues: Vec<WebVttCue>,
    styles: Vec<String>,
    regions: Vec<String>,
}

impl View for WebVttParser {
    type V = WebVttDraft;

    closed spec fn view(&self) -> WebVttDraft {
        WebVttDraft {
            started: self.started,
            header: crate::text::opt_text(self.header),
            queue: self.queue@,
            cues: views(self.cues@),
            styles: views(self.styles@),
            regions: views(self.regions@),
        }
    }
}

impl WebVttParser {
    /// A reader that has read nothing yet.
    pub fn new() -> (r: WebVttParser)
        ensures
            r@ == start_draft(),
    {
        let r = WebVttParser {
            started: false,
            header: None,
            queue: Vec::new(),
            cues: Vec::new(),
            styles: Vec::new(),
            regions: Vec::new(),
        };
        assert(r@.cues =~= Seq::empty());
        assert(r@.styles =~= Seq::empty());
        assert(r@.regions =~= Seq::empty());
        r
    }

    /// Takes a block.
    fn take_block(&mut self, block: WebVttBlock)
        ensures
            final(self)@ == with_block(old(self)@, block@),
    {
        match block {
            WebVttBlock::Cue(e) => {
                self.cues.push(e);
                assert(self@.cues =~= old(self)@.cues.push(e@));
            },
            WebVttBlock::Style(t) => {
                self.styles.push(t);
                assert(self@.styles =~= old(self)@.styles.push(t@));
            },
            WebVttBlock::Region(t) => {
                self.regions.push(t);
                assert(self@.regions =~= old(self)@.regions.push(t@));
            },
            WebVttBlock::Other => {},
        }
    }

    /// Reads the waiting lines as blocks.
    fn attempt(&mut self)
        ensures
            final(self)@ == attempted(old(self)@),
    {
        let (first, next) = parse_block(&self.queue, 0);
        self.take_block(first);
        let ghost begun = self@;
        let mut at = next;
        loop
            invariant
                at <= self.queue.len(),
                self.queue@ == old(self).queue@,
                more_blocks(self.queue@, next as int, begun) == more_blocks(
                    self.queue@,
                    at as int,
                    self@,
                ),
            ensures
                at <= self.queue.len(),
                self.queue@ == old(self).queue@,
                more_blocks(self.queue@, next as int, begun) == (self@, at as int),
            decreases self.queue.len() - at,
        {
            match scan_double_line_ending(&self.queue, at) {
                Some(j) => {
                    let (block, after) = parse_block(&self.queue, j);
                    self.take_block(block);
                    at = after;
                },
                None => {
                    break ;
                },
            }
        }
        self.queue = copy_range(&self.queue, at, self.queue.len());
    }

    /// Reads one more line, given without its line ending.
    pub fn feed_line(&mut self, line: &str)
        ensures
            final(self)@ == fed(old(self)@, line@),
    {
        let chars = to_chars(line);
        if !self.started {
            self.started = true;
            self.header = parse_header_line(&chars);
            return ;
        }
        push_all(&mut self.queue, &chars);
        push_str(&mut self.queue, "\n");
        if chars.len() == 0 {
            self.attempt();
        }
    }

    /// The subtitle that the lines read so far make.
    pub fn finish(self) -> (r: WebVttSubtitle)
        ensures
            r@ == finished(self@),
    {
        let mut parser = self;
        parser.attempt();
        WebVttSubtitle::new(parser.header, parser.cues, parser.styles, parser.regions)
    }
}

/// Reads the text of a WebVTT file.
pub fn parse_vtt(text: &str) -> (r: WebVttSubtitle)
    ensures
        r@ == parsed(text@),
{
    let lines = split_lines(&to_chars(text));
    let mut parser = WebVttParser::new();
    let mut k: usize = 0;
    while k < lines.len()
        invariant
            k <= lines.len(),
            rows_view(lines@) == lines_of(text@),
            fed_all(start_draft(), lines_of(text@), 0) == fed_all(
                parser@,
                lines_of(text@),
                k as int,
            ),
        decreases lines.len() - k,
    {
        parser.feed_line(string_of(&lines[k]).as_str());
        k += 1;
    }
    parser.finish()
}

impl WebVttSubtitle {
    /// Reads the text of a WebVTT file. No text is refused: what cannot be
    /// read is passed over.
    pub fn from_str(s: &str) -> (r: Result<WebVttSubtitle, Error>)
        ensures
            r is Ok,
            r->Ok_0@ == parsed(s@),
    {
        Ok(parse_vtt(s))
    }
}

impl core::str::FromStr for WebVttSubtitle {
    type Err = Error;

    fn from_str(s: &str) -> (r: Result<WebVttSubtitle, Error>)
        ensures
            r is Ok,
            r->Ok_0@ == parsed(s@),
    {
        Ok(parse_vtt(s))
    }
}

} // verus!
