//! The data of a WebVTT file: a header, style and region blocks, and cues.

use crate::markup::converted_or_kept;
use crate::text::{opt_text, push_all, push_str, string_of, to_chars, views};
use crate::timing::{fits_i64, vtt_timestamp, Moment, TimeDelta};
use crate::webvtt::convert::{strip_html_tags_rules, strip_html_tags_scheme};
use vstd::prelude::*;

verus! {

/// WebVTT (.vtt) subtitle data
#[derive(Clone, Debug)]
pub struct WebVttSubtitle {
    /// Header
    header: Option<String>,
    /// List of cues
    cues: Vec<WebVttCue>,
    /// List of styles (strings)
    styles: Vec<String>,
    /// List of regions (strings)
    regions: Vec<String>,
}

/// WebVTT subtitle cue (event)
#[derive(Clone, Debug)]
pub struct WebVttCue {
    /// WebVTT identifier
    pub identifier: Option<String>,
    /// Text content of cue
    pub text: String,
    /// Cue settings
    pub settings: Option<String>,
    /// Start time of cue
    pub start: Moment,
    /// End time of cue
    pub end: Moment,
}

/// A cue, as mathematical values.
pub struct WebVttCueView {
    pub identifier: Option<Seq<char>>,
    pub text: Seq<char>,
    pub settings: Option<Seq<char>>,
    pub start: Moment,
    pub end: Moment,
}

/// A subtitle, as mathematical values.
pub struct WebVttSubtitleView {
    pub header: Option<Seq<char>>,
    pub cues: Seq<WebVttCueView>,
    pub styles: Seq<Seq<char>>,
    pub regions: Seq<Seq<char>>,
}

impl View for WebVttCue {
    type V = WebVttCueView;

    open spec fn view(&self) -> WebVttCueView {
        WebVttCueView {
            identifier: opt_text(self.identifier),
            text: self.text@,
            settings: opt_text(self.settings),
            start: self.start,
            end: self.end,
        }
    }
}

impl View for WebVttSubtitle {
    type V = WebVttSubtitleView;

    open spec fn view(&self) -> WebVttSubtitleView {
        WebVttSubtitleView {
            header: opt_text(self.spec_header()),
            cues: views(self.spec_events()),
            styles: views(self.spec_styles()),
            regions: views(self.spec_regions()),
        }
    }
}

/// The text of a cue without its tags; the text itself where it cannot be
/// scanned to its end.
pub open spec fn unformatted(text: Seq<char>) -> Seq<char> {
    converted_or_kept(text, strip_html_tags_rules())
}

/// A cue with its text unformatted.
pub open spec fn stripped_cue(e: WebVttCueView) -> WebVttCueView {
    WebVttCueView { text: unformatted(e.text), ..e }
}

/// A cue moved in time by `delta` milliseconds.
pub open spec fn shifted_cue(e: WebVttCueView, delta: int) -> WebVttCueView {
    WebVttCueView {
        start: Moment((e.start@ + delta) as i64),
        end: Moment((e.end@ + delta) as i64),
        ..e
    }
}

/// Whether a cue can be moved in time by `delta` milliseconds.
pub open spec fn can_shift(e: WebVttCueView, delta: int) -> bool {
    fits_i64(e.start@ + delta) && fits_i64(e.end@ + delta)
}

/// The identifier of a cue as it is written: on a line of its own, or not at
/// all where the cue has none.
pub open spec fn identifier_text(id: Option<Seq<char>>) -> Seq<char> {
    match id {
        Some(id) => id + "\n"@,
        None => Seq::<char>::empty(),
    }
}

/// The settings of a cue as they are written: after a space, or not at all
/// where the cue has none.
pub open spec fn settings_text(settings: Option<Seq<char>>) -> Seq<char> {
    match settings {
        Some(s) => " "@ + s,
        None => Seq::<char>::empty(),
    }
}

/// A cue as it is written: its identifier, its timing with its settings
/// behind, and its text. No line ending follows the text.
#[verifier::opaque]
pub open spec fn cue_text(e: WebVttCueView) -> Seq<char> {
    identifier_text(e.identifier) + vtt_timestamp(e.start@) + " --> "@ + vtt_timestamp(e.end@)
        + settings_text(e.settings) + "\n"@ + e.text
}

/// The header line as it is written, with its line ending.
pub open spec fn header_text(header: Option<Seq<char>>) -> Seq<char> {
    match header {
        Some(h) => "WEBVTT"@ + " - "@ + h + "\n"@,
        None => "WEBVTT"@ + "\n"@,
    }
}

/// The blocks `blocks[..k]` as they are written: each after an empty line,
/// under the word `word`, and with a line ending after it.
pub open spec fn blocks_text(word: Seq<char>, blocks: Seq<Seq<char>>, k: int) -> Seq<char>
    decreases k,
{
    if k <= 0 {
        Seq::<char>::empty()
    } else {
        blocks_text(word, blocks, k - 1) + "\n"@ + word + "\n"@ + blocks[k - 1] + "\n"@
    }
}

/// The cues `cues[..k]` as they are written: each after an empty line, and
/// with a line ending after it.
pub open spec fn cues_text(cues: Seq<WebVttCueView>, k: int) -> Seq<char>
    decreases k,
{
    if k <= 0 {
        Seq::<char>::empty()
    } else {
        cues_text(cues, k - 1) + "\n"@ + cue_text(cues[k - 1]) + "\n"@
    }
}

/// Whether a subtitle holds neither a style nor a region nor a cue.
pub open spec fn holds_no_block(s: WebVttSubtitleView) -> bool {
    s.styles.len() == 0 && s.regions.len() == 0 && s.cues.len() == 0
}

/// A subtitle as it is written to a file: the header line and an empty
/// line, then the styles, the regions and the cues, with an empty line
/// between each two blocks.
#[verifier::opaque]
pub open spec fn subtitle_text(s: WebVttSubtitleView) -> Seq<char> {
    if holds_no_block(s) {
        header_text(s.header) + "\n"@
    } else {
        header_text(s.header) + blocks_text("STYLE"@, s.styles, s.styles.len() as int)
            + blocks_text("REGION"@, s.regions, s.regions.len() as int) + cues_text(
            s.cues,
            s.cues.len() as int,
        )
    }
}

impl WebVttCue {
    /// The cue as it is written.
    pub fn to_chars(&self) -> (out: Vec<char>)
        ensures
            out@ == cue_text(self@),
    {
        proof {
            reveal(cue_text);
        }
        let mut out = match &self.identifier {
            Some(id) => {
                let mut b = to_chars(id.as_str());
                push_str(&mut b, "\n");
                b
            },
            None => Vec::new(),
        };
        self.start.push_clock(&mut out, 2, '.', self.start.ms(), 3);
        push_str(&mut out, " --> ");
        self.end.push_clock(&mut out, 2, '.', self.end.ms(), 3);
        let settings = match &self.settings {
            Some(s) => {
                let mut b = to_chars(" ");
                push_str(&mut b, s.as_str());
                b
            },
            None => Vec::new(),
        };
        push_all(&mut out, &settings);
        push_str(&mut out, "\n");
        push_str(&mut out, self.text.as_str());
        out
    }

    /// The cue as it is written.
    pub fn to_string(&self) -> (r: String)
        ensures
            r@ == cue_text(self@),
    {
        string_of(&self.to_chars())
    }

    /// Get text content with all formatting tags removed
    pub fn unformatted_text(&self) -> (r: String)
        ensures
            r@ == unformatted(self.text@),
    {
        strip_html_tags_scheme().convert_or_keep(self.text.as_str())
    }

    /// Get the unformatted text. Line feeds are written as such in a WebVTT
    /// file, so nothing more is changed.
    pub fn as_plaintext(&self) -> (r: String)
        ensures
            r@ == unformatted(self.text@),
    {
        self.unformatted_text()
    }

    /// Remove all formatting tags from event text
    pub fn strip_formatting(&mut self)
        ensures
            final(self)@ == stripped_cue(old(self)@),
    {
        self.text = self.unformatted_text();
    }

    /// Shift subtitle event by given amount of time in milliseconds.
    ///
    /// Positive numbers will result in the subtitle event appearing later,
    /// while negative numbers will make the event appear earlier.
    pub fn shift(&mut self, delta: TimeDelta)
        requires
            can_shift(old(self)@, delta@),
        ensures
            final(self)@ == shifted_cue(old(self)@, delta@),
    {
        self.start = Moment(self.start.0 + delta.0);
        self.end = Moment(self.end.0 + delta.0);
    }

    /// Get duration of event in milliseconds, as a `TimeDelta`
    pub fn duration(&self) -> (r: TimeDelta)
        requires
            fits_i64(self.end@ - self.start@),
        ensures
            r@ == self.end@ - self.start@,
    {
        TimeDelta(self.end.0 - self.start.0)
    }

    /// Text associated with event
    pub fn text(&self) -> (r: String)
        ensures
            r@ == self.text@,
    {
        self.text.clone()
    }

    /// Modify text associated with event
    pub fn set_text(&mut self, text: String)
        ensures
            final(self)@ == (WebVttCueView { text: text@, ..old(self)@ }),
    {
        self.text = text;
    }

    /// Start time of event
    pub fn start(&self) -> (r: Moment)
        ensures
            r == self.start,
    {
        self.start
    }

    /// End time of event
    pub fn end(&self) -> (r: Moment)
        ensures
            r == self.end,
    {
        self.end
    }

    /// Modify start time of event
    pub fn set_start(&mut self, moment: Moment)
        ensures
            final(self)@ == (WebVttCueView { start: moment, ..old(self)@ }),
    {
        self.start = moment;
    }

    /// Modify end time of event
    pub fn set_end(&mut self, moment: Moment)
        ensures
            final(self)@ == (WebVttCueView { end: moment, ..old(self)@ }),
    {
        self.end = moment;
    }
}

/// Blocks as they are written under the word `word`, each after an empty
/// line.
fn blocks_chars(word: &str, blocks: &Vec<String>) -> (out: Vec<char>)
    ensures
        out@ == blocks_text(word@, views(blocks@), blocks@.len() as int),
{
    let mut out: Vec<char> = Vec::new();
    let mut k: usize = 0;
    assert(out@ =~= blocks_text(word@, views(blocks@), 0));
    while k < blocks.len()
        invariant
            k <= blocks.len(),
            out@ == blocks_text(word@, views(blocks@), k as int),
        decreases blocks.len() - k,
    {
        push_str(&mut out, "\n");
        push_str(&mut out, word);
        push_str(&mut out, "\n");
        push_str(&mut out, blocks[k].as_str());
        push_str(&mut out, "\n");
        k += 1;
    }
    out
}

impl WebVttSubtitle {
    /// The header.
    pub closed spec fn spec_header(&self) -> Option<String> {
        self.header
    }

    /// The cues.
    pub closed spec fn spec_events(&self) -> Seq<WebVttCue> {
        self.cues@
    }

    /// The style blocks.
    pub closed spec fn spec_styles(&self) -> Seq<String> {
        self.styles@
    }

    /// The region blocks.
    pub closed spec fn spec_regions(&self) -> Seq<String> {
        self.regions@
    }

    /// Whether all but the part that `part` names is the same in `self` and
    /// `other`. The parts are numbered in the order of the fields: header 0,
    /// cues 1, styles 2, regions 3.
    pub open spec fn same_but(&self, other: &WebVttSubtitle, part: int) -> bool {
        &&& part == 0 || self.spec_header() == other.spec_header()
        &&& part == 1 || self.spec_events() == other.spec_events()
        &&& part == 2 || self.spec_styles() == other.spec_styles()
        &&& part == 3 || self.spec_regions() == other.spec_regions()
    }

    /// A subtitle made of the given parts.
    pub fn new(
        header: Option<String>,
        cues: Vec<WebVttCue>,
        styles: Vec<String>,
        regions: Vec<String>,
    ) -> (r: WebVttSubtitle)
        ensures
            r.spec_header() == header,
            r.spec_events() == cues@,
            r.spec_styles() == styles@,
            r.spec_regions() == regions@,
    {
        WebVttSubtitle { header, cues, styles, regions }
    }

    /// A subtitle that holds the given header and cues and nothing else.
    pub fn from_cues(header: Option<String>, cues: Vec<WebVttCue>) -> (r: WebVttSubtitle)
        ensures
            r@ == (WebVttSubtitleView {
                header: opt_text(header),
                cues: views(cues@),
                styles: Seq::empty(),
                regions: Seq::empty(),
            }),
    {
        let r = WebVttSubtitle::new(header, cues, Vec::new(), Vec::new());
        assert(r@.styles =~= Seq::empty());
        assert(r@.regions =~= Seq::empty());
        r
    }

    /// Get header
    pub fn header(&self) -> (r: Option<&String>)
        ensures
            r == match self.spec_header() {
                Some(h) => Some(&h),
                None => None::<&String>,
            },
    {
        self.header.as_ref()
    }

    /// Change header to specified option
    pub fn set_header(&mut self, header: Option<String>)
        ensures
            final(self).spec_header() == header,
            final(self).same_but(old(self), 0),
    {
        self.header = header;
    }

    /// Get list of styles as a slice
    pub fn styles(&self) -> (r: &[String])
        ensures
            r@ == self.spec_styles(),
    {
        self.styles.as_slice()
    }

    /// Get list of styles as a mutable slice
    pub fn styles_mut(&mut self) -> (r: &mut [String])
        ensures
            r@ == old(self).spec_styles(),
            final(self).spec_styles() == final(r)@,
            final(self).same_but(old(self), 2),
    {
        self.styles.as_mut_slice()
    }

    /// Get style at index
    pub fn style(&self, index: usize) -> (r: Option<&String>)
        ensures
            r == if index < self.spec_styles().len() {
                Some(&self.spec_styles()[index as int])
            } else {
                None::<&String>
            },
    {
        if index < self.styles.len() {
            Some(&self.styles[index])
        } else {
            None
        }
    }

    /// Get mutable style at index
    pub fn style_mut(&mut self, index: usize) -> (r: Option<&mut String>)
        ensures
            final(self).same_but(old(self), 2),
            match r {
                Some(e) => index < old(self).spec_styles().len() && *e == old(
                    self,
                ).spec_styles()[index as int] && final(self).spec_styles() == old(
                    self,
                ).spec_styles().update(index as int, *final(e)),
                None => index >= old(self).spec_styles().len() && final(self).spec_styles() == old(
                    self,
                ).spec_styles(),
            },
    {
        if index < self.styles.len() {
            Some(&mut self.styles[index])
        } else {
            None
        }
    }

    /// Get list of regions as a slice
    pub fn regions(&self) -> (r: &[String])
        ensures
            r@ == self.spec_regions(),
    {
        self.regions.as_slice()
    }

    /// Get list of regions as a mutable slice
    pub fn regions_mut(&mut self) -> (r: &mut [String])
        ensures
            r@ == old(self).spec_regions(),
            final(self).spec_regions() == final(r)@,
            final(self).same_but(old(self), 3),
    {
        self.regions.as_mut_slice()
    }

    /// Get region at index
    pub fn region(&self, index: usize) -> (r: Option<&String>)
        ensures
            r == if index < self.spec_regions().len() {
                Some(&self.spec_regions()[index as int])
            } else {
                None::<&String>
            },
    {
        if index < self.regions.len() {
            Some(&self.regions[index])
        } else {
            None
        }
    }

    /// Get mutable region at index
    pub fn region_mut(&mut self, index: usize) -> (r: Option<&mut String>)
        ensures
            final(self).same_but(old(self), 3),
            match r {
                Some(e) => index < old(self).spec_regions().len() && *e == old(
                    self,
                ).spec_regions()[index as int] && final(self).spec_regions() == old(
                    self,
                ).spec_regions().update(index as int, *final(e)),
                None => index >= old(self).spec_regions().len() && final(self).spec_regions()
                    == old(self).spec_regions(),
            },
    {
        if index < self.regions.len() {
            Some(&mut self.regions[index])
        } else {
            None
        }
    }

    /// Get list of events as a slice
    pub fn events(&self) -> (r: &[WebVttCue])
        ensures
            r@ == self.spec_events(),
    {
        self.cues.as_slice()
    }

    /// Get list of events as a mutable slice
    pub fn events_mut(&mut self) -> (r: &mut [WebVttCue])
        ensures
            r@ == old(self).spec_events(),
            final(self).spec_events() == final(r)@,
            final(self).same_but(old(self), 1),
    {
        self.cues.as_mut_slice()
    }

    /// Try to get event at given index
    pub fn event(&self, index: usize) -> (r: Option<&WebVttCue>)
        ensures
            r == if index < self.spec_events().len() {
                Some(&self.spec_events()[index as int])
            } else {
                None::<&WebVttCue>
            },
    {
        if index < self.cues.len() {
            Some(&self.cues[index])
        } else {
            None
        }
    }

    /// Try to get mutable event at given index
    pub fn event_mut(&mut self, index: usize) -> (r: Option<&mut WebVttCue>)
        ensures
            final(self).same_but(old(self), 1),
            match r {
                Some(e) => index < old(self).spec_events().len() && *e == old(
                    self,
                ).spec_events()[index as int] && final(self).spec_events() == old(
                    self,
                ).spec_events().update(index as int, *final(e)),
                None => index >= old(self).spec_events().len() && final(self).spec_events() == old(
                    self,
                ).spec_events(),
            },
    {
        if index < self.cues.len() {
            Some(&mut self.cues[index])
        } else {
            None
        }
    }

    /// Remove all styling/formatting information from the text
    pub fn strip_formatting(&mut self)
        ensures
            final(self)@ == (WebVttSubtitleView {
                cues: old(self)@.cues.map_values(|e: WebVttCueView| stripped_cue(e)),
                ..old(self)@
            }),
    {
        let mut k: usize = 0;
        while k < self.cues.len()
            invariant
                k <= self.cues.len(),
                self.cues.len() == old(self).cues.len(),
                self.same_but(old(self), 1),
                forall|j: int|
                    0 <= j < k ==> (#[trigger] self.cues@[j])@ == stripped_cue(old(self).cues@[j]@),
                forall|j: int|
                    k <= j < self.cues.len() ==> #[trigger] self.cues@[j] == old(self).cues@[j],
            decreases self.cues.len() - k,
        {
            self.cues[k].strip_formatting();
            k += 1;
        }
        assert(self@.cues =~= old(self)@.cues.map_values(|e: WebVttCueView| stripped_cue(e)));
    }

    /// Whether every cue can be moved in time by `delta` milliseconds.
    pub open spec fn can_shift(&self, delta: int) -> bool {
        forall|j: int| 0 <= j < self@.cues.len() ==> can_shift(#[trigger] self@.cues[j], delta)
    }

    /// Shift all events in subtitle by given amount of time, in milliseconds.
    pub fn shift(&mut self, delta: TimeDelta)
        requires
            old(self).can_shift(delta@),
        ensures
            final(self)@ == (WebVttSubtitleView {
                cues: old(self)@.cues.map_values(|e: WebVttCueView| shifted_cue(e, delta@)),
                ..old(self)@
            }),
    {
        let mut k: usize = 0;
        while k < self.cues.len()
            invariant
                k <= self.cues.len(),
                self.cues.len() == old(self).cues.len(),
                self.same_but(old(self), 1),
                old(self).can_shift(delta@),
                forall|j: int|
                    0 <= j < k ==> (#[trigger] self.cues@[j])@ == shifted_cue(
                        old(self).cues@[j]@,
                        delta@,
                    ),
                forall|j: int|
                    k <= j < self.cues.len() ==> #[trigger] self.cues@[j] == old(self).cues@[j],
            decreases self.cues.len() - k,
        {
            assert(can_shift(old(self)@.cues[k as int], delta@));
            self.cues[k].shift(delta);
            k += 1;
        }
        assert(
            self@.cues =~= old(self)@.cues.map_values(|e: WebVttCueView| shifted_cue(e, delta@))
        );
    }

    /// The cues as they are written, each after an empty line.
    fn cues_chars(&self) -> (out: Vec<char>)
        ensures
            out@ == cues_text(self@.cues, self@.cues.len() as int),
    {
        let mut out: Vec<char> = Vec::new();
        let mut k: usize = 0;
        assert(out@ =~= cues_text(self@.cues, 0));
        while k < self.cues.len()
            invariant
                k <= self.cues.len(),
                out@ == cues_text(self@.cues, k as int),
            decreases self.cues.len() - k,
        {
            push_str(&mut out, "\n");
            push_all(&mut out, &self.cues[k].to_chars());
            push_str(&mut out, "\n");
            k += 1;
        }
        out
    }

    /// The subtitle as it is written to a file.
    pub fn to_string(&self) -> (r: String)
        ensures
            r@ == subtitle_text(self@),
    {
        proof {
            reveal(subtitle_text);
        }
        let mut out = to_chars("WEBVTT");
        match &self.header {
            Some(h) => {
                push_str(&mut out, " - ");
                push_str(&mut out, h.as_str());
            },
            None => {},
        }
        push_str(&mut out, "\n");
        if self.styles.len() == 0 && self.regions.len() == 0 && self.cues.len() == 0 {
            push_str(&mut out, "\n");
        } else {
            push_all(&mut out, &blocks_chars("STYLE", &self.styles));
            push_all(&mut out, &blocks_chars("REGION", &self.regions));
            push_all(&mut out, &self.cues_chars());
        }
        string_of(&out)
    }
}

impl Default for WebVttSubtitle {
    fn default() -> (r: WebVttSubtitle)
        ensures
            r@ == (WebVttSubtitleView {
                header: None,
                cues: Seq::empty(),
                styles: Seq::empty(),
                regions: Seq::empty(),
            }),
    {
        let r = WebVttSubtitle::from_cues(None, Vec::new());
        assert(r@.cues =~= Seq::empty());
        r
    }
}

} // verus!
