//! The data of an `.ssa` file: a subtitle, its events, its script info and
//! its styles, and how each is written.

use crate::markup::converted_or_kept;
use crate::substation::common::data::{
    blob_text, concat_lines, event_tail, event_tail_chars, flag_text, info_line, kind_name,
    lemma_concat_lines_step, push_comma_flag, push_comma_int, push_comma_str, push_info_line,
    push_row, BlobView, SubStationEventKind, SubStationFont, SubStationGraphic,
};
use crate::substation::ssa::convert::{strip_formatting_tags_rules, strip_formatting_tags_scheme};
use crate::text::{
    int_text, opt_text, push_all, push_int, push_str, replace, replaced, string_of, to_chars, views,
};
use crate::timing::{fits_i64, Moment, TimeDelta};
use vstd::prelude::*;

verus! {

/// SubStation Alpha v4 (.ssa) subtitle
#[derive(Debug)]
pub struct SsaSubtitle {
    /// Script info
    script_info: SsaScriptInfo,
    /// Dialogue events
    dialogue: Vec<SsaEvent>,
    /// Picture events
    pictures: Vec<SsaEvent>,
    /// Sound events
    sounds: Vec<SsaEvent>,
    /// Movie events
    movies: Vec<SsaEvent>,
    /// Command events
    commands: Vec<SsaEvent>,
    /// Styles
    styles: Vec<SsaStyle>,
    /// Embedded font data
    fonts: Vec<SubStationFont>,
    /// Embedded graphics data
    graphics: Vec<SubStationGraphic>,
}

/// Event in an `.ssa` file
#[derive(Debug)]
pub struct SsaEvent {
    /// Kind of event, for example dialogue
    pub kind: SubStationEventKind,
    /// Whether event is shown as marked or not
    pub marked: bool,
    /// Start time of event
    pub start: Moment,
    /// End time of event
    pub end: Moment,
    /// Style name for event
    pub style: Option<String>,
    /// Name of speaker, if relevant
    pub name: Option<String>,
    /// Left margin
    pub margin_l: i64,
    /// Right margin
    pub margin_r: i64,
    /// Vertical margin
    pub margin_v: i64,
    /// Effect
    pub effect: Option<String>,
    /// Associated text. For dialogue events, this is the text that is shown on screen.
    /// For other events, this is the path to a media file or a command to run.
    pub text: String,
}

/// Information for the `[Script Info]` section of an `.ssa` subtitle.
///
/// It should always be the first thing shown in an `.ssa` format subtitle.
#[derive(Debug)]
pub struct SsaScriptInfo {
    /// Title/description for the subtitle
    pub title: Option<String>,
    /// Original author of subtitle
    pub original_script: Option<String>,
    /// Original translator of subtitle
    pub original_translation: Option<String>,
    /// Original editor of subtitle
    pub original_editing: Option<String>,
    /// Describes who originally timed the subtitle
    pub original_timing: Option<String>,
    /// Where subtitle should start from
    pub synch_point: Option<String>,
    /// Describes who updated the subtitle apart from its first creators
    pub script_updated_by: Option<String>,
    /// Used to describe the details of what was updated, if the subtitle was updated
    pub update_details: Option<String>,
    /// Version of SubStation Alpha subtitle
    pub script_type: Option<String>,
    /// Rules for resolving collision issues between on-screen content
    pub collisions: Option<String>,
    /// Height of screen
    pub play_res_y: Option<String>,
    /// Width of screen
    pub play_res_x: Option<String>,
    /// Colour depth
    pub play_depth: Option<String>,
    /// Time scale, with 100 standing for the speed as it was timed
    pub timer: Option<String>,
}

/// Style in an `.ssa` file
#[derive(Debug)]
pub struct SsaStyle {
    /// Name of style
    pub name: String,
    /// Name of font used to display text
    pub fontname: String,
    /// Font size of text
    pub fontsize: i64,
    /// Colour that text will be rendered as
    pub primary_colour: String,
    /// Colour that text will be rendered as in the case it is moved due to a collision
    pub secondary_colour: String,
    /// Colour that text will be rendered as in the case it is moved due to a collision with text
    /// that appears in the secondary colour
    pub tertiary_colour: String,
    /// Colour of text shadow or text outline
    pub back_colour: String,
    /// Whether text is bolded
    pub bold: bool,
    /// Whether text is italicised
    pub italic: bool,
    /// Style of text border
    pub border_style: i64,
    /// Width of text outline
    pub outline: i64,
    /// Depth of text shadow
    pub shadow: i64,
    /// Alignment of text on screen
    pub alignment: i64,
    /// Left margin in pixels
    pub margin_l: i64,
    /// Right margin in pixels
    pub margin_r: i64,
    /// Vertical margin in pixels
    pub margin_v: i64,
    /// Transparency of text
    pub alpha_level: i64,
    /// Encoding of text represented as a number
    pub encoding: i64,
}

/// An event, as mathematical values.
pub struct SsaEventView {
    pub kind: SubStationEventKind,
    pub marked: bool,
    pub start: Moment,
    pub end: Moment,
    pub style: Option<Seq<char>>,
    pub name: Option<Seq<char>>,
    pub margin_l: i64,
    pub margin_r: i64,
    pub margin_v: i64,
    pub effect: Option<Seq<char>>,
    pub text: Seq<char>,
}

/// The script info, as mathematical values.
pub struct SsaScriptInfoView {
    pub title: Option<Seq<char>>,
    pub original_script: Option<Seq<char>>,
    pub original_translation: Option<Seq<char>>,
    pub original_editing: Option<Seq<char>>,
    pub original_timing: Option<Seq<char>>,
    pub synch_point: Option<Seq<char>>,
    pub script_updated_by: Option<Seq<char>>,
    pub update_details: Option<Seq<char>>,
    pub script_type: Option<Seq<char>>,
    pub collisions: Option<Seq<char>>,
    pub play_res_y: Option<Seq<char>>,
    pub play_res_x: Option<Seq<char>>,
    pub play_depth: Option<Seq<char>>,
    pub timer: Option<Seq<char>>,
}

/// A style, as mathematical values.
pub struct SsaStyleView {
    pub name: Seq<char>,
    pub fontname: Seq<char>,
    pub fontsize: i64,
    pub primary_colour: Seq<char>,
    pub secondary_colour: Seq<char>,
    pub tertiary_colour: Seq<char>,
    pub back_colour: Seq<char>,
    pub bold: bool,
    pub italic: bool,
    pub border_style: i64,
    pub outline: i64,
    pub shadow: i64,
    pub alignment: i64,
    pub margin_l: i64,
    pub margin_r: i64,
    pub margin_v: i64,
    pub alpha_level: i64,
    pub encoding: i64,
}

/// A subtitle, as mathematical values.
pub struct SsaSubtitleView {
    pub script_info: SsaScriptInfoView,
    pub dialogue: Seq<SsaEventView>,
    pub pictures: Seq<SsaEventView>,
    pub sounds: Seq<SsaEventView>,
    pub movies: Seq<SsaEventView>,
    pub commands: Seq<SsaEventView>,
    pub styles: Seq<SsaStyleView>,
    pub fonts: Seq<BlobView>,
    pub graphics: Seq<BlobView>,
}

impl View for SsaEvent {
    type V = SsaEventView;

    open spec fn view(&self) -> SsaEventView {
        SsaEventView {
            kind: self.kind,
            marked: self.marked,
            start: self.start,
            end: self.end,
            style: opt_text(self.style),
            name: opt_text(self.name),
            margin_l: self.margin_l,
            margin_r: self.margin_r,
            margin_v: self.margin_v,
            effect: opt_text(self.effect),
            text: self.text@,
        }
    }
}

impl View for SsaScriptInfo {
    type V = SsaScriptInfoView;

    open spec fn view(&self) -> SsaScriptInfoView {
        SsaScriptInfoView {
            title: opt_text(self.title),
            original_script: opt_text(self.original_script),
            original_translation: opt_text(self.original_translation),
            original_editing: opt_text(self.original_editing),
            original_timing: opt_text(self.original_timing),
            synch_point: opt_text(self.synch_point),
            script_updated_by: opt_text(self.script_updated_by),
            update_details: opt_text(self.update_details),
            script_type: opt_text(self.script_type),
            collisions: opt_text(self.collisions),
            play_res_y: opt_text(self.play_res_y),
            play_res_x: opt_text(self.play_res_x),
            play_depth: opt_text(self.play_depth),
            timer: opt_text(self.timer),
        }
    }
}

impl View for SsaStyle {
    type V = SsaStyleView;

    open spec fn view(&self) -> SsaStyleView {
        SsaStyleView {
            name: self.name@,
            fontname: self.fontname@,
            fontsize: self.fontsize,
            primary_colour: self.primary_colour@,
            secondary_colour: self.secondary_colour@,
            tertiary_colour: self.tertiary_colour@,
            back_colour: self.back_colour@,
            bold: self.bold,
            italic: self.italic,
            border_style: self.border_style,
            outline: self.outline,
            shadow: self.shadow,
            alignment: self.alignment,
            margin_l: self.margin_l,
            margin_r: self.margin_r,
            margin_v: self.margin_v,
            alpha_level: self.alpha_level,
            encoding: self.encoding,
        }
    }
}

impl View for SsaSubtitle {
    type V = SsaSubtitleView;

    open spec fn view(&self) -> SsaSubtitleView {
        SsaSubtitleView {
            script_info: self.spec_script_info()@,
            dialogue: views(self.spec_events()),
            pictures: views(self.spec_pictures()),
            sounds: views(self.spec_sounds()),
            movies: views(self.spec_movies()),
            commands: views(self.spec_commands()),
            styles: views(self.spec_styles()),
            fonts: views(self.spec_fonts()),
            graphics: views(self.spec_graphics()),
        }
    }
}

/// The text of an event without its drawing spans and override blocks; the
/// text itself where it cannot be scanned to its end.
pub open spec fn unformatted(text: Seq<char>) -> Seq<char> {
    converted_or_kept(text, strip_formatting_tags_rules())
}

/// The unformatted text with each `\N` turned into a line feed.
pub open spec fn plaintext(text: Seq<char>) -> Seq<char> {
    replaced(unformatted(text), "\\N"@, "\n"@)
}

/// An event with its text unformatted.
pub open spec fn stripped_event(e: SsaEventView) -> SsaEventView {
    SsaEventView { text: unformatted(e.text), ..e }
}

/// An event moved in time by `delta` milliseconds.
pub open spec fn shifted_event(e: SsaEventView, delta: int) -> SsaEventView {
    SsaEventView {
        start: Moment((e.start@ + delta) as i64),
        end: Moment((e.end@ + delta) as i64),
        ..e
    }
}

/// Whether an event can be moved in time by `delta` milliseconds.
pub open spec fn can_shift(e: SsaEventView, delta: int) -> bool {
    fits_i64(e.start@ + delta) && fits_i64(e.end@ + delta)
}

/// A line of the events section as it is written.
#[verifier::opaque]
pub open spec fn event_text(e: SsaEventView) -> Seq<char> {
    kind_name(e.kind) + ": Marked="@ + int_text(if e.marked { 1int } else { 0int }, 0) + event_tail(
        e.start,
        e.end,
        e.style,
        e.name,
        e.margin_l,
        e.margin_r,
        e.margin_v,
        e.effect,
        e.text,
    )
}

/// The script info section as it is written: the heading, and each entry
/// that is present on a line of its own.
#[verifier::opaque]
pub open spec fn script_info_text(info: SsaScriptInfoView) -> Seq<char> {
    "[Script Info]"@
        + info_line("Title"@, info.title)
        + info_line("Original Script"@, info.original_script)
        + info_line("Original Translation"@, info.original_translation)
        + info_line("Original Editing"@, info.original_editing)
        + info_line("Original Timing"@, info.original_timing)
        + info_line("Synch Point"@, info.synch_point)
        + info_line("Script Updated By"@, info.script_updated_by)
        + info_line("Update Details"@, info.update_details)
        + info_line("ScriptType"@, info.script_type)
        + info_line("Collisions"@, info.collisions)
        + info_line("PlayResY"@, info.play_res_y)
        + info_line("PlayResX"@, info.play_res_x)
        + info_line("PlayDepth"@, info.play_depth)
        + info_line("Timer"@, info.timer)
}

/// A line of the styles section as it is written.
#[verifier::opaque]
pub open spec fn style_text(s: SsaStyleView) -> Seq<char> {
    "Style: "@
        + s.name
        + ","@
        + s.fontname
        + ","@
        + int_text(s.fontsize as int, 0)
        + ","@
        + s.primary_colour
        + ","@
        + s.secondary_colour
        + ","@
        + s.tertiary_colour
        + ","@
        + s.back_colour
        + ","@
        + flag_text(s.bold)
        + ","@
        + flag_text(s.italic)
        + ","@
        + int_text(s.border_style as int, 0)
        + ","@
        + int_text(s.outline as int, 0)
        + ","@
        + int_text(s.shadow as int, 0)
        + ","@
        + int_text(s.alignment as int, 0)
        + ","@
        + int_text(s.margin_l as int, 0)
        + ","@
        + int_text(s.margin_r as int, 0)
        + ","@
        + int_text(s.margin_v as int, 0)
        + ","@
        + int_text(s.alpha_level as int, 0)
        + ","@
        + int_text(s.encoding as int, 0)
}

/// The lines of the events `events`.
pub open spec fn event_rows(events: Seq<SsaEventView>) -> Seq<Seq<char>> {
    Seq::new(events.len(), |k: int| event_text(events[k]))
}

/// The lines of the styles `styles`.
pub open spec fn style_rows(styles: Seq<SsaStyleView>) -> Seq<Seq<char>> {
    Seq::new(styles.len(), |k: int| style_text(styles[k]))
}

/// The embedded blocks `blobs` as they are written, each with `marker`.
pub open spec fn blob_rows(marker: Seq<char>, blobs: Seq<BlobView>) -> Seq<Seq<char>> {
    Seq::new(blobs.len(), |k: int| blob_text(marker, blobs[k]))
}

/// The styles section as it is written: nothing where there is no style.
pub open spec fn styles_block(styles: Seq<SsaStyleView>) -> Seq<char> {
    if styles.len() == 0 {
        Seq::<char>::empty()
    } else {
        "[V4 Styles]\n"@
            + "Format: Name, Fontname, Fontsize, PrimaryColour, SecondaryColour, TertiaryColour, BackColour, Bold, Italic, BorderStyle, Outline, Shadow, Alignment, MarginL, MarginR, MarginV, AlphaLevel, Encoding\n"@
            + concat_lines(style_rows(styles))
            + "\n"@
    }
}

/// Embedded blocks as they are written, after an empty line: nothing where
/// there is no block.
pub open spec fn blobs_block(marker: Seq<char>, blobs: Seq<BlobView>) -> Seq<char> {
    if blobs.len() == 0 {
        Seq::<char>::empty()
    } else {
        "\n"@ + concat_lines(blob_rows(marker, blobs))
    }
}

/// The events section as it is written: the dialogue, then the pictures,
/// sounds, movies and commands. Nothing where there is no dialogue.
pub open spec fn events_block(s: SsaSubtitleView) -> Seq<char> {
    if s.dialogue.len() == 0 {
        Seq::<char>::empty()
    } else {
        "[Events]\n"@
            + "Format: Marked, Start, End, Style, Name, MarginL, MarginR, MarginV, Effect, Text\n"@
            + concat_lines(event_rows(s.dialogue))
            + concat_lines(
            event_rows(s.pictures),
        ) + concat_lines(event_rows(s.sounds)) + concat_lines(event_rows(s.movies)) + concat_lines(
            event_rows(s.commands),
        )
    }
}

/// A subtitle as it is written to a file.
#[verifier::opaque]
pub open spec fn subtitle_text(s: SsaSubtitleView) -> Seq<char> {
    script_info_text(s.script_info) + "\n"@ + "\n"@ + styles_block(s.styles) + blobs_block(
        "fontname:"@,
        s.fonts,
    ) + blobs_block("filename:"@, s.graphics) + events_block(s)
}

/// The script info of a subtitle that was not read from a file: only the
/// script type is set.
pub open spec fn default_script_info() -> SsaScriptInfoView {
    SsaScriptInfoView {
        title: None,
        original_script: None,
        original_translation: None,
        original_editing: None,
        original_timing: None,
        synch_point: None,
        script_updated_by: None,
        update_details: None,
        script_type: Some("v4.00"@),
        collisions: None,
        play_res_y: None,
        play_res_x: None,
        play_depth: None,
        timer: None,
    }
}

/// A subtitle that holds the dialogue events `dialogue` and nothing else but
/// the script info `script_info`.
pub open spec fn dialogue_only(
    script_info: SsaScriptInfoView,
    dialogue: Seq<SsaEventView>,
) -> SsaSubtitleView {
    SsaSubtitleView {
        script_info,
        dialogue,
        pictures: Seq::empty(),
        sounds: Seq::empty(),
        movies: Seq::empty(),
        commands: Seq::empty(),
        styles: Seq::empty(),
        fonts: Seq::empty(),
        graphics: Seq::empty(),
    }
}

/// A dialogue event with the given times and text, in layer zero and with
/// nothing else set.
pub open spec fn plain_dialogue(start: Moment, end: Moment, text: Seq<char>) -> SsaEventView {
    SsaEventView {
        kind: SubStationEventKind::Dialogue,
        marked: false,
        start,
        end,
        style: None,
        name: None,
        margin_l: 0,
        margin_r: 0,
        margin_v: 0,
        effect: None,
        text,
    }
}

impl SsaEvent {
    /// A dialogue event with the given times and text and nothing else set.
    pub fn dialogue(start: Moment, end: Moment, text: String) -> (r: SsaEvent)
        ensures
            r@ == plain_dialogue(start, end, text@),
    {
        SsaEvent {
            kind: SubStationEventKind::Dialogue,
            marked: false,
            start,
            end,
            style: None,
            name: None,
            margin_l: 0,
            margin_r: 0,
            margin_v: 0,
            effect: None,
            text,
        }
    }

    /// The event as a line of the events section.
    pub fn to_chars(&self) -> (out: Vec<char>)
        ensures
            out@ == event_text(self@),
    {
        proof {
            reveal(event_text);
        }
        let mut out = to_chars(self.kind.name());
        push_str(&mut out, ": Marked=");
        push_int(&mut out, if self.marked {
            1
        } else {
            0
        }, 0);
        let tail = event_tail_chars(
            self.start,
            self.end,
            &self.style,
            &self.name,
            self.margin_l,
            self.margin_r,
            self.margin_v,
            &self.effect,
            &self.text,
        );
        push_all(&mut out, &tail);
        out
    }

    /// The event as a line of the events section.
    pub fn to_string(&self) -> (r: String)
        ensures
            r@ == event_text(self@),
    {
        string_of(&self.to_chars())
    }

    /// Get text content with all formatting tags removed. Drawing spans are
    /// removed with them. Where the text cannot be scanned to its end, it is
    /// returned as it is.
    pub fn unformatted_text(&self) -> (r: String)
        ensures
            r@ == unformatted(self.text@),
    {
        strip_formatting_tags_scheme().convert_or_keep(self.text.as_str())
    }

    /// Get the unformatted text with each `\N` replaced by a line feed.
    pub fn as_plaintext(&self) -> (r: String)
        ensures
            r@ == plaintext(self.text@),
    {
        proof {
            reveal_strlit("\\N");
        }
        replace(self.unformatted_text().as_str(), "\\N", "\n")
    }

    /// Remove all formatting tags from event text
    pub fn strip_formatting(&mut self)
        ensures
            final(self)@ == stripped_event(old(self)@),
    {
        self.text = self.unformatted_text();
    }

    /// Shift subtitle event by given amount of time in milliseconds.
    ///
    /// Positive numbers will result in the subtitle event appearing later,
    /// while negative numbers will make the event appear earlier.
    pub fn shift(&mut self, delta: TimeDelta)
        requires
            can_shift(old(self)@, delta@),
        ensures
            final(self)@ == shifted_event(old(self)@, delta@),
    {
        self.start = Moment(self.start.0 + delta.0);
        self.end = Moment(self.end.0 + delta.0);
    }

    /// Get duration of event in milliseconds, as a `TimeDelta`
    pub fn duration(&self) -> (r: TimeDelta)
        requires
            fits_i64(self.end@ - self.start@),
        ensures
            r@ == self.end@ - self.start@,
    {
        TimeDelta(self.end.0 - self.start.0)
    }

    /// Text associated with event
    pub fn text(&self) -> (r: String)
        ensures
            r@ == self.text@,
    {
        self.text.clone()
    }

    /// Modify text associated with event
    pub fn set_text(&mut self, text: String)
        ensures
            final(self)@ == (SsaEventView { text: text@, ..old(self)@ }),
    {
        self.text = text;
    }

    /// Start time of event
    pub fn start(&self) -> (r: Moment)
        ensures
            r == self.start,
    {
        self.start
    }

    /// End time of event
    pub fn end(&self) -> (r: Moment)
        ensures
            r == self.end,
    {
        self.end
    }

    /// Modify start time of event
    pub fn set_start(&mut self, moment: Moment)
        ensures
            final(self)@ == (SsaEventView { start: moment, ..old(self)@ }),
    {
        self.start = moment;
    }

    /// Modify end time of event
    pub fn set_end(&mut self, moment: Moment)
        ensures
            final(self)@ == (SsaEventView { end: moment, ..old(self)@ }),
    {
        self.end = moment;
    }
}

impl SsaScriptInfo {
    /// Script info of which nothing is set.
    pub fn empty() -> (r: SsaScriptInfo)
        ensures
            r@ == (SsaScriptInfoView {
                script_type: None,
                ..default_script_info()
            }),
    {
        SsaScriptInfo {
            title: None,
            original_script: None,
            original_translation: None,
            original_editing: None,
            original_timing: None,
            synch_point: None,
            script_updated_by: None,
            update_details: None,
            script_type: None,
            collisions: None,
            play_res_y: None,
            play_res_x: None,
            play_depth: None,
            timer: None,
        }
    }

    /// The script info section as it is written.
    pub fn to_chars(&self) -> (out: Vec<char>)
        ensures
            out@ == script_info_text(self@),
    {
        proof {
            reveal(script_info_text);
        }
        let mut out = to_chars("[Script Info]");
        push_info_line(&mut out, "Title", &self.title);
        push_info_line(&mut out, "Original Script", &self.original_script);
        push_info_line(&mut out, "Original Translation", &self.original_translation);
        push_info_line(&mut out, "Original Editing", &self.original_editing);
        push_info_line(&mut out, "Original Timing", &self.original_timing);
        push_info_line(&mut out, "Synch Point", &self.synch_point);
        push_info_line(&mut out, "Script Updated By", &self.script_updated_by);
        push_info_line(&mut out, "Update Details", &self.update_details);
        push_info_line(&mut out, "ScriptType", &self.script_type);
        push_info_line(&mut out, "Collisions", &self.collisions);
        push_info_line(&mut out, "PlayResY", &self.play_res_y);
        push_info_line(&mut out, "PlayResX", &self.play_res_x);
        push_info_line(&mut out, "PlayDepth", &self.play_depth);
        push_info_line(&mut out, "Timer", &self.timer);
        out
    }

    /// The script info section as it is written.
    pub fn to_string(&self) -> (r: String)
        ensures
            r@ == script_info_text(self@),
    {
        string_of(&self.to_chars())
    }
}

impl Default for SsaScriptInfo {
    fn default() -> (r: SsaScriptInfo)
        ensures
            r@ == default_script_info(),
    {
        let mut r = SsaScriptInfo::empty();
        r.script_type = Some(string_of(&to_chars("v4.00")));
        r
    }
}

impl SsaStyle {
    /// The style as a line of the styles section.
    pub fn to_chars(&self) -> (out: Vec<char>)
        ensures
            out@ == style_text(self@),
    {
        proof {
            reveal(style_text);
        }
        let mut out = to_chars("Style: ");
        push_str(&mut out, self.name.as_str());
        push_comma_str(&mut out, self.fontname.as_str());
        push_comma_int(&mut out, self.fontsize);
        push_comma_str(&mut out, self.primary_colour.as_str());
        push_comma_str(&mut out, self.secondary_colour.as_str());
        push_comma_str(&mut out, self.tertiary_colour.as_str());
        push_comma_str(&mut out, self.back_colour.as_str());
        push_comma_flag(&mut out, self.bold);
        push_comma_flag(&mut out, self.italic);
        push_comma_int(&mut out, self.border_style);
        push_comma_int(&mut out, self.outline);
        push_comma_int(&mut out, self.shadow);
        push_comma_int(&mut out, self.alignment);
        push_comma_int(&mut out, self.margin_l);
        push_comma_int(&mut out, self.margin_r);
        push_comma_int(&mut out, self.margin_v);
        push_comma_int(&mut out, self.alpha_level);
        push_comma_int(&mut out, self.encoding);
        out
    }

    /// The style as a line of the styles section.
    pub fn to_string(&self) -> (r: String)
        ensures
            r@ == style_text(self@),
    {
        string_of(&self.to_chars())
    }
}

/// The lines of a list of events, a line feed after each.
pub(crate) fn event_lines(events: &Vec<SsaEvent>) -> (out: Vec<char>)
    ensures
        out@ == concat_lines(event_rows(views(events@))),
{
    let mut out: Vec<char> = Vec::new();
    let ghost rows = event_rows(views(events@));
    let mut k: usize = 0;
    assert(rows.take(0) =~= Seq::<Seq<char>>::empty());
    while k < events.len()
        invariant
            k <= events.len(),
            rows == event_rows(views(events@)),
            out@ == concat_lines(rows.take(k as int)),
        decreases events.len() - k,
    {
        let row = events[k].to_chars();
        push_row(&mut out, &row);
        proof {
            lemma_concat_lines_step(rows, k + 1);
        }
        k += 1;
    }
    assert(rows.take(events@.len() as int) =~= rows);
    out
}

/// The lines of a list of styles, a line feed after each.
pub(crate) fn style_lines(styles: &Vec<SsaStyle>) -> (out: Vec<char>)
    ensures
        out@ == concat_lines(style_rows(views(styles@))),
{
    let mut out: Vec<char> = Vec::new();
    let ghost rows = style_rows(views(styles@));
    let mut k: usize = 0;
    assert(rows.take(0) =~= Seq::<Seq<char>>::empty());
    while k < styles.len()
        invariant
            k <= styles.len(),
            rows == style_rows(views(styles@)),
            out@ == concat_lines(rows.take(k as int)),
        decreases styles.len() - k,
    {
        let row = styles[k].to_chars();
        push_row(&mut out, &row);
        proof {
            lemma_concat_lines_step(rows, k + 1);
        }
        k += 1;
    }
    assert(rows.take(styles@.len() as int) =~= rows);
    out
}

/// The embedded fonts as they are written.
pub(crate) fn font_lines(fonts: &Vec<SubStationFont>) -> (out: Vec<char>)
    ensures
        out@ == concat_lines(blob_rows("fontname:"@, views(fonts@))),
{
    let mut out: Vec<char> = Vec::new();
    let ghost rows = blob_rows("fontname:"@, views(fonts@));
    let mut k: usize = 0;
    assert(rows.take(0) =~= Seq::<Seq<char>>::empty());
    while k < fonts.len()
        invariant
            k <= fonts.len(),
            rows == blob_rows("fontname:"@, views(fonts@)),
            out@ == concat_lines(rows.take(k as int)),
        decreases fonts.len() - k,
    {
        let row = to_chars(fonts[k].to_string().as_str());
        push_row(&mut out, &row);
        proof {
            lemma_concat_lines_step(rows, k + 1);
        }
        k += 1;
    }
    assert(rows.take(fonts@.len() as int) =~= rows);
    out
}

/// The embedded graphics as they are written.
pub(crate) fn graphic_lines(graphics: &Vec<SubStationGraphic>) -> (out: Vec<char>)
    ensures
        out@ == concat_lines(blob_rows("filename:"@, views(graphics@))),
{
    let mut out: Vec<char> = Vec::new();
    let ghost rows = blob_rows("filename:"@, views(graphics@));
    let mut k: usize = 0;
    assert(rows.take(0) =~= Seq::<Seq<char>>::empty());
    while k < graphics.len()
        invariant
            k <= graphics.len(),
            rows == blob_rows("filename:"@, views(graphics@)),
            out@ == concat_lines(rows.take(k as int)),
        decreases graphics.len() - k,
    {
        let row = to_chars(graphics[k].to_string().as_str());
        push_row(&mut out, &row);
        proof {
            lemma_concat_lines_step(rows, k + 1);
        }
        k += 1;
    }
    assert(rows.take(graphics@.len() as int) =~= rows);
    out
}

impl SsaSubtitle {
    /// The script info.
    pub closed spec fn spec_script_info(&self) -> SsaScriptInfo {
        self.script_info
    }

    /// The dialogue events.
    pub closed spec fn spec_events(&self) -> Seq<SsaEvent> {
        self.dialogue@
    }

    /// The picture events.
    pub closed spec fn spec_pictures(&self) -> Seq<SsaEvent> {
        self.pictures@
    }

    /// The sound events.
    pub closed spec fn spec_sounds(&self) -> Seq<SsaEvent> {
        self.sounds@
    }

    /// The movie events.
    pub closed spec fn spec_movies(&self) -> Seq<SsaEvent> {
        self.movies@
    }

    /// The command events.
    pub closed spec fn spec_commands(&self) -> Seq<SsaEvent> {
        self.commands@
    }

    /// The styles.
    pub closed spec fn spec_styles(&self) -> Seq<SsaStyle> {
        self.styles@
    }

    /// The embedded fonts.
    pub closed spec fn spec_fonts(&self) -> Seq<SubStationFont> {
        self.fonts@
    }

    /// The embedded graphics.
    pub closed spec fn spec_graphics(&self) -> Seq<SubStationGraphic> {
        self.graphics@
    }

    /// Whether all but the part that `part` names is the same in `self` and
    /// `other`. The parts are numbered in the order of the fields: script
    /// info 0, dialogue 1, pictures 2, sounds 3, movies 4, commands 5, styles
    /// 6, fonts 7, graphics 8.
    pub open spec fn same_but(&self, other: &SsaSubtitle, part: int) -> bool {
        &&& part == 0 || self.spec_script_info() == other.spec_script_info()
        &&& part == 1 || self.spec_events() == other.spec_events()
        &&& part == 2 || self.spec_pictures() == other.spec_pictures()
        &&& part == 3 || self.spec_sounds() == other.spec_sounds()
        &&& part == 4 || self.spec_movies() == other.spec_movies()
        &&& part == 5 || self.spec_commands() == other.spec_commands()
        &&& part == 6 || self.spec_styles() == other.spec_styles()
        &&& part == 7 || self.spec_fonts() == other.spec_fonts()
        &&& part == 8 || self.spec_graphics() == other.spec_graphics()
    }

    /// A subtitle made of the given parts.
    pub fn new(
        script_info: SsaScriptInfo,
        dialogue: Vec<SsaEvent>,
        pictures: Vec<SsaEvent>,
        sounds: Vec<SsaEvent>,
        movies: Vec<SsaEvent>,
        commands: Vec<SsaEvent>,
        styles: Vec<SsaStyle>,
        fonts: Vec<SubStationFont>,
        graphics: Vec<SubStationGraphic>,
    ) -> (r: SsaSubtitle)
        ensures
            r.spec_script_info() == script_info,
            r.spec_events() == dialogue@,
            r.spec_pictures() == pictures@,
            r.spec_sounds() == sounds@,
            r.spec_movies() == movies@,
            r.spec_commands() == commands@,
            r.spec_styles() == styles@,
            r.spec_fonts() == fonts@,
            r.spec_graphics() == graphics@,
    {
        SsaSubtitle {
            script_info,
            dialogue,
            pictures,
            sounds,
            movies,
            commands,
            styles,
            fonts,
            graphics,
        }
    }

    /// A subtitle that holds the given dialogue events and script info and
    /// nothing else.
    pub fn from_dialogue(script_info: SsaScriptInfo, dialogue: Vec<SsaEvent>) -> (r: SsaSubtitle)
        ensures
            r@ == dialogue_only(script_info@, views(dialogue@)),
    {
        let r = SsaSubtitle::new(
            script_info,
            dialogue,
            Vec::new(),
            Vec::new(),
            Vec::new(),
            Vec::new(),
            Vec::new(),
            Vec::new(),
            Vec::new(),
        );
        assert(r@.pictures =~= Seq::empty());
        assert(r@.sounds =~= Seq::empty());
        assert(r@.movies =~= Seq::empty());
        assert(r@.commands =~= Seq::empty());
        assert(r@.styles =~= Seq::empty());
        assert(r@.fonts =~= Seq::empty());
        assert(r@.graphics =~= Seq::empty());
        r
    }

    /// Get list of events as a slice
    pub fn events(&self) -> (r: &[SsaEvent])
        ensures
            r@ == self.spec_events(),
    {
        self.dialogue.as_slice()
    }

    /// Get list of events as a mutable slice
    pub fn events_mut(&mut self) -> (r: &mut [SsaEvent])
        ensures
            r@ == old(self).spec_events(),
            final(self).spec_events() == final(r)@,
            final(self).same_but(old(self), 1),
    {
        self.dialogue.as_mut_slice()
    }

    /// Try to get event at given index
    pub fn event(&self, index: usize) -> (r: Option<&SsaEvent>)
        ensures
            r == if index < self.spec_events().len() {
                Some(&self.spec_events()[index as int])
            } else {
                None::<&SsaEvent>
            },
    {
        if index < self.dialogue.len() {
            Some(&self.dialogue[index])
        } else {
            None
        }
    }

    /// Try to get mutable event at given index
    pub fn event_mut(&mut self, index: usize) -> (r: Option<&mut SsaEvent>)
        ensures
            final(self).same_but(old(self), 1),
            match r {
                Some(e) => index < old(self).spec_events().len() && *e == old(self).spec_events()[index as int]
                    && final(self).spec_events() == old(self).spec_events().update(
                    index as int,
                    *final(e),
                ),
                None => index >= old(self).spec_events().len() && final(self).spec_events() == old(
                    self,
                ).spec_events(),
            },
    {
        if index < self.dialogue.len() {
            Some(&mut self.dialogue[index])
        } else {
            None
        }
    }

    /// Get list of picture events as a slice
    pub fn pictures(&self) -> (r: &[SsaEvent])
        ensures
            r@ == self.spec_pictures(),
    {
        self.pictures.as_slice()
    }

    /// Get list of picture events as a mutable slice
    pub fn pictures_mut(&mut self) -> (r: &mut [SsaEvent])
        ensures
            r@ == old(self).spec_pictures(),
            final(self).spec_pictures() == final(r)@,
            final(self).same_but(old(self), 2),
    {
        self.pictures.as_mut_slice()
    }

    /// Get picture event at given index
    pub fn picture(&self, index: usize) -> (r: Option<&SsaEvent>)
        ensures
            r == if index < self.spec_pictures().len() {
                Some(&self.spec_pictures()[index as int])
            } else {
                None::<&SsaEvent>
            },
    {
        if index < self.pictures.len() {
            Some(&self.pictures[index])
        } else {
            None
        }
    }

    /// Get mutable picture event at given index
    pub fn picture_mut(&mut self, index: usize) -> (r: Option<&mut SsaEvent>)
        ensures
            final(self).same_but(old(self), 2),
            match r {
                Some(e) => index < old(self).spec_pictures().len() && *e == old(self).spec_pictures()[index as int]
                    && final(self).spec_pictures() == old(self).spec_pictures().update(
                    index as int,
                    *final(e),
                ),
                None => index >= old(self).spec_pictures().len() && final(self).spec_pictures() == old(
                    self,
                ).spec_pictures(),
            },
    {
        if index < self.pictures.len() {
            Some(&mut self.pictures[index])
        } else {
            None
        }
    }

    /// Get list of sound events as a slice
    pub fn sounds(&self) -> (r: &[SsaEvent])
        ensures
            r@ == self.spec_sounds(),
    {
        self.sounds.as_slice()
    }

    /// Get list of sound events as a mutable slice
    pub fn sounds_mut(&mut self) -> (r: &mut [SsaEvent])
        ensures
            r@ == old(self).spec_sounds(),
            final(self).spec_sounds() == final(r)@,
            final(self).same_but(old(self), 3),
    {
        self.sounds.as_mut_slice()
    }

    /// Get sound event at given index
    pub fn sound(&self, index: usize) -> (r: Option<&SsaEvent>)
        ensures
            r == if index < self.spec_sounds().len() {
                Some(&self.spec_sounds()[index as int])
            } else {
                None::<&SsaEvent>
            },
    {
        if index < self.sounds.len() {
            Some(&self.sounds[index])
        } else {
            None
        }
    }

    /// Get mutable sound event at given index
    pub fn sound_mut(&mut self, index: usize) -> (r: Option<&mut SsaEvent>)
        ensures
            final(self).same_but(old(self), 3),
            match r {
                Some(e) => index < old(self).spec_sounds().len() && *e == old(self).spec_sounds()[index as int]
                    && final(self).spec_sounds() == old(self).spec_sounds().update(
                    index as int,
                    *final(e),
                ),
                None => index >= old(self).spec_sounds().len() && final(self).spec_sounds() == old(
                    self,
                ).spec_sounds(),
            },
    {
        if index < self.sounds.len() {
            Some(&mut self.sounds[index])
        } else {
            None
        }
    }

    /// Get list of movie events as a slice
    pub fn movies(&self) -> (r: &[SsaEvent])
        ensures
            r@ == self.spec_movies(),
    {
        self.movies.as_slice()
    }

    /// Get list of movie events as a mutable slice
    pub fn movies_mut(&mut self) -> (r: &mut [SsaEvent])
        ensures
            r@ == old(self).spec_movies(),
            final(self).spec_movies() == final(r)@,
            final(self).same_but(old(self), 4),
    {
        self.movies.as_mut_slice()
    }

    /// Get movie event at given index
    pub fn movie(&self, index: usize) -> (r: Option<&SsaEvent>)
        ensures
            r == if index < self.spec_movies().len() {
                Some(&self.spec_movies()[index as int])
            } else {
                None::<&SsaEvent>
            },
    {
        if index < self.movies.len() {
            Some(&self.movies[index])
        } else {
            None
        }
    }

    /// Get mutable movie event at given index
    pub fn movie_mut(&mut self, index: usize) -> (r: Option<&mut SsaEvent>)
        ensures
            final(self).same_but(old(self), 4),
            match r {
                Some(e) => index < old(self).spec_movies().len() && *e == old(self).spec_movies()[index as int]
                    && final(self).spec_movies() == old(self).spec_movies().update(
                    index as int,
                    *final(e),
                ),
                None => index >= old(self).spec_movies().len() && final(self).spec_movies() == old(
                    self,
                ).spec_movies(),
            },
    {
        if index < self.movies.len() {
            Some(&mut self.movies[index])
        } else {
            None
        }
    }

    /// Get list of command events as a slice
    pub fn commands(&self) -> (r: &[SsaEvent])
        ensures
            r@ == self.spec_commands(),
    {
        self.commands.as_slice()
    }

    /// Get list of command events as a mutable slice
    pub fn commands_mut(&mut self) -> (r: &mut [SsaEvent])
        ensures
            r@ == old(self).spec_commands(),
            final(self).spec_commands() == final(r)@,
            final(self).same_but(old(self), 5),
    {
        self.commands.as_mut_slice()
    }

    /// Get command event at given index
    pub fn command(&self, index: usize) -> (r: Option<&SsaEvent>)
        ensures
            r == if index < self.spec_commands().len() {
                Some(&self.spec_commands()[index as int])
            } else {
                None::<&SsaEvent>
            },
    {
        if index < self.commands.len() {
            Some(&self.commands[index])
        } else {
            None
        }
    }

    /// Get mutable command event at given index
    pub fn command_mut(&mut self, index: usize) -> (r: Option<&mut SsaEvent>)
        ensures
            final(self).same_but(old(self), 5),
            match r {
                Some(e) => index < old(self).spec_commands().len() && *e == old(self).spec_commands()[index as int]
                    && final(self).spec_commands() == old(self).spec_commands().update(
                    index as int,
                    *final(e),
                ),
                None => index >= old(self).spec_commands().len() && final(self).spec_commands() == old(
                    self,
                ).spec_commands(),
            },
    {
        if index < self.commands.len() {
            Some(&mut self.commands[index])
        } else {
            None
        }
    }

    /// Get script information
    pub fn script_info(&self) -> (r: &SsaScriptInfo)
        ensures
            *r == self.spec_script_info(),
    {
        &self.script_info
    }

    /// Get script information mutably
    pub fn script_info_mut(&mut self) -> (r: &mut SsaScriptInfo)
        ensures
            *r == old(self).spec_script_info(),
            final(self).spec_script_info() == *final(r),
            final(self).same_but(old(self), 0),
    {
        &mut self.script_info
    }

    /// Get list of styles as a slice
    pub fn styles(&self) -> (r: &[SsaStyle])
        ensures
            r@ == self.spec_styles(),
    {
        self.styles.as_slice()
    }

    /// Get list of styles as a mutable slice
    pub fn styles_mut(&mut self) -> (r: &mut [SsaStyle])
        ensures
            r@ == old(self).spec_styles(),
            final(self).spec_styles() == final(r)@,
            final(self).same_but(old(self), 6),
    {
        self.styles.as_mut_slice()
    }

    /// Get list of embedded fonts as a slice
    pub fn fonts(&self) -> (r: &[SubStationFont])
        ensures
            r@ == self.spec_fonts(),
    {
        self.fonts.as_slice()
    }

    /// Get list of embedded fonts as a mutable slice
    pub fn fonts_mut(&mut self) -> (r: &mut [SubStationFont])
        ensures
            r@ == old(self).spec_fonts(),
            final(self).spec_fonts() == final(r)@,
            final(self).same_but(old(self), 7),
    {
        self.fonts.as_mut_slice()
    }

    /// Get list of embedded graphics as a slice
    pub fn graphics(&self) -> (r: &[SubStationGraphic])
        ensures
            r@ == self.spec_graphics(),
    {
        self.graphics.as_slice()
    }

    /// Get list of embedded graphics as a mutable slice
    pub fn graphics_mut(&mut self) -> (r: &mut [SubStationGraphic])
        ensures
            r@ == old(self).spec_graphics(),
            final(self).spec_graphics() == final(r)@,
            final(self).same_but(old(self), 8),
    {
        self.graphics.as_mut_slice()
    }

    /// Strip formatting tags from the dialogue in addition to deleting
    /// styles
    pub fn strip_formatting(&mut self)
        ensures
            final(self)@ == (SsaSubtitleView {
                dialogue: old(self)@.dialogue.map_values(|e: SsaEventView| stripped_event(e)),
                styles: Seq::empty(),
                ..old(self)@
            }),
    {
        let mut k: usize = 0;
        while k < self.dialogue.len()
            invariant
                k <= self.dialogue.len(),
                self.dialogue.len() == old(self).dialogue.len(),
                self.same_but(old(self), 1),
                forall|j: int| 0 <= j < k ==> (#[trigger] self.dialogue@[j])@ == stripped_event(old(self).dialogue@[j]@),
                forall|j: int| k <= j < self.dialogue.len() ==> #[trigger] self.dialogue@[j] == old(self).dialogue@[j],
            decreases self.dialogue.len() - k,
        {
            self.dialogue[k].strip_formatting();
            k += 1;
        }
        self.styles.clear();
        assert(
            self@.dialogue =~= old(self)@.dialogue.map_values(|e: SsaEventView| stripped_event(e))
        );
        assert(self@.styles =~= Seq::empty());
    }

    /// Whether every dialogue event can be moved in time by `delta`
    /// milliseconds.
    pub open spec fn can_shift(&self, delta: int) -> bool {
        forall|j: int|
            0 <= j < self@.dialogue.len() ==> can_shift(#[trigger] self@.dialogue[j], delta)
    }

    /// Shift all events in subtitle by given amount of time, in milliseconds.
    pub fn shift(&mut self, delta: TimeDelta)
        requires
            old(self).can_shift(delta@),
        ensures
            final(self)@ == (SsaSubtitleView {
                dialogue: old(self)@.dialogue.map_values(
                    |e: SsaEventView| shifted_event(e, delta@)
                ),
                ..old(self)@
            }),
    {
        let mut k: usize = 0;
        while k < self.dialogue.len()
            invariant
                k <= self.dialogue.len(),
                self.dialogue.len() == old(self).dialogue.len(),
                self.same_but(old(self), 1),
                old(self).can_shift(delta@),
                forall|j: int| 0 <= j < k ==> (#[trigger] self.dialogue@[j])@ == shifted_event(old(self).dialogue@[j]@, delta@),
                forall|j: int| k <= j < self.dialogue.len() ==> #[trigger] self.dialogue@[j] == old(self).dialogue@[j],
            decreases self.dialogue.len() - k,
        {
            assert(can_shift(old(self)@.dialogue[k as int], delta@));
            self.dialogue[k].shift(delta);
            k += 1;
        }
        assert(
            self@.dialogue =~= old(self)@.dialogue.map_values(
                |e: SsaEventView| shifted_event(e, delta@)
            )
        );
    }

    /// The styles section as it is written.
    fn styles_chars(&self) -> (out: Vec<char>)
        ensures
            out@ == styles_block(self@.styles),
    {
        if self.styles.len() == 0 {
            Vec::new()
        } else {
            let mut out = to_chars("[V4 Styles]\n");
            push_str(
                &mut out,
                "Format: Name, Fontname, Fontsize, PrimaryColour, SecondaryColour, TertiaryColour, BackColour, Bold, Italic, BorderStyle, Outline, Shadow, Alignment, MarginL, MarginR, MarginV, AlphaLevel, Encoding\n",
            );
            push_all(&mut out, &style_lines(&self.styles));
            push_str(&mut out, "\n");
            out
        }
    }

    /// The events section as it is written.
    fn events_chars(&self) -> (out: Vec<char>)
        ensures
            out@ == events_block(self@),
    {
        if self.dialogue.len() == 0 {
            Vec::new()
        } else {
            let mut out = to_chars("[Events]\n");
            push_str(
                &mut out,
                "Format: Marked, Start, End, Style, Name, MarginL, MarginR, MarginV, Effect, Text\n",
            );
            push_all(&mut out, &event_lines(&self.dialogue));
            push_all(&mut out, &event_lines(&self.pictures));
            push_all(&mut out, &event_lines(&self.sounds));
            push_all(&mut out, &event_lines(&self.movies));
            push_all(&mut out, &event_lines(&self.commands));
            out
        }
    }

    /// The subtitle as it is written to a file.
    pub fn to_string(&self) -> (r: String)
        ensures
            r@ == subtitle_text(self@),
    {
        proof {
            reveal(subtitle_text);
        }
        let mut out = self.script_info.to_chars();
        push_str(&mut out, "\n");
        push_str(&mut out, "\n");
        push_all(&mut out, &self.styles_chars());
        let fonts = if self.fonts.len() == 0 {
            Vec::new()
        } else {
            let mut b = to_chars("\n");
            push_all(&mut b, &font_lines(&self.fonts));
            b
        };
        push_all(&mut out, &fonts);
        let graphics = if self.graphics.len() == 0 {
            Vec::new()
        } else {
            let mut b = to_chars("\n");
            push_all(&mut b, &graphic_lines(&self.graphics));
            b
        };
        push_all(&mut out, &graphics);
        push_all(&mut out, &self.events_chars());
        string_of(&out)
    }
}

impl Default for SsaSubtitle {
    fn default() -> (r: SsaSubtitle)
        ensures
            r@ == dialogue_only(default_script_info(), Seq::empty()),
    {
        let r = SsaSubtitle::from_dialogue(SsaScriptInfo::default(), Vec::new());
        assert(r@.dialogue =~= Seq::empty());
        r
    }
}

} // verus!
