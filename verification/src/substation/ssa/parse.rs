//! Reading an `.ssa` file, a line at a time.

use crate::errors::Error;
use crate::parsing::{lines_of, rows_view, split_lines};
use crate::substation::common::data::{
    BlobView, SubStationEventKind, SubStationFont, SubStationGraphic,
};
use crate::substation::common::parse::{
    blobs_from, entries_view, event_fields, join_lines, joined_from, lookup, parse_blobs,
    parse_category_header, parse_event_line, parse_script_info_line, parse_style_fields,
    script_info_entry, section_header, style_fields, value_of, FieldKind, FieldView,
    SubStationSection,
};
use crate::substation::ssa::data::{
    SsaEvent, SsaEventView, SsaScriptInfo, SsaScriptInfoView, SsaStyle, SsaStyleView, SsaSubtitle,
    SsaSubtitleView,
};
use crate::text::{copy_range, string_of, to_chars, views};
use vstd::hash_map::StringHashMap;
use vstd::prelude::*;

verus! {

/// The kinds of the fields of an event line, up to its text.
pub open spec fn event_kinds() -> Seq<FieldKind> {
    seq![
        FieldKind::Marked, FieldKind::Time, FieldKind::Time, FieldKind::Text, FieldKind::Text,
        FieldKind::Int, FieldKind::Int, FieldKind::Int, FieldKind::Text,
    ]
}

/// The kinds of the fields of a style line.
pub open spec fn style_kinds() -> Seq<FieldKind> {
    seq![
        FieldKind::Text, FieldKind::Text, FieldKind::Int, FieldKind::Text, FieldKind::Text,
        FieldKind::Text, FieldKind::Text, FieldKind::Flag, FieldKind::Flag, FieldKind::Int,
        FieldKind::Int, FieldKind::Int, FieldKind::Int, FieldKind::Int, FieldKind::Int,
        FieldKind::Int, FieldKind::Int, FieldKind::Int,
    ]
}

/// The event that a kind, the fields of an event line and its text make.
pub open spec fn event_of(
    kind: SubStationEventKind,
    f: Seq<FieldView>,
    text: Seq<char>,
) -> SsaEventView {
    SsaEventView {
        kind,
        marked: f[0].flag(),
        start: f[1].time(),
        end: f[2].time(),
        style: Some(f[3].text()),
        name: Some(f[4].text()),
        margin_l: f[5].number(),
        margin_r: f[6].number(),
        margin_v: f[7].number(),
        effect: Some(f[8].text()),
        text,
    }
}

/// The event that a line of the events section holds. The line starts with
/// the name of a kind of event, in any case, and a colon; nine fields follow
/// with a comma after each, and the rest of the line is the text, commas
/// included.
pub open spec fn parsed_event(line: Seq<char>) -> Option<SsaEventView> {
    match event_fields(line, event_kinds()) {
        Some((kind, f, j)) => Some(event_of(kind, f, line.subrange(j, line.len() as int))),
        None => None,
    }
}

/// The style that the fields of a style line make.
pub open spec fn style_of(f: Seq<FieldView>) -> SsaStyleView {
    SsaStyleView {
        name: f[0].text(),
        fontname: f[1].text(),
        fontsize: f[2].number(),
        primary_colour: f[3].text(),
        secondary_colour: f[4].text(),
        tertiary_colour: f[5].text(),
        back_colour: f[6].text(),
        bold: f[7].flag(),
        italic: f[8].flag(),
        border_style: f[9].number(),
        outline: f[10].number(),
        shadow: f[11].number(),
        alignment: f[12].number(),
        margin_l: f[13].number(),
        margin_r: f[14].number(),
        margin_v: f[15].number(),
        alpha_level: f[16].number(),
        encoding: f[17].number(),
    }
}

/// The style that a line of the styles section holds.
pub open spec fn parsed_style(line: Seq<char>) -> Option<SsaStyleView> {
    match style_fields(line, style_kinds()) {
        Some(f) => Some(style_of(f)),
        None => None,
    }
}

/// The script info that the entries of the script info section give: for
/// each field, the value that they hold under its key.
pub open spec fn script_info_of(entries: Map<Seq<char>, Seq<char>>) -> SsaScriptInfoView {
    SsaScriptInfoView {
        title: value_of(entries, "Title"@),
        original_script: value_of(entries, "Original Script"@),
        original_translation: value_of(entries, "Original Translation"@),
        original_editing: value_of(entries, "Original Editing"@),
        original_timing: value_of(entries, "Original Timing"@),
        synch_point: value_of(entries, "Synch Point"@),
        script_updated_by: value_of(entries, "Script Updated By"@),
        update_details: value_of(entries, "Update Details"@),
        script_type: value_of(entries, "ScriptType"@),
        collisions: value_of(entries, "Collisions"@),
        play_res_y: value_of(entries, "PlayResY"@),
        play_res_x: value_of(entries, "PlayResX"@),
        play_depth: value_of(entries, "PlayDepth"@),
        timer: value_of(entries, "Timer"@),
    }
}

/// What has been read of a file so far.
pub struct SsaDraft {
    /// The section that the lines read now belong to; none before the first
    /// header.
    pub section: Option<SubStationSection>,
    /// The entries of the script info section: under each key, the value
    /// of the last entry that was read with it.
    pub info: Map<Seq<char>, Seq<char>>,
    pub dialogue: Seq<SsaEventView>,
    pub pictures: Seq<SsaEventView>,
    pub sounds: Seq<SsaEventView>,
    pub movies: Seq<SsaEventView>,
    pub commands: Seq<SsaEventView>,
    pub styles: Seq<SsaStyleView>,
    /// The lines of the fonts section.
    pub fonts: Seq<Seq<char>>,
    /// The lines of the graphics section.
    pub graphics: Seq<Seq<char>>,
}

/// Nothing read yet.
pub open spec fn start_draft() -> SsaDraft {
    SsaDraft {
        section: None,
        info: Map::empty(),
        dialogue: Seq::empty(),
        pictures: Seq::empty(),
        sounds: Seq::empty(),
        movies: Seq::empty(),
        commands: Seq::empty(),
        styles: Seq::empty(),
        fonts: Seq::empty(),
        graphics: Seq::empty(),
    }
}

/// The draft with an event added to the list of its kind.
pub open spec fn with_event(d: SsaDraft, e: SsaEventView) -> SsaDraft {
    match e.kind {
        SubStationEventKind::Dialogue => SsaDraft { dialogue: d.dialogue.push(e), ..d },
        SubStationEventKind::Picture => SsaDraft { pictures: d.pictures.push(e), ..d },
        SubStationEventKind::Sound => SsaDraft { sounds: d.sounds.push(e), ..d },
        SubStationEventKind::Movie => SsaDraft { movies: d.movies.push(e), ..d },
        SubStationEventKind::Command => SsaDraft { commands: d.commands.push(e), ..d },
    }
}

/// The draft after one more line. A section header changes the section. Any
/// other line is read by the rules of the section it stands in, and is
/// passed over where it does not meet them; lines before the first header
/// are passed over.
pub open spec fn fed(d: SsaDraft, line: Seq<char>) -> SsaDraft {
    match section_header(line) {
        Some(section) => SsaDraft { section: Some(section), ..d },
        None => match d.section {
            None => d,
            Some(SubStationSection::Events) => match parsed_event(line) {
                Some(e) => with_event(d, e),
                None => d,
            },
            Some(SubStationSection::Styles) => match parsed_style(line) {
                Some(s) => SsaDraft { styles: d.styles.push(s), ..d },
                None => d,
            },
            Some(SubStationSection::ScriptInfo) => match script_info_entry(line) {
                Some(entry) => SsaDraft { info: d.info.insert(entry.0, entry.1), ..d },
                None => d,
            },
            Some(SubStationSection::Fonts) => SsaDraft { fonts: d.fonts.push(line), ..d },
            Some(SubStationSection::Graphics) => SsaDraft { graphics: d.graphics.push(line), ..d },
        },
    }
}

/// The draft after the lines `lines[k..]`.
pub open spec fn fed_all(d: SsaDraft, lines: Seq<Seq<char>>, k: int) -> SsaDraft
    decreases lines.len() - k,
{
    if k < 0 || k >= lines.len() {
        d
    } else {
        fed_all(fed(d, lines[k]), lines, k + 1)
    }
}

/// The subtitle that a draft makes once the file has been read to its end.
pub open spec fn finished(d: SsaDraft) -> SsaSubtitleView {
    SsaSubtitleView {
        script_info: script_info_of(d.info),
        dialogue: d.dialogue,
        pictures: d.pictures,
        sounds: d.sounds,
        movies: d.movies,
        commands: d.commands,
        styles: d.styles,
        fonts: blobs_from(joined_from(d.fonts, 0), 0, "fontname:"@),
        graphics: blobs_from(joined_from(d.graphics, 0), 0, "filename:"@),
    }
}

/// The subtitle that the text of an `.ssa` file holds.
pub open spec fn parsed(text: Seq<char>) -> SsaSubtitleView {
    finished(fed_all(start_draft(), lines_of(text), 0))
}

/// The kinds of the fields of an event line, up to its text.
pub fn event_kinds_vec() -> (kinds: Vec<FieldKind>)
    ensures
        kinds@ == event_kinds(),
{
    let mut kinds: Vec<FieldKind> = Vec::new();
    kinds.push(FieldKind::Marked);
    kinds.push(FieldKind::Time);
    kinds.push(FieldKind::Time);
    kinds.push(FieldKind::Text);
    kinds.push(FieldKind::Text);
    kinds.push(FieldKind::Int);
    kinds.push(FieldKind::Int);
    kinds.push(FieldKind::Int);
    kinds.push(FieldKind::Text);
    assert(kinds@ =~= event_kinds());
    kinds
}

/// The kinds of the fields of a style line.
pub fn style_kinds_vec() -> (kinds: Vec<FieldKind>)
    ensures
        kinds@ == style_kinds(),
{
    let mut kinds: Vec<FieldKind> = Vec::new();
    kinds.push(FieldKind::Text);
    kinds.push(FieldKind::Text);
    kinds.push(FieldKind::Int);
    kinds.push(FieldKind::Text);
    kinds.push(FieldKind::Text);
    kinds.push(FieldKind::Text);
    kinds.push(FieldKind::Text);
    kinds.push(FieldKind::Flag);
    kinds.push(FieldKind::Flag);
    kinds.push(FieldKind::Int);
    kinds.push(FieldKind::Int);
    kinds.push(FieldKind::Int);
    kinds.push(FieldKind::Int);
    kinds.push(FieldKind::Int);
    kinds.push(FieldKind::Int);
    kinds.push(FieldKind::Int);
    kinds.push(FieldKind::Int);
    kinds.push(FieldKind::Int);
    assert(kinds@ =~= style_kinds());
    kinds
}

/// Reads a line of the events section.
pub fn parse_event(line: &Vec<char>) -> (r: Option<SsaEvent>)
    ensures
        match r {
            Some(e) => parsed_event(line@) == Some(e@),
            None => parsed_event(line@) is None,
        },
{
    let kinds = event_kinds_vec();
    match parse_event_line(line, &kinds) {
        Some((kind, fields, j)) => {
            assert(fields@.len() == 9);
            let e = SsaEvent {
                kind,
                marked: fields[0].flag(),
                start: fields[1].time(),
                end: fields[2].time(),
                style: Some(fields[3].text()),
                name: Some(fields[4].text()),
                margin_l: fields[5].number(),
                margin_r: fields[6].number(),
                margin_v: fields[7].number(),
                effect: Some(fields[8].text()),
                text: string_of(&copy_range(line, j, line.len())),
            };
            assert(
                e@ == event_of(kind, views(fields@), line@.subrange(j as int, line@.len() as int))
            );
            Some(e)
        },
        None => None,
    }
}

/// Reads a line of the styles section.
pub fn parse_style_line(line: &Vec<char>) -> (r: Option<SsaStyle>)
    ensures
        match r {
            Some(s) => parsed_style(line@) == Some(s@),
            None => parsed_style(line@) is None,
        },
{
    let kinds = style_kinds_vec();
    match parse_style_fields(line, &kinds) {
        Some(fields) => {
            assert(fields@.len() == 18);
            let s = SsaStyle {
                name: fields[0].text(),
                fontname: fields[1].text(),
                fontsize: fields[2].number(),
                primary_colour: fields[3].text(),
                secondary_colour: fields[4].text(),
                tertiary_colour: fields[5].text(),
                back_colour: fields[6].text(),
                bold: fields[7].flag(),
                italic: fields[8].flag(),
                border_style: fields[9].number(),
                outline: fields[10].number(),
                shadow: fields[11].number(),
                alignment: fields[12].number(),
                margin_l: fields[13].number(),
                margin_r: fields[14].number(),
                margin_v: fields[15].number(),
                alpha_level: fields[16].number(),
                encoding: fields[17].number(),
            };
            assert(s@ == style_of(views(fields@)));
            Some(s)
        },
        None => None,
    }
}

/// Gathers the fields of the script info from the entries that were read.
pub fn build_script_info(data: &StringHashMap<String>) -> (r: SsaScriptInfo)
    ensures
        r@ == script_info_of(entries_view(data@)),
{
    SsaScriptInfo {
        title: lookup(data, "Title"),
        original_script: lookup(data, "Original Script"),
        original_translation: lookup(data, "Original Translation"),
        original_editing: lookup(data, "Original Editing"),
        original_timing: lookup(data, "Original Timing"),
        synch_point: lookup(data, "Synch Point"),
        script_updated_by: lookup(data, "Script Updated By"),
        update_details: lookup(data, "Update Details"),
        script_type: lookup(data, "ScriptType"),
        collisions: lookup(data, "Collisions"),
        play_res_y: lookup(data, "PlayResY"),
        play_res_x: lookup(data, "PlayResX"),
        play_depth: lookup(data, "PlayDepth"),
        timer: lookup(data, "Timer"),
    }
}

/// Reader of an `.ssa` file that takes the file a line at a time.
pub struct SsaParser {
    section: Option<SubStationSection>,
    info: StringHashMap<String>,
    dialogue: Vec<SsaEvent>,
    pictures: Vec<SsaEvent>,
    sounds: Vec<SsaEvent>,
    movies: Vec<SsaEvent>,
    commands: Vec<SsaEvent>,
    styles: Vec<SsaStyle>,
    fonts: Vec<Vec<char>>,
    graphics: Vec<Vec<char>>,
}

impl View for SsaParser {
    type V = SsaDraft;

    closed spec fn view(&self) -> SsaDraft {
        SsaDraft {
            section: self.section,
            info: entries_view(self.info@),
            dialogue: views(self.dialogue@),
            pictures: views(self.pictures@),
            sounds: views(self.sounds@),
            movies: views(self.movies@),
            commands: views(self.commands@),
            styles: views(self.styles@),
            fonts: rows_view(self.fonts@),
            graphics: rows_view(self.graphics@),
        }
    }
}

impl SsaParser {
    /// A reader that has read nothing yet.
    pub fn new() -> (r: SsaParser)
        ensures
            r@ == start_draft(),
    {
        let r = SsaParser {
            section: None,
            info: StringHashMap::new(),
            dialogue: Vec::new(),
            pictures: Vec::new(),
            sounds: Vec::new(),
            movies: Vec::new(),
            commands: Vec::new(),
            styles: Vec::new(),
            fonts: Vec::new(),
            graphics: Vec::new(),
        };
        assert(r@.info =~= Map::empty());
        assert(r@.dialogue =~= Seq::empty());
        assert(r@.pictures =~= Seq::empty());
        assert(r@.sounds =~= Seq::empty());
        assert(r@.movies =~= Seq::empty());
        assert(r@.commands =~= Seq::empty());
        assert(r@.styles =~= Seq::empty());
        assert(r@.fonts =~= Seq::empty());
        assert(r@.graphics =~= Seq::empty());
        r
    }

    /// Adds an event to the list of its kind.
    fn push_event(&mut self, e: SsaEvent)
        ensures
            final(self)@ == with_event(old(self)@, e@),
    {
        match e.kind {
            SubStationEventKind::Dialogue => {
                self.dialogue.push(e);
                assert(self@.dialogue =~= old(self)@.dialogue.push(e@));
            },
            SubStationEventKind::Picture => {
                self.pictures.push(e);
                assert(self@.pictures =~= old(self)@.pictures.push(e@));
            },
            SubStationEventKind::Sound => {
                self.sounds.push(e);
                assert(self@.sounds =~= old(self)@.sounds.push(e@));
            },
            SubStationEventKind::Movie => {
                self.movies.push(e);
                assert(self@.movies =~= old(self)@.movies.push(e@));
            },
            SubStationEventKind::Command => {
                self.commands.push(e);
                assert(self@.commands =~= old(self)@.commands.push(e@));
            },
        }
    }

    /// Reads one more line, given without its line ending.
    pub fn feed_chars(&mut self, line: &Vec<char>)
        ensures
            final(self)@ == fed(old(self)@, line@),
    {
        match parse_category_header(line) {
            Some(section) => {
                self.section = Some(section);
                return ;
            },
            None => {},
        }
        match self.section {
            None => {},
            Some(SubStationSection::Events) => match parse_event(line) {
                Some(e) => {
                    self.push_event(e);
                },
                None => {},
            },
            Some(SubStationSection::Styles) => match parse_style_line(line) {
                Some(s) => {
                    self.styles.push(s);
                    assert(self@.styles =~= old(self)@.styles.push(s@));
                },
                None => {},
            },
            Some(SubStationSection::ScriptInfo) => match parse_script_info_line(line) {
                Some((key, value)) => {
                    self.info.insert(string_of(&key), string_of(&value));
                    assert(self@.info =~= old(self)@.info.insert(key@, value@));
                },
                None => {},
            },
            Some(SubStationSection::Fonts) => {
                self.fonts.push(copy_range(line, 0, line.len()));
                assert(line@.subrange(0, line@.len() as int) == line@);
                assert(self@.fonts =~= old(self)@.fonts.push(line@));
            },
            Some(SubStationSection::Graphics) => {
                self.graphics.push(copy_range(line, 0, line.len()));
                assert(line@.subrange(0, line@.len() as int) == line@);
                assert(self@.graphics =~= old(self)@.graphics.push(line@));
            },
        }
    }

    /// Reads one more line, given without its line ending.
    pub fn feed_line(&mut self, line: &str)
        ensures
            final(self)@ == fed(old(self)@, line@),
    {
        self.feed_chars(&to_chars(line));
    }

    /// The subtitle that the lines read so far make.
    pub fn finish(self) -> (r: SsaSubtitle)
        ensures
            r@ == finished(self@),
    {
        let script_info = build_script_info(&self.info);
        proof {
            reveal_strlit("fontname:");
            reveal_strlit("filename:");
        }
        let font_parts = parse_blobs(&join_lines(&self.fonts), "fontname:");
        let graphic_parts = parse_blobs(&join_lines(&self.graphics), "filename:");
        let mut fonts: Vec<SubStationFont> = Vec::new();
        let mut k: usize = 0;
        while k < font_parts.len()
            invariant
                k <= font_parts.len(),
                fonts@.len() == k,
                forall|j: int|
                    0 <= j < k ==> (#[trigger] fonts@[j])@ == (BlobView {
                        name: font_parts@[j].0@,
                        data: font_parts@[j].1@,
                    }),
            decreases font_parts.len() - k,
        {
            fonts.push(
                SubStationFont {
                    fontname: font_parts[k].0.clone(),
                    data: font_parts[k].1.clone(),
                },
            );
            k += 1;
        }
        let mut graphics: Vec<SubStationGraphic> = Vec::new();
        let mut k: usize = 0;
        while k < graphic_parts.len()
            invariant
                k <= graphic_parts.len(),
                graphics@.len() == k,
                forall|j: int|
                    0 <= j < k ==> (#[trigger] graphics@[j])@ == (BlobView {
                        name: graphic_parts@[j].0@,
                        data: graphic_parts@[j].1@,
                    }),
            decreases graphic_parts.len() - k,
        {
            graphics.push(
                SubStationGraphic {
                    filename: graphic_parts[k].0.clone(),
                    data: graphic_parts[k].1.clone(),
                },
            );
            k += 1;
        }
        let ghost draft = self@;
        let r = SsaSubtitle::new(
            script_info,
            self.dialogue,
            self.pictures,
            self.sounds,
            self.movies,
            self.commands,
            self.styles,
            fonts,
            graphics,
        );
        assert(r@.fonts =~= finished(draft).fonts);
        assert(r@.graphics =~= finished(draft).graphics);
        r
    }
}

/// Reads the text of an `.ssa` file.
pub fn parse_ssa(text: &str) -> (r: SsaSubtitle)
    ensures
        r@ == parsed(text@),
{
    let lines = split_lines(&to_chars(text));
    let mut parser = SsaParser::new();
    let mut k: usize = 0;
    while k < lines.len()
        invariant
            k <= lines.len(),
            rows_view(lines@) == lines_of(text@),
            fed_all(start_draft(), lines_of(text@), 0) == fed_all(
                parser@,
                lines_of(text@),
                k as int,
            ),
        decreases lines.len() - k,
    {
        parser.feed_chars(&lines[k]);
        k += 1;
    }
    parser.finish()
}

impl SsaSubtitle {
    /// Reads the text of an `.ssa` file. No text is refused: what cannot be
    /// read is passed over.
    pub fn from_str(s: &str) -> (r: Result<SsaSubtitle, Error>)
        ensures
            r is Ok,
            r->Ok_0@ == parsed(s@),
    {
        Ok(parse_ssa(s))
    }
}

impl core::str::FromStr for SsaSubtitle {
    type Err = Error;

    fn from_str(s: &str) -> (r: Result<SsaSubtitle, Error>)
        ensures
            r is Ok,
            r->Ok_0@ == parsed(s@),
    {
        Ok(parse_ssa(s))
    }
}

} // verus!
