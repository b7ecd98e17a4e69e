//! Event kinds and embedded files.

use crate::text::{int_text, opt_text, push_int, push_str, string_of, to_chars};
use crate::timing::{substation_timestamp, Moment};
use vstd::prelude::*;

verus! {

/// Types of events in SubStation files
#[derive(Clone, Copy, Debug, PartialEq, Eq, Structural)]
pub enum SubStationEventKind {
    /// Dialogue event. Used to show text on screen to represent dialogue or other textual content.
    Dialogue,
    /// Picture event. Used to display external graphics on screen during playback.
    Picture,
    /// Sound event. Used to play audio during playback.
    Sound,
    /// Movie event. Used to play the video during playback.
    Movie,
    /// Command event. Used to execute arbitrary commands during playback
    Command,
}

/// Embedded font data for SubStation files
#[derive(Debug)]
pub struct SubStationFont {
    /// Name of font
    pub fontname: String,
    /// Encoded data
    pub data: String,
}

/// Embedded graphics data for SubStation files
#[derive(Debug)]
pub struct SubStationGraphic {
    /// Name of file
    pub filename: String,
    /// Encoded data
    pub data: String,
}

/// A named block of embedded data, as mathematical values.
pub struct BlobView {
    pub name: Seq<char>,
    pub data: Seq<char>,
}

impl View for SubStationFont {
    type V = BlobView;

    open spec fn view(&self) -> BlobView {
        BlobView { name: self.fontname@, data: self.data@ }
    }
}

impl View for SubStationGraphic {
    type V = BlobView;

    open spec fn view(&self) -> BlobView {
        BlobView { name: self.filename@, data: self.data@ }
    }
}

/// The word that starts a line of the events section for each kind.
pub open spec fn kind_name(kind: SubStationEventKind) -> Seq<char> {
    match kind {
        SubStationEventKind::Dialogue => "Dialogue"@,
        SubStationEventKind::Picture => "Picture"@,
        SubStationEventKind::Sound => "Sound"@,
        SubStationEventKind::Movie => "Movie"@,
        SubStationEventKind::Command => "Command"@,
    }
}

/// An embedded block as it is written: the marker, the name, and the data
/// on the lines below, a line ending after each.
pub open spec fn blob_text(marker: Seq<char>, blob: BlobView) -> Seq<char> {
    marker + " "@ + blob.name + "\n"@ + blob.data + "\n"@
}

/// The text of an optional field: nothing where the field is absent.
pub open spec fn or_empty(o: Option<Seq<char>>) -> Seq<char> {
    match o {
        Some(t) => t,
        None => Seq::<char>::empty(),
    }
}

/// An entry of the script info section as it is written, on a line of its
/// own: nothing where the entry is absent.
pub open spec fn info_line(label: Seq<char>, value: Option<Seq<char>>) -> Seq<char> {
    match value {
        Some(v) => "\n"@ + label + ": "@ + v,
        None => Seq::<char>::empty(),
    }
}

/// What follows the first field of an event line: the two timestamps, the
/// style, the speaker, the three margins, the effect and the text, a comma
/// before each.
#[verifier::opaque]
pub open spec fn event_tail(
    start: Moment,
    end: Moment,
    style: Option<Seq<char>>,
    name: Option<Seq<char>>,
    margin_l: i64,
    margin_r: i64,
    margin_v: i64,
    effect: Option<Seq<char>>,
    text: Seq<char>,
) -> Seq<char> {
    ","@ + substation_timestamp(start@) + ","@ + substation_timestamp(end@) + ","@ + or_empty(style)
        + ","@ + or_empty(name) + ","@ + int_text(margin_l as int, 0) + ","@ + int_text(
        margin_r as int,
        0,
    ) + ","@ + int_text(margin_v as int, 0) + ","@ + or_empty(effect) + ","@ + text
}

/// A flag of a style as it is written: `-1` for true, `0` for false.
pub open spec fn flag_text(b: bool) -> Seq<char> {
    if b {
        "-1"@
    } else {
        "0"@
    }
}

/// The rows one after the other, a line feed after each.
pub open spec fn concat_lines(rows: Seq<Seq<char>>) -> Seq<char>
    decreases rows.len(),
{
    if rows.len() == 0 {
        Seq::<char>::empty()
    } else {
        concat_lines(rows.drop_last()) + rows.last() + "\n"@
    }
}

/// Appends the text of an optional field.
pub(crate) fn push_or_empty(out: &mut Vec<char>, o: &Option<String>)
    ensures
        final(out)@ == old(out)@ + or_empty(opt_text(*o)),
{
    match o {
        Some(t) => {
            push_str(out, t.as_str());
        },
        None => {
            assert(out@ + Seq::<char>::empty() == out@);
        },
    }
}

/// Appends an entry of the script info section.
pub(crate) fn push_info_line(out: &mut Vec<char>, label: &str, value: &Option<String>)
    ensures
        final(out)@ == old(out)@ + info_line(label@, opt_text(*value)),
{
    match value {
        Some(v) => {
            push_str(out, "\n");
            push_str(out, label);
            push_str(out, ": ");
            push_str(out, v.as_str());
            assert(out@ =~= old(out)@ + info_line(label@, opt_text(*value)));
        },
        None => {
            assert(out@ + Seq::<char>::empty() == out@);
        },
    }
}

/// Appends a flag of a style.
pub(crate) fn push_flag(out: &mut Vec<char>, b: bool)
    ensures
        final(out)@ == old(out)@ + flag_text(b),
{
    if b {
        push_str(out, "-1");
    } else {
        push_str(out, "0");
    }
}

/// Appends a comma and an integer.
pub(crate) fn push_comma_int(out: &mut Vec<char>, n: i64)
    ensures
        final(out)@ == old(out)@ + ","@ + int_text(n as int, 0),
{
    push_str(out, ",");
    push_int(out, n, 0);
}

/// Appends a comma and a flag of a style.
pub(crate) fn push_comma_flag(out: &mut Vec<char>, b: bool)
    ensures
        final(out)@ == old(out)@ + ","@ + flag_text(b),
{
    push_str(out, ",");
    push_flag(out, b);
}

/// Appends a row and a line feed.
pub(crate) fn push_row(out: &mut Vec<char>, row: &Vec<char>)
    ensures
        final(out)@ == old(out)@ + row@ + "\n"@,
{
    crate::text::push_all(out, row);
    push_str(out, "\n");
}

/// The rows up to row `k` are those up to row `k - 1`, row `k - 1` and a
/// line feed.
pub(crate) proof fn lemma_concat_lines_step(rows: Seq<Seq<char>>, k: int)
    requires
        0 < k <= rows.len(),
    ensures
        concat_lines(rows.take(k)) == concat_lines(rows.take(k - 1)) + rows[k - 1] + "\n"@,
{
    assert(rows.take(k).drop_last() == rows.take(k - 1));
}

/// Appends a comma and a text.
pub(crate) fn push_comma_str(out: &mut Vec<char>, t: &str)
    ensures
        final(out)@ == old(out)@ + ","@ + t@,
{
    push_str(out, ",");
    push_str(out, t);
}

/// What follows the first field of an event line.
pub(crate) fn event_tail_chars(
    start: Moment,
    end: Moment,
    style: &Option<String>,
    name: &Option<String>,
    margin_l: i64,
    margin_r: i64,
    margin_v: i64,
    effect: &Option<String>,
    text: &String,
) -> (out: Vec<char>)
    ensures
        out@ == event_tail(
            start,
            end,
            opt_text(*style),
            opt_text(*name),
            margin_l,
            margin_r,
            margin_v,
            opt_text(*effect),
            text@,
        ),
{
    proof {
        reveal(event_tail);
    }
    let mut out = to_chars(",");
    start.push_clock(&mut out, 1, '.', start.cs(), 2);
    push_str(&mut out, ",");
    end.push_clock(&mut out, 1, '.', end.cs(), 2);
    push_str(&mut out, ",");
    push_or_empty(&mut out, style);
    push_str(&mut out, ",");
    push_or_empty(&mut out, name);
    push_comma_int(&mut out, margin_l);
    push_comma_int(&mut out, margin_r);
    push_comma_int(&mut out, margin_v);
    push_str(&mut out, ",");
    push_or_empty(&mut out, effect);
    push_comma_str(&mut out, text.as_str());
    out
}

impl SubStationEventKind {
    /// The word that starts a line of this kind.
    pub fn name(&self) -> (r: &'static str)
        ensures
            r@ == kind_name(*self),
    {
        match self {
            SubStationEventKind::Dialogue => "Dialogue",
            SubStationEventKind::Picture => "Picture",
            SubStationEventKind::Sound => "Sound",
            SubStationEventKind::Movie => "Movie",
            SubStationEventKind::Command => "Command",
        }
    }

    /// The word that starts a line of this kind, as an owned string.
    pub fn to_string(&self) -> (r: String)
        ensures
            r@ == kind_name(*self),
    {
        string_of(&to_chars(self.name()))
    }
}

/// Appends an embedded block as it is written.
pub(crate) fn push_blob(out: &mut Vec<char>, marker: &str, name: &String, data: &String)
    ensures
        final(out)@ == old(out)@ + blob_text(marker@, BlobView { name: name@, data: data@ }),
{
    push_str(out, marker);
    push_str(out, " ");
    push_str(out, name.as_str());
    push_str(out, "\n");
    push_str(out, data.as_str());
    push_str(out, "\n");
    assert(out@ =~= old(out)@ + blob_text(marker@, BlobView { name: name@, data: data@ }));
}

impl SubStationFont {
    /// The font as it is written in a file.
    pub fn to_string(&self) -> (r: String)
        ensures
            r@ == blob_text("fontname:"@, self@),
    {
        let mut out: Vec<char> = Vec::new();
        push_blob(&mut out, "fontname:", &self.fontname, &self.data);
        string_of(&out)
    }
}

impl SubStationGraphic {
    /// The graphic as it is written in a file.
    pub fn to_string(&self) -> (r: String)
        ensures
            r@ == blob_text("filename:"@, self@),
    {
        let mut out: Vec<char> = Vec::new();
        push_blob(&mut out, "filename:", &self.filename, &self.data);
        string_of(&out)
    }
}

} // verus!
