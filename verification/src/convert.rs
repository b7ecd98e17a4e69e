//! One conversion for each pair of formats.
//!
//! A conversion copies the timing of every event and turns its text into the
//! syntax of the target format: first the marks that stand for a line feed,
//! then the formatting tags. Where the tags of a text cannot be scanned to
//! the end, that text keeps its tags as they are. Only the dialogue of a
//! SubStation subtitle is converted.

use crate::markup::{converted, converted_or_kept};
use crate::microdvd::data::{
    default_rate, TimedMicroDvdEvent, TimedMicroDvdEventView, TimedMicroDvdSubtitle,
    TimedMicroDvdSubtitleView,
};
use crate::plain::{PlainEvent, PlainEventView, PlainSubtitle};
use crate::subrip::convert::{
    srt_to_ass_formatting_rules, srt_to_ass_formatting_scheme, srt_to_ssa_formatting_rules,
    srt_to_ssa_formatting_scheme, srt_to_vtt_formatting_rules, srt_to_vtt_formatting_scheme,
};
use crate::subrip::data::{SubRipEvent, SubRipEventView, SubRipSubtitle};
use crate::substation::ass::convert::{
    ass_to_srt_formatting_rules, ass_to_srt_formatting_scheme, ass_to_vtt_formatting_rules,
    ass_to_vtt_formatting_scheme,
};
use crate::substation::ass::data::{
    AssEvent, AssEventView, AssScriptInfo, AssScriptInfoView, AssSubtitle, AssSubtitleView,
};
use crate::substation::common::convert::{split_formatting_tags_rules, split_formatting_tags_scheme};
use crate::substation::common::data::SubStationEventKind;
use crate::substation::ssa::convert::{
    ssa_to_srt_formatting_rules, ssa_to_srt_formatting_scheme, ssa_to_vtt_formatting_rules,
    ssa_to_vtt_formatting_scheme,
};
use crate::substation::ssa::data::{
    SsaEvent, SsaEventView, SsaScriptInfo, SsaScriptInfoView, SsaSubtitle, SsaSubtitleView,
};
use crate::markup::{Scheme, SchemeView};
use crate::text::{
    nat_digits, opt_text, parse_usize, push_nat, replace, replaced, string_of, to_chars, usize_of,
    views,
};
use crate::timing::FrameRate;
use crate::webvtt::convert::{
    vtt_to_ass_formatting_rules, vtt_to_ass_formatting_scheme, vtt_to_srt_formatting_rules,
    vtt_to_srt_formatting_scheme, vtt_to_ssa_formatting_rules, vtt_to_ssa_formatting_scheme,
};
use crate::webvtt::data::{WebVttCue, WebVttCueView, WebVttSubtitle, WebVttSubtitleView};
use vstd::prelude::*;

verus! {

/// The text of a SubStation event in the syntax that the rules `rules`
/// lead to: each `\N` becomes a line feed, each override block that bundles
/// several codes is split, and the codes are rewritten. Where the blocks
/// cannot be split or rewritten to the end, only the line feeds are changed.
pub open spec fn from_override_text(text: Seq<char>, rules: SchemeView) -> Seq<char> {
    let broken = replaced(text, "\\N"@, "\n"@);
    match converted(broken, split_formatting_tags_rules()) {
        Some(separated) => match converted(separated, rules) {
            Some(rewritten) => rewritten,
            None => broken,
        },
        None => broken,
    }
}

/// The text of an event as SubStation text by the rules `rules`: each line
/// feed becomes `\N`, and the tags are rewritten. Where the tags cannot be
/// rewritten to the end, only the line feeds are changed.
pub open spec fn to_override_text(text: Seq<char>, rules: SchemeView) -> Seq<char> {
    converted_or_kept(replaced(text, "\n"@, "\\N"@), rules)
}

/// The text of a SubStation event in another syntax: see
/// [`from_override_text`].
pub fn convert_from_override(text: &str, scheme: &Scheme) -> (r: String)
    ensures
        r@ == from_override_text(text@, scheme@),
{
    proof {
        reveal_strlit("\\N");
    }
    let broken = replace(text, "\\N", "\n");
    match split_formatting_tags_scheme().convert_str(broken.as_str()) {
        Some(separated) => match scheme.convert_str(separated.as_str()) {
            Some(rewritten) => rewritten,
            None => broken,
        },
        None => broken,
    }
}

/// The text of an event as SubStation text: see [`to_override_text`].
pub fn convert_to_override(text: &str, scheme: &Scheme) -> (r: String)
    ensures
        r@ == to_override_text(text@, scheme@),
{
    proof {
        reveal_strlit("\n");
    }
    scheme.convert_or_keep(replace(text, "\n", "\\N").as_str())
}

/// `text` with each `|` replaced by a line feed.
fn pipes_to_newlines(text: &str) -> (r: String)
    ensures
        r@ == replaced(text@, "|"@, "\n"@),
{
    proof {
        reveal_strlit("|");
    }
    replace(text, "|", "\n")
}

/// `text` with each `|` replaced by `\N`.
fn pipes_to_breaks(text: &str) -> (r: String)
    ensures
        r@ == replaced(text@, "|"@, "\\N"@),
{
    proof {
        reveal_strlit("|");
    }
    replace(text, "|", "\\N")
}

/// `text` with each line feed replaced by `\N`.
fn newlines_to_breaks(text: &str) -> (r: String)
    ensures
        r@ == replaced(text@, "\n"@, "\\N"@),
{
    proof {
        reveal_strlit("\n");
    }
    replace(text, "\n", "\\N")
}

/// `text` with each line feed replaced by `|`.
fn newlines_to_pipes(text: &str) -> (r: String)
    ensures
        r@ == replaced(text@, "\n"@, "|"@),
{
    proof {
        reveal_strlit("\n");
    }
    replace(text, "\n", "|")
}

/// The number of an event in decimal.
fn number_text(n: usize) -> (r: String)
    ensures
        r@ == nat_digits(n as nat),
{
    let mut out: Vec<char> = Vec::new();
    push_nat(&mut out, n as u64);
    assert(Seq::<char>::empty() + nat_digits(n as nat) == nat_digits(n as nat));
    string_of(&out)
}

/// The line number that the identifier of a cue gives: the number that it
/// writes, or else the place `k` of the cue, counted from one.
pub open spec fn line_number_of(identifier: Option<Seq<char>>, k: int) -> nat {
    match identifier {
        Some(id) => match usize_of(id) {
            Some(n) => n as nat,
            None => (k + 1) as nat,
        },
        None => (k + 1) as nat,
    }
}

/// The line number that the identifier of a cue gives.
fn line_number(identifier: &Option<String>, k: usize) -> (r: usize)
    requires
        k < usize::MAX,
    ensures
        r == line_number_of(opt_text(*identifier), k as int),
{
    match identifier {
        Some(id) => match parse_usize(&to_chars(id.as_str())) {
            Some(n) => n,
            None => k + 1,
        },
        None => k + 1,
    }
}

/// Script info of which only the title is set.
pub open spec fn ass_titled(title: Option<Seq<char>>) -> AssScriptInfoView {
    AssScriptInfoView {
        title,
        script_type: None,
        ..crate::substation::ass::data::default_script_info()
    }
}

/// Script info of which only the title is set.
pub open spec fn ssa_titled(title: Option<Seq<char>>) -> SsaScriptInfoView {
    SsaScriptInfoView {
        title,
        script_type: None,
        ..crate::substation::ssa::data::default_script_info()
    }
}

/// A copy of an optional string.
fn copy_opt(o: &Option<String>) -> (r: Option<String>)
    ensures
        opt_text(r) == opt_text(*o),
{
    match o {
        Some(t) => Some(t.clone()),
        None => None,
    }
}

/// A copy of an optional string reference.
fn copy_opt_ref(o: Option<&String>) -> (r: Option<String>)
    ensures
        opt_text(r) == match o {
            Some(t) => Some(t@),
            None => None,
        },
{
    match o {
        Some(t) => Some(t.clone()),
        None => None,
    }
}

/// The event that [`ass_to_subrip`] makes of the event `e` at place `k`.
pub open spec fn ass_to_subrip_event(e: AssEventView, k: int) -> SubRipEventView {
    SubRipEventView {
        line_number: (k + 1) as nat,
        text: from_override_text(e.text, ass_to_srt_formatting_rules()),
        start: e.start,
        end: e.end,
        coordinates: None,
    }
}

/// The subtitle that [`ass_to_subrip`] makes of `s`.
pub open spec fn ass_to_subrip_spec(s: AssSubtitleView) -> Seq<SubRipEventView> {
    Seq::new(s.dialogue.len(), |k: int| ass_to_subrip_event(s.dialogue[k], k))
}

/// Convert an `.ass` subtitle to SubRip format.
///
/// Replaces SubStation newline indicators (`\N`) with actual newlines, and
/// converts the formatting tags to SubRip tags. Bold, italic, underlined and coloured
/// text is converted; all other tags are discarded. Events are numbered from one.
pub fn ass_to_subrip(value: &AssSubtitle) -> (r: SubRipSubtitle)
    ensures
        r@ == ass_to_subrip_spec(value@),
{
    let scheme = ass_to_srt_formatting_scheme();
    let events = value.events();
    let mut out: Vec<SubRipEvent> = Vec::new();
    let mut k: usize = 0;
    while k < events.len()
        invariant
            k <= events.len(),
            out@.len() == k,
            views(events@) == value@.dialogue,
            scheme@ == ass_to_srt_formatting_rules(),
            forall|j: int|
                0 <= j < k ==> (#[trigger] out@[j])@ == ass_to_subrip_event(events@[j]@, j),
        decreases events.len() - k,
    {
        let e = &events[k];
        out.push(
            SubRipEvent {
                line_number: k + 1,
                text: convert_from_override(e.text.as_str(), &scheme),
                start: e.start,
                end: e.end,
                coordinates: None,
            }
        );
        k += 1;
    }
    assert(
        views(out@) =~= Seq::new(
            value@.dialogue.len(),
            |k: int| ass_to_subrip_event(value@.dialogue[k], k),
        )
    );
    SubRipSubtitle::from_events(out)
}

impl vstd::std_specs::convert::FromSpecImpl<&AssSubtitle> for SubRipSubtitle {
    open spec fn obeys_from_spec() -> bool {
        false
    }

    open spec fn from_spec(v: &AssSubtitle) -> SubRipSubtitle {
        arbitrary()
    }
}

/// Convert an `.ass` subtitle to SubRip format.
///
/// Replaces SubStation newline indicators (`\N`) with actual newlines, and
/// converts the formatting tags to SubRip tags. Bold, italic, underlined and coloured
/// text is converted; all other tags are discarded. Events are numbered from one.
impl From<&AssSubtitle> for SubRipSubtitle {
    fn from(value: &AssSubtitle) -> (r: SubRipSubtitle)
        ensures
            r@ == ass_to_subrip_spec(value@),
    {
        ass_to_subrip(value)
    }
}

impl vstd::std_specs::convert::FromSpecImpl<AssSubtitle> for SubRipSubtitle {
    open spec fn obeys_from_spec() -> bool {
        false
    }

    open spec fn from_spec(v: AssSubtitle) -> SubRipSubtitle {
        arbitrary()
    }
}

/// Convert an `.ass` subtitle to SubRip format.
///
/// Replaces SubStation newline indicators (`\N`) with actual newlines, and
/// converts the formatting tags to SubRip tags. Bold, italic, underlined and coloured
/// text is converted; all other tags are discarded. Events are numbered from one.
impl From<AssSubtitle> for SubRipSubtitle {
    fn from(value: AssSubtitle) -> (r: SubRipSubtitle)
        ensures
            r@ == ass_to_subrip_spec(value@),
    {
        ass_to_subrip(&value)
    }
}

/// The event that [`ssa_to_subrip`] makes of the event `e` at place `k`.
pub open spec fn ssa_to_subrip_event(e: SsaEventView, k: int) -> SubRipEventView {
    SubRipEventView {
        line_number: (k + 1) as nat,
        text: from_override_text(e.text, ssa_to_srt_formatting_rules()),
        start: e.start,
        end: e.end,
        coordinates: None,
    }
}

/// The subtitle that [`ssa_to_subrip`] makes of `s`.
pub open spec fn ssa_to_subrip_spec(s: SsaSubtitleView) -> Seq<SubRipEventView> {
    Seq::new(s.dialogue.len(), |k: int| ssa_to_subrip_event(s.dialogue[k], k))
}

/// Convert an `.ssa` subtitle to SubRip format.
///
/// Replaces SubStation newline indicators (`\N`) with actual newlines, and
/// converts the formatting tags to SubRip tags. Bold, italic and coloured
/// text is converted; all other tags are discarded. Events are numbered from one.
pub fn ssa_to_subrip(value: &SsaSubtitle) -> (r: SubRipSubtitle)
    ensures
        r@ == ssa_to_subrip_spec(value@),
{
    let scheme = ssa_to_srt_formatting_scheme();
    let events = value.events();
    let mut out: Vec<SubRipEvent> = Vec::new();
    let mut k: usize = 0;
    while k < events.len()
        invariant
            k <= events.len(),
            out@.len() == k,
            views(events@) == value@.dialogue,
            scheme@ == ssa_to_srt_formatting_rules(),
            forall|j: int|
                0 <= j < k ==> (#[trigger] out@[j])@ == ssa_to_subrip_event(events@[j]@, j),
        decreases events.len() - k,
    {
        let e = &events[k];
        out.push(
            SubRipEvent {
                line_number: k + 1,
                text: convert_from_override(e.text.as_str(), &scheme),
                start: e.start,
                end: e.end,
                coordinates: None,
            }
        );
        k += 1;
    }
    assert(
        views(out@) =~= Seq::new(
            value@.dialogue.len(),
            |k: int| ssa_to_subrip_event(value@.dialogue[k], k),
        )
    );
    SubRipSubtitle::from_events(out)
}

impl vstd::std_specs::convert::FromSpecImpl<&SsaSubtitle> for SubRipSubtitle {
    open spec fn obeys_from_spec() -> bool {
        false
    }

    open spec fn from_spec(v: &SsaSubtitle) -> SubRipSubtitle {
        arbitrary()
    }
}

/// Convert an `.ssa` subtitle to SubRip format.
///
/// Replaces SubStation newline indicators (`\N`) with actual newlines, and
/// converts the formatting tags to SubRip tags. Bold, italic and coloured
/// text is converted; all other tags are discarded. Events are numbered from one.
impl From<&SsaSubtitle> for SubRipSubtitle {
    fn from(value: &SsaSubtitle) -> (r: SubRipSubtitle)
        ensures
            r@ == ssa_to_subrip_spec(value@),
    {
        ssa_to_subrip(value)
    }
}

impl vstd::std_specs::convert::FromSpecImpl<SsaSubtitle> for SubRipSubtitle {
    open spec fn obeys_from_spec() -> bool {
        false
    }

    open spec fn from_spec(v: SsaSubtitle) -> SubRipSubtitle {
        arbitrary()
    }
}

/// Convert an `.ssa` subtitle to SubRip format.
///
/// Replaces SubStation newline indicators (`\N`) with actual newlines, and
/// converts the formatting tags to SubRip tags. Bold, italic and coloured
/// text is converted; all other tags are discarded. Events are numbered from one.
impl From<SsaSubtitle> for SubRipSubtitle {
    fn from(value: SsaSubtitle) -> (r: SubRipSubtitle)
        ensures
            r@ == ssa_to_subrip_spec(value@),
    {
        ssa_to_subrip(&value)
    }
}

/// The event that [`webvtt_to_subrip`] makes of the event `e` at place `k`.
pub open spec fn webvtt_to_subrip_event(e: WebVttCueView, k: int) -> SubRipEventView {
    SubRipEventView {
        line_number: line_number_of(e.identifier, k),
        text: converted_or_kept(e.text, vtt_to_srt_formatting_rules()),
        start: e.start,
        end: e.end,
        coordinates: None,
    }
}

/// The subtitle that [`webvtt_to_subrip`] makes of `s`.
pub open spec fn webvtt_to_subrip_spec(s: WebVttSubtitleView) -> Seq<SubRipEventView> {
    Seq::new(s.cues.len(), |k: int| webvtt_to_subrip_event(s.cues[k], k))
}

/// Convert WebVTT (.vtt) subtitle to SubRip format.
///
/// Cue identifiers that are numbers will be treated as line numbers for the
/// corresponding event; any other event gets its place in the list, counted from one.
pub fn webvtt_to_subrip(value: &WebVttSubtitle) -> (r: SubRipSubtitle)
    ensures
        r@ == webvtt_to_subrip_spec(value@),
{
    let scheme = vtt_to_srt_formatting_scheme();
    let events = value.events();
    let mut out: Vec<SubRipEvent> = Vec::new();
    let mut k: usize = 0;
    while k < events.len()
        invariant
            k <= events.len(),
            out@.len() == k,
            views(events@) == value@.cues,
            scheme@ == vtt_to_srt_formatting_rules(),
            forall|j: int|
                0 <= j < k ==> (#[trigger] out@[j])@ == webvtt_to_subrip_event(events@[j]@, j),
        decreases events.len() - k,
    {
        let e = &events[k];
        out.push(
            SubRipEvent {
                line_number: line_number(&e.identifier, k),
                text: scheme.convert_or_keep(e.text.as_str()),
                start: e.start,
                end: e.end,
                coordinates: None,
            }
        );
        k += 1;
    }
    assert(
        views(out@) =~= Seq::new(
            value@.cues.len(),
            |k: int| webvtt_to_subrip_event(value@.cues[k], k),
        )
    );
    SubRipSubtitle::from_events(out)
}

impl vstd::std_specs::convert::FromSpecImpl<&WebVttSubtitle> for SubRipSubtitle {
    open spec fn obeys_from_spec() -> bool {
        false
    }

    open spec fn from_spec(v: &WebVttSubtitle) -> SubRipSubtitle {
        arbitrary()
    }
}

/// Convert WebVTT (.vtt) subtitle to SubRip format.
///
/// Cue identifiers that are numbers will be treated as line numbers for the
/// corresponding event; any other event gets its place in the list, counted from one.
impl From<&WebVttSubtitle> for SubRipSubtitle {
    fn from(value: &WebVttSubtitle) -> (r: SubRipSubtitle)
        ensures
            r@ == webvtt_to_subrip_spec(value@),
    {
        webvtt_to_subrip(value)
    }
}

impl vstd::std_specs::convert::FromSpecImpl<WebVttSubtitle> for SubRipSubtitle {
    open spec fn obeys_from_spec() -> bool {
        false
    }

    open spec fn from_spec(v: WebVttSubtitle) -> SubRipSubtitle {
        arbitrary()
    }
}

/// Convert WebVTT (.vtt) subtitle to SubRip format.
///
/// Cue identifiers that are numbers will be treated as line numbers for the
/// corresponding event; any other event gets its place in the list, counted from one.
impl From<WebVttSubtitle> for SubRipSubtitle {
    fn from(value: WebVttSubtitle) -> (r: SubRipSubtitle)
        ensures
            r@ == webvtt_to_subrip_spec(value@),
    {
        webvtt_to_subrip(&value)
    }
}

/// The event that [`microdvd_to_subrip`] makes of the event `e` at place `k`.
pub open spec fn microdvd_to_subrip_event(e: TimedMicroDvdEventView, k: int) -> SubRipEventView {
    SubRipEventView {
        line_number: (k + 1) as nat,
        text: replaced(e.text, "|"@, "\n"@),
        start: e.start,
        end: e.end,
        coordinates: None,
    }
}

/// The subtitle that [`microdvd_to_subrip`] makes of `s`.
pub open spec fn microdvd_to_subrip_spec(s: TimedMicroDvdSubtitleView) -> Seq<SubRipEventView> {
    Seq::new(s.events.len(), |k: int| microdvd_to_subrip_event(s.events[k], k))
}

/// Convert a timed MicroDVD subtitle to SubRip format: each `|` becomes a line
/// feed. Events are numbered from one.
pub fn microdvd_to_subrip(value: &TimedMicroDvdSubtitle) -> (r: SubRipSubtitle)
    ensures
        r@ == microdvd_to_subrip_spec(value@),
{
    let events = value.events();
    let mut out: Vec<SubRipEvent> = Vec::new();
    let mut k: usize = 0;
    while k < events.len()
        invariant
            k <= events.len(),
            out@.len() == k,
            views(events@) == value@.events,
            forall|j: int|
                0 <= j < k ==> (#[trigger] out@[j])@ == microdvd_to_subrip_event(events@[j]@, j),
        decreases events.len() - k,
    {
        let e = &events[k];
        out.push(
            SubRipEvent {
                line_number: k + 1,
                text: pipes_to_newlines(e.text.as_str()),
                start: e.start,
                end: e.end,
                coordinates: None,
            }
        );
        k += 1;
    }
    assert(
        views(out@) =~= Seq::new(
            value@.events.len(),
            |k: int| microdvd_to_subrip_event(value@.events[k], k),
        )
    );
    SubRipSubtitle::from_events(out)
}

impl vstd::std_specs::convert::FromSpecImpl<&TimedMicroDvdSubtitle> for SubRipSubtitle {
    open spec fn obeys_from_spec() -> bool {
        false
    }

    open spec fn from_spec(v: &TimedMicroDvdSubtitle) -> SubRipSubtitle {
        arbitrary()
    }
}

/// Convert a timed MicroDVD subtitle to SubRip format: each `|` becomes a line
/// feed. Events are numbered from one.
impl From<&TimedMicroDvdSubtitle> for SubRipSubtitle {
    fn from(value: &TimedMicroDvdSubtitle) -> (r: SubRipSubtitle)
        ensures
            r@ == microdvd_to_subrip_spec(value@),
    {
        microdvd_to_subrip(value)
    }
}

impl vstd::std_specs::convert::FromSpecImpl<TimedMicroDvdSubtitle> for SubRipSubtitle {
    open spec fn obeys_from_spec() -> bool {
        false
    }

    open spec fn from_spec(v: TimedMicroDvdSubtitle) -> SubRipSubtitle {
        arbitrary()
    }
}

/// Convert a timed MicroDVD subtitle to SubRip format: each `|` becomes a line
/// feed. Events are numbered from one.
impl From<TimedMicroDvdSubtitle> for SubRipSubtitle {
    fn from(value: TimedMicroDvdSubtitle) -> (r: SubRipSubtitle)
        ensures
            r@ == microdvd_to_subrip_spec(value@),
    {
        microdvd_to_subrip(&value)
    }
}

/// The event that [`plain_to_subrip`] makes of the event `e` at place `k`.
pub open spec fn plain_to_subrip_event(e: PlainEventView, k: int) -> SubRipEventView {
    SubRipEventView {
        line_number: (k + 1) as nat,
        text: e.text,
        start: e.start,
        end: e.end,
        coordinates: None,
    }
}

/// The subtitle that [`plain_to_subrip`] makes of `s`.
pub open spec fn plain_to_subrip_spec(s: Seq<PlainEventView>) -> Seq<SubRipEventView> {
    Seq::new(s.len(), |k: int| plain_to_subrip_event(s[k], k))
}

/// Convert a plain subtitle to SubRip format. Events are numbered from one.
pub fn plain_to_subrip(value: &PlainSubtitle) -> (r: SubRipSubtitle)
    ensures
        r@ == plain_to_subrip_spec(value@),
{
    let events = value.events();
    let mut out: Vec<SubRipEvent> = Vec::new();
    let mut k: usize = 0;
    while k < events.len()
        invariant
            k <= events.len(),
            out@.len() == k,
            views(events@) == value@,
            forall|j: int|
                0 <= j < k ==> (#[trigger] out@[j])@ == plain_to_subrip_event(events@[j]@, j),
        decreases events.len() - k,
    {
        let e = &events[k];
        out.push(
            SubRipEvent {
                line_number: k + 1,
                text: e.text.clone(),
                start: e.start,
                end: e.end,
                coordinates: None,
            }
        );
        k += 1;
    }
    assert(views(out@) =~= Seq::new(value@.len(), |k: int| plain_to_subrip_event(value@[k], k)));
    SubRipSubtitle::from_events(out)
}

impl vstd::std_specs::convert::FromSpecImpl<&PlainSubtitle> for SubRipSubtitle {
    open spec fn obeys_from_spec() -> bool {
        false
    }

    open spec fn from_spec(v: &PlainSubtitle) -> SubRipSubtitle {
        arbitrary()
    }
}

/// Convert a plain subtitle to SubRip format. Events are numbered from one.
impl From<&PlainSubtitle> for SubRipSubtitle {
    fn from(value: &PlainSubtitle) -> (r: SubRipSubtitle)
        ensures
            r@ == plain_to_subrip_spec(value@),
    {
        plain_to_subrip(value)
    }
}

impl vstd::std_specs::convert::FromSpecImpl<PlainSubtitle> for SubRipSubtitle {
    open spec fn obeys_from_spec() -> bool {
        false
    }

    open spec fn from_spec(v: PlainSubtitle) -> SubRipSubtitle {
        arbitrary()
    }
}

/// Convert a plain subtitle to SubRip format. Events are numbered from one.
impl From<PlainSubtitle> for SubRipSubtitle {
    fn from(value: PlainSubtitle) -> (r: SubRipSubtitle)
        ensures
            r@ == plain_to_subrip_spec(value@),
    {
        plain_to_subrip(&value)
    }
}

/// The event that [`ass_to_webvtt`] makes of the event `e` at place `k`.
pub open spec fn ass_to_webvtt_event(e: AssEventView, k: int) -> WebVttCueView {
    WebVttCueView {
        identifier: None,
        text: from_override_text(e.text, ass_to_vtt_formatting_rules()),
        settings: None,
        start: e.start,
        end: e.end,
    }
}

/// The subtitle that [`ass_to_webvtt`] makes of `s`.
pub open spec fn ass_to_webvtt_spec(s: AssSubtitleView) -> WebVttSubtitleView {
    WebVttSubtitleView {
        header: s.script_info.title,
        cues: Seq::new(s.dialogue.len(), |k: int| ass_to_webvtt_event(s.dialogue[k], k)),
        styles: Seq::empty(),
        regions: Seq::empty(),
    }
}

/// Convert an `.ass` subtitle to WebVTT format.
///
/// Replaces SubStation newline indicators (`\N`) with actual newlines, and
/// converts bold, underlined and italic text; all other tags are discarded.
/// The title of the script info becomes the header.
pub fn ass_to_webvtt(value: &AssSubtitle) -> (r: WebVttSubtitle)
    ensures
        r@ == ass_to_webvtt_spec(value@),
{
    let scheme = ass_to_vtt_formatting_scheme();
    let events = value.events();
    let mut out: Vec<WebVttCue> = Vec::new();
    let mut k: usize = 0;
    while k < events.len()
        invariant
            k <= events.len(),
            out@.len() == k,
            views(events@) == value@.dialogue,
            scheme@ == ass_to_vtt_formatting_rules(),
            forall|j: int|
                0 <= j < k ==> (#[trigger] out@[j])@ == ass_to_webvtt_event(events@[j]@, j),
        decreases events.len() - k,
    {
        let e = &events[k];
        out.push(
            WebVttCue {
                identifier: None,
                text: convert_from_override(e.text.as_str(), &scheme),
                settings: None,
                start: e.start,
                end: e.end,
            }
        );
        k += 1;
    }
    assert(
        views(out@) =~= Seq::new(
            value@.dialogue.len(),
            |k: int| ass_to_webvtt_event(value@.dialogue[k], k),
        )
    );
    WebVttSubtitle::from_cues(copy_opt(&value.script_info().title), out)
}

impl vstd::std_specs::convert::FromSpecImpl<&AssSubtitle> for WebVttSubtitle {
    open spec fn obeys_from_spec() -> bool {
        false
    }

    open spec fn from_spec(v: &AssSubtitle) -> WebVttSubtitle {
        arbitrary()
    }
}

/// Convert an `.ass` subtitle to WebVTT format.
///
/// Replaces SubStation newline indicators (`\N`) with actual newlines, and
/// converts bold, underlined and italic text; all other tags are discarded.
/// The title of the script info becomes the header.
impl From<&AssSubtitle> for WebVttSubtitle {
    fn from(value: &AssSubtitle) -> (r: WebVttSubtitle)
        ensures
            r@ == ass_to_webvtt_spec(value@),
    {
        ass_to_webvtt(value)
    }
}

impl vstd::std_specs::convert::FromSpecImpl<AssSubtitle> for WebVttSubtitle {
    open spec fn obeys_from_spec() -> bool {
        false
    }

    open spec fn from_spec(v: AssSubtitle) -> WebVttSubtitle {
        arbitrary()
    }
}

/// Convert an `.ass` subtitle to WebVTT format.
///
/// Replaces SubStation newline indicators (`\N`) with actual newlines, and
/// converts bold, underlined and italic text; all other tags are discarded.
/// The title of the script info becomes the header.
impl From<AssSubtitle> for WebVttSubtitle {
    fn from(value: AssSubtitle) -> (r: WebVttSubtitle)
        ensures
            r@ == ass_to_webvtt_spec(value@),
    {
        ass_to_webvtt(&value)
    }
}

/// The event that [`ssa_to_webvtt`] makes of the event `e` at place `k`.
pub open spec fn ssa_to_webvtt_event(e: SsaEventView, k: int) -> WebVttCueView {
    WebVttCueView {
        identifier: None,
        text: from_override_text(e.text, ssa_to_vtt_formatting_rules()),
        settings: None,
        start: e.start,
        end: e.end,
    }
}

/// The subtitle that [`ssa_to_webvtt`] makes of `s`.
pub open spec fn ssa_to_webvtt_spec(s: SsaSubtitleView) -> WebVttSubtitleView {
    WebVttSubtitleView {
        header: None,
        cues: Seq::new(s.dialogue.len(), |k: int| ssa_to_webvtt_event(s.dialogue[k], k)),
        styles: Seq::empty(),
        regions: Seq::empty(),
    }
}

/// Convert an `.ssa` subtitle to WebVTT format.
///
/// Replaces SubStation newline indicators (`\N`) with actual newlines, and
/// converts bold and italic text; all other tags are discarded.
/// The subtitle gets no header.
pub fn ssa_to_webvtt(value: &SsaSubtitle) -> (r: WebVttSubtitle)
    ensures
        r@ == ssa_to_webvtt_spec(value@),
{
    let scheme = ssa_to_vtt_formatting_scheme();
    let events = value.events();
    let mut out: Vec<WebVttCue> = Vec::new();
    let mut k: usize = 0;
    while k < events.len()
        invariant
            k <= events.len(),
            out@.len() == k,
            views(events@) == value@.dialogue,
            scheme@ == ssa_to_vtt_formatting_rules(),
            forall|j: int|
                0 <= j < k ==> (#[trigger] out@[j])@ == ssa_to_webvtt_event(events@[j]@, j),
        decreases events.len() - k,
    {
        let e = &events[k];
        out.push(
            WebVttCue {
                identifier: None,
                text: convert_from_override(e.text.as_str(), &scheme),
                settings: None,
                start: e.start,
                end: e.end,
            }
        );
        k += 1;
    }
    assert(
        views(out@) =~= Seq::new(
            value@.dialogue.len(),
            |k: int| ssa_to_webvtt_event(value@.dialogue[k], k),
        )
    );
    WebVttSubtitle::from_cues(None, out)
}

impl vstd::std_specs::convert::FromSpecImpl<&SsaSubtitle> for WebVttSubtitle {
    open spec fn obeys_from_spec() -> bool {
        false
    }

    open spec fn from_spec(v: &SsaSubtitle) -> WebVttSubtitle {
        arbitrary()
    }
}

/// Convert an `.ssa` subtitle to WebVTT format.
///
/// Replaces SubStation newline indicators (`\N`) with actual newlines, and
/// converts bold and italic text; all other tags are discarded.
/// The subtitle gets no header.
impl From<&SsaSubtitle> for WebVttSubtitle {
    fn from(value: &SsaSubtitle) -> (r: WebVttSubtitle)
        ensures
            r@ == ssa_to_webvtt_spec(value@),
    {
        ssa_to_webvtt(value)
    }
}

impl vstd::std_specs::convert::FromSpecImpl<SsaSubtitle> for WebVttSubtitle {
    open spec fn obeys_from_spec() -> bool {
        false
    }

    open spec fn from_spec(v: SsaSubtitle) -> WebVttSubtitle {
        arbitrary()
    }
}

/// Convert an `.ssa` subtitle to WebVTT format.
///
/// Replaces SubStation newline indicators (`\N`) with actual newlines, and
/// converts bold and italic text; all other tags are discarded.
/// The subtitle gets no header.
impl From<SsaSubtitle> for WebVttSubtitle {
    fn from(value: SsaSubtitle) -> (r: WebVttSubtitle)
        ensures
            r@ == ssa_to_webvtt_spec(value@),
    {
        ssa_to_webvtt(&value)
    }
}

/// The event that [`subrip_to_webvtt`] makes of the event `e` at place `k`.
pub open spec fn subrip_to_webvtt_event(e: SubRipEventView, k: int) -> WebVttCueView {
    WebVttCueView {
        identifier: Some(nat_digits(e.line_number)),
        text: converted_or_kept(e.text, srt_to_vtt_formatting_rules()),
        settings: None,
        start: e.start,
        end: e.end,
    }
}

/// The subtitle that [`subrip_to_webvtt`] makes of `s`.
pub open spec fn subrip_to_webvtt_spec(s: Seq<SubRipEventView>) -> WebVttSubtitleView {
    WebVttSubtitleView {
        header: None,
        cues: Seq::new(s.len(), |k: int| subrip_to_webvtt_event(s[k], k)),
        styles: Seq::empty(),
        regions: Seq::empty(),
    }
}

/// Convert a SubRip (.srt) subtitle to WebVTT format.
///
/// This sets the line number as the cue identifier.
///
/// The supported tags are `<b>`, `<i>`, and `<u>`. Any other tags will be stripped from the text.
///
/// Bracket tags (of the form `{b}`) will be converted to HTML tags (`<b>`).
pub fn subrip_to_webvtt(value: &SubRipSubtitle) -> (r: WebVttSubtitle)
    ensures
        r@ == subrip_to_webvtt_spec(value@),
{
    let scheme = srt_to_vtt_formatting_scheme();
    let events = value.events();
    let mut out: Vec<WebVttCue> = Vec::new();
    let mut k: usize = 0;
    while k < events.len()
        invariant
            k <= events.len(),
            out@.len() == k,
            views(events@) == value@,
            scheme@ == srt_to_vtt_formatting_rules(),
            forall|j: int|
                0 <= j < k ==> (#[trigger] out@[j])@ == subrip_to_webvtt_event(events@[j]@, j),
        decreases events.len() - k,
    {
        let e = &events[k];
        out.push(
            WebVttCue {
                identifier: Some(number_text(e.line_number)),
                text: scheme.convert_or_keep(e.text.as_str()),
                settings: None,
                start: e.start,
                end: e.end,
            }
        );
        k += 1;
    }
    assert(views(out@) =~= Seq::new(value@.len(), |k: int| subrip_to_webvtt_event(value@[k], k)));
    WebVttSubtitle::from_cues(None, out)
}

impl vstd::std_specs::convert::FromSpecImpl<&SubRipSubtitle> for WebVttSubtitle {
    open spec fn obeys_from_spec() -> bool {
        false
    }

    open spec fn from_spec(v: &SubRipSubtitle) -> WebVttSubtitle {
        arbitrary()
    }
}

/// Convert a SubRip (.srt) subtitle to WebVTT format.
///
/// This sets the line number as the cue identifier.
///
/// The supported tags are `<b>`, `<i>`, and `<u>`. Any other tags will be stripped from the text.
///
/// Bracket tags (of the form `{b}`) will be converted to HTML tags (`<b>`).
impl From<&SubRipSubtitle> for WebVttSubtitle {
    fn from(value: &SubRipSubtitle) -> (r: WebVttSubtitle)
        ensures
            r@ == subrip_to_webvtt_spec(value@),
    {
        subrip_to_webvtt(value)
    }
}

impl vstd::std_specs::convert::FromSpecImpl<SubRipSubtitle> for WebVttSubtitle {
    open spec fn obeys_from_spec() -> bool {
        false
    }

    open spec fn from_spec(v: SubRipSubtitle) -> WebVttSubtitle {
        arbitrary()
    }
}

/// Convert a SubRip (.srt) subtitle to WebVTT format.
///
/// This sets the line number as the cue identifier.
///
/// The supported tags are `<b>`, `<i>`, and `<u>`. Any other tags will be stripped from the text.
///
/// Bracket tags (of the form `{b}`) will be converted to HTML tags (`<b>`).
impl From<SubRipSubtitle> for WebVttSubtitle {
    fn from(value: SubRipSubtitle) -> (r: WebVttSubtitle)
        ensures
            r@ == subrip_to_webvtt_spec(value@),
    {
        subrip_to_webvtt(&value)
    }
}

/// The event that [`microdvd_to_webvtt`] makes of the event `e` at place `k`.
pub open spec fn microdvd_to_webvtt_event(e: TimedMicroDvdEventView, k: int) -> WebVttCueView {
    WebVttCueView {
        identifier: None,
        text: replaced(e.text, "|"@, "\n"@),
        settings: None,
        start: e.start,
        end: e.end,
    }
}

/// The subtitle that [`microdvd_to_webvtt`] makes of `s`.
pub open spec fn microdvd_to_webvtt_spec(s: TimedMicroDvdSubtitleView) -> WebVttSubtitleView {
    WebVttSubtitleView {
        header: None,
        cues: Seq::new(s.events.len(), |k: int| microdvd_to_webvtt_event(s.events[k], k)),
        styles: Seq::empty(),
        regions: Seq::empty(),
    }
}

/// Convert a timed MicroDVD subtitle to WebVTT format: each `|` becomes a line
/// feed.
pub fn microdvd_to_webvtt(value: &TimedMicroDvdSubtitle) -> (r: WebVttSubtitle)
    ensures
        r@ == microdvd_to_webvtt_spec(value@),
{
    let events = value.events();
    let mut out: Vec<WebVttCue> = Vec::new();
    let mut k: usize = 0;
    while k < events.len()
        invariant
            k <= events.len(),
            out@.len() == k,
            views(events@) == value@.events,
            forall|j: int|
                0 <= j < k ==> (#[trigger] out@[j])@ == microdvd_to_webvtt_event(events@[j]@, j),
        decreases events.len() - k,
    {
        let e = &events[k];
        out.push(
            WebVttCue {
                identifier: None,
                text: pipes_to_newlines(e.text.as_str()),
                settings: None,
                start: e.start,
                end: e.end,
            }
        );
        k += 1;
    }
    assert(
        views(out@) =~= Seq::new(
            value@.events.len(),
            |k: int| microdvd_to_webvtt_event(value@.events[k], k),
        )
    );
    WebVttSubtitle::from_cues(None, out)
}

impl vstd::std_specs::convert::FromSpecImpl<&TimedMicroDvdSubtitle> for WebVttSubtitle {
    open spec fn obeys_from_spec() -> bool {
        false
    }

    open spec fn from_spec(v: &TimedMicroDvdSubtitle) -> WebVttSubtitle {
        arbitrary()
    }
}

/// Convert a timed MicroDVD subtitle to WebVTT format: each `|` becomes a line
/// feed.
impl From<&TimedMicroDvdSubtitle> for WebVttSubtitle {
    fn from(value: &TimedMicroDvdSubtitle) -> (r: WebVttSubtitle)
        ensures
            r@ == microdvd_to_webvtt_spec(value@),
    {
        microdvd_to_webvtt(value)
    }
}

impl vstd::std_specs::convert::FromSpecImpl<TimedMicroDvdSubtitle> for WebVttSubtitle {
    open spec fn obeys_from_spec() -> bool {
        false
    }

    open spec fn from_spec(v: TimedMicroDvdSubtitle) -> WebVttSubtitle {
        arbitrary()
    }
}

/// Convert a timed MicroDVD subtitle to WebVTT format: each `|` becomes a line
/// feed.
impl From<TimedMicroDvdSubtitle> for WebVttSubtitle {
    fn from(value: TimedMicroDvdSubtitle) -> (r: WebVttSubtitle)
        ensures
            r@ == microdvd_to_webvtt_spec(value@),
    {
        microdvd_to_webvtt(&value)
    }
}

/// The event that [`plain_to_webvtt`] makes of the event `e` at place `k`.
pub open spec fn plain_to_webvtt_event(e: PlainEventView, k: int) -> WebVttCueView {
    WebVttCueView { identifier: None, text: e.text, settings: None, start: e.start, end: e.end }
}

/// The subtitle that [`plain_to_webvtt`] makes of `s`.
pub open spec fn plain_to_webvtt_spec(s: Seq<PlainEventView>) -> WebVttSubtitleView {
    WebVttSubtitleView {
        header: None,
        cues: Seq::new(s.len(), |k: int| plain_to_webvtt_event(s[k], k)),
        styles: Seq::empty(),
        regions: Seq::empty(),
    }
}

/// Convert a plain subtitle to WebVTT format.
pub fn plain_to_webvtt(value: &PlainSubtitle) -> (r: WebVttSubtitle)
    ensures
        r@ == plain_to_webvtt_spec(value@),
{
    let events = value.events();
    let mut out: Vec<WebVttCue> = Vec::new();
    let mut k: usize = 0;
    while k < events.len()
        invariant
            k <= events.len(),
            out@.len() == k,
            views(events@) == value@,
            forall|j: int|
                0 <= j < k ==> (#[trigger] out@[j])@ == plain_to_webvtt_event(events@[j]@, j),
        decreases events.len() - k,
    {
        let e = &events[k];
        out.push(
            WebVttCue {
                identifier: None,
                text: e.text.clone(),
                settings: None,
                start: e.start,
                end: e.end,
            }
        );
        k += 1;
    }
    assert(views(out@) =~= Seq::new(value@.len(), |k: int| plain_to_webvtt_event(value@[k], k)));
    WebVttSubtitle::from_cues(None, out)
}

impl vstd::std_specs::convert::FromSpecImpl<&PlainSubtitle> for WebVttSubtitle {
    open spec fn obeys_from_spec() -> bool {
        false
    }

    open spec fn from_spec(v: &PlainSubtitle) -> WebVttSubtitle {
        arbitrary()
    }
}

/// Convert a plain subtitle to WebVTT format.
impl From<&PlainSubtitle> for WebVttSubtitle {
    fn from(value: &PlainSubtitle) -> (r: WebVttSubtitle)
        ensures
            r@ == plain_to_webvtt_spec(value@),
    {
        plain_to_webvtt(value)
    }
}

impl vstd::std_specs::convert::FromSpecImpl<PlainSubtitle> for WebVttSubtitle {
    open spec fn obeys_from_spec() -> bool {
        false
    }

    open spec fn from_spec(v: PlainSubtitle) -> WebVttSubtitle {
        arbitrary()
    }
}

/// Convert a plain subtitle to WebVTT format.
impl From<PlainSubtitle> for WebVttSubtitle {
    fn from(value: PlainSubtitle) -> (r: WebVttSubtitle)
        ensures
            r@ == plain_to_webvtt_spec(value@),
    {
        plain_to_webvtt(&value)
    }
}

/// The event that [`microdvd_to_ass`] makes of the event `e` at place `k`.
pub open spec fn microdvd_to_ass_event(e: TimedMicroDvdEventView, k: int) -> AssEventView {
    crate::substation::ass::data::plain_dialogue(e.start, e.end, replaced(e.text, "|"@, "\\N"@))
}

/// The subtitle that [`microdvd_to_ass`] makes of `s`.
pub open spec fn microdvd_to_ass_spec(s: TimedMicroDvdSubtitleView) -> AssSubtitleView {
    crate::substation::ass::data::dialogue_only(
        crate::substation::ass::data::default_script_info(),
        Seq::new(s.events.len(), |k: int| microdvd_to_ass_event(s.events[k], k)),
    )
}

/// Convert a timed MicroDVD subtitle to `.ass` format: each `|` becomes `\N`.
pub fn microdvd_to_ass(value: &TimedMicroDvdSubtitle) -> (r: AssSubtitle)
    ensures
        r@ == microdvd_to_ass_spec(value@),
{
    let events = value.events();
    let mut out: Vec<AssEvent> = Vec::new();
    let mut k: usize = 0;
    while k < events.len()
        invariant
            k <= events.len(),
            out@.len() == k,
            views(events@) == value@.events,
            forall|j: int|
                0 <= j < k ==> (#[trigger] out@[j])@ == microdvd_to_ass_event(events@[j]@, j),
        decreases events.len() - k,
    {
        let e = &events[k];
        out.push(AssEvent::dialogue(e.start, e.end, pipes_to_breaks(e.text.as_str())));
        k += 1;
    }
    assert(
        views(out@) =~= Seq::new(
            value@.events.len(),
            |k: int| microdvd_to_ass_event(value@.events[k], k),
        )
    );
    AssSubtitle::from_dialogue(AssScriptInfo::default(), out)
}

impl vstd::std_specs::convert::FromSpecImpl<&TimedMicroDvdSubtitle> for AssSubtitle {
    open spec fn obeys_from_spec() -> bool {
        false
    }

    open spec fn from_spec(v: &TimedMicroDvdSubtitle) -> AssSubtitle {
        arbitrary()
    }
}

/// Convert a timed MicroDVD subtitle to `.ass` format: each `|` becomes `\N`.
impl From<&TimedMicroDvdSubtitle> for AssSubtitle {
    fn from(value: &TimedMicroDvdSubtitle) -> (r: AssSubtitle)
        ensures
            r@ == microdvd_to_ass_spec(value@),
    {
        microdvd_to_ass(value)
    }
}

impl vstd::std_specs::convert::FromSpecImpl<TimedMicroDvdSubtitle> for AssSubtitle {
    open spec fn obeys_from_spec() -> bool {
        false
    }

    open spec fn from_spec(v: TimedMicroDvdSubtitle) -> AssSubtitle {
        arbitrary()
    }
}

/// Convert a timed MicroDVD subtitle to `.ass` format: each `|` becomes `\N`.
impl From<TimedMicroDvdSubtitle> for AssSubtitle {
    fn from(value: TimedMicroDvdSubtitle) -> (r: AssSubtitle)
        ensures
            r@ == microdvd_to_ass_spec(value@),
    {
        microdvd_to_ass(&value)
    }
}

/// The event that [`ssa_to_ass`] makes of the event `e` at place `k`.
pub open spec fn ssa_to_ass_event(e: SsaEventView, k: int) -> AssEventView {
    AssEventView {
        kind: SubStationEventKind::Dialogue,
        layer: 0,
        start: e.start,
        end: e.end,
        style: e.style,
        name: e.name,
        margin_l: e.margin_l,
        margin_r: e.margin_r,
        margin_v: e.margin_v,
        effect: e.effect,
        text: e.text,
    }
}

/// The subtitle that [`ssa_to_ass`] makes of `s`.
pub open spec fn ssa_to_ass_spec(s: SsaSubtitleView) -> AssSubtitleView {
    crate::substation::ass::data::dialogue_only(
        crate::substation::ass::data::default_script_info(),
        Seq::new(s.dialogue.len(), |k: int| ssa_to_ass_event(s.dialogue[k], k)),
    )
}

/// Convert an `.ssa` subtitle to `.ass` format. The dialogue keeps its style names,
/// speakers, margins, effects and text; script info, styles and embedded files
/// are not converted.
pub fn ssa_to_ass(value: &SsaSubtitle) -> (r: AssSubtitle)
    ensures
        r@ == ssa_to_ass_spec(value@),
{
    let events = value.events();
    let mut out: Vec<AssEvent> = Vec::new();
    let mut k: usize = 0;
    while k < events.len()
        invariant
            k <= events.len(),
            out@.len() == k,
            views(events@) == value@.dialogue,
            forall|j: int| 0 <= j < k ==> (#[trigger] out@[j])@ == ssa_to_ass_event(events@[j]@, j),
        decreases events.len() - k,
    {
        let e = &events[k];
        out.push(
            AssEvent {
                kind: SubStationEventKind::Dialogue,
                layer: 0,
                start: e.start,
                end: e.end,
                style: copy_opt(&e.style),
                name: copy_opt(&e.name),
                margin_l: e.margin_l,
                margin_r: e.margin_r,
                margin_v: e.margin_v,
                effect: copy_opt(&e.effect),
                text: e.text.clone(),
            }
        );
        k += 1;
    }
    assert(
        views(out@) =~= Seq::new(
            value@.dialogue.len(),
            |k: int| ssa_to_ass_event(value@.dialogue[k], k),
        )
    );
    AssSubtitle::from_dialogue(AssScriptInfo::default(), out)
}

impl vstd::std_specs::convert::FromSpecImpl<&SsaSubtitle> for AssSubtitle {
    open spec fn obeys_from_spec() -> bool {
        false
    }

    open spec fn from_spec(v: &SsaSubtitle) -> AssSubtitle {
        arbitrary()
    }
}

/// Convert an `.ssa` subtitle to `.ass` format. The dialogue keeps its style names,
/// speakers, margins, effects and text; script info, styles and embedded files
/// are not converted.
impl From<&SsaSubtitle> for AssSubtitle {
    fn from(value: &SsaSubtitle) -> (r: AssSubtitle)
        ensures
            r@ == ssa_to_ass_spec(value@),
    {
        ssa_to_ass(value)
    }
}

impl vstd::std_specs::convert::FromSpecImpl<SsaSubtitle> for AssSubtitle {
    open spec fn obeys_from_spec() -> bool {
        false
    }

    open spec fn from_spec(v: SsaSubtitle) -> AssSubtitle {
        arbitrary()
    }
}

/// Convert an `.ssa` subtitle to `.ass` format. The dialogue keeps its style names,
/// speakers, margins, effects and text; script info, styles and embedded files
/// are not converted.
impl From<SsaSubtitle> for AssSubtitle {
    fn from(value: SsaSubtitle) -> (r: AssSubtitle)
        ensures
            r@ == ssa_to_ass_spec(value@),
    {
        ssa_to_ass(&value)
    }
}

/// The event that [`subrip_to_ass`] makes of the event `e` at place `k`.
pub open spec fn subrip_to_ass_event(e: SubRipEventView, k: int) -> AssEventView {
    crate::substation::ass::data::plain_dialogue(
        e.start,
        e.end,
        to_override_text(e.text, srt_to_ass_formatting_rules()),
    )
}

/// The subtitle that [`subrip_to_ass`] makes of `s`.
pub open spec fn subrip_to_ass_spec(s: Seq<SubRipEventView>) -> AssSubtitleView {
    crate::substation::ass::data::dialogue_only(
        crate::substation::ass::data::default_script_info(),
        Seq::new(s.len(), |k: int| subrip_to_ass_event(s[k], k)),
    )
}

/// Convert SubRip (.srt) subtitle to `.ass` format.
///
/// This will replace newlines and convert HTML formatting tags (`<b>`, `<i>`, etc.) into `.ass`
/// style formatting tags
pub fn subrip_to_ass(value: &SubRipSubtitle) -> (r: AssSubtitle)
    ensures
        r@ == subrip_to_ass_spec(value@),
{
    let scheme = srt_to_ass_formatting_scheme();
    let events = value.events();
    let mut out: Vec<AssEvent> = Vec::new();
    let mut k: usize = 0;
    while k < events.len()
        invariant
            k <= events.len(),
            out@.len() == k,
            views(events@) == value@,
            scheme@ == srt_to_ass_formatting_rules(),
            forall|j: int|
                0 <= j < k ==> (#[trigger] out@[j])@ == subrip_to_ass_event(events@[j]@, j),
        decreases events.len() - k,
    {
        let e = &events[k];
        out.push(AssEvent::dialogue(e.start, e.end, convert_to_override(e.text.as_str(), &scheme)));
        k += 1;
    }
    assert(views(out@) =~= Seq::new(value@.len(), |k: int| subrip_to_ass_event(value@[k], k)));
    AssSubtitle::from_dialogue(AssScriptInfo::default(), out)
}

impl vstd::std_specs::convert::FromSpecImpl<&SubRipSubtitle> for AssSubtitle {
    open spec fn obeys_from_spec() -> bool {
        false
    }

    open spec fn from_spec(v: &SubRipSubtitle) -> AssSubtitle {
        arbitrary()
    }
}

/// Convert SubRip (.srt) subtitle to `.ass` format.
///
/// This will replace newlines and convert HTML formatting tags (`<b>`, `<i>`, etc.) into `.ass`
/// style formatting tags
impl From<&SubRipSubtitle> for AssSubtitle {
    fn from(value: &SubRipSubtitle) -> (r: AssSubtitle)
        ensures
            r@ == subrip_to_ass_spec(value@),
    {
        subrip_to_ass(value)
    }
}

impl vstd::std_specs::convert::FromSpecImpl<SubRipSubtitle> for AssSubtitle {
    open spec fn obeys_from_spec() -> bool {
        false
    }

    open spec fn from_spec(v: SubRipSubtitle) -> AssSubtitle {
        arbitrary()
    }
}

/// Convert SubRip (.srt) subtitle to `.ass` format.
///
/// This will replace newlines and convert HTML formatting tags (`<b>`, `<i>`, etc.) into `.ass`
/// style formatting tags
impl From<SubRipSubtitle> for AssSubtitle {
    fn from(value: SubRipSubtitle) -> (r: AssSubtitle)
        ensures
            r@ == subrip_to_ass_spec(value@),
    {
        subrip_to_ass(&value)
    }
}

/// The event that [`webvtt_to_ass`] makes of the event `e` at place `k`.
pub open spec fn webvtt_to_ass_event(e: WebVttCueView, k: int) -> AssEventView {
    crate::substation::ass::data::plain_dialogue(
        e.start,
        e.end,
        to_override_text(e.text, vtt_to_ass_formatting_rules()),
    )
}

/// The subtitle that [`webvtt_to_ass`] makes of `s`.
pub open spec fn webvtt_to_ass_spec(s: WebVttSubtitleView) -> AssSubtitleView {
    crate::substation::ass::data::dialogue_only(
        ass_titled(s.header),
        Seq::new(s.cues.len(), |k: int| webvtt_to_ass_event(s.cues[k], k)),
    )
}

/// Convert WebVTT (.vtt) format subtitle to `.ass` format.
///
/// For each line, this will convert newlines into the appropriate representation,
/// and it will also convert the basic HTML formatting tags (`<b>`, `<i>`, and `<u>`).
///
/// All other tags and styles are discarded. The header becomes the title of the script info.
pub fn webvtt_to_ass(value: &WebVttSubtitle) -> (r: AssSubtitle)
    ensures
        r@ == webvtt_to_ass_spec(value@),
{
    let scheme = vtt_to_ass_formatting_scheme();
    let mut info = AssScriptInfo::empty();
    info.title = copy_opt_ref(value.header());
    let events = value.events();
    let mut out: Vec<AssEvent> = Vec::new();
    let mut k: usize = 0;
    while k < events.len()
        invariant
            k <= events.len(),
            out@.len() == k,
            views(events@) == value@.cues,
            scheme@ == vtt_to_ass_formatting_rules(),
            forall|j: int|
                0 <= j < k ==> (#[trigger] out@[j])@ == webvtt_to_ass_event(events@[j]@, j),
        decreases events.len() - k,
    {
        let e = &events[k];
        out.push(AssEvent::dialogue(e.start, e.end, convert_to_override(e.text.as_str(), &scheme)));
        k += 1;
    }
    assert(
        views(out@) =~= Seq::new(value@.cues.len(), |k: int| webvtt_to_ass_event(value@.cues[k], k))
    );
    AssSubtitle::from_dialogue(info, out)
}

impl vstd::std_specs::convert::FromSpecImpl<&WebVttSubtitle> for AssSubtitle {
    open spec fn obeys_from_spec() -> bool {
        false
    }

    open spec fn from_spec(v: &WebVttSubtitle) -> AssSubtitle {
        arbitrary()
    }
}

/// Convert WebVTT (.vtt) format subtitle to `.ass` format.
///
/// For each line, this will convert newlines into the appropriate representation,
/// and it will also convert the basic HTML formatting tags (`<b>`, `<i>`, and `<u>`).
///
/// All other tags and styles are discarded. The header becomes the title of the script info.
impl From<&WebVttSubtitle> for AssSubtitle {
    fn from(value: &WebVttSubtitle) -> (r: AssSubtitle)
        ensures
            r@ == webvtt_to_ass_spec(value@),
    {
        webvtt_to_ass(value)
    }
}

impl vstd::std_specs::convert::FromSpecImpl<WebVttSubtitle> for AssSubtitle {
    open spec fn obeys_from_spec() -> bool {
        false
    }

    open spec fn from_spec(v: WebVttSubtitle) -> AssSubtitle {
        arbitrary()
    }
}

/// Convert WebVTT (.vtt) format subtitle to `.ass` format.
///
/// For each line, this will convert newlines into the appropriate representation,
/// and it will also convert the basic HTML formatting tags (`<b>`, `<i>`, and `<u>`).
///
/// All other tags and styles are discarded. The header becomes the title of the script info.
impl From<WebVttSubtitle> for AssSubtitle {
    fn from(value: WebVttSubtitle) -> (r: AssSubtitle)
        ensures
            r@ == webvtt_to_ass_spec(value@),
    {
        webvtt_to_ass(&value)
    }
}

/// The event that [`plain_to_ass`] makes of the event `e` at place `k`.
pub open spec fn plain_to_ass_event(e: PlainEventView, k: int) -> AssEventView {
    crate::substation::ass::data::plain_dialogue(e.start, e.end, replaced(e.text, "\n"@, "\\N"@))
}

/// The subtitle that [`plain_to_ass`] makes of `s`.
pub open spec fn plain_to_ass_spec(s: Seq<PlainEventView>) -> AssSubtitleView {
    crate::substation::ass::data::dialogue_only(
        crate::substation::ass::data::default_script_info(),
        Seq::new(s.len(), |k: int| plain_to_ass_event(s[k], k)),
    )
}

/// Convert a plain subtitle to `.ass` format: each line feed becomes `\N`.
pub fn plain_to_ass(value: &PlainSubtitle) -> (r: AssSubtitle)
    ensures
        r@ == plain_to_ass_spec(value@),
{
    let events = value.events();
    let mut out: Vec<AssEvent> = Vec::new();
    let mut k: usize = 0;
    while k < events.len()
        invariant
            k <= events.len(),
            out@.len() == k,
            views(events@) == value@,
            forall|j: int|
                0 <= j < k ==> (#[trigger] out@[j])@ == plain_to_ass_event(events@[j]@, j),
        decreases events.len() - k,
    {
        let e = &events[k];
        out.push(AssEvent::dialogue(e.start, e.end, newlines_to_breaks(e.text.as_str())));
        k += 1;
    }
    assert(views(out@) =~= Seq::new(value@.len(), |k: int| plain_to_ass_event(value@[k], k)));
    AssSubtitle::from_dialogue(AssScriptInfo::default(), out)
}

impl vstd::std_specs::convert::FromSpecImpl<&PlainSubtitle> for AssSubtitle {
    open spec fn obeys_from_spec() -> bool {
        false
    }

    open spec fn from_spec(v: &PlainSubtitle) -> AssSubtitle {
        arbitrary()
    }
}

/// Convert a plain subtitle to `.ass` format: each line feed becomes `\N`.
impl From<&PlainSubtitle> for AssSubtitle {
    fn from(value: &PlainSubtitle) -> (r: AssSubtitle)
        ensures
            r@ == plain_to_ass_spec(value@),
    {
        plain_to_ass(value)
    }
}

impl vstd::std_specs::convert::FromSpecImpl<PlainSubtitle> for AssSubtitle {
    open spec fn obeys_from_spec() -> bool {
        false
    }

    open spec fn from_spec(v: PlainSubtitle) -> AssSubtitle {
        arbitrary()
    }
}

/// Convert a plain subtitle to `.ass` format: each line feed becomes `\N`.
impl From<PlainSubtitle> for AssSubtitle {
    fn from(value: PlainSubtitle) -> (r: AssSubtitle)
        ensures
            r@ == plain_to_ass_spec(value@),
    {
        plain_to_ass(&value)
    }
}

/// The event that [`microdvd_to_ssa`] makes of the event `e` at place `k`.
pub open spec fn microdvd_to_ssa_event(e: TimedMicroDvdEventView, k: int) -> SsaEventView {
    crate::substation::ssa::data::plain_dialogue(e.start, e.end, replaced(e.text, "|"@, "\\N"@))
}

/// The subtitle that [`microdvd_to_ssa`] makes of `s`.
pub open spec fn microdvd_to_ssa_spec(s: TimedMicroDvdSubtitleView) -> SsaSubtitleView {
    crate::substation::ssa::data::dialogue_only(
        crate::substation::ssa::data::default_script_info(),
        Seq::new(s.events.len(), |k: int| microdvd_to_ssa_event(s.events[k], k)),
    )
}

/// Convert a timed MicroDVD subtitle to `.ssa` format: each `|` becomes `\N`.
pub fn microdvd_to_ssa(value: &TimedMicroDvdSubtitle) -> (r: SsaSubtitle)
    ensures
        r@ == microdvd_to_ssa_spec(value@),
{
    let events = value.events();
    let mut out: Vec<SsaEvent> = Vec::new();
    let mut k: usize = 0;
    while k < events.len()
        invariant
            k <= events.len(),
            out@.len() == k,
            views(events@) == value@.events,
            forall|j: int|
                0 <= j < k ==> (#[trigger] out@[j])@ == microdvd_to_ssa_event(events@[j]@, j),
        decreases events.len() - k,
    {
        let e = &events[k];
        out.push(SsaEvent::dialogue(e.start, e.end, pipes_to_breaks(e.text.as_str())));
        k += 1;
    }
    assert(
        views(out@) =~= Seq::new(
            value@.events.len(),
            |k: int| microdvd_to_ssa_event(value@.events[k], k),
        )
    );
    SsaSubtitle::from_dialogue(SsaScriptInfo::default(), out)
}

impl vstd::std_specs::convert::FromSpecImpl<&TimedMicroDvdSubtitle> for SsaSubtitle {
    open spec fn obeys_from_spec() -> bool {
        false
    }

    open spec fn from_spec(v: &TimedMicroDvdSubtitle) -> SsaSubtitle {
        arbitrary()
    }
}

/// Convert a timed MicroDVD subtitle to `.ssa` format: each `|` becomes `\N`.
impl From<&TimedMicroDvdSubtitle> for SsaSubtitle {
    fn from(value: &TimedMicroDvdSubtitle) -> (r: SsaSubtitle)
        ensures
            r@ == microdvd_to_ssa_spec(value@),
    {
        microdvd_to_ssa(value)
    }
}

impl vstd::std_specs::convert::FromSpecImpl<TimedMicroDvdSubtitle> for SsaSubtitle {
    open spec fn obeys_from_spec() -> bool {
        false
    }

    open spec fn from_spec(v: TimedMicroDvdSubtitle) -> SsaSubtitle {
        arbitrary()
    }
}

/// Convert a timed MicroDVD subtitle to `.ssa` format: each `|` becomes `\N`.
impl From<TimedMicroDvdSubtitle> for SsaSubtitle {
    fn from(value: TimedMicroDvdSubtitle) -> (r: SsaSubtitle)
        ensures
            r@ == microdvd_to_ssa_spec(value@),
    {
        microdvd_to_ssa(&value)
    }
}

/// The event that [`ass_to_ssa`] makes of the event `e` at place `k`.
pub open spec fn ass_to_ssa_event(e: AssEventView, k: int) -> SsaEventView {
    SsaEventView {
        kind: SubStationEventKind::Dialogue,
        marked: false,
        start: e.start,
        end: e.end,
        style: e.style,
        name: e.name,
        margin_l: e.margin_l,
        margin_r: e.margin_r,
        margin_v: e.margin_v,
        effect: e.effect,
        text: e.text,
    }
}

/// The subtitle that [`ass_to_ssa`] makes of `s`.
pub open spec fn ass_to_ssa_spec(s: AssSubtitleView) -> SsaSubtitleView {
    crate::substation::ssa::data::dialogue_only(
        crate::substation::ssa::data::default_script_info(),
        Seq::new(s.dialogue.len(), |k: int| ass_to_ssa_event(s.dialogue[k], k)),
    )
}

/// Convert an `.ass` subtitle to `.ssa` format. The dialogue keeps its style names,
/// speakers, margins, effects and text; script info, styles and embedded files
/// are not converted.
pub fn ass_to_ssa(value: &AssSubtitle) -> (r: SsaSubtitle)
    ensures
        r@ == ass_to_ssa_spec(value@),
{
    let events = value.events();
    let mut out: Vec<SsaEvent> = Vec::new();
    let mut k: usize = 0;
    while k < events.len()
        invariant
            k <= events.len(),
            out@.len() == k,
            views(events@) == value@.dialogue,
            forall|j: int| 0 <= j < k ==> (#[trigger] out@[j])@ == ass_to_ssa_event(events@[j]@, j),
        decreases events.len() - k,
    {
        let e = &events[k];
        out.push(
            SsaEvent {
                kind: SubStationEventKind::Dialogue,
                marked: false,
                start: e.start,
                end: e.end,
                style: copy_opt(&e.style),
                name: copy_opt(&e.name),
                margin_l: e.margin_l,
                margin_r: e.margin_r,
                margin_v: e.margin_v,
                effect: copy_opt(&e.effect),
                text: e.text.clone(),
            }
        );
        k += 1;
    }
    assert(
        views(out@) =~= Seq::new(
            value@.dialogue.len(),
            |k: int| ass_to_ssa_event(value@.dialogue[k], k),
        )
    );
    SsaSubtitle::from_dialogue(SsaScriptInfo::default(), out)
}

impl vstd::std_specs::convert::FromSpecImpl<&AssSubtitle> for SsaSubtitle {
    open spec fn obeys_from_spec() -> bool {
        false
    }

    open spec fn from_spec(v: &AssSubtitle) -> SsaSubtitle {
        arbitrary()
    }
}

/// Convert an `.ass` subtitle to `.ssa` format. The dialogue keeps its style names,
/// speakers, margins, effects and text; script info, styles and embedded files
/// are not converted.
impl From<&AssSubtitle> for SsaSubtitle {
    fn from(value: &AssSubtitle) -> (r: SsaSubtitle)
        ensures
            r@ == ass_to_ssa_spec(value@),
    {
        ass_to_ssa(value)
    }
}

impl vstd::std_specs::convert::FromSpecImpl<AssSubtitle> for SsaSubtitle {
    open spec fn obeys_from_spec() -> bool {
        false
    }

    open spec fn from_spec(v: AssSubtitle) -> SsaSubtitle {
        arbitrary()
    }
}

/// Convert an `.ass` subtitle to `.ssa` format. The dialogue keeps its style names,
/// speakers, margins, effects and text; script info, styles and embedded files
/// are not converted.
impl From<AssSubtitle> for SsaSubtitle {
    fn from(value: AssSubtitle) -> (r: SsaSubtitle)
        ensures
            r@ == ass_to_ssa_spec(value@),
    {
        ass_to_ssa(&value)
    }
}

/// The event that [`subrip_to_ssa`] makes of the event `e` at place `k`.
pub open spec fn subrip_to_ssa_event(e: SubRipEventView, k: int) -> SsaEventView {
    crate::substation::ssa::data::plain_dialogue(
        e.start,
        e.end,
        to_override_text(e.text, srt_to_ssa_formatting_rules()),
    )
}

/// The subtitle that [`subrip_to_ssa`] makes of `s`.
pub open spec fn subrip_to_ssa_spec(s: Seq<SubRipEventView>) -> SsaSubtitleView {
    crate::substation::ssa::data::dialogue_only(
        crate::substation::ssa::data::default_script_info(),
        Seq::new(s.len(), |k: int| subrip_to_ssa_event(s[k], k)),
    )
}

/// Convert SubRip (.srt) subtitle to `.ssa` format.
///
/// This will replace newlines and convert HTML formatting tags (`<b>`, `<i>`, etc.) into `.ssa`
/// style formatting tags
pub fn subrip_to_ssa(value: &SubRipSubtitle) -> (r: SsaSubtitle)
    ensures
        r@ == subrip_to_ssa_spec(value@),
{
    let scheme = srt_to_ssa_formatting_scheme();
    let events = value.events();
    let mut out: Vec<SsaEvent> = Vec::new();
    let mut k: usize = 0;
    while k < events.len()
        invariant
            k <= events.len(),
            out@.len() == k,
            views(events@) == value@,
            scheme@ == srt_to_ssa_formatting_rules(),
            forall|j: int|
                0 <= j < k ==> (#[trigger] out@[j])@ == subrip_to_ssa_event(events@[j]@, j),
        decreases events.len() - k,
    {
        let e = &events[k];
        out.push(SsaEvent::dialogue(e.start, e.end, convert_to_override(e.text.as_str(), &scheme)));
        k += 1;
    }
    assert(views(out@) =~= Seq::new(value@.len(), |k: int| subrip_to_ssa_event(value@[k], k)));
    SsaSubtitle::from_dialogue(SsaScriptInfo::default(), out)
}

impl vstd::std_specs::convert::FromSpecImpl<&SubRipSubtitle> for SsaSubtitle {
    open spec fn obeys_from_spec() -> bool {
        false
    }

    open spec fn from_spec(v: &SubRipSubtitle) -> SsaSubtitle {
        arbitrary()
    }
}

/// Convert SubRip (.srt) subtitle to `.ssa` format.
///
/// This will replace newlines and convert HTML formatting tags (`<b>`, `<i>`, etc.) into `.ssa`
/// style formatting tags
impl From<&SubRipSubtitle> for SsaSubtitle {
    fn from(value: &SubRipSubtitle) -> (r: SsaSubtitle)
        ensures
            r@ == subrip_to_ssa_spec(value@),
    {
        subrip_to_ssa(value)
    }
}

impl vstd::std_specs::convert::FromSpecImpl<SubRipSubtitle> for SsaSubtitle {
    open spec fn obeys_from_spec() -> bool {
        false
    }

    open spec fn from_spec(v: SubRipSubtitle) -> SsaSubtitle {
        arbitrary()
    }
}

/// Convert SubRip (.srt) subtitle to `.ssa` format.
///
/// This will replace newlines and convert HTML formatting tags (`<b>`, `<i>`, etc.) into `.ssa`
/// style formatting tags
impl From<SubRipSubtitle> for SsaSubtitle {
    fn from(value: SubRipSubtitle) -> (r: SsaSubtitle)
        ensures
            r@ == subrip_to_ssa_spec(value@),
    {
        subrip_to_ssa(&value)
    }
}

/// The event that [`webvtt_to_ssa`] makes of the event `e` at place `k`.
pub open spec fn webvtt_to_ssa_event(e: WebVttCueView, k: int) -> SsaEventView {
    crate::substation::ssa::data::plain_dialogue(
        e.start,
        e.end,
        to_override_text(e.text, vtt_to_ssa_formatting_rules()),
    )
}

/// The subtitle that [`webvtt_to_ssa`] makes of `s`.
pub open spec fn webvtt_to_ssa_spec(s: WebVttSubtitleView) -> SsaSubtitleView {
    crate::substation::ssa::data::dialogue_only(
        ssa_titled(s.header),
        Seq::new(s.cues.len(), |k: int| webvtt_to_ssa_event(s.cues[k], k)),
    )
}

/// Convert WebVTT (.vtt) format subtitle to `.ssa` format.
///
/// For each line, this will convert newlines into the appropriate representation,
/// and it will also convert the basic HTML formatting tags (`<b>` and `<i>`).
///
/// All other tags and styles are discarded. The header becomes the title of the script info.
pub fn webvtt_to_ssa(value: &WebVttSubtitle) -> (r: SsaSubtitle)
    ensures
        r@ == webvtt_to_ssa_spec(value@),
{
    let scheme = vtt_to_ssa_formatting_scheme();
    let mut info = SsaScriptInfo::empty();
    info.title = copy_opt_ref(value.header());
    let events = value.events();
    let mut out: Vec<SsaEvent> = Vec::new();
    let mut k: usize = 0;
    while k < events.len()
        invariant
            k <= events.len(),
            out@.len() == k,
            views(events@) == value@.cues,
            scheme@ == vtt_to_ssa_formatting_rules(),
            forall|j: int|
                0 <= j < k ==> (#[trigger] out@[j])@ == webvtt_to_ssa_event(events@[j]@, j),
        decreases events.len() - k,
    {
        let e = &events[k];
        out.push(SsaEvent::dialogue(e.start, e.end, convert_to_override(e.text.as_str(), &scheme)));
        k += 1;
    }
    assert(
        views(out@) =~= Seq::new(value@.cues.len(), |k: int| webvtt_to_ssa_event(value@.cues[k], k))
    );
    SsaSubtitle::from_dialogue(info, out)
}

impl vstd::std_specs::convert::FromSpecImpl<&WebVttSubtitle> for SsaSubtitle {
    open spec fn obeys_from_spec() -> bool {
        false
    }

    open spec fn from_spec(v: &WebVttSubtitle) -> SsaSubtitle {
        arbitrary()
    }
}

/// Convert WebVTT (.vtt) format subtitle to `.ssa` format.
///
/// For each line, this will convert newlines into the appropriate representation,
/// and it will also convert the basic HTML formatting tags (`<b>` and `<i>`).
///
/// All other tags and styles are discarded. The header becomes the title of the script info.
impl From<&WebVttSubtitle> for SsaSubtitle {
    fn from(value: &WebVttSubtitle) -> (r: SsaSubtitle)
        ensures
            r@ == webvtt_to_ssa_spec(value@),
    {
        webvtt_to_ssa(value)
    }
}

impl vstd::std_specs::convert::FromSpecImpl<WebVttSubtitle> for SsaSubtitle {
    open spec fn obeys_from_spec() -> bool {
        false
    }

    open spec fn from_spec(v: WebVttSubtitle) -> SsaSubtitle {
        arbitrary()
    }
}

/// Convert WebVTT (.vtt) format subtitle to `.ssa` format.
///
/// For each line, this will convert newlines into the appropriate representation,
/// and it will also convert the basic HTML formatting tags (`<b>` and `<i>`).
///
/// All other tags and styles are discarded. The header becomes the title of the script info.
impl From<WebVttSubtitle> for SsaSubtitle {
    fn from(value: WebVttSubtitle) -> (r: SsaSubtitle)
        ensures
            r@ == webvtt_to_ssa_spec(value@),
    {
        webvtt_to_ssa(&value)
    }
}

/// The event that [`plain_to_ssa`] makes of the event `e` at place `k`.
pub open spec fn plain_to_ssa_event(e: PlainEventView, k: int) -> SsaEventView {
    crate::substation::ssa::data::plain_dialogue(e.start, e.end, replaced(e.text, "\n"@, "\\N"@))
}

/// The subtitle that [`plain_to_ssa`] makes of `s`.
pub open spec fn plain_to_ssa_spec(s: Seq<PlainEventView>) -> SsaSubtitleView {
    crate::substation::ssa::data::dialogue_only(
        crate::substation::ssa::data::default_script_info(),
        Seq::new(s.len(), |k: int| plain_to_ssa_event(s[k], k)),
    )
}

/// Convert a plain subtitle to `.ssa` format: each line feed becomes `\N`.
pub fn plain_to_ssa(value: &PlainSubtitle) -> (r: SsaSubtitle)
    ensures
        r@ == plain_to_ssa_spec(value@),
{
    let events = value.events();
    let mut out: Vec<SsaEvent> = Vec::new();
    let mut k: usize = 0;
    while k < events.len()
        invariant
            k <= events.len(),
            out@.len() == k,
            views(events@) == value@,
            forall|j: int|
                0 <= j < k ==> (#[trigger] out@[j])@ == plain_to_ssa_event(events@[j]@, j),
        decreases events.len() - k,
    {
        let e = &events[k];
        out.push(SsaEvent::dialogue(e.start, e.end, newlines_to_breaks(e.text.as_str())));
        k += 1;
    }
    assert(views(out@) =~= Seq::new(value@.len(), |k: int| plain_to_ssa_event(value@[k], k)));
    SsaSubtitle::from_dialogue(SsaScriptInfo::default(), out)
}

impl vstd::std_specs::convert::FromSpecImpl<&PlainSubtitle> for SsaSubtitle {
    open spec fn obeys_from_spec() -> bool {
        false
    }

    open spec fn from_spec(v: &PlainSubtitle) -> SsaSubtitle {
        arbitrary()
    }
}

/// Convert a plain subtitle to `.ssa` format: each line feed becomes `\N`.
impl From<&PlainSubtitle> for SsaSubtitle {
    fn from(value: &PlainSubtitle) -> (r: SsaSubtitle)
        ensures
            r@ == plain_to_ssa_spec(value@),
    {
        plain_to_ssa(value)
    }
}

impl vstd::std_specs::convert::FromSpecImpl<PlainSubtitle> for SsaSubtitle {
    open spec fn obeys_from_spec() -> bool {
        false
    }

    open spec fn from_spec(v: PlainSubtitle) -> SsaSubtitle {
        arbitrary()
    }
}

/// Convert a plain subtitle to `.ssa` format: each line feed becomes `\N`.
impl From<PlainSubtitle> for SsaSubtitle {
    fn from(value: PlainSubtitle) -> (r: SsaSubtitle)
        ensures
            r@ == plain_to_ssa_spec(value@),
    {
        plain_to_ssa(&value)
    }
}

/// The event that [`ass_to_microdvd`] makes of the event `e` at place `k`.
pub open spec fn ass_to_microdvd_event(e: AssEventView, k: int) -> TimedMicroDvdEventView {
    TimedMicroDvdEventView {
        start: e.start,
        end: e.end,
        text: replaced(crate::substation::ass::data::plaintext(e.text), "\n"@, "|"@),
    }
}

/// The subtitle that [`ass_to_microdvd`] makes of `s`.
pub open spec fn ass_to_microdvd_spec(s: AssSubtitleView) -> TimedMicroDvdSubtitleView {
    TimedMicroDvdSubtitleView {
        events: Seq::new(s.dialogue.len(), |k: int| ass_to_microdvd_event(s.dialogue[k], k)),
        framerate: default_rate(),
    }
}

/// Convert an `.ass` subtitle to timed MicroDVD format at 24 frames per second: the
/// text loses its formatting, and each line feed becomes `|`.
pub fn ass_to_microdvd(value: &AssSubtitle) -> (r: TimedMicroDvdSubtitle)
    ensures
        r@ == ass_to_microdvd_spec(value@),
{
    let events = value.events();
    let mut out: Vec<TimedMicroDvdEvent> = Vec::new();
    let mut k: usize = 0;
    while k < events.len()
        invariant
            k <= events.len(),
            out@.len() == k,
            views(events@) == value@.dialogue,
            forall|j: int|
                0 <= j < k ==> (#[trigger] out@[j])@ == ass_to_microdvd_event(events@[j]@, j),
        decreases events.len() - k,
    {
        let e = &events[k];
        out.push(
            TimedMicroDvdEvent {
                start: e.start,
                end: e.end,
                text: newlines_to_pipes(e.as_plaintext().as_str()),
            }
        );
        k += 1;
    }
    assert(
        views(out@) =~= Seq::new(
            value@.dialogue.len(),
            |k: int| ass_to_microdvd_event(value@.dialogue[k], k),
        )
    );
    TimedMicroDvdSubtitle::from_events(out, FrameRate::film())
}

impl vstd::std_specs::convert::FromSpecImpl<&AssSubtitle> for TimedMicroDvdSubtitle {
    open spec fn obeys_from_spec() -> bool {
        false
    }

    open spec fn from_spec(v: &AssSubtitle) -> TimedMicroDvdSubtitle {
        arbitrary()
    }
}

/// Convert an `.ass` subtitle to timed MicroDVD format at 24 frames per second: the
/// text loses its formatting, and each line feed becomes `|`.
impl From<&AssSubtitle> for TimedMicroDvdSubtitle {
    fn from(value: &AssSubtitle) -> (r: TimedMicroDvdSubtitle)
        ensures
            r@ == ass_to_microdvd_spec(value@),
    {
        ass_to_microdvd(value)
    }
}

impl vstd::std_specs::convert::FromSpecImpl<AssSubtitle> for TimedMicroDvdSubtitle {
    open spec fn obeys_from_spec() -> bool {
        false
    }

    open spec fn from_spec(v: AssSubtitle) -> TimedMicroDvdSubtitle {
        arbitrary()
    }
}

/// Convert an `.ass` subtitle to timed MicroDVD format at 24 frames per second: the
/// text loses its formatting, and each line feed becomes `|`.
impl From<AssSubtitle> for TimedMicroDvdSubtitle {
    fn from(value: AssSubtitle) -> (r: TimedMicroDvdSubtitle)
        ensures
            r@ == ass_to_microdvd_spec(value@),
    {
        ass_to_microdvd(&value)
    }
}

/// The event that [`ssa_to_microdvd`] makes of the event `e` at place `k`.
pub open spec fn ssa_to_microdvd_event(e: SsaEventView, k: int) -> TimedMicroDvdEventView {
    TimedMicroDvdEventView {
        start: e.start,
        end: e.end,
        text: replaced(crate::substation::ssa::data::plaintext(e.text), "\n"@, "|"@),
    }
}

/// The subtitle that [`ssa_to_microdvd`] makes of `s`.
pub open spec fn ssa_to_microdvd_spec(s: SsaSubtitleView) -> TimedMicroDvdSubtitleView {
    TimedMicroDvdSubtitleView {
        events: Seq::new(s.dialogue.len(), |k: int| ssa_to_microdvd_event(s.dialogue[k], k)),
        framerate: default_rate(),
    }
}

/// Convert an `.ssa` subtitle to timed MicroDVD format at 24 frames per second: the
/// text loses its formatting, and each line feed becomes `|`.
pub fn ssa_to_microdvd(value: &SsaSubtitle) -> (r: TimedMicroDvdSubtitle)
    ensures
        r@ == ssa_to_microdvd_spec(value@),
{
    let events = value.events();
    let mut out: Vec<TimedMicroDvdEvent> = Vec::new();
    let mut k: usize = 0;
    while k < events.len()
        invariant
            k <= events.len(),
            out@.len() == k,
            views(events@) == value@.dialogue,
            forall|j: int|
                0 <= j < k ==> (#[trigger] out@[j])@ == ssa_to_microdvd_event(events@[j]@, j),
        decreases events.len() - k,
    {
        let e = &events[k];
        out.push(
            TimedMicroDvdEvent {
                start: e.start,
                end: e.end,
                text: newlines_to_pipes(e.as_plaintext().as_str()),
            }
        );
        k += 1;
    }
    assert(
        views(out@) =~= Seq::new(
            value@.dialogue.len(),
            |k: int| ssa_to_microdvd_event(value@.dialogue[k], k),
        )
    );
    TimedMicroDvdSubtitle::from_events(out, FrameRate::film())
}

impl vstd::std_specs::convert::FromSpecImpl<&SsaSubtitle> for TimedMicroDvdSubtitle {
    open spec fn obeys_from_spec() -> bool {
        false
    }

    open spec fn from_spec(v: &SsaSubtitle) -> TimedMicroDvdSubtitle {
        arbitrary()
    }
}

/// Convert an `.ssa` subtitle to timed MicroDVD format at 24 frames per second: the
/// text loses its formatting, and each line feed becomes `|`.
impl From<&SsaSubtitle> for TimedMicroDvdSubtitle {
    fn from(value: &SsaSubtitle) -> (r: TimedMicroDvdSubtitle)
        ensures
            r@ == ssa_to_microdvd_spec(value@),
    {
        ssa_to_microdvd(value)
    }
}

impl vstd::std_specs::convert::FromSpecImpl<SsaSubtitle> for TimedMicroDvdSubtitle {
    open spec fn obeys_from_spec() -> bool {
        false
    }

    open spec fn from_spec(v: SsaSubtitle) -> TimedMicroDvdSubtitle {
        arbitrary()
    }
}

/// Convert an `.ssa` subtitle to timed MicroDVD format at 24 frames per second: the
/// text loses its formatting, and each line feed becomes `|`.
impl From<SsaSubtitle> for TimedMicroDvdSubtitle {
    fn from(value: SsaSubtitle) -> (r: TimedMicroDvdSubtitle)
        ensures
            r@ == ssa_to_microdvd_spec(value@),
    {
        ssa_to_microdvd(&value)
    }
}

/// The event that [`subrip_to_microdvd`] makes of the event `e` at place `k`.
pub open spec fn subrip_to_microdvd_event(e: SubRipEventView, k: int) -> TimedMicroDvdEventView {
    TimedMicroDvdEventView {
        start: e.start,
        end: e.end,
        text: replaced(crate::subrip::data::unformatted(e.text), "\n"@, "|"@),
    }
}

/// The subtitle that [`subrip_to_microdvd`] makes of `s`.
pub open spec fn subrip_to_microdvd_spec(s: Seq<SubRipEventView>) -> TimedMicroDvdSubtitleView {
    TimedMicroDvdSubtitleView {
        events: Seq::new(s.len(), |k: int| subrip_to_microdvd_event(s[k], k)),
        framerate: default_rate(),
    }
}

/// Convert a SubRip subtitle to timed MicroDVD format at 24 frames per second: the
/// text loses its formatting, and each line feed becomes `|`.
pub fn subrip_to_microdvd(value: &SubRipSubtitle) -> (r: TimedMicroDvdSubtitle)
    ensures
        r@ == subrip_to_microdvd_spec(value@),
{
    let events = value.events();
    let mut out: Vec<TimedMicroDvdEvent> = Vec::new();
    let mut k: usize = 0;
    while k < events.len()
        invariant
            k <= events.len(),
            out@.len() == k,
            views(events@) == value@,
            forall|j: int|
                0 <= j < k ==> (#[trigger] out@[j])@ == subrip_to_microdvd_event(events@[j]@, j),
        decreases events.len() - k,
    {
        let e = &events[k];
        out.push(
            TimedMicroDvdEvent {
                start: e.start,
                end: e.end,
                text: newlines_to_pipes(e.as_plaintext().as_str()),
            }
        );
        k += 1;
    }
    assert(views(out@) =~= Seq::new(value@.len(), |k: int| subrip_to_microdvd_event(value@[k], k)));
    TimedMicroDvdSubtitle::from_events(out, FrameRate::film())
}

impl vstd::std_specs::convert::FromSpecImpl<&SubRipSubtitle> for TimedMicroDvdSubtitle {
    open spec fn obeys_from_spec() -> bool {
        false
    }

    open spec fn from_spec(v: &SubRipSubtitle) -> TimedMicroDvdSubtitle {
        arbitrary()
    }
}

/// Convert a SubRip subtitle to timed MicroDVD format at 24 frames per second: the
/// text loses its formatting, and each line feed becomes `|`.
impl From<&SubRipSubtitle> for TimedMicroDvdSubtitle {
    fn from(value: &SubRipSubtitle) -> (r: TimedMicroDvdSubtitle)
        ensures
            r@ == subrip_to_microdvd_spec(value@),
    {
        subrip_to_microdvd(value)
    }
}

impl vstd::std_specs::convert::FromSpecImpl<SubRipSubtitle> for TimedMicroDvdSubtitle {
    open spec fn obeys_from_spec() -> bool {
        false
    }

    open spec fn from_spec(v: SubRipSubtitle) -> TimedMicroDvdSubtitle {
        arbitrary()
    }
}

/// Convert a SubRip subtitle to timed MicroDVD format at 24 frames per second: the
/// text loses its formatting, and each line feed becomes `|`.
impl From<SubRipSubtitle> for TimedMicroDvdSubtitle {
    fn from(value: SubRipSubtitle) -> (r: TimedMicroDvdSubtitle)
        ensures
            r@ == subrip_to_microdvd_spec(value@),
    {
        subrip_to_microdvd(&value)
    }
}

/// The event that [`webvtt_to_microdvd`] makes of the event `e` at place `k`.
pub open spec fn webvtt_to_microdvd_event(e: WebVttCueView, k: int) -> TimedMicroDvdEventView {
    TimedMicroDvdEventView {
        start: e.start,
        end: e.end,
        text: replaced(crate::webvtt::data::unformatted(e.text), "\n"@, "|"@),
    }
}

/// The subtitle that [`webvtt_to_microdvd`] makes of `s`.
pub open spec fn webvtt_to_microdvd_spec(s: WebVttSubtitleView) -> TimedMicroDvdSubtitleView {
    TimedMicroDvdSubtitleView {
        events: Seq::new(s.cues.len(), |k: int| webvtt_to_microdvd_event(s.cues[k], k)),
        framerate: default_rate(),
    }
}

/// Convert a WebVTT subtitle to timed MicroDVD format at 24 frames per second: the
/// text loses its formatting, and each line feed becomes `|`.
pub fn webvtt_to_microdvd(value: &WebVttSubtitle) -> (r: TimedMicroDvdSubtitle)
    ensures
        r@ == webvtt_to_microdvd_spec(value@),
{
    let events = value.events();
    let mut out: Vec<TimedMicroDvdEvent> = Vec::new();
    let mut k: usize = 0;
    while k < events.len()
        invariant
            k <= events.len(),
            out@.len() == k,
            views(events@) == value@.cues,
            forall|j: int|
                0 <= j < k ==> (#[trigger] out@[j])@ == webvtt_to_microdvd_event(events@[j]@, j),
        decreases events.len() - k,
    {
        let e = &events[k];
        out.push(
            TimedMicroDvdEvent {
                start: e.start,
                end: e.end,
                text: newlines_to_pipes(e.as_plaintext().as_str()),
            }
        );
        k += 1;
    }
    assert(
        views(out@) =~= Seq::new(
            value@.cues.len(),
            |k: int| webvtt_to_microdvd_event(value@.cues[k], k),
        )
    );
    TimedMicroDvdSubtitle::from_events(out, FrameRate::film())
}

impl vstd::std_specs::convert::FromSpecImpl<&WebVttSubtitle> for TimedMicroDvdSubtitle {
    open spec fn obeys_from_spec() -> bool {
        false
    }

    open spec fn from_spec(v: &WebVttSubtitle) -> TimedMicroDvdSubtitle {
        arbitrary()
    }
}

/// Convert a WebVTT subtitle to timed MicroDVD format at 24 frames per second: the
/// text loses its formatting, and each line feed becomes `|`.
impl From<&WebVttSubtitle> for TimedMicroDvdSubtitle {
    fn from(value: &WebVttSubtitle) -> (r: TimedMicroDvdSubtitle)
        ensures
            r@ == webvtt_to_microdvd_spec(value@),
    {
        webvtt_to_microdvd(value)
    }
}

impl vstd::std_specs::convert::FromSpecImpl<WebVttSubtitle> for TimedMicroDvdSubtitle {
    open spec fn obeys_from_spec() -> bool {
        false
    }

    open spec fn from_spec(v: WebVttSubtitle) -> TimedMicroDvdSubtitle {
        arbitrary()
    }
}

/// Convert a WebVTT subtitle to timed MicroDVD format at 24 frames per second: the
/// text loses its formatting, and each line feed becomes `|`.
impl From<WebVttSubtitle> for TimedMicroDvdSubtitle {
    fn from(value: WebVttSubtitle) -> (r: TimedMicroDvdSubtitle)
        ensures
            r@ == webvtt_to_microdvd_spec(value@),
    {
        webvtt_to_microdvd(&value)
    }
}

/// The event that [`ass_to_plain`] makes of the event `e` at place `k`.
pub open spec fn ass_to_plain_event(e: AssEventView, k: int) -> PlainEventView {
    PlainEventView {
        text: crate::substation::ass::data::plaintext(e.text),
        start: e.start,
        end: e.end,
    }
}

/// The subtitle that [`ass_to_plain`] makes of `s`.
pub open spec fn ass_to_plain_spec(s: AssSubtitleView) -> Seq<PlainEventView> {
    Seq::new(s.dialogue.len(), |k: int| ass_to_plain_event(s.dialogue[k], k))
}

/// Convert an `.ass` subtitle to a plain one.
/// This strips all formatting tags from the text.
pub fn ass_to_plain(value: &AssSubtitle) -> (r: PlainSubtitle)
    ensures
        r@ == ass_to_plain_spec(value@),
{
    let events = value.events();
    let mut out: Vec<PlainEvent> = Vec::new();
    let mut k: usize = 0;
    while k < events.len()
        invariant
            k <= events.len(),
            out@.len() == k,
            views(events@) == value@.dialogue,
            forall|j: int|
                0 <= j < k ==> (#[trigger] out@[j])@ == ass_to_plain_event(events@[j]@, j),
        decreases events.len() - k,
    {
        let e = &events[k];
        out.push(PlainEvent { text: e.as_plaintext(), start: e.start, end: e.end });
        k += 1;
    }
    assert(
        views(out@) =~= Seq::new(
            value@.dialogue.len(),
            |k: int| ass_to_plain_event(value@.dialogue[k], k),
        )
    );
    PlainSubtitle::from_events(out)
}

impl vstd::std_specs::convert::FromSpecImpl<&AssSubtitle> for PlainSubtitle {
    open spec fn obeys_from_spec() -> bool {
        false
    }

    open spec fn from_spec(v: &AssSubtitle) -> PlainSubtitle {
        arbitrary()
    }
}

/// Convert an `.ass` subtitle to a plain one.
/// This strips all formatting tags from the text.
impl From<&AssSubtitle> for PlainSubtitle {
    fn from(value: &AssSubtitle) -> (r: PlainSubtitle)
        ensures
            r@ == ass_to_plain_spec(value@),
    {
        ass_to_plain(value)
    }
}

impl vstd::std_specs::convert::FromSpecImpl<AssSubtitle> for PlainSubtitle {
    open spec fn obeys_from_spec() -> bool {
        false
    }

    open spec fn from_spec(v: AssSubtitle) -> PlainSubtitle {
        arbitrary()
    }
}

/// Convert an `.ass` subtitle to a plain one.
/// This strips all formatting tags from the text.
impl From<AssSubtitle> for PlainSubtitle {
    fn from(value: AssSubtitle) -> (r: PlainSubtitle)
        ensures
            r@ == ass_to_plain_spec(value@),
    {
        ass_to_plain(&value)
    }
}

/// The event that [`ssa_to_plain`] makes of the event `e` at place `k`.
pub open spec fn ssa_to_plain_event(e: SsaEventView, k: int) -> PlainEventView {
    PlainEventView {
        text: crate::substation::ssa::data::plaintext(e.text),
        start: e.start,
        end: e.end,
    }
}

/// The subtitle that [`ssa_to_plain`] makes of `s`.
pub open spec fn ssa_to_plain_spec(s: SsaSubtitleView) -> Seq<PlainEventView> {
    Seq::new(s.dialogue.len(), |k: int| ssa_to_plain_event(s.dialogue[k], k))
}

/// Convert an `.ssa` subtitle to a plain one.
/// This strips all formatting tags from the text.
pub fn ssa_to_plain(value: &SsaSubtitle) -> (r: PlainSubtitle)
    ensures
        r@ == ssa_to_plain_spec(value@),
{
    let events = value.events();
    let mut out: Vec<PlainEvent> = Vec::new();
    let mut k: usize = 0;
    while k < events.len()
        invariant
            k <= events.len(),
            out@.len() == k,
            views(events@) == value@.dialogue,
            forall|j: int|
                0 <= j < k ==> (#[trigger] out@[j])@ == ssa_to_plain_event(events@[j]@, j),
        decreases events.len() - k,
    {
        let e = &events[k];
        out.push(PlainEvent { text: e.as_plaintext(), start: e.start, end: e.end });
        k += 1;
    }
    assert(
        views(out@) =~= Seq::new(
            value@.dialogue.len(),
            |k: int| ssa_to_plain_event(value@.dialogue[k], k),
        )
    );
    PlainSubtitle::from_events(out)
}

impl vstd::std_specs::convert::FromSpecImpl<&SsaSubtitle> for PlainSubtitle {
    open spec fn obeys_from_spec() -> bool {
        false
    }

    open spec fn from_spec(v: &SsaSubtitle) -> PlainSubtitle {
        arbitrary()
    }
}

/// Convert an `.ssa` subtitle to a plain one.
/// This strips all formatting tags from the text.
impl From<&SsaSubtitle> for PlainSubtitle {
    fn from(value: &SsaSubtitle) -> (r: PlainSubtitle)
        ensures
            r@ == ssa_to_plain_spec(value@),
    {
        ssa_to_plain(value)
    }
}

impl vstd::std_specs::convert::FromSpecImpl<SsaSubtitle> for PlainSubtitle {
    open spec fn obeys_from_spec() -> bool {
        false
    }

    open spec fn from_spec(v: SsaSubtitle) -> PlainSubtitle {
        arbitrary()
    }
}

/// Convert an `.ssa` subtitle to a plain one.
/// This strips all formatting tags from the text.
impl From<SsaSubtitle> for PlainSubtitle {
    fn from(value: SsaSubtitle) -> (r: PlainSubtitle)
        ensures
            r@ == ssa_to_plain_spec(value@),
    {
        ssa_to_plain(&value)
    }
}

/// The event that [`subrip_to_plain`] makes of the event `e` at place `k`.
pub open spec fn subrip_to_plain_event(e: SubRipEventView, k: int) -> PlainEventView {
    PlainEventView { text: crate::subrip::data::unformatted(e.text), start: e.start, end: e.end }
}

/// The subtitle that [`subrip_to_plain`] makes of `s`.
pub open spec fn subrip_to_plain_spec(s: Seq<SubRipEventView>) -> Seq<PlainEventView> {
    Seq::new(s.len(), |k: int| subrip_to_plain_event(s[k], k))
}

/// Convert a SubRip subtitle to a plain one.
/// This strips all formatting tags from the text.
pub fn subrip_to_plain(value: &SubRipSubtitle) -> (r: PlainSubtitle)
    ensures
        r@ == subrip_to_plain_spec(value@),
{
    let events = value.events();
    let mut out: Vec<PlainEvent> = Vec::new();
    let mut k: usize = 0;
    while k < events.len()
        invariant
            k <= events.len(),
            out@.len() == k,
            views(events@) == value@,
            forall|j: int|
                0 <= j < k ==> (#[trigger] out@[j])@ == subrip_to_plain_event(events@[j]@, j),
        decreases events.len() - k,
    {
        let e = &events[k];
        out.push(PlainEvent { text: e.as_plaintext(), start: e.start, end: e.end });
        k += 1;
    }
    assert(views(out@) =~= Seq::new(value@.len(), |k: int| subrip_to_plain_event(value@[k], k)));
    PlainSubtitle::from_events(out)
}

impl vstd::std_specs::convert::FromSpecImpl<&SubRipSubtitle> for PlainSubtitle {
    open spec fn obeys_from_spec() -> bool {
        false
    }

    open spec fn from_spec(v: &SubRipSubtitle) -> PlainSubtitle {
        arbitrary()
    }
}

/// Convert a SubRip subtitle to a plain one.
/// This strips all formatting tags from the text.
impl From<&SubRipSubtitle> for PlainSubtitle {
    fn from(value: &SubRipSubtitle) -> (r: PlainSubtitle)
        ensures
            r@ == subrip_to_plain_spec(value@),
    {
        subrip_to_plain(value)
    }
}

impl vstd::std_specs::convert::FromSpecImpl<SubRipSubtitle> for PlainSubtitle {
    open spec fn obeys_from_spec() -> bool {
        false
    }

    open spec fn from_spec(v: SubRipSubtitle) -> PlainSubtitle {
        arbitrary()
    }
}

/// Convert a SubRip subtitle to a plain one.
/// This strips all formatting tags from the text.
impl From<SubRipSubtitle> for PlainSubtitle {
    fn from(value: SubRipSubtitle) -> (r: PlainSubtitle)
        ensures
            r@ == subrip_to_plain_spec(value@),
    {
        subrip_to_plain(&value)
    }
}

/// The event that [`webvtt_to_plain`] makes of the event `e` at place `k`.
pub open spec fn webvtt_to_plain_event(e: WebVttCueView, k: int) -> PlainEventView {
    PlainEventView { text: crate::webvtt::data::unformatted(e.text), start: e.start, end: e.end }
}

/// The subtitle that [`webvtt_to_plain`] makes of `s`.
pub open spec fn webvtt_to_plain_spec(s: WebVttSubtitleView) -> Seq<PlainEventView> {
    Seq::new(s.cues.len(), |k: int| webvtt_to_plain_event(s.cues[k], k))
}

/// Convert a WebVTT subtitle to a plain one.
/// This strips all formatting tags from the text.
pub fn webvtt_to_plain(value: &WebVttSubtitle) -> (r: PlainSubtitle)
    ensures
        r@ == webvtt_to_plain_spec(value@),
{
    let events = value.events();
    let mut out: Vec<PlainEvent> = Vec::new();
    let mut k: usize = 0;
    while k < events.len()
        invariant
            k <= events.len(),
            out@.len() == k,
            views(events@) == value@.cues,
            forall|j: int|
                0 <= j < k ==> (#[trigger] out@[j])@ == webvtt_to_plain_event(events@[j]@, j),
        decreases events.len() - k,
    {
        let e = &events[k];
        out.push(PlainEvent { text: e.as_plaintext(), start: e.start, end: e.end });
        k += 1;
    }
    assert(
        views(out@) =~= Seq::new(
            value@.cues.len(),
            |k: int| webvtt_to_plain_event(value@.cues[k], k),
        )
    );
    PlainSubtitle::from_events(out)
}

impl vstd::std_specs::convert::FromSpecImpl<&WebVttSubtitle> for PlainSubtitle {
    open spec fn obeys_from_spec() -> bool {
        false
    }

    open spec fn from_spec(v: &WebVttSubtitle) -> PlainSubtitle {
        arbitrary()
    }
}

/// Convert a WebVTT subtitle to a plain one.
/// This strips all formatting tags from the text.
impl From<&WebVttSubtitle> for PlainSubtitle {
    fn from(value: &WebVttSubtitle) -> (r: PlainSubtitle)
        ensures
            r@ == webvtt_to_plain_spec(value@),
    {
        webvtt_to_plain(value)
    }
}

impl vstd::std_specs::convert::FromSpecImpl<WebVttSubtitle> for PlainSubtitle {
    open spec fn obeys_from_spec() -> bool {
        false
    }

    open spec fn from_spec(v: WebVttSubtitle) -> PlainSubtitle {
        arbitrary()
    }
}

/// Convert a WebVTT subtitle to a plain one.
/// This strips all formatting tags from the text.
impl From<WebVttSubtitle> for PlainSubtitle {
    fn from(value: WebVttSubtitle) -> (r: PlainSubtitle)
        ensures
            r@ == webvtt_to_plain_spec(value@),
    {
        webvtt_to_plain(&value)
    }
}

/// The event that [`microdvd_to_plain`] makes of the event `e` at place `k`.
pub open spec fn microdvd_to_plain_event(e: TimedMicroDvdEventView, k: int) -> PlainEventView {
    PlainEventView { text: crate::microdvd::data::plaintext(e.text), start: e.start, end: e.end }
}

/// The subtitle that [`microdvd_to_plain`] makes of `s`.
pub open spec fn microdvd_to_plain_spec(s: TimedMicroDvdSubtitleView) -> Seq<PlainEventView> {
    Seq::new(s.events.len(), |k: int| microdvd_to_plain_event(s.events[k], k))
}

/// Convert a timed MicroDVD subtitle to a plain one.
/// This strips all formatting tags from the text.
pub fn microdvd_to_plain(value: &TimedMicroDvdSubtitle) -> (r: PlainSubtitle)
    ensures
        r@ == microdvd_to_plain_spec(value@),
{
    let events = value.events();
    let mut out: Vec<PlainEvent> = Vec::new();
    let mut k: usize = 0;
    while k < events.len()
        invariant
            k <= events.len(),
            out@.len() == k,
            views(events@) == value@.events,
            forall|j: int|
                0 <= j < k ==> (#[trigger] out@[j])@ == microdvd_to_plain_event(events@[j]@, j),
        decreases events.len() - k,
    {
        let e = &events[k];
        out.push(PlainEvent { text: e.as_plaintext(), start: e.start, end: e.end });
        k += 1;
    }
    assert(
        views(out@) =~= Seq::new(
            value@.events.len(),
            |k: int| microdvd_to_plain_event(value@.events[k], k),
        )
    );
    PlainSubtitle::from_events(out)
}

impl vstd::std_specs::convert::FromSpecImpl<&TimedMicroDvdSubtitle> for PlainSubtitle {
    open spec fn obeys_from_spec() -> bool {
        false
    }

    open spec fn from_spec(v: &TimedMicroDvdSubtitle) -> PlainSubtitle {
        arbitrary()
    }
}

/// Convert a timed MicroDVD subtitle to a plain one.
/// This strips all formatting tags from the text.
impl From<&TimedMicroDvdSubtitle> for PlainSubtitle {
    fn from(value: &TimedMicroDvdSubtitle) -> (r: PlainSubtitle)
        ensures
            r@ == microdvd_to_plain_spec(value@),
    {
        microdvd_to_plain(value)
    }
}

impl vstd::std_specs::convert::FromSpecImpl<TimedMicroDvdSubtitle> for PlainSubtitle {
    open spec fn obeys_from_spec() -> bool {
        false
    }

    open spec fn from_spec(v: TimedMicroDvdSubtitle) -> PlainSubtitle {
        arbitrary()
    }
}

/// Convert a timed MicroDVD subtitle to a plain one.
/// This strips all formatting tags from the text.
impl From<TimedMicroDvdSubtitle> for PlainSubtitle {
    fn from(value: TimedMicroDvdSubtitle) -> (r: PlainSubtitle)
        ensures
            r@ == microdvd_to_plain_spec(value@),
    {
        microdvd_to_plain(&value)
    }
}

} // verus!
