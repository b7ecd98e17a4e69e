//! Formatting of WebVTT text turned into that of the other formats.

use crate::markup::{converted, Colour, LiteralRun, Scheme, SchemeView};
use crate::text::opt_text;
use vstd::prelude::*;

verus! {

/// The rules by which [`vtt_to_ass_formatting`] works.
pub open spec fn vtt_to_ass_formatting_rules() -> SchemeView {
    SchemeView {
        tags: seq![
            ("<b>"@, "{\\b1}"@),
            ("</b>"@, "{\\b0}"@),
            ("<i>"@, "{\\i1}"@),
            ("</i>"@, "{\\i0}"@),
            ("<u>"@, "{\\u1}"@),
            ("</u>"@, "{\\u0}"@),
        ],
        colour: Colour::Untouched,
        split: false,
        drawing: false,
        html: true,
        bracket: false,
        literal: LiteralRun::Before('<'),
    }
}

/// The rules of [`vtt_to_ass_formatting`], ready to be used.
pub fn vtt_to_ass_formatting_scheme() -> (r: Scheme)
    ensures
        r@ == vtt_to_ass_formatting_rules(),
{
    let mut r = Scheme::new(LiteralRun::Before('<'));
    r.tag("<b>", "{\\b1}");
    r.tag("</b>", "{\\b0}");
    r.tag("<i>", "{\\i1}");
    r.tag("</i>", "{\\i0}");
    r.tag("<u>", "{\\u1}");
    r.tag("</u>", "{\\u0}");
    r.html = true;
    assert(r@.tags =~= vtt_to_ass_formatting_rules().tags);
    r
}

/// WebVTT formatting as `.ass` override codes: bold, italic and underline;
/// any other tag is dropped.
/// `None` where the scan cannot move forward: at a `<` that opens no tag.
pub fn vtt_to_ass_formatting(input: &str) -> (r: Option<String>)
    ensures
        opt_text(r) == converted(input@, vtt_to_ass_formatting_rules()),
{
    vtt_to_ass_formatting_scheme().convert_str(input)
}

/// The rules by which [`vtt_to_ssa_formatting`] works.
pub open spec fn vtt_to_ssa_formatting_rules() -> SchemeView {
    SchemeView {
        tags: seq![
            ("<b>"@, "{\\b1}"@),
            ("</b>"@, "{\\b0}"@),
            ("<i>"@, "{\\i1}"@),
            ("</i>"@, "{\\i0}"@),
        ],
        colour: Colour::Untouched,
        split: false,
        drawing: false,
        html: true,
        bracket: false,
        literal: LiteralRun::Before('<'),
    }
}

/// The rules of [`vtt_to_ssa_formatting`], ready to be used.
pub fn vtt_to_ssa_formatting_scheme() -> (r: Scheme)
    ensures
        r@ == vtt_to_ssa_formatting_rules(),
{
    let mut r = Scheme::new(LiteralRun::Before('<'));
    r.tag("<b>", "{\\b1}");
    r.tag("</b>", "{\\b0}");
    r.tag("<i>", "{\\i1}");
    r.tag("</i>", "{\\i0}");
    r.html = true;
    assert(r@.tags =~= vtt_to_ssa_formatting_rules().tags);
    r
}

/// WebVTT formatting as `.ssa` override codes: bold and italic; any other
/// tag is dropped.
/// `None` where the scan cannot move forward: at a `<` that opens no tag.
pub fn vtt_to_ssa_formatting(input: &str) -> (r: Option<String>)
    ensures
        opt_text(r) == converted(input@, vtt_to_ssa_formatting_rules()),
{
    vtt_to_ssa_formatting_scheme().convert_str(input)
}

/// The rules by which [`vtt_to_srt_formatting`] works.
pub open spec fn vtt_to_srt_formatting_rules() -> SchemeView {
    SchemeView {
        tags: seq![
            ("<b>"@, "<b>"@),
            ("</b>"@, "</b>"@),
            ("<i>"@, "<i>"@),
            ("</i>"@, "</i>"@),
            ("<u>"@, "<u>"@),
            ("</u>"@, "</u>"@),
        ],
        colour: Colour::Untouched,
        split: false,
        drawing: false,
        html: true,
        bracket: false,
        literal: LiteralRun::Before('<'),
    }
}

/// The rules of [`vtt_to_srt_formatting`], ready to be used.
pub fn vtt_to_srt_formatting_scheme() -> (r: Scheme)
    ensures
        r@ == vtt_to_srt_formatting_rules(),
{
    let mut r = Scheme::new(LiteralRun::Before('<'));
    r.tag("<b>", "<b>");
    r.tag("</b>", "</b>");
    r.tag("<i>", "<i>");
    r.tag("</i>", "</i>");
    r.tag("<u>", "<u>");
    r.tag("</u>", "</u>");
    r.html = true;
    assert(r@.tags =~= vtt_to_srt_formatting_rules().tags);
    r
}

/// WebVTT formatting as SubRip tags: the tags for bold, italic and
/// underline stay, any other tag is dropped.
/// `None` where the scan cannot move forward: at a `<` that opens no tag.
pub fn vtt_to_srt_formatting(input: &str) -> (r: Option<String>)
    ensures
        opt_text(r) == converted(input@, vtt_to_srt_formatting_rules()),
{
    vtt_to_srt_formatting_scheme().convert_str(input)
}

/// The rules by which [`strip_html_tags`] works.
pub open spec fn strip_html_tags_rules() -> SchemeView {
    SchemeView {
        tags: Seq::<(Seq<char>, Seq<char>)>::empty(),
        colour: Colour::Untouched,
        split: false,
        drawing: false,
        html: true,
        bracket: false,
        literal: LiteralRun::Before('<'),
    }
}

/// The rules of [`strip_html_tags`], ready to be used.
pub fn strip_html_tags_scheme() -> (r: Scheme)
    ensures
        r@ == strip_html_tags_rules(),
{
    let mut r = Scheme::new(LiteralRun::Before('<'));
    r.html = true;
    assert(r@.tags =~= strip_html_tags_rules().tags);
    r
}

/// Text of a cue without its tags.
/// `None` where the scan cannot move forward: at a `<` that opens no tag.
pub fn strip_html_tags(input: &str) -> (r: Option<String>)
    ensures
        opt_text(r) == converted(input@, strip_html_tags_rules()),
{
    strip_html_tags_scheme().convert_str(input)
}

} // verus!
