//! Formatting of `.ssa` text turned into that of the other formats.

use crate::markup::{converted, Colour, LiteralRun, Scheme, SchemeView};
use crate::text::opt_text;
use vstd::prelude::*;

verus! {

/// The rules by which [`ssa_to_srt_formatting`] works.
pub open spec fn ssa_to_srt_formatting_rules() -> SchemeView {
    SchemeView {
        tags: seq![
            ("{\\b1}"@, "<b>"@),
            ("{\\b0}"@, "</b>"@),
            ("{\\i1}"@, "<i>"@),
            ("{\\i0}"@, "</i>"@),
        ],
        colour: Colour::ToHtml,
        split: false,
        drawing: false,
        html: false,
        bracket: true,
        literal: LiteralRun::Before('{'),
    }
}

/// The rules of [`ssa_to_srt_formatting`], ready to be used.
pub fn ssa_to_srt_formatting_scheme() -> (r: Scheme)
    ensures
        r@ == ssa_to_srt_formatting_rules(),
{
    let mut r = Scheme::new(LiteralRun::Before('{'));
    r.tag("{\\b1}", "<b>");
    r.tag("{\\b0}", "</b>");
    r.tag("{\\i1}", "<i>");
    r.tag("{\\i0}", "</i>");
    r.colour = Colour::ToHtml;
    r.bracket = true;
    assert(r@.tags =~= ssa_to_srt_formatting_rules().tags);
    r
}

/// `.ssa` override codes as SubRip tags: bold and italic, and font
/// colours; any other override block is dropped. Blocks must hold one code
/// each.
/// `None` where the scan cannot move forward: at a `{` that opens no tag.
pub fn ssa_to_srt_formatting(input: &str) -> (r: Option<String>)
    ensures
        opt_text(r) == converted(input@, ssa_to_srt_formatting_rules()),
{
    ssa_to_srt_formatting_scheme().convert_str(input)
}

/// The rules by which [`ssa_to_vtt_formatting`] works.
pub open spec fn ssa_to_vtt_formatting_rules() -> SchemeView {
    SchemeView {
        tags: seq![
            ("{\\b1}"@, "<b>"@),
            ("{\\b0}"@, "</b>"@),
            ("{\\i1}"@, "<i>"@),
            ("{\\i0}"@, "</i>"@),
        ],
        colour: Colour::Untouched,
        split: false,
        drawing: false,
        html: false,
        bracket: true,
        literal: LiteralRun::Before('{'),
    }
}

/// The rules of [`ssa_to_vtt_formatting`], ready to be used.
pub fn ssa_to_vtt_formatting_scheme() -> (r: Scheme)
    ensures
        r@ == ssa_to_vtt_formatting_rules(),
{
    let mut r = Scheme::new(LiteralRun::Before('{'));
    r.tag("{\\b1}", "<b>");
    r.tag("{\\b0}", "</b>");
    r.tag("{\\i1}", "<i>");
    r.tag("{\\i0}", "</i>");
    r.bracket = true;
    assert(r@.tags =~= ssa_to_vtt_formatting_rules().tags);
    r
}

/// `.ssa` override codes as WebVTT tags: bold and italic; any other
/// override block is dropped. Blocks must hold one code each.
/// `None` where the scan cannot move forward: at a `{` that opens no tag.
pub fn ssa_to_vtt_formatting(input: &str) -> (r: Option<String>)
    ensures
        opt_text(r) == converted(input@, ssa_to_vtt_formatting_rules()),
{
    ssa_to_vtt_formatting_scheme().convert_str(input)
}

/// The rules by which [`strip_formatting_tags`] works.
pub open spec fn strip_formatting_tags_rules() -> SchemeView {
    SchemeView {
        tags: Seq::<(Seq<char>, Seq<char>)>::empty(),
        colour: Colour::Untouched,
        split: false,
        drawing: true,
        html: false,
        bracket: true,
        literal: LiteralRun::Before('{'),
    }
}

/// The rules of [`strip_formatting_tags`], ready to be used.
pub fn strip_formatting_tags_scheme() -> (r: Scheme)
    ensures
        r@ == strip_formatting_tags_rules(),
{
    let mut r = Scheme::new(LiteralRun::Before('{'));
    r.drawing = true;
    r.bracket = true;
    assert(r@.tags =~= strip_formatting_tags_rules().tags);
    r
}

/// Text of an event without its drawing spans and override blocks. A
/// drawing span starts with a block that holds `\p1` to `\p9` and ends with
/// the next block that holds `\p0`, or with the text.
/// `None` where the scan cannot move forward: at a `{` that opens no tag.
pub fn strip_formatting_tags(input: &str) -> (r: Option<String>)
    ensures
        opt_text(r) == converted(input@, strip_formatting_tags_rules()),
{
    strip_formatting_tags_scheme().convert_str(input)
}

} // verus!
