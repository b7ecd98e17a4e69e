//! Formatting of SubRip text turned into that of the other formats.

use crate::markup::{
    converted, push_swapped_colour, swapped_colour, Colour, LiteralRun, Scheme, SchemeView,
};
use crate::text::{opt_text, string_of, to_chars};
use vstd::prelude::*;

verus! {

/// The colour `input`, written as up to six hexadecimal digits, with its
/// three bytes in the opposite order: `RRGGBB` becomes `BBGGRR`. Fewer than
/// six digits are filled up with zeros in front; digits after the sixth are
/// dropped.
pub fn correct_colour_hex(input: &str) -> (r: String)
    ensures
        r@ == swapped_colour(input@),
{
    let v = to_chars(input);
    let mut out: Vec<char> = Vec::new();
    push_swapped_colour(&mut out, &v, 0, v.len());
    assert(v@.subrange(0, v@.len() as int) == v@);
    string_of(&out)
}

/// The rules by which [`strip_srt_formatting`] works.
pub open spec fn strip_srt_formatting_rules() -> SchemeView {
    SchemeView {
        tags: Seq::<(Seq<char>, Seq<char>)>::empty(),
        colour: Colour::Untouched,
        split: false,
        drawing: false,
        html: true,
        bracket: true,
        literal: LiteralRun::BeforeOpenersOrRest,
    }
}

/// The rules of [`strip_srt_formatting`], ready to be used.
pub fn strip_srt_formatting_scheme() -> (r: Scheme)
    ensures
        r@ == strip_srt_formatting_rules(),
{
    let mut r = Scheme::new(LiteralRun::BeforeOpenersOrRest);
    r.html = true;
    r.bracket = true;
    assert(r@.tags =~= strip_srt_formatting_rules().tags);
    r
}

/// Text of a SubRip event without its HTML and bracket tags. A `<` or `{`
/// that opens no tag stays, with all that follows it.
pub fn strip_srt_formatting(input: &str) -> (r: Option<String>)
    ensures
        opt_text(r) == converted(input@, strip_srt_formatting_rules()),
{
    strip_srt_formatting_scheme().convert_str(input)
}

/// The rules by which [`srt_to_ass_formatting`] works.
pub open spec fn srt_to_ass_formatting_rules() -> SchemeView {
    SchemeView {
        tags: seq![
            ("<b>"@, "{\\b1}"@),
            ("</b>"@, "{\\b0}"@),
            ("{b}"@, "{\\b1}"@),
            ("{/b}"@, "{\\b0}"@),
            ("<i>"@, "{\\i1}"@),
            ("</i>"@, "{\\i0}"@),
            ("{i}"@, "{\\i1}"@),
            ("{/i}"@, "{\\i0}"@),
            ("<u>"@, "{\\u1}"@),
            ("</u>"@, "{\\u0}"@),
            ("{u}"@, "{\\u1}"@),
            ("{/u}"@, "{\\u0}"@),
        ],
        colour: Colour::ToOverride,
        split: false,
        drawing: false,
        html: true,
        bracket: true,
        literal: LiteralRun::BeforeOpeners,
    }
}

/// The rules of [`srt_to_ass_formatting`], ready to be used.
pub fn srt_to_ass_formatting_scheme() -> (r: Scheme)
    ensures
        r@ == srt_to_ass_formatting_rules(),
{
    let mut r = Scheme::new(LiteralRun::BeforeOpeners);
    r.tag("<b>", "{\\b1}");
    r.tag("</b>", "{\\b0}");
    r.tag("{b}", "{\\b1}");
    r.tag("{/b}", "{\\b0}");
    r.tag("<i>", "{\\i1}");
    r.tag("</i>", "{\\i0}");
    r.tag("{i}", "{\\i1}");
    r.tag("{/i}", "{\\i0}");
    r.tag("<u>", "{\\u1}");
    r.tag("</u>", "{\\u0}");
    r.tag("{u}", "{\\u1}");
    r.tag("{/u}", "{\\u0}");
    r.colour = Colour::ToOverride;
    r.html = true;
    r.bracket = true;
    assert(r@.tags =~= srt_to_ass_formatting_rules().tags);
    r
}

/// SubRip formatting as `.ass` override codes: bold, italic and underline in
/// either tag syntax, and font colours; any other tag is dropped.
/// `None` where the scan cannot move forward: at a `<` or `{` that opens no tag.
pub fn srt_to_ass_formatting(input: &str) -> (r: Option<String>)
    ensures
        opt_text(r) == converted(input@, srt_to_ass_formatting_rules()),
{
    srt_to_ass_formatting_scheme().convert_str(input)
}

/// The rules by which [`srt_to_ssa_formatting`] works.
pub open spec fn srt_to_ssa_formatting_rules() -> SchemeView {
    SchemeView {
        tags: seq![
            ("<b>"@, "{\\b1}"@),
            ("</b>"@, "{\\b0}"@),
            ("{b}"@, "{\\b1}"@),
            ("{/b}"@, "{\\b0}"@),
            ("<i>"@, "{\\i1}"@),
            ("</i>"@, "{\\i0}"@),
            ("{i}"@, "{\\i1}"@),
            ("{/i}"@, "{\\i0}"@),
        ],
        colour: Colour::ToOverride,
        split: false,
        drawing: false,
        html: true,
        bracket: true,
        literal: LiteralRun::BeforeOpeners,
    }
}

/// The rules of [`srt_to_ssa_formatting`], ready to be used.
pub fn srt_to_ssa_formatting_scheme() -> (r: Scheme)
    ensures
        r@ == srt_to_ssa_formatting_rules(),
{
    let mut r = Scheme::new(LiteralRun::BeforeOpeners);
    r.tag("<b>", "{\\b1}");
    r.tag("</b>", "{\\b0}");
    r.tag("{b}", "{\\b1}");
    r.tag("{/b}", "{\\b0}");
    r.tag("<i>", "{\\i1}");
    r.tag("</i>", "{\\i0}");
    r.tag("{i}", "{\\i1}");
    r.tag("{/i}", "{\\i0}");
    r.colour = Colour::ToOverride;
    r.html = true;
    r.bracket = true;
    assert(r@.tags =~= srt_to_ssa_formatting_rules().tags);
    r
}

/// SubRip formatting as `.ssa` override codes: bold and italic in either tag
/// syntax, and font colours; any other tag is dropped.
/// `None` where the scan cannot move forward: at a `<` or `{` that opens no tag.
pub fn srt_to_ssa_formatting(input: &str) -> (r: Option<String>)
    ensures
        opt_text(r) == converted(input@, srt_to_ssa_formatting_rules()),
{
    srt_to_ssa_formatting_scheme().convert_str(input)
}

/// The rules by which [`srt_to_vtt_formatting`] works.
pub open spec fn srt_to_vtt_formatting_rules() -> SchemeView {
    SchemeView {
        tags: seq![
            ("{b}"@, "<b>"@),
            ("{/b}"@, "</b>"@),
            ("{i}"@, "<i>"@),
            ("{/i}"@, "</i>"@),
            ("{u}"@, "<u>"@),
            ("{/u}"@, "</u>"@),
            ("<b>"@, "<b>"@),
            ("</b>"@, "</b>"@),
            ("<i>"@, "<i>"@),
            ("</i>"@, "</i>"@),
            ("<u>"@, "<u>"@),
            ("</u>"@, "</u>"@),
        ],
        colour: Colour::Untouched,
        split: false,
        drawing: false,
        html: true,
        bracket: true,
        literal: LiteralRun::BeforeOpenersOrRest,
    }
}

/// The rules of [`srt_to_vtt_formatting`], ready to be used.
pub fn srt_to_vtt_formatting_scheme() -> (r: Scheme)
    ensures
        r@ == srt_to_vtt_formatting_rules(),
{
    let mut r = Scheme::new(LiteralRun::BeforeOpenersOrRest);
    r.tag("{b}", "<b>");
    r.tag("{/b}", "</b>");
    r.tag("{i}", "<i>");
    r.tag("{/i}", "</i>");
    r.tag("{u}", "<u>");
    r.tag("{/u}", "</u>");
    r.tag("<b>", "<b>");
    r.tag("</b>", "</b>");
    r.tag("<i>", "<i>");
    r.tag("</i>", "</i>");
    r.tag("<u>", "<u>");
    r.tag("</u>", "</u>");
    r.html = true;
    r.bracket = true;
    assert(r@.tags =~= srt_to_vtt_formatting_rules().tags);
    r
}

/// SubRip formatting as WebVTT tags: bracket tags for bold, italic and
/// underline become HTML tags, these six HTML tags stay, any other tag is
/// dropped. A `<` or `{` that opens no tag stays, with all that follows it.
pub fn srt_to_vtt_formatting(input: &str) -> (r: Option<String>)
    ensures
        opt_text(r) == converted(input@, srt_to_vtt_formatting_rules()),
{
    srt_to_vtt_formatting_scheme().convert_str(input)
}

} // verus!
