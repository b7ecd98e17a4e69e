//! Conversions that `.ass` and `.ssa` text share.

use crate::markup::{
    converted, push_swapped_colour, swapped_colour, Colour, LiteralRun, Scheme, SchemeView,
};
use crate::text::{opt_text, string_of, to_chars};
use vstd::prelude::*;

verus! {

/// The colour `input`, written as up to six hexadecimal digits, with its
/// three bytes in the opposite order: `BBGGRR` becomes `RRGGBB`. Fewer than
/// six digits are filled up with zeros in front; digits after the sixth are
/// dropped.
pub fn convert_hex(input: &str) -> (r: String)
    ensures
        r@ == swapped_colour(input@),
{
    let v = to_chars(input);
    let mut out: Vec<char> = Vec::new();
    push_swapped_colour(&mut out, &v, 0, v.len());
    assert(v@.subrange(0, v@.len() as int) == v@);
    string_of(&out)
}

/// The rules by which [`split_formatting_tags`] works.
pub open spec fn split_formatting_tags_rules() -> SchemeView {
    SchemeView {
        tags: Seq::<(Seq<char>, Seq<char>)>::empty(),
        colour: Colour::Untouched,
        split: true,
        drawing: false,
        html: false,
        bracket: false,
        literal: LiteralRun::Before('{'),
    }
}

/// The rules of [`split_formatting_tags`], ready to be used.
pub fn split_formatting_tags_scheme() -> (r: Scheme)
    ensures
        r@ == split_formatting_tags_rules(),
{
    let mut r = Scheme::new(LiteralRun::Before('{'));
    r.split = true;
    assert(r@.tags =~= split_formatting_tags_rules().tags);
    r
}

/// Text with each override block that bundles several codes split into one
/// block per code: `{\b1\i1}` becomes `{\b1}{\i1}`.
/// `None` where the scan cannot move forward: at a `{` that opens no tag, or
/// that opens a tag whose inside does not start with a backslash.
pub fn split_formatting_tags(input: &str) -> (r: Option<String>)
    ensures
        opt_text(r) == converted(input@, split_formatting_tags_rules()),
{
    split_formatting_tags_scheme().convert_str(input)
}

} // verus!
