//! The scanner behind every formatting converter.
//!
//! A converter walks a text from left to right. At each position it tries a
//! fixed list of rules in order and takes the first that applies: a table of
//! tags to rewrite, a font colour to rewrite, an override block to split, a
//! drawing span to drop, an HTML tag to drop, a bracket tag to drop, and at
//! last a run of literal text to copy. A [`Scheme`] says which of these rules
//! a converter has. A rule that applies without moving forward stops the
//! scan, and the conversion then yields nothing.

use crate::text::{
    copy_range, find_char, find_seq, has_prefix_at, lemma_find_seq_bounds, opt_text, push_range,
    push_str, scan_to_char, scan_to_seq, starts_with_at, string_of, to_chars, zero_padded,
};
use vstd::prelude::*;

verus! {

/// What a converter does with a font colour.
#[derive(Clone, Copy, Debug, PartialEq, Eq, Structural)]
pub enum Colour {
    /// Colours get no rule of their own.
    Untouched,
    /// `<font color="#RRGGBB">` becomes `{\c&HBBGGRR&}`.
    ToOverride,
    /// `{\c&HBBGGRR&}` and `{\1c&HBBGGRR&}` become `<font color="#RRGGBB">`.
    ToHtml,
}

/// How far a run of literal text reaches.
#[derive(Clone, Copy, Debug, PartialEq, Eq, Structural)]
pub enum LiteralRun {
    /// Up to the next `<` or `{`. An empty run stops the scan.
    BeforeOpeners,
    /// Up to the next `<` or `{`; where that run is empty, the whole rest of
    /// the text is taken.
    BeforeOpenersOrRest,
    /// Up to the next occurrence of the character; where there is none, the
    /// whole rest of the text is taken. An empty run stops the scan.
    Before(char),
}

/// The rules of one converter.
pub struct Scheme {
    /// Tags to rewrite: what is found, and what is written in its place.
    pub tags: Vec<(Vec<char>, Vec<char>)>,
    /// The rule for font colours.
    pub colour: Colour,
    /// Whether an override block `{\a\b}` is split into `{\a}{\b}`.
    pub split: bool,
    /// Whether drawing spans are dropped.
    pub drawing: bool,
    /// Whether an HTML tag that no earlier rule took is dropped.
    pub html: bool,
    /// Whether a bracket tag that no earlier rule took is dropped.
    pub bracket: bool,
    /// The rule for literal text.
    pub literal: LiteralRun,
}

/// The rules of one converter, as mathematical values.
pub struct SchemeView {
    pub tags: Seq<(Seq<char>, Seq<char>)>,
    pub colour: Colour,
    pub split: bool,
    pub drawing: bool,
    pub html: bool,
    pub bracket: bool,
    pub literal: LiteralRun,
}

impl View for Scheme {
    type V = SchemeView;

    open spec fn view(&self) -> SchemeView {
        SchemeView {
            tags: Seq::new(self.tags@.len(), |k: int| (self.tags@[k].0@, self.tags@[k].1@)),
            colour: self.colour,
            split: self.split,
            drawing: self.drawing,
            html: self.html,
            bracket: self.bracket,
            literal: self.literal,
        }
    }
}

/// The index just past a span that opens with `open` at `i` and closes with
/// the first `close` after it.
pub open spec fn delimited_end(s: Seq<char>, i: int, open: char, close: char) -> Option<int> {
    if 0 <= i < s.len() && s[i] == open && find_char(s, i + 1, close) < s.len() {
        Some(find_char(s, i + 1, close) + 1)
    } else {
        None
    }
}

/// The index just past a bracket tag `{...}` that starts at `i`.
pub open spec fn bracket_tag_end(s: Seq<char>, i: int) -> Option<int> {
    delimited_end(s, i, '{', '}')
}

/// The index just past an HTML tag `<...>` that starts at `i`.
pub open spec fn html_tag_end(s: Seq<char>, i: int) -> Option<int> {
    delimited_end(s, i, '<', '>')
}

/// A colour of up to six hexadecimal digits with its three bytes in the
/// opposite order: the digits are filled up to six with zeros in front, and
/// the pairs `AABBCC` become `CCBBAA`. Digits after the sixth are dropped.
pub open spec fn swapped_colour(c: Seq<char>) -> Seq<char> {
    let p = zero_padded(c, 6);
    p.subrange(4, 6) + p.subrange(2, 4) + p.subrange(0, 2)
}

/// The first tag of the table, from entry `k` on, that stands at `i`.
pub open spec fn first_tag(
    s: Seq<char>,
    i: int,
    tags: Seq<(Seq<char>, Seq<char>)>,
    k: int,
) -> Option<
    int,
>
    decreases tags.len() - k,
{
    if k < 0 || k >= tags.len() {
        None
    } else if has_prefix_at(s, i, tags[k].0) {
        Some(k)
    } else {
        first_tag(s, i, tags, k + 1)
    }
}

/// The colour rule at `i`: what is written and where the scan resumes.
pub open spec fn colour_step(s: Seq<char>, i: int, colour: Colour) -> Option<(Seq<char>, int)> {
    match colour {
        Colour::Untouched => None,
        Colour::ToOverride => {
            let from = i + "<font color=\"#"@.len();
            let to = find_seq(s, from, "\">"@);
            if has_prefix_at(s, i, "<font color=\"#"@) && to < s.len() {
                Some(("{\\c&H"@ + swapped_colour(s.subrange(from, to)) + "&}"@, to + 2))
            } else {
                None
            }
        },
        Colour::ToHtml => {
            let from = if has_prefix_at(s, i, "{\\1c&H"@) {
                i + "{\\1c&H"@.len()
            } else {
                i + "{\\c&H"@.len()
            };
            let to = find_seq(s, from, "&}"@);
            if (has_prefix_at(s, i, "{\\1c&H"@) || has_prefix_at(s, i, "{\\c&H"@)) && to < s.len() {
                Some(("<font color=\"#"@ + swapped_colour(s.subrange(from, to)) + "\">"@, to + 2))
            } else {
                None
            }
        },
    }
}

/// The codes of an override block, each in a block of its own. `c` holds the
/// inside of the block and `k` the index of a backslash in it; the code that
/// this backslash starts reaches to the next backslash or to the end.
pub open spec fn split_codes(c: Seq<char>, k: int) -> Seq<char>
    decreases c.len() - k,
{
    if k < 0 || k >= c.len() {
        Seq::<char>::empty()
    } else {
        let next = find_char(c, k + 1, '\\');
        if k < next <= c.len() {
            "{\\"@ + c.subrange(k + 1, next) + "}"@ + split_codes(c, next)
        } else {
            Seq::<char>::empty()
        }
    }
}

/// The split rule at `i`: a bracket tag whose inside starts with a backslash.
pub open spec fn split_step(s: Seq<char>, i: int) -> Option<(Seq<char>, int)> {
    match bracket_tag_end(s, i) {
        Some(end) => if i + 1 < end - 1 && s[i + 1] == '\\' {
            Some((split_codes(s.subrange(i + 1, end - 1), 0), end))
        } else {
            None
        },
        None => None,
    }
}

/// Whether `\p` followed by a digit from 1 to 9 stands in `c` at or after
/// `k`.
pub open spec fn has_drawing_code(c: Seq<char>, k: int) -> bool
    decreases c.len() - k,
{
    if k < 0 || k + 2 >= c.len() {
        false
    } else if c[k] == '\\' && c[k + 1] == 'p' && '1' <= c[k + 2] <= '9' {
        true
    } else {
        has_drawing_code(c, k + 1)
    }
}

/// Whether a bracket tag starts at `j` whose inside holds `\p0`.
pub open spec fn drawing_ends_at(s: Seq<char>, j: int) -> bool {
    match bracket_tag_end(s, j) {
        Some(end) => find_seq(s.subrange(j + 1, end - 1), 0, "\\p0"@) < end - 1 - (j + 1),
        None => false,
    }
}

/// The index just past the first bracket tag at or after `j` whose inside
/// holds `\p0`, or `s.len()` where there is none.
pub open spec fn drawing_end(s: Seq<char>, j: int) -> int
    decreases s.len() - j,
{
    if j < 0 || j >= s.len() {
        s.len() as int
    } else if drawing_ends_at(s, j) {
        bracket_tag_end(s, j).unwrap()
    } else {
        drawing_end(s, j + 1)
    }
}

/// The drawing rule at `i`: a bracket tag whose inside holds `\p1` to `\p9`
/// opens a span that reaches to the end of the next bracket tag that holds
/// `\p0`, or to the end of the text.
pub open spec fn drawing_step(s: Seq<char>, i: int) -> Option<(Seq<char>, int)> {
    match bracket_tag_end(s, i) {
        Some(end) => if has_drawing_code(s.subrange(i + 1, end - 1), 0) {
            Some((Seq::<char>::empty(), drawing_end(s, end)))
        } else {
            None
        },
        None => None,
    }
}

/// The index just past the run of characters other than `<` and `{` that
/// starts at `i`.
pub open spec fn skip_plain(s: Seq<char>, i: int) -> int
    decreases s.len() - i,
{
    if 0 <= i < s.len() && s[i] != '<' && s[i] != '{' {
        skip_plain(s, i + 1)
    } else {
        i
    }
}

/// Where the literal run that starts at `i` ends.
pub open spec fn literal_end(s: Seq<char>, i: int, run: LiteralRun) -> int {
    match run {
        LiteralRun::BeforeOpeners => skip_plain(s, i),
        LiteralRun::BeforeOpenersOrRest => if skip_plain(s, i) > i {
            skip_plain(s, i)
        } else {
            s.len() as int
        },
        LiteralRun::Before(c) => find_char(s, i, c),
    }
}

/// One step of a converter at `i`: what the first rule that applies writes,
/// and the index at which the scan resumes.
pub open spec fn step(s: Seq<char>, i: int, scheme: SchemeView) -> (Seq<char>, int) {
    if first_tag(s, i, scheme.tags, 0) is Some {
        let k = first_tag(s, i, scheme.tags, 0).unwrap();
        (scheme.tags[k].1, i + scheme.tags[k].0.len())
    } else if colour_step(s, i, scheme.colour) is Some {
        colour_step(s, i, scheme.colour).unwrap()
    } else if scheme.split && split_step(s, i) is Some {
        split_step(s, i).unwrap()
    } else if scheme.drawing && drawing_step(s, i) is Some {
        drawing_step(s, i).unwrap()
    } else if scheme.html && html_tag_end(s, i) is Some {
        (Seq::<char>::empty(), html_tag_end(s, i).unwrap())
    } else if scheme.bracket && bracket_tag_end(s, i) is Some {
        (Seq::<char>::empty(), bracket_tag_end(s, i).unwrap())
    } else {
        (s.subrange(i, literal_end(s, i, scheme.literal)), literal_end(s, i, scheme.literal))
    }
}

/// What a converter makes of `s` from `i` on: the pieces that its steps
/// write, one after the other, or `None` where a step does not move forward.
pub open spec fn scan(s: Seq<char>, i: int, scheme: SchemeView) -> Option<Seq<char>>
    decreases s.len() - i,
{
    if i < 0 || i >= s.len() {
        Some(Seq::<char>::empty())
    } else {
        let (piece, next) = step(s, i, scheme);
        if i < next <= s.len() {
            match scan(s, next, scheme) {
                Some(rest) => Some(piece + rest),
                None => None,
            }
        } else {
            None
        }
    }
}

/// What a converter makes of the whole of `s`.
pub open spec fn converted(s: Seq<char>, scheme: SchemeView) -> Option<Seq<char>> {
    scan(s, 0, scheme)
}

/// What a converter makes of `s`, or `s` itself where the scan stops.
pub open spec fn converted_or_kept(s: Seq<char>, scheme: SchemeView) -> Seq<char> {
    match converted(s, scheme) {
        Some(out) => out,
        None => s,
    }
}

/// Reads a span that opens with `open` at `i` and closes with the first
/// `close` after it.
pub(crate) fn scan_delimited(v: &Vec<char>, i: usize, open: char, close: char) -> (r: Option<usize>)
    requires
        i <= v.len(),
    ensures
        match r {
            Some(j) => delimited_end(v@, i as int, open, close) == Some(j as int) && i + 2 <= j
                <= v.len(),
            None => delimited_end(v@, i as int, open, close) is None,
        },
{
    if i < v.len() && v[i] == open {
        let j = scan_to_char(v, i + 1, close);
        if j < v.len() {
            Some(j + 1)
        } else {
            None
        }
    } else {
        None
    }
}

/// Reverses the byte order of a colour: see [`swapped_colour`].
pub(crate) fn push_swapped_colour(out: &mut Vec<char>, v: &Vec<char>, from: usize, to: usize)
    requires
        from <= to <= v.len(),
    ensures
        final(out)@ == old(out)@ + swapped_colour(v@.subrange(from as int, to as int)),
{
    let mut padded: Vec<char> = Vec::new();
    let len = to - from;
    let mut k: usize = len;
    while k < 6
        invariant
            len <= k,
            k <= 6 || k == len,
            padded@ == Seq::new((k - len) as nat, |m: int| '0'),
        decreases 6 - k,
    {
        padded.push('0');
        assert(padded@ == Seq::new((k + 1 - len) as nat, |m: int| '0'));
        k += 1;
    }
    push_range(&mut padded, v, from, to);
    proof {
        let c = v@.subrange(from as int, to as int);
        if len >= 6 {
            assert(padded@ == c);
        }
        assert(padded@ == zero_padded(c, 6));
    }
    push_range(out, &padded, 4, 6);
    push_range(out, &padded, 2, 4);
    push_range(out, &padded, 0, 2);
    assert(out@ == old(out)@ + swapped_colour(v@.subrange(from as int, to as int)));
}

/// Writes each code of an override block in a block of its own: see
/// [`split_codes`].
pub(crate) fn push_split_codes(out: &mut Vec<char>, c: &Vec<char>)
    ensures
        final(out)@ == old(out)@ + split_codes(c@, 0),
{
    let mut k: usize = 0;
    while k < c.len()
        invariant
            k <= c.len(),
            old(out)@ + split_codes(c@, 0) == out@ + split_codes(c@, k as int),
        decreases c.len() - k,
    {
        let next = scan_to_char(c, k + 1, '\\');
        let ghost before = out@;
        push_str(out, "{\\");
        push_range(out, c, k + 1, next);
        push_str(out, "}");
        assert(out@ + split_codes(c@, next as int) == before + split_codes(c@, k as int));
        k = next;
    }
}

/// Whether `\p` followed by a digit from 1 to 9 stands in `c`.
pub(crate) fn holds_drawing_code(c: &Vec<char>) -> (b: bool)
    ensures
        b == has_drawing_code(c@, 0),
{
    let mut k: usize = 0;
    while k < c.len() && c.len() - k > 2
        invariant
            k <= c.len(),
            has_drawing_code(c@, 0) == has_drawing_code(c@, k as int),
        decreases c.len() - k,
    {
        if c[k] == '\\' && c[k + 1] == 'p' && c[k + 2] >= '1' && c[k + 2] <= '9' {
            return true;
        }
        k += 1;
    }
    false
}

/// Whether a bracket tag starts at `j` whose inside holds `\p0`; with it,
/// the index just past that tag.
pub(crate) fn scan_drawing_end_tag(v: &Vec<char>, j: usize) -> (r: Option<usize>)
    requires
        j <= v.len(),
    ensures
        match r {
            Some(end) => drawing_ends_at(v@, j as int) && bracket_tag_end(v@, j as int) == Some(
                end as int,
            ) && j < end <= v.len(),
            None => !drawing_ends_at(v@, j as int),
        },
{
    match scan_delimited(v, j, '{', '}') {
        Some(end) => {
            let inside = copy_range(v, j + 1, end - 1);
            let code = to_chars("\\p0");
            let at = scan_to_seq(&inside, 0, &code);
            if at < inside.len() {
                Some(end)
            } else {
                None
            }
        },
        None => None,
    }
}

/// Finds where a drawing span that is open at `j` ends.
pub(crate) fn scan_drawing_end(v: &Vec<char>, j: usize) -> (r: usize)
    requires
        j <= v.len(),
    ensures
        r == drawing_end(v@, j as int),
        j <= r <= v.len(),
{
    let mut k = j;
    while k < v.len()
        invariant
            j <= k <= v.len(),
            drawing_end(v@, j as int) == drawing_end(v@, k as int),
        decreases v.len() - k,
    {
        match scan_drawing_end_tag(v, k) {
            Some(end) => {
                return end;
            },
            None => {},
        }
        k += 1;
    }
    k
}

/// The index just past the run of characters other than `<` and `{`.
pub(crate) fn scan_plain(v: &Vec<char>, i: usize) -> (j: usize)
    requires
        i <= v.len(),
    ensures
        j == skip_plain(v@, i as int),
        i <= j <= v.len(),
{
    let mut j = i;
    while j < v.len() && v[j] != '<' && v[j] != '{'
        invariant
            i <= j <= v.len(),
            skip_plain(v@, i as int) == skip_plain(v@, j as int),
        decreases v.len() - j,
    {
        j += 1;
    }
    j
}

impl Scheme {
    /// A scheme with no rule but the one for literal text.
    pub fn new(literal: LiteralRun) -> (r: Scheme)
        ensures
            r@ == (SchemeView {
                tags: Seq::<(Seq<char>, Seq<char>)>::empty(),
                colour: Colour::Untouched,
                split: false,
                drawing: false,
                html: false,
                bracket: false,
                literal,
            }),
    {
        let r = Scheme {
            tags: Vec::new(),
            colour: Colour::Untouched,
            split: false,
            drawing: false,
            html: false,
            bracket: false,
            literal,
        };
        assert(r@.tags =~= Seq::<(Seq<char>, Seq<char>)>::empty());
        r
    }

    /// Adds a tag to the end of the table.
    pub fn tag(&mut self, find: &str, write: &str)
        ensures
            final(self)@ == (SchemeView {
                tags: old(self)@.tags.push((find@, write@)),
                ..old(self)@
            }),
    {
        self.tags.push((to_chars(find), to_chars(write)));
        assert(self@.tags =~= old(self)@.tags.push((find@, write@)));
    }

    /// The first tag of the table, from entry `k` on, that stands at `i`.
    fn find_tag(&self, v: &Vec<char>, i: usize) -> (r: Option<usize>)
        requires
            i <= v.len(),
        ensures
            match r {
                Some(k) => first_tag(v@, i as int, self@.tags, 0) == Some(k as int) && k
                    < self.tags@.len() && has_prefix_at(v@, i as int, self.tags@[k as int].0@),
                None => first_tag(v@, i as int, self@.tags, 0) is None,
            },
    {
        let mut k: usize = 0;
        while k < self.tags.len()
            invariant
                i <= v.len(),
                k <= self.tags.len(),
                first_tag(v@, i as int, self@.tags, 0) == first_tag(
                    v@,
                    i as int,
                    self@.tags,
                    k as int,
                ),
            decreases self.tags.len() - k,
        {
            if starts_with_at(v, i, &self.tags[k].0) {
                return Some(k);
            }
            k += 1;
        }
        None
    }

    /// The colour rule at `i`.
    fn colour_at(&self, v: &Vec<char>, i: usize, out: &mut Vec<char>) -> (r: Option<usize>)
        requires
            i <= v.len(),
        ensures
            match r {
                Some(next) => colour_step(v@, i as int, self.colour) is Some && colour_step(v@, i as int, self.colour).unwrap().1 == next && final(out)@ == old(out)@
                    + colour_step(v@, i as int, self.colour).unwrap().0 && i < next <= v.len(),
                None => colour_step(v@, i as int, self.colour) is None && final(out)@ == old(out)@,
            },
    {
        match self.colour {
            Colour::Untouched => None,
            Colour::ToOverride => {
                let opening = to_chars("<font color=\"#");
                if !starts_with_at(v, i, &opening) {
                    return None;
                }
                let from = i + opening.len();
                let to = scan_to_seq(v, from, &to_chars("\">"));
                if to >= v.len() {
                    return None;
                }
                proof {
                    reveal_strlit("\">");
                    lemma_find_seq_bounds(v@, from as int, "\">"@);
                }
                push_str(out, "{\\c&H");
                push_swapped_colour(out, v, from, to);
                push_str(out, "&}");
                Some(to + 2)
            },
            Colour::ToHtml => {
                let long = to_chars("{\\1c&H");
                let short = to_chars("{\\c&H");
                let from = if starts_with_at(v, i, &long) {
                    i + long.len()
                } else if starts_with_at(v, i, &short) {
                    i + short.len()
                } else {
                    return None;
                };
                let to = scan_to_seq(v, from, &to_chars("&}"));
                if to >= v.len() {
                    return None;
                }
                proof {
                    reveal_strlit("&}");
                    lemma_find_seq_bounds(v@, from as int, "&}"@);
                }
                push_str(out, "<font color=\"#");
                push_swapped_colour(out, v, from, to);
                push_str(out, "\">");
                Some(to + 2)
            },
        }
    }

    /// The split rule at `i`.
    fn split_at(v: &Vec<char>, i: usize, out: &mut Vec<char>) -> (r: Option<usize>)
        requires
            i <= v.len(),
        ensures
            match r {
                Some(next) => split_step(v@, i as int) is Some && split_step(v@, i as int).unwrap().1 == next && final(out)@ == old(out)@
                    + split_step(v@, i as int).unwrap().0 && i < next <= v.len(),
                None => split_step(v@, i as int) is None && final(out)@ == old(out)@,
            },
    {
        match scan_delimited(v, i, '{', '}') {
            Some(end) => {
                if i + 1 < end - 1 && v[i + 1] == '\\' {
                    let inside = copy_range(v, i + 1, end - 1);
                    push_split_codes(out, &inside);
                    Some(end)
                } else {
                    None
                }
            },
            None => None,
        }
    }

    /// The drawing rule at `i`.
    fn drawing_at(v: &Vec<char>, i: usize) -> (r: Option<usize>)
        requires
            i <= v.len(),
        ensures
            match r {
                Some(next) => drawing_step(v@, i as int) == Some((Seq::<char>::empty(), next as int))
                    && i < next <= v.len(),
                None => drawing_step(v@, i as int) is None,
            },
    {
        match scan_delimited(v, i, '{', '}') {
            Some(end) => {
                let inside = copy_range(v, i + 1, end - 1);
                if holds_drawing_code(&inside) {
                    Some(scan_drawing_end(v, end))
                } else {
                    None
                }
            },
            None => None,
        }
    }

    /// Where the literal run that starts at `i` ends.
    fn literal_at(&self, v: &Vec<char>, i: usize) -> (r: usize)
        requires
            i <= v.len(),
        ensures
            r == literal_end(v@, i as int, self.literal),
            i <= r <= v.len(),
    {
        match self.literal {
            LiteralRun::BeforeOpeners => scan_plain(v, i),
            LiteralRun::BeforeOpenersOrRest => {
                let j = scan_plain(v, i);
                if j > i {
                    j
                } else {
                    v.len()
                }
            },
            LiteralRun::Before(c) => scan_to_char(v, i, c),
        }
    }

    /// One step of the converter at `i`: appends what the step writes to
    /// `out` and returns the index at which the scan resumes.
    pub fn step_at(&self, v: &Vec<char>, i: usize, out: &mut Vec<char>) -> (next: usize)
        requires
            i < v.len(),
        ensures
            next == step(v@, i as int, self@).1,
            final(out)@ == old(out)@ + step(v@, i as int, self@).0,
            i <= next <= v.len(),
    {
        match self.find_tag(v, i) {
            Some(k) => {
                let n = self.tags[k].0.len();
                assert(self@.tags[k as int] == (self.tags@[k as int].0@, self.tags@[k as int].1@));
                push_range(out, &self.tags[k].1, 0, self.tags[k].1.len());
                assert(self.tags@[k as int].1@.subrange(0, self.tags@[k as int].1@.len() as int)
                    == self.tags@[k as int].1@);
                return i + n;
            },
            None => {},
        }
        match self.colour_at(v, i, out) {
            Some(next) => {
                return next;
            },
            None => {},
        }
        if self.split {
            match Self::split_at(v, i, out) {
                Some(next) => {
                    return next;
                },
                None => {},
            }
        }
        if self.drawing {
            match Self::drawing_at(v, i) {
                Some(next) => {
                    assert(out@ + Seq::<char>::empty() == out@);
                    return next;
                },
                None => {},
            }
        }
        if self.html {
            match scan_delimited(v, i, '<', '>') {
                Some(next) => {
                    assert(out@ + Seq::<char>::empty() == out@);
                    return next;
                },
                None => {},
            }
        }
        if self.bracket {
            match scan_delimited(v, i, '{', '}') {
                Some(next) => {
                    assert(out@ + Seq::<char>::empty() == out@);
                    return next;
                },
                None => {},
            }
        }
        let next = self.literal_at(v, i);
        push_range(out, v, i, next);
        next
    }

    /// Converts `input` by the rules of the scheme. `None` where a step of
    /// the scan does not move forward.
    pub fn convert(&self, input: &Vec<char>) -> (r: Option<Vec<char>>)
        ensures
            r.is_some() == converted(input@, self@).is_some(),
            r matches Some(out) ==> out@ == converted(input@, self@).unwrap(),
    {
        let mut out: Vec<char> = Vec::new();
        let mut i: usize = 0;
        while i < input.len()
            invariant
                i <= input.len(),
                converted(input@, self@) == match scan(input@, i as int, self@) {
                    Some(rest) => Some(out@ + rest),
                    None => None,
                },
            decreases input.len() - i,
        {
            let ghost before = out@;
            let next = self.step_at(input, i, &mut out);
            if next <= i {
                return None;
            }
            proof {
                let (piece, _) = step(input@, i as int, self@);
                match scan(input@, next as int, self@) {
                    Some(rest) => {
                        assert(before + (piece + rest) == out@ + rest);
                    },
                    None => {},
                }
            }
            i = next;
        }
        assert(out@ + Seq::<char>::empty() == out@);
        Some(out)
    }

    /// Converts a string by the rules of the scheme. `None` where a step of
    /// the scan does not move forward.
    pub fn convert_str(&self, input: &str) -> (r: Option<String>)
        ensures
            opt_text(r) == converted(input@, self@),
    {
        let v = to_chars(input);
        match self.convert(&v) {
            Some(out) => Some(string_of(&out)),
            None => None,
        }
    }

    /// Converts a string by the rules of the scheme, and leaves it as it is
    /// where a step of the scan does not move forward.
    pub fn convert_or_keep(&self, input: &str) -> (r: String)
        ensures
            r@ == converted_or_kept(input@, self@),
    {
        match self.convert_str(input) {
            Some(out) => out,
            None => {
                let v = to_chars(input);
                string_of(&v)
            },
        }
    }
}

} // verus!
