//! Grammar common to `.ass` and `.ssa` files: section headers, lines made of
//! comma-separated fields, embedded files and the script type.

use crate::parsing::{clock_at, rows_view, scan_clock};
use crate::substation::common::data::{BlobView, SubStationEventKind};
use crate::text::{
    copy_range, find_char, find_seq, has_prefix_at, has_prefix_no_case_at, int_at,
    lemma_skip_multispace_bounds, push_range, scan_int, scan_multispace, scan_space, scan_to_char,
    scan_to_seq, skip_digits, skip_multispace, skip_space, starts_with_at, starts_with_no_case_at,
    string_of, to_chars, views,
};
use crate::timed_subtitle::Format;
use crate::timing::Moment;
use vstd::hash_map::StringHashMap;
use vstd::prelude::*;

verus! {

/// The sections of a SubStation file.
#[derive(Clone, Copy, Debug, PartialEq, Eq, Structural)]
pub enum SubStationSection {
    /// `[Script Info]`
    ScriptInfo,
    /// `[V4 Styles]` or `[V4+ Styles]`
    Styles,
    /// `[Events]`
    Events,
    /// `[Fonts]`
    Fonts,
    /// `[Graphics]`
    Graphics,
}

/// What a field of a comma-separated line holds.
#[derive(Clone, Copy, Debug, PartialEq, Eq, Structural)]
pub enum FieldKind {
    /// Any text up to the next comma.
    Text,
    /// A decimal integer.
    Int,
    /// A flag written `-1` for true and `0` for false.
    Flag,
    /// `Marked=1` or `Marked=0`.
    Marked,
    /// A timestamp `H:MM:SS.cc`.
    Time,
    /// A decimal number with an optional fraction and exponent.
    Real,
}

/// A field that was read.
#[derive(Debug)]
pub enum Field {
    Text(Vec<char>),
    Int(i64),
    Flag(bool),
    Time(Moment),
}

/// A field that was read, as a mathematical value.
pub enum FieldView {
    Text(Seq<char>),
    Int(i64),
    Flag(bool),
    Time(Moment),
}

impl View for Field {
    type V = FieldView;

    open spec fn view(&self) -> FieldView {
        match self {
            Field::Text(t) => FieldView::Text(t@),
            Field::Int(n) => FieldView::Int(*n),
            Field::Flag(b) => FieldView::Flag(*b),
            Field::Time(t) => FieldView::Time(*t),
        }
    }
}

impl FieldView {
    /// The text of a text field; empty for any other.
    pub open spec fn text(self) -> Seq<char> {
        match self {
            FieldView::Text(t) => t,
            _ => Seq::<char>::empty(),
        }
    }

    /// The number of an integer field; zero for any other.
    pub open spec fn number(self) -> i64 {
        match self {
            FieldView::Int(n) => n,
            _ => 0,
        }
    }

    /// The value of a flag; false for any other field.
    pub open spec fn flag(self) -> bool {
        match self {
            FieldView::Flag(b) => b,
            _ => false,
        }
    }

    /// The moment of a timestamp; the start of the media for any other
    /// field.
    pub open spec fn time(self) -> Moment {
        match self {
            FieldView::Time(t) => t,
            _ => Moment(0),
        }
    }
}

impl Field {
    /// The text of a text field; empty for any other.
    pub fn text(&self) -> (r: String)
        ensures
            r@ == self@.text(),
    {
        match self {
            Field::Text(t) => string_of(t),
            _ => String::new(),
        }
    }

    /// The number of an integer field; zero for any other.
    pub fn number(&self) -> (r: i64)
        ensures
            r == self@.number(),
    {
        match self {
            Field::Int(n) => *n,
            _ => 0,
        }
    }

    /// The value of a flag; false for any other field.
    pub fn flag(&self) -> (r: bool)
        ensures
            r == self@.flag(),
    {
        match self {
            Field::Flag(b) => *b,
            _ => false,
        }
    }

    /// The moment of a timestamp; the start of the media for any other
    /// field.
    pub fn time(&self) -> (r: Moment)
        ensures
            r == self@.time(),
    {
        match self {
            Field::Time(t) => *t,
            _ => Moment(0),
        }
    }
}

/// The section that the header at the start of `line` names, white space
/// before it allowed. What follows the closing bracket is not looked at.
pub open spec fn section_header(line: Seq<char>) -> Option<SubStationSection> {
    let a = skip_multispace(line, 0);
    if a < line.len() && line[a] == '[' {
        if has_prefix_no_case_at(line, a + 1, "Events]"@) {
            Some(SubStationSection::Events)
        } else if has_prefix_no_case_at(line, a + 1, "V4 Styles]"@) || has_prefix_no_case_at(
            line,
            a + 1,
            "V4+ Styles]"@,
        ) {
            Some(SubStationSection::Styles)
        } else if has_prefix_no_case_at(line, a + 1, "Fonts]"@) {
            Some(SubStationSection::Fonts)
        } else if has_prefix_no_case_at(line, a + 1, "Graphics]"@) {
            Some(SubStationSection::Graphics)
        } else if has_prefix_no_case_at(line, a + 1, "Script Info]"@) {
            Some(SubStationSection::ScriptInfo)
        } else {
            None
        }
    } else {
        None
    }
}

/// The end of the exponent of a number whose mantissa ends at `m`: `None`
/// where an `e` stands without digits after it.
pub open spec fn exponent_end(s: Seq<char>, m: int) -> Option<int> {
    if 0 <= m < s.len() && (s[m] == 'e' || s[m] == 'E') {
        let b = if m + 1 < s.len() && (s[m + 1] == '+' || s[m + 1] == '-') {
            m + 2
        } else {
            m + 1
        };
        if skip_digits(s, b) > b {
            Some(skip_digits(s, b))
        } else {
            None
        }
    } else {
        Some(m)
    }
}

/// The end of a decimal number at `i`: an optional sign, digits with an
/// optional fraction or a fraction alone, and an optional exponent; or one of
/// the words `nan` and `inf`, in any case.
pub open spec fn real_end(s: Seq<char>, i: int) -> Option<int> {
    let a = if 0 <= i < s.len() && (s[i] == '+' || s[i] == '-') {
        i + 1
    } else {
        i
    };
    let d = skip_digits(s, a);
    if d > a {
        if d < s.len() && s[d] == '.' {
            exponent_end(s, skip_digits(s, d + 1))
        } else {
            exponent_end(s, d)
        }
    } else if 0 <= a < s.len() && s[a] == '.' && skip_digits(s, a + 1) > a + 1 {
        exponent_end(s, skip_digits(s, a + 1))
    } else if has_prefix_no_case_at(s, i, "nan"@) || has_prefix_no_case_at(s, i, "inf"@) {
        Some(i + 3)
    } else {
        None
    }
}

/// One field of the given kind at `i`, and the index just past it.
pub open spec fn field_at(s: Seq<char>, i: int, kind: FieldKind) -> Option<(FieldView, int)> {
    match kind {
        FieldKind::Text => {
            let j = find_char(s, i, ',');
            if 0 <= i <= j < s.len() {
                Some((FieldView::Text(s.subrange(i, j)), j))
            } else {
                None
            }
        },
        FieldKind::Int => match int_at(s, i) {
            Some((n, j)) => Some((FieldView::Int(n), j)),
            None => None,
        },
        FieldKind::Flag => if has_prefix_at(s, i, "-1"@) {
            Some((FieldView::Flag(true), i + 2))
        } else if has_prefix_at(s, i, "0"@) {
            Some((FieldView::Flag(false), i + 1))
        } else {
            None
        },
        FieldKind::Marked => if has_prefix_no_case_at(s, i, "Marked="@) && i + 7 < s.len() && (s[i
            + 7] == '1' || s[i + 7] == '0') {
            Some((FieldView::Flag(s[i + 7] == '1'), i + 8))
        } else {
            None
        },
        FieldKind::Time => match clock_at(s, i, '.', 10) {
            Some((t, j)) => Some((FieldView::Time(t), j)),
            None => None,
        },
        FieldKind::Real => match real_end(s, i) {
            Some(j) => if 0 <= i <= j <= s.len() {
                Some((FieldView::Text(s.subrange(i, j)), j))
            } else {
                None
            },
            None => None,
        },
    }
}

/// The fields of the kinds `kinds[k..]`, read from `i` on. A comma and any
/// spaces or tabs stand between two fields, and after the last one too where
/// `trailing` is set.
pub open spec fn fields_at(
    s: Seq<char>,
    i: int,
    kinds: Seq<FieldKind>,
    k: int,
    trailing: bool,
) -> Option<
    (Seq<FieldView>, int),
>
    decreases kinds.len() - k,
{
    if k < 0 || k >= kinds.len() {
        Some((Seq::<FieldView>::empty(), i))
    } else {
        match field_at(s, i, kinds[k]) {
            Some((field, j)) => if k + 1 == kinds.len() && !trailing {
                Some((seq![field], j))
            } else if 0 <= j < s.len() && s[j] == ',' {
                match fields_at(s, skip_space(s, j + 1), kinds, k + 1, trailing) {
                    Some((rest, end)) => Some((seq![field] + rest, end)),
                    None => None,
                }
            } else {
                None
            },
            None => None,
        }
    }
}

/// The index just past `word`, a colon, and the spaces and tabs around the
/// colon, where a line starts with them; `word` is read in any case.
pub open spec fn label_end(line: Seq<char>, word: Seq<char>) -> Option<int> {
    let a = skip_space(line, word.len() as int);
    if has_prefix_no_case_at(line, 0, word) && a < line.len() && line[a] == ':' {
        Some(skip_space(line, a + 1))
    } else {
        None
    }
}

/// The first kind of event, in the order Dialogue, Picture, Sound, Movie,
/// Command and from `k` on, whose name starts `line` and whose fields
/// follow: the kind, the fields, and the index at which the text starts.
pub open spec fn event_fields_from(line: Seq<char>, kinds: Seq<FieldKind>, k: int) -> Option<
    (SubStationEventKind, Seq<FieldView>, int),
>
    decreases 5 - k,
{
    if k < 0 || k >= 5 {
        None
    } else {
        let kind = event_kind(k);
        let read = match label_end(line, crate::substation::common::data::kind_name(kind)) {
            Some(i) => fields_at(line, i, kinds, 0, true),
            None => None,
        };
        match read {
            Some((fields, end)) => Some((kind, fields, end)),
            None => event_fields_from(line, kinds, k + 1),
        }
    }
}

/// The kinds of event in the order in which a line is tried against them.
pub open spec fn event_kind(k: int) -> SubStationEventKind {
    if k == 0 {
        SubStationEventKind::Dialogue
    } else if k == 1 {
        SubStationEventKind::Picture
    } else if k == 2 {
        SubStationEventKind::Sound
    } else if k == 3 {
        SubStationEventKind::Movie
    } else {
        SubStationEventKind::Command
    }
}

/// A line of the events section: its kind, its fields and the index at
/// which its text starts.
pub open spec fn event_fields(line: Seq<char>, kinds: Seq<FieldKind>) -> Option<
    (SubStationEventKind, Seq<FieldView>, int),
> {
    event_fields_from(line, kinds, 0)
}

/// A line `Style: ...` of the styles section: its fields.
pub open spec fn style_fields(line: Seq<char>, kinds: Seq<FieldKind>) -> Option<Seq<FieldView>> {
    match label_end(line, "Style"@) {
        Some(i) => match fields_at(line, i, kinds, 0, false) {
            Some((fields, _)) => Some(fields),
            None => None,
        },
        None => None,
    }
}

/// A line `key: value` of the script info section. The key reaches to the
/// first colon; spaces and tabs after the colon do not belong to the value.
pub open spec fn script_info_entry(line: Seq<char>) -> Option<(Seq<char>, Seq<char>)> {
    let colon = find_char(line, 0, ':');
    if colon < line.len() {
        Some(
            (line.subrange(0, colon), line.subrange(skip_space(line, colon + 1), line.len() as int))
        )
    } else {
        None
    }
}

/// The value that the entries of the script info hold under the key `key`.
pub open spec fn value_of(entries: Map<Seq<char>, Seq<char>>, key: Seq<char>) -> Option<
    Seq<char>,
> {
    if entries.contains_key(key) {
        Some(entries[key])
    } else {
        None
    }
}

/// The lines `rows[k..]` with a line feed between each two.
pub open spec fn joined_from(rows: Seq<Seq<char>>, k: int) -> Seq<char>
    decreases rows.len() - k,
{
    if k < 0 || k >= rows.len() {
        Seq::<char>::empty()
    } else if k + 1 == rows.len() {
        rows[k]
    } else {
        rows[k] + seq!['\n'] + joined_from(rows, k + 1)
    }
}

/// The embedded blocks that stand in `s` from `i` on. A block starts with
/// `marker` and a name that reaches to the end of the line; its data reaches
/// from the first character after that which is not white space to the next
/// empty line. Reading stops at the first place where no such block stands.
pub open spec fn blobs_from(s: Seq<char>, i: int, marker: Seq<char>) -> Seq<BlobView>
    decreases s.len() - i,
{
    let a = skip_multispace(s, i);
    let b = skip_space(s, a + marker.len());
    let c = find_char(s, b, '\n');
    let d = skip_multispace(s, c);
    let e = find_seq(s, d, "\n\n"@);
    if 0 <= i && has_prefix_at(s, a, marker) && c < s.len() && e < s.len() && i < e && b <= c && d
        <= e {
        seq![BlobView { name: s.subrange(b, c), data: s.subrange(d, e) }] + blobs_from(s, e, marker)
    } else {
        Seq::<BlobView>::empty()
    }
}

/// The format that a `ScriptType` entry at `i` names: `v4.00+` is the
/// advanced format, `v4.00` the plain one.
pub open spec fn script_type_at(s: Seq<char>, i: int) -> Option<Format> {
    let a = skip_space(s, i);
    let b = skip_space(s, a + 10);
    let c = skip_space(s, b + 1);
    if has_prefix_no_case_at(s, a, "ScriptType"@) && b < s.len() && s[b] == ':' {
        if has_prefix_no_case_at(s, c, "v4.00+"@) {
            Some(Format::Ass)
        } else if has_prefix_no_case_at(s, c, "v4.00"@) {
            Some(Format::Ssa)
        } else {
            None
        }
    } else {
        None
    }
}

/// The format that the first `ScriptType` entry at or after `i` names.
pub open spec fn script_type_from(s: Seq<char>, i: int) -> Option<Format>
    decreases s.len() - i,
{
    if i < 0 || i >= s.len() {
        None
    } else if script_type_at(s, i) is Some {
        script_type_at(s, i)
    } else {
        script_type_from(s, i + 1)
    }
}

/// Whether `s` starts with the heading `[Script Info]`, in any case.
pub open spec fn has_script_info_heading(s: Seq<char>) -> bool {
    has_prefix_no_case_at(s, 0, "[Script Info]"@)
}

/// Whether `v` holds `word` at `i`, in any case.
pub(crate) fn word_at(v: &Vec<char>, i: usize, word: &str) -> (r: bool)
    requires
        i <= v.len(),
    ensures
        r == has_prefix_no_case_at(v@, i as int, word@),
{
    starts_with_no_case_at(v, i, &to_chars(word))
}

/// Reads the section header at the start of a line.
pub(crate) fn parse_category_header(line: &Vec<char>) -> (r: Option<SubStationSection>)
    ensures
        r == section_header(line@),
{
    let a = scan_multispace(line, 0);
    if a < line.len() && line[a] == '[' {
        if word_at(line, a + 1, "Events]") {
            Some(SubStationSection::Events)
        } else if word_at(line, a + 1, "V4 Styles]") || word_at(line, a + 1, "V4+ Styles]") {
            Some(SubStationSection::Styles)
        } else if word_at(line, a + 1, "Fonts]") {
            Some(SubStationSection::Fonts)
        } else if word_at(line, a + 1, "Graphics]") {
            Some(SubStationSection::Graphics)
        } else if word_at(line, a + 1, "Script Info]") {
            Some(SubStationSection::ScriptInfo)
        } else {
            None
        }
    } else {
        None
    }
}

/// The index just past the run of decimal digits that starts at `i`.
pub(crate) fn scan_digits(v: &Vec<char>, i: usize) -> (j: usize)
    requires
        i <= v.len(),
    ensures
        j == skip_digits(v@, i as int),
        i <= j <= v.len(),
{
    let mut j = i;
    while j < v.len() && v[j] >= '0' && v[j] <= '9'
        invariant
            i <= j <= v.len(),
            skip_digits(v@, i as int) == skip_digits(v@, j as int),
        decreases v.len() - j,
    {
        j += 1;
    }
    j
}

/// Reads the exponent of a number whose mantissa ends at `m`.
fn scan_exponent(v: &Vec<char>, m: usize) -> (r: Option<usize>)
    requires
        m <= v.len(),
    ensures
        match r {
            Some(j) => exponent_end(v@, m as int) == Some(j as int) && m <= j <= v.len(),
            None => exponent_end(v@, m as int) is None,
        },
{
    if m < v.len() && (v[m] == 'e' || v[m] == 'E') {
        let b = if m + 1 < v.len() && (v[m + 1] == '+' || v[m + 1] == '-') {
            m + 2
        } else {
            m + 1
        };
        let e = scan_digits(v, b);
        if e > b {
            Some(e)
        } else {
            None
        }
    } else {
        Some(m)
    }
}

/// Reads a decimal number.
pub(crate) fn scan_real(v: &Vec<char>, i: usize) -> (r: Option<usize>)
    requires
        i <= v.len(),
    ensures
        match r {
            Some(j) => real_end(v@, i as int) == Some(j as int) && i <= j <= v.len(),
            None => real_end(v@, i as int) is None,
        },
{
    let a = if i < v.len() && (v[i] == '+' || v[i] == '-') {
        i + 1
    } else {
        i
    };
    let d = scan_digits(v, a);
    if d > a {
        if d < v.len() && v[d] == '.' {
            let f = scan_digits(v, d + 1);
            scan_exponent(v, f)
        } else {
            scan_exponent(v, d)
        }
    } else if a < v.len() && v[a] == '.' && scan_digits(v, a + 1) > a + 1 {
        let f = scan_digits(v, a + 1);
        scan_exponent(v, f)
    } else if word_at(v, i, "nan") || word_at(v, i, "inf") {
        proof {
            reveal_strlit("nan");
            reveal_strlit("inf");
        }
        Some(i + 3)
    } else {
        None
    }
}

/// Reads one field of the given kind.
pub(crate) fn scan_field(v: &Vec<char>, i: usize, kind: FieldKind) -> (r: Option<(Field, usize)>)
    requires
        i <= v.len(),
    ensures
        match r {
            Some((field, j)) => field_at(v@, i as int, kind) == Some((field@, j as int)) && i <= j
                <= v.len(),
            None => field_at(v@, i as int, kind) is None,
        },
{
    match kind {
        FieldKind::Text => {
            let j = scan_to_char(v, i, ',');
            if j < v.len() {
                Some((Field::Text(copy_range(v, i, j)), j))
            } else {
                None
            }
        },
        FieldKind::Int => match scan_int(v, i) {
            Some((n, j)) => Some((Field::Int(n), j)),
            None => None,
        },
        FieldKind::Flag => {
            proof {
                reveal_strlit("-1");
                reveal_strlit("0");
            }
            if starts_with_at(v, i, &to_chars("-1")) {
                Some((Field::Flag(true), i + 2))
            } else if starts_with_at(v, i, &to_chars("0")) {
                Some((Field::Flag(false), i + 1))
            } else {
                None
            }
        },
        FieldKind::Marked => {
            proof {
                reveal_strlit("Marked=");
            }
            if word_at(v, i, "Marked=") && i + 7 < v.len() && (v[i + 7] == '1' || v[i + 7]
                == '0') {
                Some((Field::Flag(v[i + 7] == '1'), i + 8))
            } else {
                None
            }
        },
        FieldKind::Time => match scan_clock(v, i, '.', 10) {
            Some((t, j)) => Some((Field::Time(t), j)),
            None => None,
        },
        FieldKind::Real => match scan_real(v, i) {
            Some(j) => Some((Field::Text(copy_range(v, i, j)), j)),
            None => None,
        },
    }
}

/// Reads the fields of a comma-separated line.
pub(crate) fn scan_fields(v: &Vec<char>, i: usize, kinds: &Vec<FieldKind>, trailing: bool) -> (r: Option<
    (Vec<Field>, usize),
>)
    requires
        i <= v.len(),
    ensures
        match r {
            Some((fields, j)) => fields_at(v@, i as int, kinds@, 0, trailing) == Some(
                (views(fields@), j as int),
            ) && i <= j <= v.len() && fields@.len() == kinds@.len(),
            None => fields_at(v@, i as int, kinds@, 0, trailing) is None,
        },
{
    let mut fields: Vec<Field> = Vec::new();
    let mut at = i;
    let mut k: usize = 0;
    assert(views(fields@) =~= Seq::<FieldView>::empty());
    while k < kinds.len()
        invariant
            i <= at <= v.len(),
            k <= kinds.len(),
            fields@.len() == k,
            fields_at(v@, i as int, kinds@, 0, trailing) == match fields_at(
                v@,
                at as int,
                kinds@,
                k as int,
                trailing,
            ) {
                Some((rest, end)) => Some((views(fields@) + rest, end)),
                None => None,
            },
        decreases kinds.len() - k,
    {
        let ghost before = views(fields@);
        let (field, j) = match scan_field(v, at, kinds[k]) {
            Some(x) => x,
            None => {
                return None;
            },
        };
        let ghost fv = field@;
        fields.push(field);
        assert(views(fields@) =~= before + seq![fv]);
        if k + 1 == kinds.len() && !trailing {
            assert(before + seq![fv] =~= views(fields@));
            return Some((fields, j));
        }
        if !(j < v.len() && v[j] == ',') {
            return None;
        }
        let next = scan_space(v, j + 1);
        proof {
            match fields_at(v@, next as int, kinds@, k + 1, trailing) {
                Some((rest, end)) => {
                    assert(before + (seq![fv] + rest) =~= views(fields@) + rest);
                },
                None => {},
            }
        }
        at = next;
        k += 1;
    }
    assert(views(fields@) + Seq::<FieldView>::empty() =~= views(fields@));
    Some((fields, at))
}

/// Reads `word`, a colon, and the spaces and tabs around the colon at the
/// start of a line.
pub(crate) fn scan_label(line: &Vec<char>, word: &str) -> (r: Option<usize>)
    ensures
        match r {
            Some(j) => label_end(line@, word@) == Some(j as int) && j <= line.len(),
            None => label_end(line@, word@) is None,
        },
{
    let w = to_chars(word);
    if !starts_with_no_case_at(line, 0, &w) {
        return None;
    }
    let a = scan_space(line, w.len());
    if a < line.len() && line[a] == ':' {
        Some(scan_space(line, a + 1))
    } else {
        None
    }
}

/// The kinds of event in the order in which a line is tried against them.
pub(crate) fn event_kind_at(k: usize) -> (r: SubStationEventKind)
    ensures
        r == event_kind(k as int),
{
    if k == 0 {
        SubStationEventKind::Dialogue
    } else if k == 1 {
        SubStationEventKind::Picture
    } else if k == 2 {
        SubStationEventKind::Sound
    } else if k == 3 {
        SubStationEventKind::Movie
    } else {
        SubStationEventKind::Command
    }
}

/// Reads a line of the events section up to its text.
pub(crate) fn parse_event_line(line: &Vec<char>, kinds: &Vec<FieldKind>) -> (r: Option<
    (SubStationEventKind, Vec<Field>, usize),
>)
    ensures
        match r {
            Some((kind, fields, j)) => event_fields(line@, kinds@) == Some(
                (kind, views(fields@), j as int),
            ) && j <= line.len() && fields@.len() == kinds@.len(),
            None => event_fields(line@, kinds@) is None,
        },
{
    let mut k: usize = 0;
    while k < 5
        invariant
            k <= 5,
            event_fields(line@, kinds@) == event_fields_from(line@, kinds@, k as int),
        decreases 5 - k,
    {
        let kind = event_kind_at(k);
        match scan_label(line, kind.name()) {
            Some(i) => match scan_fields(line, i, kinds, true) {
                Some((fields, j)) => {
                    return Some((kind, fields, j));
                },
                None => {},
            },
            None => {},
        }
        k += 1;
    }
    None
}

/// Reads a line of the styles section.
pub(crate) fn parse_style_fields(
    line: &Vec<char>,
    kinds: &Vec<FieldKind>,
) -> (r: Option<Vec<Field>>)
    ensures
        match r {
            Some(fields) => style_fields(line@, kinds@) == Some(views(fields@)) && fields@.len()
                == kinds@.len(),
            None => style_fields(line@, kinds@) is None,
        },
{
    match scan_label(line, "Style") {
        Some(i) => match scan_fields(line, i, kinds, false) {
            Some((fields, _)) => Some(fields),
            None => None,
        },
        None => None,
    }
}

/// Reads a line of the script info section.
pub(crate) fn parse_script_info_line(line: &Vec<char>) -> (r: Option<(Vec<char>, Vec<char>)>)
    ensures
        match r {
            Some((key, value)) => script_info_entry(line@) == Some((key@, value@)),
            None => script_info_entry(line@) is None,
        },
{
    let colon = scan_to_char(line, 0, ':');
    if colon < line.len() {
        let from = scan_space(line, colon + 1);
        Some((copy_range(line, 0, colon), copy_range(line, from, line.len())))
    } else {
        None
    }
}

/// The view of the entries of the script info: each value as its text.
pub open spec fn entries_view(entries: Map<Seq<char>, String>) -> Map<Seq<char>, Seq<char>> {
    entries.map_values(|value: String| value@)
}

/// Looks up the value that the entries hold under the key `key`.
pub(crate) fn lookup(entries: &StringHashMap<String>, key: &str) -> (r: Option<String>)
    ensures
        crate::text::opt_text(r) == value_of(entries_view(entries@), key@),
{
    match entries.get(key) {
        Some(value) => Some(value.clone()),
        None => None,
    }
}

/// Joins lines with a line feed between each two.
pub(crate) fn join_lines(rows: &Vec<Vec<char>>) -> (r: Vec<char>)
    ensures
        r@ == joined_from(rows_view(rows@), 0),
{
    let mut out: Vec<char> = Vec::new();
    let mut k: usize = 0;
    while k < rows.len()
        invariant
            k <= rows.len(),
            joined_from(rows_view(rows@), 0) == out@ + joined_from(rows_view(rows@), k as int),
        decreases rows.len() - k,
    {
        let ghost before = out@;
        push_range(&mut out, &rows[k], 0, rows[k].len());
        assert(rows@[k as int]@.subrange(0, rows@[k as int]@.len() as int) == rows@[k as int]@);
        if k + 1 < rows.len() {
            out.push('\n');
            assert(out@ + joined_from(rows_view(rows@), k + 1) =~= before + (rows_view(rows@)[k as int]
                + seq!['\n'] + joined_from(rows_view(rows@), k + 1)));
        } else {
            assert(joined_from(rows_view(rows@), k + 1) =~= Seq::<char>::empty());
            assert(
                out@ + joined_from(rows_view(rows@), k + 1) =~= before + rows_view(rows@)[k as int]
            );
        }
        k += 1;
    }
    assert(out@ + Seq::<char>::empty() =~= out@);
    out
}

/// Reads the embedded blocks of a fonts or graphics section: for each, its
/// name and its data.
pub(crate) fn parse_blobs(v: &Vec<char>, marker: &str) -> (r: Vec<(String, String)>)
    requires
        marker@.len() > 0,
    ensures
        r@.len() == blobs_from(v@, 0, marker@).len(),
        forall|k: int|
            0 <= k < r@.len() ==> (BlobView { name: (#[trigger] r@[k]).0@, data: r@[k].1@ })
                == blobs_from(v@, 0, marker@)[k],
{
    let mark = to_chars(marker);
    let gap = to_chars("\n\n");
    let mut out: Vec<(String, String)> = Vec::new();
    let ghost mut seen: Seq<BlobView> = Seq::empty();
    let mut i: usize = 0;
    loop
        invariant
            i <= v.len(),
            mark@ == marker@,
            mark@.len() > 0,
            gap@ == "\n\n"@,
            seen.len() == out@.len(),
            forall|k: int|
                0 <= k < out@.len() ==> (BlobView { name: (#[trigger] out@[k]).0@, data: out@[k].1@ })
                    == seen[k],
            blobs_from(v@, 0, marker@) == seen + blobs_from(v@, i as int, marker@),
        ensures
            blobs_from(v@, 0, marker@) == seen,
            seen.len() == out@.len(),
            forall|k: int|
                0 <= k < out@.len() ==> (BlobView { name: (#[trigger] out@[k]).0@, data: out@[k].1@ })
                    == seen[k],
        decreases v.len() - i,
    {
        let a = scan_multispace(v, i);
        proof {
            lemma_skip_multispace_bounds(v@, i as int);
        }
        if !starts_with_at(v, a, &mark) {
            assert(seen + Seq::<BlobView>::empty() =~= seen);
            break;
        }
        let b = scan_space(v, a + mark.len());
        let c = scan_to_char(v, b, '\n');
        let d = scan_multispace(v, c);
        let e = scan_to_seq(v, d, &gap);
        if !(c < v.len() && e < v.len()) {
            assert(seen + Seq::<BlobView>::empty() =~= seen);
            break;
        }
        let name = string_of(&copy_range(v, b, c));
        let data = string_of(&copy_range(v, d, e));
        proof {
            let blob = BlobView { name: name@, data: data@ };
            assert(seen + (seq![blob] + blobs_from(v@, e as int, marker@)) =~= seen.push(blob)
                + blobs_from(v@, e as int, marker@));
            seen = seen.push(blob);
        }
        out.push((name, data));
        i = e;
    }
    out
}

/// Reads the format that a `ScriptType` entry at `i` names.
pub(crate) fn parse_script_type(v: &Vec<char>, i: usize) -> (r: Option<Format>)
    requires
        i <= v.len(),
    ensures
        r == script_type_at(v@, i as int),
{
    let a = scan_space(v, i);
    proof {
        reveal_strlit("ScriptType");
    }
    if !word_at(v, a, "ScriptType") {
        return None;
    }
    let b = scan_space(v, a + 10);
    if !(b < v.len() && v[b] == ':') {
        return None;
    }
    let c = scan_space(v, b + 1);
    if word_at(v, c, "v4.00+") {
        Some(Format::Ass)
    } else if word_at(v, c, "v4.00") {
        Some(Format::Ssa)
    } else {
        None
    }
}

/// Finds the first `ScriptType` entry of a text and reads the format that
/// it names.
pub(crate) fn parse_format(v: &Vec<char>) -> (r: Option<Format>)
    ensures
        r == script_type_from(v@, 0),
{
    let mut i: usize = 0;
    while i < v.len()
        invariant
            i <= v.len(),
            script_type_from(v@, 0) == script_type_from(v@, i as int),
        decreases v.len() - i,
    {
        match parse_script_type(v, i) {
            Some(format) => {
                return Some(format);
            },
            None => {},
        }
        i += 1;
    }
    None
}

/// Whether a text starts with the heading `[Script Info]`.
pub(crate) fn parse_script_info_heading(v: &Vec<char>) -> (r: bool)
    ensures
        r == has_script_info_heading(v@),
{
    word_at(v, 0, "[Script Info]")
}

} // verus!
