//! Character-level building blocks shared by every parser and converter.
//!
//! Text is scanned as a sequence of `char`s addressed by index, and every
//! scanner is specified over `Seq<char>`: a scanner that starts at index `i`
//! of `s` either fails or yields a value together with the index at which
//! scanning resumes.

use vstd::prelude::*;

verus! {

/// Appends one character to a string (`String::push`).
#[verifier::external_body]
pub(crate) fn push_char(s: &mut String, c: char)
    ensures
        final(s)@ == old(s)@.push(c),
{
    s.push(c)
}

/// The characters of `s`, in order.
pub(crate) fn to_chars(s: &str) -> (v: Vec<char>)
    ensures
        v@ == s@,
{
    let mut v: Vec<char> = Vec::new();
    for c in it: s.chars()
        invariant
            it.seq() == s@,
            v@ == it.seq().take(it.index()),
    {
        v.push(c);
    }
    v
}

/// The string made of the characters `v[from..to]`.
pub(crate) fn to_string(v: &Vec<char>, from: usize, to: usize) -> (s: String)
    requires
        from <= to <= v.len(),
    ensures
        s@ == v@.subrange(from as int, to as int),
{
    let mut s = String::new();
    let mut i = from;
    while i < to
        invariant
            from <= i <= to <= v.len(),
            s@ == v@.subrange(from as int, i as int),
        decreases to - i,
    {
        push_char(&mut s, v[i]);
        i += 1;
    }
    s
}

/// The string made of the characters of `v`.
pub(crate) fn string_of(v: &Vec<char>) -> (s: String)
    ensures
        s@ == v@,
{
    let s = to_string(v, 0, v.len());
    assert(v@.subrange(0, v@.len() as int) == v@);
    s
}

/// The characters `v[from..to]` in a vector of their own.
pub(crate) fn copy_range(v: &Vec<char>, from: usize, to: usize) -> (r: Vec<char>)
    requires
        from <= to <= v.len(),
    ensures
        r@ == v@.subrange(from as int, to as int),
{
    let mut r: Vec<char> = Vec::new();
    push_range(&mut r, v, from, to);
    r
}

/// Whether two vectors hold the same characters.
pub(crate) fn same_chars(a: &Vec<char>, b: &Vec<char>) -> (r: bool)
    ensures
        r == (a@ == b@),
{
    if a.len() != b.len() {
        return false;
    }
    let r = starts_with_at(a, 0, b);
    assert(a@.subrange(0, a@.len() as int) == a@);
    r
}

/// Appends the characters `v[from..to]` to `out`.
pub(crate) fn push_range(out: &mut Vec<char>, v: &Vec<char>, from: usize, to: usize)
    requires
        from <= to <= v.len(),
    ensures
        final(out)@ == old(out)@ + v@.subrange(from as int, to as int),
{
    let mut i = from;
    while i < to
        invariant
            from <= i <= to <= v.len(),
            out@ == old(out)@ + v@.subrange(from as int, i as int),
        decreases to - i,
    {
        out.push(v[i]);
        i += 1;
    }
}

/// Appends the characters of `v` to `out`.
pub(crate) fn push_all(out: &mut Vec<char>, v: &Vec<char>)
    ensures
        final(out)@ == old(out)@ + v@,
{
    push_range(out, v, 0, v.len());
    assert(v@.subrange(0, v@.len() as int) == v@);
}

/// Appends the characters of `lit` to `out`.
pub(crate) fn push_str(out: &mut Vec<char>, lit: &str)
    ensures
        final(out)@ == old(out)@ + lit@,
{
    let ghost before = out@;
    for c in it: lit.chars()
        invariant
            it.seq() == lit@,
            out@ == before + it.seq().take(it.index()),
    {
        out.push(c);
    }
}

/// The views of the items of `v`.
pub open spec fn views<T: View>(v: Seq<T>) -> Seq<T::V> {
    Seq::new(v.len(), |k: int| v[k]@)
}

/// The view of an optional string.
pub open spec fn opt_text(o: Option<String>) -> Option<Seq<char>> {
    match o {
        Some(s) => Some(s@),
        None => None,
    }
}

/// Space or tab.
pub open spec fn is_space(c: char) -> bool {
    c == ' ' || c == '\t'
}

/// Space, tab, carriage return or line feed.
pub open spec fn is_multispace(c: char) -> bool {
    c == ' ' || c == '\t' || c == '\r' || c == '\n'
}

/// An ASCII decimal digit.
pub open spec fn is_digit(c: char) -> bool {
    '0' <= c <= '9'
}

/// The value of the decimal digit `c`.
pub open spec fn digit_value(c: char) -> int {
    c as int - 48
}

/// The decimal digit whose value is `d`.
pub open spec fn digit_char(d: int) -> char {
    (d + 48) as u8 as char
}

/// `c` with an ASCII upper-case letter replaced by its lower-case form.
pub open spec fn ascii_lower(c: char) -> char {
    if 'A' <= c <= 'Z' {
        (c as u8 + 32) as u8 as char
    } else {
        c
    }
}

/// Whether `pat` stands in `s` at index `i`.
pub open spec fn has_prefix_at(s: Seq<char>, i: int, pat: Seq<char>) -> bool {
    &&& 0 <= i
    &&& i + pat.len() <= s.len()
    &&& s.subrange(i, i + pat.len()) == pat
}

/// Whether `pat` stands in `s` at index `i` when ASCII letters are compared
/// without regard to case.
pub open spec fn has_prefix_no_case_at(s: Seq<char>, i: int, pat: Seq<char>) -> bool {
    &&& 0 <= i
    &&& i + pat.len() <= s.len()
    &&& forall|k: int| 0 <= k < pat.len() ==> ascii_lower(#[trigger] s[i + k]) == ascii_lower(pat[k])
}

/// The index just past the run of spaces and tabs that starts at `i`.
pub open spec fn skip_space(s: Seq<char>, i: int) -> int
    decreases s.len() - i,
{
    if 0 <= i < s.len() && is_space(s[i]) {
        skip_space(s, i + 1)
    } else {
        i
    }
}

/// The index just past the run of white space that starts at `i`.
pub open spec fn skip_multispace(s: Seq<char>, i: int) -> int
    decreases s.len() - i,
{
    if 0 <= i < s.len() && is_multispace(s[i]) {
        skip_multispace(s, i + 1)
    } else {
        i
    }
}

/// The index just past the run of decimal digits that starts at `i`.
pub open spec fn skip_digits(s: Seq<char>, i: int) -> int
    decreases s.len() - i,
{
    if 0 <= i < s.len() && is_digit(s[i]) {
        skip_digits(s, i + 1)
    } else {
        i
    }
}

/// The index of the first `c` at or after `i`, or `s.len()` where there is
/// none.
pub open spec fn find_char(s: Seq<char>, i: int, c: char) -> int
    decreases s.len() - i,
{
    if 0 <= i < s.len() && s[i] != c {
        find_char(s, i + 1, c)
    } else {
        i
    }
}

/// The first index at or after `i` at which `pat` stands, or `s.len()` where
/// it stands nowhere. `pat` is not empty.
pub open spec fn find_seq(s: Seq<char>, i: int, pat: Seq<char>) -> int
    decreases s.len() - i,
{
    if 0 <= i < s.len() && !has_prefix_at(s, i, pat) {
        find_seq(s, i + 1, pat)
    } else {
        i
    }
}

/// The end of a line ending (`\n` or `\r\n`) that starts at `i`, if one does.
pub open spec fn line_ending_at(s: Seq<char>, i: int) -> Option<int> {
    if 0 <= i < s.len() && s[i] == '\n' {
        Some(i + 1)
    } else if 0 <= i && i + 1 < s.len() && s[i] == '\r' && s[i + 1] == '\n' {
        Some(i + 2)
    } else {
        None
    }
}

/// The number that the decimal digits `d` write.
pub open spec fn decimal_value(d: Seq<char>) -> nat
    decreases d.len(),
{
    if d.len() == 0 {
        0
    } else {
        (decimal_value(d.drop_last()) * 10 + digit_value(d.last())) as nat
    }
}

/// An optionally signed decimal integer at `i` that fits in an `i64`: its
/// value and the index just past its last digit. All the digits that follow
/// the sign belong to the number.
pub open spec fn int_at(s: Seq<char>, i: int) -> Option<(i64, int)> {
    let signed = 0 <= i < s.len() && (s[i] == '-' || s[i] == '+');
    let from = if signed { i + 1 } else { i };
    let to = skip_digits(s, from);
    let magnitude = decimal_value(s.subrange(from, to)) as int;
    let value = if signed && s[i] == '-' { -magnitude } else { magnitude };
    if 0 <= i && from < to && i64::MIN <= value <= i64::MAX {
        Some((value as i64, to))
    } else {
        None
    }
}

/// An unsigned decimal integer at `i` that fits in a `u32`: its value and the
/// index just past its last digit.
pub open spec fn uint_at(s: Seq<char>, i: int) -> Option<(u32, int)> {
    let to = skip_digits(s, i);
    let value = decimal_value(s.subrange(i, to));
    if 0 <= i < to && value <= u32::MAX {
        Some((value as u32, to))
    } else {
        None
    }
}

/// The number that a text writes in decimal, if the whole text is such a
/// number and it can be held in a `usize`: digits, with a plus sign before
/// them allowed.
pub open spec fn usize_of(s: Seq<char>) -> Option<usize> {
    let from: int = if s.len() > 0 && s[0] == '+' {
        1
    } else {
        0
    };
    let value = decimal_value(s.subrange(from, s.len() as int));
    if from < s.len() && skip_digits(s, from) == s.len() && value <= usize::MAX {
        Some(value as usize)
    } else {
        None
    }
}

/// The decimal digits of `n`, without leading zeros.
pub open spec fn nat_digits(n: nat) -> Seq<char>
    decreases n,
{
    if n < 10 {
        seq![digit_char(n as int)]
    } else {
        nat_digits(n / 10).push(digit_char((n % 10) as int))
    }
}

/// `d` with zeros in front of it up to `width` characters.
pub open spec fn zero_padded(d: Seq<char>, width: int) -> Seq<char> {
    if d.len() >= width {
        d
    } else {
        Seq::new((width - d.len()) as nat, |k: int| '0') + d
    }
}

/// `n` in decimal, at least `width` characters wide: zeros fill the room
/// between the sign, if any, and the digits.
pub open spec fn int_text(n: int, width: int) -> Seq<char> {
    if n >= 0 {
        zero_padded(nat_digits(n as nat), width)
    } else {
        seq!['-'] + zero_padded(nat_digits((-n) as nat), width - 1)
    }
}

pub(crate) proof fn lemma_skip_multispace_bounds(s: Seq<char>, i: int)
    requires
        0 <= i <= s.len(),
    ensures
        i <= skip_multispace(s, i) <= s.len(),
        forall|k: int| i <= k < skip_multispace(s, i) ==> is_multispace(#[trigger] s[k]),
        skip_multispace(s, i) < s.len() ==> !is_multispace(s[skip_multispace(s, i)]),
    decreases s.len() - i,
{
    if i < s.len() && is_multispace(s[i]) {
        lemma_skip_multispace_bounds(s, i + 1);
    }
}

pub(crate) proof fn lemma_skip_digits_bounds(s: Seq<char>, i: int)
    requires
        0 <= i <= s.len(),
    ensures
        i <= skip_digits(s, i) <= s.len(),
        forall|k: int| i <= k < skip_digits(s, i) ==> is_digit(#[trigger] s[k]),
        skip_digits(s, i) < s.len() ==> !is_digit(s[skip_digits(s, i)]),
    decreases s.len() - i,
{
    if i < s.len() && is_digit(s[i]) {
        lemma_skip_digits_bounds(s, i + 1);
    }
}

pub(crate) proof fn lemma_find_char_bounds(s: Seq<char>, i: int, c: char)
    requires
        0 <= i <= s.len(),
    ensures
        i <= find_char(s, i, c) <= s.len(),
        forall|k: int| i <= k < find_char(s, i, c) ==> #[trigger] s[k] != c,
        find_char(s, i, c) < s.len() ==> s[find_char(s, i, c)] == c,
    decreases s.len() - i,
{
    if i < s.len() && s[i] != c {
        lemma_find_char_bounds(s, i + 1, c);
    }
}

pub(crate) proof fn lemma_find_seq_bounds(s: Seq<char>, i: int, pat: Seq<char>)
    requires
        0 <= i <= s.len(),
    ensures
        i <= find_seq(s, i, pat) <= s.len(),
        forall|k: int| i <= k < find_seq(s, i, pat) ==> !has_prefix_at(s, k, pat),
        find_seq(s, i, pat) < s.len() ==> has_prefix_at(s, find_seq(s, i, pat), pat),
    decreases s.len() - i,
{
    if i < s.len() && !has_prefix_at(s, i, pat) {
        lemma_find_seq_bounds(s, i + 1, pat);
    }
}

/// A longer run of digits writes a number that is no smaller.
pub(crate) proof fn lemma_decimal_value_grows(s: Seq<char>, from: int, mid: int, to: int)
    requires
        0 <= from <= mid <= to <= s.len(),
        forall|k: int| from <= k < to ==> is_digit(#[trigger] s[k]),
    ensures
        decimal_value(s.subrange(from, mid)) <= decimal_value(s.subrange(from, to)),
    decreases to - mid,
{
    if mid < to {
        lemma_decimal_value_grows(s, from, mid, to - 1);
        assert(s.subrange(from, to).drop_last() == s.subrange(from, to - 1));
    }
}

/// Skips spaces and tabs.
pub(crate) fn scan_space(v: &Vec<char>, i: usize) -> (j: usize)
    requires
        i <= v.len(),
    ensures
        j == skip_space(v@, i as int),
        i <= j <= v.len(),
{
    let mut j = i;
    while j < v.len() && (v[j] == ' ' || v[j] == '\t')
        invariant
            i <= j <= v.len(),
            skip_space(v@, i as int) == skip_space(v@, j as int),
        decreases v.len() - j,
    {
        j += 1;
    }
    j
}

/// Skips spaces, tabs, carriage returns and line feeds.
pub(crate) fn scan_multispace(v: &Vec<char>, i: usize) -> (j: usize)
    requires
        i <= v.len(),
    ensures
        j == skip_multispace(v@, i as int),
        i <= j <= v.len(),
{
    let mut j = i;
    while j < v.len() && (v[j] == ' ' || v[j] == '\t' || v[j] == '\r' || v[j] == '\n')
        invariant
            i <= j <= v.len(),
            skip_multispace(v@, i as int) == skip_multispace(v@, j as int),
        decreases v.len() - j,
    {
        j += 1;
    }
    j
}

/// Finds the first `c` at or after `i`.
pub(crate) fn scan_to_char(v: &Vec<char>, i: usize, c: char) -> (j: usize)
    requires
        i <= v.len(),
    ensures
        j == find_char(v@, i as int, c),
        i <= j <= v.len(),
{
    let mut j = i;
    while j < v.len() && v[j] != c
        invariant
            i <= j <= v.len(),
            find_char(v@, i as int, c) == find_char(v@, j as int, c),
        decreases v.len() - j,
    {
        j += 1;
    }
    j
}

/// Whether `pat` stands in `v` at index `i`.
pub(crate) fn starts_with_at(v: &Vec<char>, i: usize, pat: &Vec<char>) -> (b: bool)
    requires
        i <= v.len(),
    ensures
        b == has_prefix_at(v@, i as int, pat@),
{
    if pat.len() > v.len() - i {
        return false;
    }
    let mut k: usize = 0;
    while k < pat.len()
        invariant
            i + pat.len() <= v.len(),
            0 <= k <= pat.len(),
            v@.subrange(i as int, i + k) == pat@.subrange(0, k as int),
        decreases pat.len() - k,
    {
        if v[i + k] != pat[k] {
            assert(v@.subrange(i as int, i + pat.len())[k as int] != pat@[k as int]);
            return false;
        }
        assert(v@.subrange(i as int, i + k + 1) == v@.subrange(i as int, i + k).push(v@[i + k]));
        assert(pat@.subrange(0, k + 1) == pat@.subrange(0, k as int).push(pat@[k as int]));
        k += 1;
    }
    assert(pat@.subrange(0, pat.len() as int) == pat@);
    true
}

/// The ASCII lower-case form of `c`.
pub(crate) fn lower(c: char) -> (r: char)
    ensures
        r == ascii_lower(c),
{
    let x = c as u32;
    if 65 <= x && x <= 90 {
        (x as u8 + 32) as char
    } else {
        c
    }
}

/// Whether `pat` stands in `v` at index `i`, ASCII case aside.
pub(crate) fn starts_with_no_case_at(v: &Vec<char>, i: usize, pat: &Vec<char>) -> (b: bool)
    requires
        i <= v.len(),
    ensures
        b == has_prefix_no_case_at(v@, i as int, pat@),
{
    if pat.len() > v.len() - i {
        return false;
    }
    let mut k: usize = 0;
    while k < pat.len()
        invariant
            i + pat.len() <= v.len(),
            0 <= k <= pat.len(),
            forall|m: int| 0 <= m < k ==> ascii_lower(#[trigger] v@[i + m]) == ascii_lower(pat@[m]),
        decreases pat.len() - k,
    {
        if lower(v[i + k]) != lower(pat[k]) {
            return false;
        }
        k += 1;
    }
    true
}

/// Finds the first place at or after `i` where `pat` stands.
pub(crate) fn scan_to_seq(v: &Vec<char>, i: usize, pat: &Vec<char>) -> (j: usize)
    requires
        i <= v.len(),
    ensures
        j == find_seq(v@, i as int, pat@),
        i <= j <= v.len(),
{
    let mut j = i;
    while j < v.len() && !starts_with_at(v, j, pat)
        invariant
            i <= j <= v.len(),
            find_seq(v@, i as int, pat@) == find_seq(v@, j as int, pat@),
        decreases v.len() - j,
    {
        j += 1;
    }
    j
}

/// `s` from `i` on with every occurrence of `pat` replaced by `with`.
/// Occurrences are taken from left to right and do not overlap; `pat` is
/// not empty.
pub open spec fn replaced_from(s: Seq<char>, i: int, pat: Seq<char>, with: Seq<char>) -> Seq<char>
    decreases s.len() - i,
{
    if i < 0 || i >= s.len() {
        Seq::<char>::empty()
    } else if pat.len() > 0 && has_prefix_at(s, i, pat) {
        with + replaced_from(s, i + pat.len(), pat, with)
    } else {
        seq![s[i]] + replaced_from(s, i + 1, pat, with)
    }
}

/// `s` with every occurrence of `pat` replaced by `with`.
pub open spec fn replaced(s: Seq<char>, pat: Seq<char>, with: Seq<char>) -> Seq<char> {
    replaced_from(s, 0, pat, with)
}

/// Replaces every occurrence of `pat` in `v` by `with`.
pub(crate) fn replace_chars(v: &Vec<char>, pat: &Vec<char>, with: &Vec<char>) -> (r: Vec<char>)
    requires
        pat@.len() > 0,
    ensures
        r@ == replaced(v@, pat@, with@),
{
    let mut out: Vec<char> = Vec::new();
    let mut i: usize = 0;
    while i < v.len()
        invariant
            i <= v.len(),
            pat@.len() > 0,
            replaced(v@, pat@, with@) == out@ + replaced_from(v@, i as int, pat@, with@),
        decreases v.len() - i,
    {
        let ghost before = out@;
        if starts_with_at(v, i, pat) {
            push_range(&mut out, with, 0, with.len());
            assert(with@.subrange(0, with@.len() as int) == with@);
            assert(before + (with@ + replaced_from(v@, i + pat@.len(), pat@, with@)) == out@
                + replaced_from(v@, i + pat@.len(), pat@, with@));
            i += pat.len();
        } else {
            out.push(v[i]);
            assert(before + (seq![v@[i as int]] + replaced_from(v@, i + 1, pat@, with@)) == out@
                + replaced_from(v@, i + 1, pat@, with@));
            i += 1;
        }
    }
    assert(out@ + Seq::<char>::empty() == out@);
    out
}

/// Replaces every occurrence of `pat` in `s` by `with`.
pub fn replace(s: &str, pat: &str, with: &str) -> (r: String)
    requires
        pat@.len() > 0,
    ensures
        r@ == replaced(s@, pat@, with@),
{
    string_of(&replace_chars(&to_chars(s), &to_chars(pat), &to_chars(with)))
}

/// Reads a line ending.
pub(crate) fn scan_line_ending(v: &Vec<char>, i: usize) -> (r: Option<usize>)
    requires
        i <= v.len(),
    ensures
        match r {
            Some(j) => line_ending_at(v@, i as int) == Some(j as int) && i < j <= v.len(),
            None => line_ending_at(v@, i as int) is None,
        },
{
    if i < v.len() && v[i] == '\n' {
        Some(i + 1)
    } else if i < v.len() && v.len() - i >= 2 && v[i] == '\r' && v[i + 1] == '\n' {
        Some(i + 2)
    } else {
        None
    }
}

/// Reads an optionally signed decimal integer.
pub(crate) fn scan_int(v: &Vec<char>, i: usize) -> (r: Option<(i64, usize)>)
    requires
        i <= v.len(),
    ensures
        match r {
            Some((n, j)) => int_at(v@, i as int) == Some((n, j as int)) && i < j <= v.len(),
            None => int_at(v@, i as int) is None,
        },
{
    let negative = i < v.len() && v[i] == '-';
    let from = if i < v.len() && (v[i] == '-' || v[i] == '+') {
        i + 1
    } else {
        i
    };
    let mut j = from;
    let mut value: i64 = 0;
    proof {
        lemma_skip_digits_bounds(v@, from as int);
        assert(v@.subrange(from as int, from as int) == Seq::<char>::empty());
    }
    while j < v.len() && v[j] >= '0' && v[j] <= '9'
        invariant
            from <= j <= v.len(),
            skip_digits(v@, from as int) == skip_digits(v@, j as int),
            j <= skip_digits(v@, from as int) <= v.len(),
            forall|k: int| from <= k < skip_digits(v@, from as int) ==> is_digit(#[trigger] v@[k]),
            i <= v.len(),
            negative == (i < v.len() && v@[i as int] == '-'),
            from == if i < v.len() && (v@[i as int] == '-' || v@[i as int] == '+') {
                i + 1
            } else {
                i as int
            },
            negative ==> value == -(decimal_value(v@.subrange(from as int, j as int)) as int),
            !negative ==> value == decimal_value(v@.subrange(from as int, j as int)),
        decreases v.len() - j,
    {
        let d = (v[j] as u32 - 48) as i64;
        proof {
            let to = skip_digits(v@, from as int);
            lemma_skip_digits_bounds(v@, j + 1);
            assert(v@.subrange(from as int, j + 1).drop_last() == v@.subrange(
                from as int,
                j as int,
            ));
            lemma_decimal_value_grows(v@, from as int, j + 1, to);
        }
        let step = if negative {
            match value.checked_mul(10) {
                Some(x) => x.checked_sub(d),
                None => None,
            }
        } else {
            match value.checked_mul(10) {
                Some(x) => x.checked_add(d),
                None => None,
            }
        };
        match step {
            Some(x) => {
                value = x;
            },
            None => {
                proof {
                    let to = skip_digits(v@, from as int);
                    let part = decimal_value(v@.subrange(from as int, j + 1));
                    assert(part == decimal_value(v@.subrange(from as int, j as int)) * 10 + d);
                    assert(part <= decimal_value(v@.subrange(from as int, to)));
                    assert(negative ==> -part < i64::MIN);
                    assert(!negative ==> part > i64::MAX);
                }
                return None;
            },
        }
        j += 1;
    }
    if j == from {
        None
    } else {
        Some((value, j))
    }
}

/// Reads an unsigned decimal integer.
pub(crate) fn scan_uint(v: &Vec<char>, i: usize) -> (r: Option<(u32, usize)>)
    requires
        i <= v.len(),
    ensures
        match r {
            Some((n, j)) => uint_at(v@, i as int) == Some((n, j as int)) && i < j <= v.len(),
            None => uint_at(v@, i as int) is None,
        },
{
    let mut j = i;
    let mut value: u32 = 0;
    proof {
        lemma_skip_digits_bounds(v@, i as int);
        assert(v@.subrange(i as int, i as int) == Seq::<char>::empty());
    }
    while j < v.len() && v[j] >= '0' && v[j] <= '9'
        invariant
            i <= j <= v.len(),
            skip_digits(v@, i as int) == skip_digits(v@, j as int),
            j <= skip_digits(v@, i as int) <= v.len(),
            forall|k: int| i <= k < skip_digits(v@, i as int) ==> is_digit(#[trigger] v@[k]),
            value == decimal_value(v@.subrange(i as int, j as int)),
        decreases v.len() - j,
    {
        let d = v[j] as u32 - 48;
        proof {
            let to = skip_digits(v@, i as int);
            lemma_skip_digits_bounds(v@, j + 1);
            assert(v@.subrange(i as int, j + 1).drop_last() == v@.subrange(i as int, j as int));
            lemma_decimal_value_grows(v@, i as int, j + 1, to);
        }
        let step = match value.checked_mul(10) {
            Some(x) => x.checked_add(d),
            None => None,
        };
        match step {
            Some(x) => {
                value = x;
            },
            None => {
                return None;
            },
        }
        j += 1;
    }
    if j == i {
        None
    } else {
        Some((value, j))
    }
}

/// Reads a text as a decimal number.
pub(crate) fn parse_usize(v: &Vec<char>) -> (r: Option<usize>)
    ensures
        r == usize_of(v@),
{
    let from: usize = if v.len() > 0 && v[0] == '+' {
        1
    } else {
        0
    };
    let mut j = from;
    let mut value: usize = 0;
    proof {
        lemma_skip_digits_bounds(v@, from as int);
        assert(v@.subrange(from as int, from as int) == Seq::<char>::empty());
    }
    while j < v.len() && v[j] >= '0' && v[j] <= '9'
        invariant
            from <= j <= v.len(),
            from == if v@.len() > 0 && v@[0] == '+' {
                1int
            } else {
                0int
            },
            skip_digits(v@, from as int) == skip_digits(v@, j as int),
            j <= skip_digits(v@, from as int) <= v.len(),
            forall|k: int| from <= k < skip_digits(v@, from as int) ==> is_digit(#[trigger] v@[k]),
            value == decimal_value(v@.subrange(from as int, j as int)),
        decreases v.len() - j,
    {
        let d = (v[j] as u32 - 48) as usize;
        proof {
            let to = skip_digits(v@, from as int);
            lemma_skip_digits_bounds(v@, j + 1);
            assert(v@.subrange(from as int, j + 1).drop_last() == v@.subrange(
                from as int,
                j as int,
            ));
            lemma_decimal_value_grows(v@, from as int, j + 1, to);
            if to == v@.len() {
                assert(v@.subrange(from as int, to) == v@.subrange(from as int, v@.len() as int));
            }
        }
        let step = match value.checked_mul(10) {
            Some(x) => x.checked_add(d),
            None => None,
        };
        match step {
            Some(x) => {
                value = x;
            },
            None => {
                return None;
            },
        }
        j += 1;
    }
    if j == from || j < v.len() {
        None
    } else {
        Some(value)
    }
}

/// Appends the decimal digits of `n`.
pub(crate) fn push_nat(out: &mut Vec<char>, n: u64)
    ensures
        final(out)@ == old(out)@ + nat_digits(n as nat),
    decreases n,
{
    if n >= 10 {
        push_nat(out, n / 10);
    }
    out.push(((n % 10) as u8 + 48) as char);
    proof {
        if n < 10 {
            assert(old(out)@.push(digit_char(n as int)) == old(out)@ + nat_digits(n as nat));
        } else {
            assert((old(out)@ + nat_digits((n / 10) as nat)).push(digit_char((n % 10) as int))
                == old(out)@ + nat_digits(n as nat));
        }
    }
}

/// The number of decimal digits of `n`.
pub(crate) fn count_digits(n: u64) -> (r: usize)
    ensures
        r == nat_digits(n as nat).len(),
        1 <= r <= 20,
    decreases n,
{
    if n < 10 {
        1
    } else {
        let r = count_digits(n / 10);
        proof {
            lemma_digits_len(n as nat);
        }
        r + 1
    }
}

/// A number below `10^k` has at most `k` digits; stated for the widths that
/// a 64-bit number can reach.
pub(crate) proof fn lemma_digits_len(n: nat)
    requires
        n <= u64::MAX,
    ensures
        1 <= nat_digits(n).len() <= 20,
        n >= 10 ==> nat_digits(n).len() == nat_digits(n / 10).len() + 1,
{
    reveal_with_fuel(nat_digits, 21);
}

/// Appends `n` in decimal, at least `width` characters wide, zero-filled
/// after the sign.
pub(crate) fn push_int(out: &mut Vec<char>, n: i64, width: usize)
    requires
        width <= 64,
    ensures
        final(out)@ == old(out)@ + int_text(n as int, width as int),
{
    let negative = n < 0;
    let magnitude: u64 = if negative {
        (-(n as i128)) as u64
    } else {
        n as u64
    };
    let room: usize = if negative {
        if width > 0 {
            width - 1
        } else {
            0
        }
    } else {
        width
    };
    if negative {
        out.push('-');
    }
    let len = count_digits(magnitude);
    let ghost before = out@;
    let ghost fill = if len >= room {
        0
    } else {
        room - len
    };
    let mut k = len;
    while k < room
        invariant
            len <= k,
            k <= room || k == len,
            out@ == before + Seq::new((k - len) as nat, |m: int| '0'),
        decreases room - k,
    {
        out.push('0');
        assert(out@ == before + Seq::new((k + 1 - len) as nat, |m: int| '0'));
        k += 1;
    }
    push_nat(out, magnitude);
    proof {
        let digits = nat_digits(magnitude as nat);
        if len >= room {
            assert(Seq::new(0nat, |m: int| '0') == Seq::<char>::empty());
            assert(before + Seq::<char>::empty() == before);
        }
        if negative {
            assert(before == old(out)@.push('-'));
            assert(out@ == old(out)@ + (seq!['-'] + zero_padded(digits, width - 1)));
        } else {
            assert(out@ == old(out)@ + zero_padded(digits, width as int));
        }
    }
}

} // verus!
