//! Pieces of grammar that several formats share: lines, blocks of text that
//! end at a blank line, and timestamps.

use crate::text::{
    find_char, int_at, line_ending_at, push_range, scan_int, scan_line_ending, scan_multispace,
    scan_space, scan_to_char, skip_multispace, skip_space,
};
use crate::timing::{fits_i64, timestamp_millis, Moment};
use vstd::prelude::*;

verus! {

/// The sequences that the vectors of `rows` hold.
pub open spec fn rows_view(rows: Seq<Vec<char>>) -> Seq<Seq<char>> {
    Seq::new(rows.len(), |k: int| rows[k]@)
}

/// Where the line that starts at `i` ends, and where the next one starts.
/// A line ends before `\n`, and before the `\r` in front of that `\n` if
/// there is one; the last line may end at the end of the text.
pub open spec fn line_bounds(s: Seq<char>, i: int) -> (int, int) {
    let stop = find_char(s, i, '\n');
    if stop >= s.len() {
        (s.len() as int, s.len() as int)
    } else if i < stop && s[stop - 1] == '\r' {
        (stop - 1, stop + 1)
    } else {
        (stop, stop + 1)
    }
}

/// The lines of `s` from index `i` on.
pub open spec fn lines_from(s: Seq<char>, i: int) -> Seq<Seq<char>>
    decreases s.len() - i,
{
    if i < 0 || i >= s.len() {
        Seq::<Seq<char>>::empty()
    } else {
        let (end, next) = line_bounds(s, i);
        if i < next <= s.len() {
            seq![s.subrange(i, end)] + lines_from(s, next)
        } else {
            Seq::<Seq<char>>::empty()
        }
    }
}

/// The lines of a text.
pub open spec fn lines_of(s: Seq<char>) -> Seq<Seq<char>> {
    lines_from(s, 0)
}

/// Two line endings in a row at `i`: the index just past them.
pub open spec fn double_line_ending_at(s: Seq<char>, i: int) -> Option<int> {
    match line_ending_at(s, i) {
        Some(j) => line_ending_at(s, j),
        None => None,
    }
}

/// Whether a block of text that is read from `i` on ends right at `i`: two
/// line endings follow, or nothing but white space up to the end of the text.
pub open spec fn block_ends_at(s: Seq<char>, i: int) -> bool {
    double_line_ending_at(s, i) is Some || skip_multispace(s, i) >= s.len()
}

/// The index at which the block of text that starts at `i` ends.
pub open spec fn block_end(s: Seq<char>, i: int) -> int
    decreases s.len() - i,
{
    if i < 0 || i >= s.len() || block_ends_at(s, i) {
        i
    } else {
        block_end(s, i + 1)
    }
}

/// The index at which reading resumes after a block that ends at `end`:
/// past the two line endings, or at the end of the text.
pub open spec fn after_block(s: Seq<char>, end: int) -> int {
    match double_line_ending_at(s, end) {
        Some(j) => j,
        None => s.len() as int,
    }
}

/// A timestamp `H:M:S<sep>F` at `i`, spaces and tabs around it allowed. `F`
/// counts units of `unit` milliseconds. The fields are integers of any size
/// and sign; the timestamp is read only if its moment can be held.
pub open spec fn clock_at(s: Seq<char>, i: int, sep: char, unit: int) -> Option<(Moment, int)> {
    let a = skip_space(s, i);
    match int_at(s, a) {
        Some((h, b)) => if b < s.len() && s[b] == ':' {
            match int_at(s, b + 1) {
                Some((m, c)) => if c < s.len() && s[c] == ':' {
                    match int_at(s, c + 1) {
                        Some((sec, d)) => if d < s.len() && s[d] == sep {
                            match int_at(s, d + 1) {
                                Some((sub, e)) => {
                                    let total = timestamp_millis(
                                        h as int,
                                        m as int,
                                        sec as int,
                                        sub * unit,
                                    );
                                    if fits_i64(total) {
                                        Some((Moment(total as i64), skip_space(s, e)))
                                    } else {
                                        None
                                    }
                                },
                                None => None,
                            }
                        } else {
                            None
                        },
                        None => None,
                    }
                } else {
                    None
                },
                None => None,
            }
        } else {
            None
        },
        None => None,
    }
}

/// A timestamp without hours, `M:S.mmm`, at `i`, spaces and tabs around it
/// allowed.
pub open spec fn short_clock_at(s: Seq<char>, i: int) -> Option<(Moment, int)> {
    let a = skip_space(s, i);
    match int_at(s, a) {
        Some((m, b)) => if b < s.len() && s[b] == ':' {
            match int_at(s, b + 1) {
                Some((sec, c)) => if c < s.len() && s[c] == '.' {
                    match int_at(s, c + 1) {
                        Some((sub, d)) => {
                            let total = timestamp_millis(0, m as int, sec as int, sub as int);
                            if fits_i64(total) {
                                Some((Moment(total as i64), skip_space(s, d)))
                            } else {
                                None
                            }
                        },
                        None => None,
                    }
                } else {
                    None
                },
                None => None,
            }
        } else {
            None
        },
        None => None,
    }
}

/// A start and an end timestamp with `-->` between them.
pub open spec fn interval_at(s: Seq<char>, i: int, sep: char, short: bool) -> Option<
    (Moment, Moment, int),
> {
    match stamp_at(s, i, sep, short) {
        Some((start, a)) => if crate::text::has_prefix_at(s, a, "-->"@) {
            match stamp_at(s, a + 3, sep, short) {
                Some((end, b)) => Some((start, end, b)),
                None => None,
            }
        } else {
            None
        },
        None => None,
    }
}

/// A timestamp in milliseconds; where `short` is set, one without hours is
/// read where one with hours cannot be.
pub open spec fn stamp_at(s: Seq<char>, i: int, sep: char, short: bool) -> Option<(Moment, int)> {
    if clock_at(s, i, sep, 1) is Some || !short {
        clock_at(s, i, sep, 1)
    } else {
        short_clock_at(s, i)
    }
}

/// Splits a text into its lines.
pub(crate) fn split_lines(v: &Vec<char>) -> (lines: Vec<Vec<char>>)
    ensures
        rows_view(lines@) == lines_of(v@),
{
    let mut lines: Vec<Vec<char>> = Vec::new();
    let mut i: usize = 0;
    assert(rows_view(lines@) =~= Seq::<Seq<char>>::empty());
    while i < v.len()
        invariant
            i <= v.len(),
            lines_of(v@) == rows_view(lines@) + lines_from(v@, i as int),
        decreases v.len() - i,
    {
        let stop = scan_to_char(v, i, '\n');
        let (end, next) = if stop >= v.len() {
            (v.len(), v.len())
        } else if i < stop && v[stop - 1] == '\r' {
            (stop - 1, stop + 1)
        } else {
            (stop, stop + 1)
        };
        let mut line: Vec<char> = Vec::new();
        push_range(&mut line, v, i, end);
        let ghost before = rows_view(lines@);
        lines.push(line);
        proof {
            assert(line@ == v@.subrange(i as int, end as int));
            assert(rows_view(lines@) =~= before + seq![line@]);
            assert(before + (seq![line@] + lines_from(v@, next as int)) =~= (before + seq![line@])
                + lines_from(v@, next as int));
        }
        i = next;
    }
    assert(rows_view(lines@) + Seq::<Seq<char>>::empty() =~= rows_view(lines@));
    lines
}

/// Reads two line endings in a row.
pub(crate) fn scan_double_line_ending(v: &Vec<char>, i: usize) -> (r: Option<usize>)
    requires
        i <= v.len(),
    ensures
        match r {
            Some(j) => double_line_ending_at(v@, i as int) == Some(j as int) && i + 2 <= j <= v.len(),
            None => double_line_ending_at(v@, i as int) is None,
        },
{
    match scan_line_ending(v, i) {
        Some(j) => scan_line_ending(v, j),
        None => None,
    }
}

/// Finds the end of the block of text that starts at `i`, and the index at
/// which reading resumes after it.
pub(crate) fn scan_block(v: &Vec<char>, i: usize) -> (r: (usize, usize))
    requires
        i <= v.len(),
    ensures
        r.0 == block_end(v@, i as int),
        r.1 == after_block(v@, r.0 as int),
        i <= r.0 <= r.1 <= v.len(),
{
    let mut j = i;
    while j < v.len()
        invariant
            i <= j <= v.len(),
            block_end(v@, i as int) == block_end(v@, j as int),
        decreases v.len() - j,
    {
        match scan_double_line_ending(v, j) {
            Some(next) => {
                return (j, next);
            },
            None => {},
        }
        if scan_multispace(v, j) >= v.len() {
            return (j, v.len());
        }
        j += 1;
    }
    (j, v.len())
}

/// Reads a timestamp `H:M:S<sep>F`.
pub(crate) fn scan_clock(
    v: &Vec<char>,
    i: usize,
    sep: char,
    unit: i64,
) -> (r: Option<(Moment, usize)>)
    requires
        i <= v.len(),
        1 <= unit <= 1000,
    ensures
        match r {
            Some((t, j)) => clock_at(v@, i as int, sep, unit as int) == Some((t, j as int)) && i < j
                <= v.len(),
            None => clock_at(v@, i as int, sep, unit as int) is None,
        },
{
    let a = scan_space(v, i);
    let (h, b) = match scan_int(v, a) {
        Some(x) => x,
        None => {
            return None;
        },
    };
    if !(b < v.len() && v[b] == ':') {
        return None;
    }
    let (m, c) = match scan_int(v, b + 1) {
        Some(x) => x,
        None => {
            return None;
        },
    };
    if !(c < v.len() && v[c] == ':') {
        return None;
    }
    let (sec, d) = match scan_int(v, c + 1) {
        Some(x) => x,
        None => {
            return None;
        },
    };
    if !(d < v.len() && v[d] == sep) {
        return None;
    }
    let (sub, e) = match scan_int(v, d + 1) {
        Some(x) => x,
        None => {
            return None;
        },
    };
    match Moment::checked_from_timestamp(h, m, sec, sub, unit) {
        Some(t) => Some((t, scan_space(v, e))),
        None => None,
    }
}

/// Reads a timestamp without hours, `M:S.mmm`.
pub(crate) fn scan_short_clock(v: &Vec<char>, i: usize) -> (r: Option<(Moment, usize)>)
    requires
        i <= v.len(),
    ensures
        match r {
            Some((t, j)) => short_clock_at(v@, i as int) == Some((t, j as int)) && i < j <= v.len(),
            None => short_clock_at(v@, i as int) is None,
        },
{
    let a = scan_space(v, i);
    let (m, b) = match scan_int(v, a) {
        Some(x) => x,
        None => {
            return None;
        },
    };
    if !(b < v.len() && v[b] == ':') {
        return None;
    }
    let (sec, c) = match scan_int(v, b + 1) {
        Some(x) => x,
        None => {
            return None;
        },
    };
    if !(c < v.len() && v[c] == '.') {
        return None;
    }
    let (sub, d) = match scan_int(v, c + 1) {
        Some(x) => x,
        None => {
            return None;
        },
    };
    match Moment::checked_from_timestamp(0, m, sec, sub, 1) {
        Some(t) => Some((t, scan_space(v, d))),
        None => None,
    }
}

/// Reads a timestamp in milliseconds, with or, where `short` is set, without
/// hours.
pub(crate) fn scan_stamp(
    v: &Vec<char>,
    i: usize,
    sep: char,
    short: bool,
) -> (r: Option<(Moment, usize)>)
    requires
        i <= v.len(),
    ensures
        match r {
            Some((t, j)) => stamp_at(v@, i as int, sep, short) == Some((t, j as int)) && i < j
                <= v.len(),
            None => stamp_at(v@, i as int, sep, short) is None,
        },
{
    match scan_clock(v, i, sep, 1) {
        Some(x) => Some(x),
        None => if short {
            scan_short_clock(v, i)
        } else {
            None
        },
    }
}

/// Reads a start and an end timestamp with `-->` between them.
pub(crate) fn scan_interval(v: &Vec<char>, i: usize, sep: char, short: bool) -> (r: Option<
    (Moment, Moment, usize),
>)
    requires
        i <= v.len(),
    ensures
        match r {
            Some((start, end, j)) => interval_at(v@, i as int, sep, short) == Some(
                (start, end, j as int),
            ) && i < j <= v.len(),
            None => interval_at(v@, i as int, sep, short) is None,
        },
{
    let (start, a) = match scan_stamp(v, i, sep, short) {
        Some(x) => x,
        None => {
            return None;
        },
    };
    proof {
        reveal_strlit("-->");
    }
    if !(v.len() - a >= 3 && v[a] == '-' && v[a + 1] == '-' && v[a + 2] == '>') {
        assert(!crate::text::has_prefix_at(v@, a as int, "-->"@)) by {
            if crate::text::has_prefix_at(v@, a as int, "-->"@) {
                assert(v@.subrange(a as int, a + 3)[0] == '-');
                assert(v@.subrange(a as int, a + 3)[1] == '-');
                assert(v@.subrange(a as int, a + 3)[2] == '>');
            }
        }
        return None;
    }
    assert(v@.subrange(a as int, a + 3) =~= "-->"@);
    match scan_stamp(v, a + 3, sep, short) {
        Some((end, b)) => Some((start, end, b)),
        None => None,
    }
}

} // verus!
