//! A SubRip file that this library has written is read back as the very
//! events that were written.

use crate::parsing::{
    after_block, block_end, block_ends_at, clock_at, double_line_ending_at, interval_at,
    line_bounds, lines_from, stamp_at,
};
use crate::subrip::data::{
    coordinates_text, event_text, events_text, renumbered, subtitle_text, SubRipEventView,
};
use crate::subrip::parse::{
    attempted, block_at, coordinates_of, fed, fed_all, more_blocks, new_line_at, parsed,
    start_draft, SubRipBlockView, SubRipDraft,
};
use crate::text::{
    decimal_value, find_char, has_prefix_at, int_at, int_text, is_digit, is_multispace, is_space,
    lemma_find_char_bounds, lemma_skip_multispace_bounds, line_ending_at, nat_digits, skip_digits,
    skip_multispace, skip_space, uint_at, zero_padded,
};
use crate::timing::{
    clock_text, hours_of, millis_of, minutes_of, seconds_of, srt_timestamp, timestamp_millis,
    Moment,
};
use vstd::arithmetic::div_mod::{
    lemma_div_denominator, lemma_div_nonincreasing, lemma_div_pos_is_pos, lemma_fundamental_div_mod,
    lemma_mod_pos_bound,
};
use vstd::prelude::*;

verus! {

/// The decimal digits of a number are digits, and at least one.
proof fn lemma_nat_digits_are_digits(n: nat)
    ensures
        nat_digits(n).len() >= 1,
        forall|k: int| 0 <= k < nat_digits(n).len() ==> is_digit(#[trigger] nat_digits(n)[k]),
    decreases n,
{
    if n >= 10 {
        lemma_nat_digits_are_digits(n / 10);
    }
}

/// The decimal digits of a number write that number.
proof fn lemma_decimal_value_of_digits(n: nat)
    ensures
        decimal_value(nat_digits(n)) == n,
    decreases n,
{
    if n < 10 {
        assert(nat_digits(n).drop_last() == Seq::<char>::empty());
        assert(decimal_value(Seq::<char>::empty()) == 0);
    } else {
        lemma_decimal_value_of_digits(n / 10);
        assert(nat_digits(n).drop_last() == nat_digits(n / 10));
    }
}

/// Zeros in front of digits are digits too, and do not change the number
/// written.
proof fn lemma_zero_padded(d: Seq<char>, width: int)
    requires
        forall|k: int| 0 <= k < d.len() ==> is_digit(#[trigger] d[k]),
    ensures
        forall|k: int|
            0 <= k < zero_padded(d, width).len() ==> is_digit(#[trigger] zero_padded(d, width)[k]),
        decimal_value(zero_padded(d, width)) == decimal_value(d),
        zero_padded(d, width).len() >= d.len(),
    decreases d.len(),
{
    if d.len() < width {
        let zeros = Seq::new((width - d.len()) as nat, |k: int| '0');
        if d.len() == 0 {
            assert(zeros + d == zeros);
            lemma_zeros_value(zeros);
        } else {
            lemma_zero_padded(d.drop_last(), width - 1);
            assert(zero_padded(d.drop_last(), width - 1) == zeros + d.drop_last());
            assert((zeros + d).drop_last() == zeros + d.drop_last());
        }
    }
}

/// Zeros alone write the number zero.
proof fn lemma_zeros_value(zeros: Seq<char>)
    requires
        forall|k: int| 0 <= k < zeros.len() ==> #[trigger] zeros[k] == '0',
    ensures
        decimal_value(zeros) == 0,
    decreases zeros.len(),
{
    if zeros.len() > 0 {
        lemma_zeros_value(zeros.drop_last());
    }
}

/// A run of digits that ends at `j` is skipped up to `j`.
proof fn lemma_skip_digits_run(s: Seq<char>, i: int, j: int)
    requires
        0 <= i <= j <= s.len(),
        forall|k: int| i <= k < j ==> is_digit(#[trigger] s[k]),
        j < s.len() ==> !is_digit(s[j]),
    ensures
        skip_digits(s, i) == j,
    decreases j - i,
{
    if i < j {
        lemma_skip_digits_run(s, i + 1, j);
    }
}

/// A number that was written without a sign is read back.
proof fn lemma_int_read_back(s: Seq<char>, i: int, j: int, v: int, width: int)
    requires
        0 <= i <= j <= s.len(),
        0 <= v <= i64::MAX,
        s.subrange(i, j) == int_text(v, width),
        j < s.len() ==> !is_digit(s[j]),
    ensures
        i < j,
        is_digit(s[i]),
        int_at(s, i) == Some((v as i64, j)),
{
    let digits = nat_digits(v as nat);
    lemma_nat_digits_are_digits(v as nat);
    lemma_decimal_value_of_digits(v as nat);
    lemma_zero_padded(digits, width);
    assert forall|k: int| i <= k < j implies is_digit(#[trigger] s[k]) by {
        assert(s[k] == s.subrange(i, j)[k - i]);
    }
    lemma_skip_digits_run(s, i, j);
}

/// A line number that was written is read back.
proof fn lemma_uint_read_back(s: Seq<char>, i: int, j: int, n: nat)
    requires
        0 <= i <= j <= s.len(),
        n <= u32::MAX,
        s.subrange(i, j) == nat_digits(n),
        j < s.len() ==> !is_digit(s[j]),
    ensures
        i < j,
        is_digit(s[i]),
        uint_at(s, i) == Some((n as u32, j)),
{
    lemma_nat_digits_are_digits(n);
    lemma_decimal_value_of_digits(n);
    assert forall|k: int| i <= k < j implies is_digit(#[trigger] s[k]) by {
        assert(s[k] == s.subrange(i, j)[k - i]);
    }
    lemma_skip_digits_run(s, i, j);
}

/// The fields of a timestamp for a time that is not negative are not
/// negative either, and add up to that time.
proof fn lemma_clock_fields(ms: int)
    requires
        0 <= ms,
    ensures
        0 <= hours_of(ms) <= ms,
        0 <= minutes_of(ms) < 60,
        0 <= seconds_of(ms) < 60,
        0 <= millis_of(ms) < 1000,
        timestamp_millis(hours_of(ms), minutes_of(ms), seconds_of(ms), millis_of(ms)) == ms,
{
    let seconds = ms / 1000;
    let minutes = seconds / 60;
    let hours = minutes / 60;
    lemma_fundamental_div_mod(ms, 1000);
    lemma_fundamental_div_mod(seconds, 60);
    lemma_fundamental_div_mod(minutes, 60);
    lemma_div_pos_is_pos(ms, 1000);
    lemma_div_pos_is_pos(seconds, 60);
    lemma_div_pos_is_pos(minutes, 60);
    lemma_mod_pos_bound(ms, 1000);
    lemma_mod_pos_bound(seconds, 60);
    lemma_mod_pos_bound(minutes, 60);
    lemma_div_denominator(ms, 1000, 60);
    lemma_div_denominator(ms, 60000, 60);
    lemma_div_nonincreasing(ms, 3600000);
    assert(minutes == ms / 60000);
    assert(hours == ms / 3600000);
    assert(hours_of(ms) == hours);
    assert(minutes_of(ms) == minutes % 60);
    assert(seconds_of(ms) == seconds % 60);
    assert(millis_of(ms) == ms % 1000);
}

/// A timestamp that was written is read back.
proof fn lemma_clock_read_back(s: Seq<char>, i: int, j: int, ms: int)
    requires
        0 <= i <= j <= s.len(),
        0 <= ms <= i64::MAX,
        s.subrange(i, j) == srt_timestamp(ms),
        j < s.len() ==> !is_digit(s[j]),
    ensures
        i < j,
        is_digit(s[i]),
        clock_at(s, i, ',', 1) == Some((Moment(ms as i64), skip_space(s, j))),
{
    reveal(clock_text);
    lemma_clock_fields(ms);
    let h = hours_of(ms);
    let m = minutes_of(ms);
    let sec = seconds_of(ms);
    let f = millis_of(ms);
    let a = int_text(h, 2);
    let b = int_text(m, 2);
    let c = int_text(sec, 2);
    let d = int_text(f, 3);
    let t = srt_timestamp(ms);
    assert(t == a + seq![':'] + b + seq![':'] + c + seq![','] + d);
    let min_at = i + a.len();
    let sec_at = min_at + 1 + b.len();
    let sub_at = sec_at + 1 + c.len();
    assert(j == sub_at + 1 + d.len()) by {
        assert(s.subrange(i, j).len() == t.len());
    }
    assert forall|k: int| 0 <= k < t.len() implies s[i + k] == #[trigger] t[k] by {
        assert(s.subrange(i, j)[k] == s[i + k]);
    }
    assert(s.subrange(i, min_at) =~= a) by {
        assert forall|k: int| 0 <= k < a.len() implies s.subrange(i, min_at)[k] == a[k] by {
            assert(t[k] == a[k]);
        }
    }
    assert(s[min_at] == ':') by {
        assert(t[a.len() as int] == ':');
    }
    assert(s.subrange(min_at + 1, sec_at) =~= b) by {
        assert forall|k: int| 0 <= k < b.len() implies s.subrange(
            min_at + 1,
            sec_at,
        )[k] == b[k] by {
            assert(t[a.len() + 1 + k] == b[k]);
        }
    }
    assert(s[sec_at] == ':') by {
        assert(t[sec_at - i] == ':');
    }
    assert(s.subrange(sec_at + 1, sub_at) =~= c) by {
        assert forall|k: int| 0 <= k < c.len() implies s.subrange(
            sec_at + 1,
            sub_at,
        )[k] == c[k] by {
            assert(t[a.len() + 1 + b.len() + 1 + k] == c[k]);
        }
    }
    assert(s[sub_at] == ',') by {
        assert(t[sub_at - i] == ',');
    }
    assert(s.subrange(sub_at + 1, j) =~= d) by {
        assert forall|k: int| 0 <= k < d.len() implies s.subrange(sub_at + 1, j)[k] == d[k] by {
            assert(t[a.len() + 1 + b.len() + 1 + c.len() + 1 + k] == d[k]);
        }
    }
    lemma_int_read_back(s, i, min_at, h, 2);
    lemma_int_read_back(s, min_at + 1, sec_at, m, 2);
    lemma_int_read_back(s, sec_at + 1, sub_at, sec, 2);
    lemma_int_read_back(s, sub_at + 1, j, f, 3);
    assert(skip_space(s, i) == i);
}

/// Coordinates that are read back as they were written: not empty, on one
/// line, and without a space or tab in front.
pub open spec fn canonical_coordinates(c: Option<Seq<char>>) -> bool {
    match c {
        Some(c) => c.len() > 0 && !is_space(c[0]) && forall|k: int|
            0 <= k < c.len() ==> #[trigger] c[k] != '\n' && c[k] != '\r',
        None => true,
    }
}

/// A text that is read back as it was written: without carriage returns and
/// empty lines, and, unless it is empty, without a line feed in front and
/// white space at the end.
pub open spec fn canonical_text(t: Seq<char>) -> bool {
    &&& forall|k: int| 0 <= k < t.len() ==> #[trigger] t[k] != '\r'
    &&& forall|k: int| 0 <= k < t.len() - 1 ==> !(#[trigger] t[k] == '\n' && t[k + 1] == '\n')
    &&& t.len() > 0 ==> t[0] != '\n' && !is_multispace(t[t.len() - 1])
}

/// An event that is read back as it was written: its number can be held in
/// 32 bits, its times are not negative, and its coordinates and text are
/// read back as they were written.
pub open spec fn canonical_event(e: SubRipEventView) -> bool {
    &&& e.line_number <= u32::MAX
    &&& 0 <= e.start@
    &&& 0 <= e.end@
    &&& canonical_coordinates(e.coordinates)
    &&& canonical_text(e.text)
}

/// A run of white space that ends at `j` is skipped up to `j`.
proof fn lemma_skip_multispace_run(s: Seq<char>, i: int, j: int)
    requires
        0 <= i <= j <= s.len(),
        forall|k: int| i <= k < j ==> is_multispace(#[trigger] s[k]),
        j < s.len() ==> !is_multispace(s[j]),
    ensures
        skip_multispace(s, i) == j,
    decreases j - i,
{
    if i < j {
        lemma_skip_multispace_run(s, i + 1, j);
    }
}

/// A character that is not found before `j` and stands at `j` is found at
/// `j`.
proof fn lemma_find_char_run(s: Seq<char>, i: int, j: int, c: char)
    requires
        0 <= i <= j <= s.len(),
        forall|k: int| i <= k < j ==> #[trigger] s[k] != c,
        j < s.len() ==> s[j] == c,
    ensures
        find_char(s, i, c) == j,
    decreases j - i,
{
    if i < j {
        lemma_find_char_run(s, i + 1, j, c);
    }
}

/// A block of text ends at the first index at which it can end.
proof fn lemma_block_end_run(s: Seq<char>, i: int, j: int)
    requires
        0 <= i <= j <= s.len(),
        forall|k: int| i <= k < j ==> !block_ends_at(s, k),
        j < s.len() ==> block_ends_at(s, j),
    ensures
        block_end(s, i) == j,
    decreases j - i,
{
    if i < j {
        lemma_block_end_run(s, i + 1, j);
    }
}

/// A canonical text that stands in `s` from `from` to `to`, with one or two
/// line feeds and nothing else after it, is the block of text that is read
/// from `from`, and reading resumes at the end of `s`.
proof fn lemma_text_read_back(s: Seq<char>, from: int, to: int, text: Seq<char>)
    requires
        0 <= from <= to < s.len() <= to + 2,
        s.subrange(from, to) == text,
        canonical_text(text),
        forall|k: int| to <= k < s.len() ==> #[trigger] s[k] == '\n',
    ensures
        block_end(s, from) == to,
        after_block(s, to) == s.len(),
{
    assert forall|k: int| 0 <= k < text.len() implies s[from + k] == #[trigger] text[k] by {
        assert(s.subrange(from, to)[k] == s[from + k]);
    }
    assert forall|k: int| from <= k < to implies !block_ends_at(s, k) by {
        assert(s[to - 1] == text[text.len() - 1]);
        assert(s[k] == text[k - from]);
        if s[k] == '\n' {
            assert(k < to - 1);
            assert(s[k + 1] == text[k + 1 - from]);
            assert(text[k - from] == '\n');
            assert(double_line_ending_at(s, k) is None);
        }
        lemma_skip_multispace_bounds(s, k);
        if skip_multispace(s, k) >= s.len() {
            assert(is_multispace(s[to - 1]));
        }
    }
    if s.len() == to + 1 {
        lemma_skip_multispace_run(s, to, to + 1);
    } else {
        assert(s[to] == '\n' && s[to + 1] == '\n');
    }
    lemma_block_end_run(s, from, to);
}

/// The first part of a text that is made of two parts, and the second.
proof fn lemma_parts(first: Seq<char>, second: Seq<char>)
    ensures
        (first + second).subrange(0, first.len() as int) == first,
        (first + second).subrange(first.len() as int, (first + second).len() as int) == second,
        (first + second).len() == first.len() + second.len(),
{
    assert((first + second).subrange(0, first.len() as int) =~= first);
    assert((first + second).subrange(first.len() as int, (first + second).len() as int)
        =~= second);
}

/// A part of a part of `s` is a part of `s`.
proof fn lemma_part_of_part(s: Seq<char>, from: int, to: int, i: int, j: int)
    requires
        0 <= from <= to <= s.len(),
        0 <= i <= j <= to - from,
    ensures
        s.subrange(from, to).subrange(i, j) == s.subrange(from + i, from + j),
{
    assert(s.subrange(from, to).subrange(i, j) =~= s.subrange(from + i, from + j));
}

/// The line of an event that holds its timing, without the line feed at its
/// end.
spec fn timing_text(e: SubRipEventView) -> Seq<char> {
    srt_timestamp(e.start@) + " --> "@ + srt_timestamp(e.end@) + coordinates_text(e.coordinates)
}

/// An event as it is written is its number, its timing and its text, a line
/// feed after the first two.
proof fn lemma_event_layout(e: SubRipEventView)
    ensures
        event_text(e) == nat_digits(e.line_number) + seq!['\n'] + timing_text(e) + seq!['\n']
            + e.text,
        timing_text(e) == srt_timestamp(e.start@) + seq![' ', '-', '-', '>', ' '] + srt_timestamp(
            e.end@,
        ) + coordinates_text(e.coordinates),
{
    reveal(event_text);
    reveal_strlit("\n");
    reveal_strlit(" --> ");
    assert("\n"@ =~= seq!['\n']);
    assert(" --> "@ =~= seq![' ', '-', '-', '>', ' ']);
    let n = nat_digits(e.line_number);
    let ts1 = srt_timestamp(e.start@);
    let ts2 = srt_timestamp(e.end@);
    let co = coordinates_text(e.coordinates);
    let nl = seq!['\n'];
    let arrow = seq![' ', '-', '-', '>', ' '];
    assert(n + nl + ts1 + arrow + ts2 + co + nl + e.text =~= n + nl + (ts1 + arrow + ts2 + co) + nl
        + e.text);
}

/// A space or tab before a timestamp is passed over.
proof fn lemma_clock_after_space(s: Seq<char>, i: int, sep: char, unit: int)
    requires
        0 <= i < s.len(),
        is_space(s[i]),
    ensures
        clock_at(s, i, sep, unit) == clock_at(s, i + 1, sep, unit),
{
    assert(skip_space(s, i) == skip_space(s, i + 1));
}

/// Two timestamps with an arrow between them are read as an interval.
proof fn lemma_interval(s: Seq<char>, b: int, b1: int, c1: int, start: Moment, end: Moment)
    requires
        0 <= b <= b1,
        b1 + 5 <= c1 <= s.len(),
        clock_at(s, b, ',', 1) == Some((start, skip_space(s, b1))),
        s[b1] == ' ',
        s[b1 + 1] == '-',
        s[b1 + 2] == '-',
        s[b1 + 3] == '>',
        s[b1 + 4] == ' ',
        clock_at(s, b1 + 5, ',', 1) == Some((end, skip_space(s, c1))),
    ensures
        interval_at(s, b, ',', false) == Some((start, end, skip_space(s, c1))),
{
    reveal_strlit("-->");
    assert(skip_space(s, b1) == b1 + 1) by {
        assert(skip_space(s, b1 + 1) == b1 + 1);
    }
    assert(has_prefix_at(s, b1 + 1, "-->"@)) by {
        assert(s.subrange(b1 + 1, b1 + 4) =~= "-->"@);
    }
    lemma_clock_after_space(s, b1 + 4, ',', 1);
    assert(stamp_at(s, b, ',', false) == Some((start, b1 + 1)));
    assert(stamp_at(s, b1 + 4, ',', false) == Some((end, skip_space(s, c1))));
}

/// The timing of an event that was written is read back. It stands in `s`
/// from `b` to `c1`, and no digit follows it.
proof fn lemma_timing_read_back(s: Seq<char>, b: int, c1: int, start: int, end: int)
    requires
        0 <= b <= c1 <= s.len(),
        0 <= start <= i64::MAX,
        0 <= end <= i64::MAX,
        s.subrange(b, c1) == srt_timestamp(start) + seq![' ', '-', '-', '>', ' '] + srt_timestamp(
            end,
        ),
        c1 < s.len() ==> !is_digit(s[c1]),
    ensures
        interval_at(s, b, ',', false) == Some(
            (Moment(start as i64), Moment(end as i64), skip_space(s, c1)),
        ),
{
    let ts1 = srt_timestamp(start);
    let ts2 = srt_timestamp(end);
    let arrow = seq![' ', '-', '-', '>', ' '];
    let whole = ts1 + arrow + ts2;
    let b1 = b + ts1.len();
    let c0 = b1 + 5;
    lemma_parts(ts1 + arrow, ts2);
    lemma_parts(ts1, arrow);
    assert(c1 == c0 + ts2.len()) by {
        assert(s.subrange(b, c1).len() == whole.len());
    }
    lemma_part_of_part(s, b, c1, 0, ts1.len() as int);
    lemma_part_of_part(s, b, c1, ts1.len() as int, b1 - b + 5);
    lemma_part_of_part(s, b, c1, b1 - b + 5, whole.len() as int);
    assert(whole.subrange(0, ts1.len() as int) =~= ts1);
    assert(whole.subrange(ts1.len() as int, b1 - b + 5) =~= arrow);
    assert(s.subrange(b, b1) == ts1);
    assert(s.subrange(b1, c0) == arrow);
    assert(s.subrange(c0, c1) == ts2);
    assert(s[b1] == ' ' && s[b1 + 1] == '-' && s[b1 + 2] == '-' && s[b1 + 3] == '>' && s[b1 + 4]
        == ' ') by {
        assert(s.subrange(b1, c0)[0] == s[b1]);
        assert(s.subrange(b1, c0)[1] == s[b1 + 1]);
        assert(s.subrange(b1, c0)[2] == s[b1 + 2]);
        assert(s.subrange(b1, c0)[3] == s[b1 + 3]);
        assert(s.subrange(b1, c0)[4] == s[b1 + 4]);
    }
    lemma_clock_read_back(s, b, b1, start);
    lemma_clock_read_back(s, c0, c1, end);
    lemma_interval(s, b, b1, c1, Moment(start as i64), Moment(end as i64));
}

/// Canonical coordinates that were written are read back. They stand in
/// `s` from `c1` to `d`, where a line feed stands.
proof fn lemma_coordinates_read_back(s: Seq<char>, c1: int, d: int, c: Option<Seq<char>>)
    requires
        0 <= c1 <= d < s.len(),
        canonical_coordinates(c),
        s.subrange(c1, d) == coordinates_text(c),
        s[d] == '\n',
    ensures
        c1 <= skip_space(s, c1) <= d,
        find_char(s, skip_space(s, c1), '\n') == d,
        coordinates_of(s.subrange(skip_space(s, c1), d)) == c,
        !is_digit(s[c1]),
{
    reveal_strlit(" ");
    let co = coordinates_text(c);
    let c2 = skip_space(s, c1);
    assert forall|k: int| 0 <= k < co.len() implies s[c1 + k] == #[trigger] co[k] by {
        assert(s.subrange(c1, d)[k] == s[c1 + k]);
    }
    match c {
        Some(c) => {
            assert(co == " "@ + c);
            assert(co[0] == ' ');
            assert(s.subrange(c1, d).len() == co.len());
            assert(d == c1 + 1 + c.len());
            assert forall|k: int| 0 <= k < c.len() implies s[c1 + 1 + k] == #[trigger] c[k] by {
                assert(co[1 + k] == c[k]);
            }
            assert(s[c1 + 1] == c[0]);
            assert(skip_space(s, c1 + 1) == c1 + 1);
            assert(c2 == c1 + 1);
            assert forall|k: int| c2 <= k < d implies #[trigger] s[k] != '\n' by {
                assert(s[k] == c[k - c1 - 1]);
            }
            lemma_find_char_run(s, c2, d, '\n');
            assert(s.subrange(c2, d) =~= c);
        },
        None => {
            assert(s.subrange(c1, d).len() == 0);
            assert(c2 == c1);
            lemma_find_char_run(s, c2, d, '\n');
            assert(s.subrange(c2, d) =~= Seq::<char>::empty());
        },
    }
}

/// Where the parts of an event stand in a text that holds the event at
/// `q`: its number up to `a1`, its timestamps from `a1 + 1` to `c1`, its
/// coordinates up to `d`, and its text from `d + 1` to `t`.
proof fn lemma_event_parts(
    s: Seq<char>,
    q: int,
    e: SubRipEventView,
    a1: int,
    c1: int,
    d: int,
    t: int,
)
    requires
        0 <= q,
        q + event_text(e).len() <= s.len(),
        s.subrange(q, q + event_text(e).len()) == event_text(e),
        a1 == q + nat_digits(e.line_number).len(),
        c1 == a1 + 1 + srt_timestamp(e.start@).len() + 5 + srt_timestamp(e.end@).len(),
        d == c1 + coordinates_text(e.coordinates).len(),
        t == d + 1 + e.text.len(),
    ensures
        t == q + event_text(e).len(),
        s.subrange(q, a1) == nat_digits(e.line_number),
        s[a1] == '\n',
        s.subrange(a1 + 1, c1) == srt_timestamp(e.start@) + seq![' ', '-', '-', '>', ' ']
            + srt_timestamp(e.end@),
        s.subrange(c1, d) == coordinates_text(e.coordinates),
        s[d] == '\n',
        s.subrange(d + 1, t) == e.text,
{
    lemma_event_layout(e);
    let n = nat_digits(e.line_number);
    let timing = srt_timestamp(e.start@) + seq![' ', '-', '-', '>', ' '] + srt_timestamp(e.end@);
    let co = coordinates_text(e.coordinates);
    let line = timing_text(e);
    let nl = seq!['\n'];
    let text = event_text(e);
    let b = a1 + 1;
    lemma_parts(n + nl + line + nl, e.text);
    lemma_parts(n + nl + line, nl);
    lemma_parts(n + nl, line);
    lemma_parts(n, nl);
    lemma_parts(timing, co);
    let end = q + text.len();
    lemma_part_of_part(s, q, end, 0, n.len() as int);
    assert(text.subrange(0, n.len() as int) =~= n);
    assert(s[a1] == '\n') by {
        assert(s.subrange(q, end)[n.len() as int] == s[a1]);
        assert(text[n.len() as int] == nl[0]);
    }
    lemma_part_of_part(s, q, end, b - q, d - q);
    assert(text.subrange(b - q, d - q) =~= line);
    assert(s.subrange(b, d) == line);
    lemma_part_of_part(s, b, d, 0, timing.len() as int);
    lemma_part_of_part(s, b, d, timing.len() as int, line.len() as int);
    assert(s[d] == '\n') by {
        assert(s.subrange(q, end)[d - q] == s[d]);
        assert(text[d - q] == nl[0]);
    }
    lemma_part_of_part(s, q, end, d + 1 - q, t - q);
    assert(text.subrange(d + 1 - q, t - q) =~= e.text);
}

/// An event is read from its parts.
proof fn lemma_new_line_from_parts(
    s: Seq<char>,
    q: int,
    e: SubRipEventView,
    a1: int,
    c2: int,
    d: int,
    t: int,
)
    requires
        0 <= q <= a1,
        a1 + 1 <= c2 <= d < t + 1,
        t <= s.len(),
        skip_multispace(s, 0) == q,
        e.line_number <= u32::MAX,
        uint_at(s, q) == Some((e.line_number as u32, a1)),
        s[a1] == '\n',
        interval_at(s, a1 + 1, ',', false) == Some((e.start, e.end, c2)),
        find_char(s, c2, '\n') == d,
        coordinates_of(s.subrange(c2, d)) == e.coordinates,
        block_end(s, d + 1) == t,
        s.subrange(d + 1, t) == e.text,
        after_block(s, t) == s.len(),
    ensures
        new_line_at(s, 0) == Some((e, s.len() as int)),
{
    assert(line_ending_at(s, a1) == Some(a1 + 1));
}

/// A canonical event that was written is read back. The event stands in
/// `s` at `q`, after nothing but line feeds, and one or two line feeds and
/// nothing else follow it.
proof fn lemma_event_read_back(s: Seq<char>, q: int, e: SubRipEventView)
    requires
        canonical_event(e),
        0 <= q,
        q + event_text(e).len() < s.len() <= q + event_text(e).len() + 2,
        forall|k: int| 0 <= k < q ==> #[trigger] s[k] == '\n',
        s.subrange(q, q + event_text(e).len()) == event_text(e),
        forall|k: int| q + event_text(e).len() <= k < s.len() ==> #[trigger] s[k] == '\n',
    ensures
        new_line_at(s, 0) == Some((e, s.len() as int)),
{
    let a1 = q + nat_digits(e.line_number).len();
    let c1 = a1 + 1 + srt_timestamp(e.start@).len() + 5 + srt_timestamp(e.end@).len();
    let d = c1 + coordinates_text(e.coordinates).len();
    let t = d + 1 + e.text.len();
    lemma_event_parts(s, q, e, a1, c1, d, t);
    lemma_uint_read_back(s, q, a1, e.line_number);
    lemma_skip_multispace_run(s, 0, q);
    lemma_coordinates_read_back(s, c1, d, e.coordinates);
    lemma_timing_read_back(s, a1 + 1, c1, e.start@, e.end@);
    lemma_text_read_back(s, d + 1, t, e.text);
    lemma_new_line_from_parts(s, q, e, a1, skip_space(s, c1), d, t);
}

/// The draft after one more line.
#[verifier::opaque]
spec fn fed_line(d: SubRipDraft, line: Seq<char>) -> SubRipDraft {
    fed(d, line)
}

/// The draft after an attempt to read the waiting lines.
#[verifier::opaque]
spec fn read_waiting(d: SubRipDraft) -> SubRipDraft {
    attempted(d)
}

/// The events that a draft makes once the text has been read to its end.
#[verifier::opaque]
spec fn read_out(d: SubRipDraft) -> Seq<SubRipEventView> {
    read_waiting(d).events
}

/// The draft after the lines of `t` from index `i` on.
spec fn fed_text(d: SubRipDraft, t: Seq<char>, i: int) -> SubRipDraft
    decreases t.len() - i,
{
    if i < 0 || i >= t.len() {
        d
    } else {
        let (end, next) = line_bounds(t, i);
        if i < next <= t.len() {
            fed_text(fed_line(d, t.subrange(i, end)), t, next)
        } else {
            d
        }
    }
}

/// Feeding lines from the second on is feeding all but the first.
proof fn lemma_fed_all_shift(d: SubRipDraft, first: Seq<char>, rest: Seq<Seq<char>>, k: int)
    requires
        0 <= k,
    ensures
        fed_all(d, seq![first] + rest, k + 1) == fed_all(d, rest, k),
    decreases rest.len() - k,
{
    if k < rest.len() {
        assert((seq![first] + rest)[k + 1] == rest[k]);
        lemma_fed_all_shift(fed(d, rest[k]), first, rest, k + 1);
    }
}

/// Feeding the lines of a text is feeding the text line by line.
proof fn lemma_fed_lines(d: SubRipDraft, t: Seq<char>, i: int)
    requires
        0 <= i,
    ensures
        fed_all(d, lines_from(t, i), 0) == fed_text(d, t, i),
    decreases t.len() - i,
{
    reveal(fed_line);
    if i < t.len() {
        let (end, next) = line_bounds(t, i);
        lemma_find_char_bounds(t, i, '\n');
        if i < next <= t.len() {
            let line = t.subrange(i, end);
            let rest = lines_from(t, next);
            assert(lines_from(t, i) == seq![line] + rest);
            assert((seq![line] + rest)[0] == line);
            lemma_fed_all_shift(fed(d, line), line, rest, 0);
            lemma_fed_lines(fed(d, line), t, next);
        }
    }
}

/// Lines that are not empty wait to be read. The lines stand in `t` from
/// `i` to `j`, the line feed of the last among them. Each is added to the
/// waiting lines as it stands in `t`.
proof fn lemma_feed_waiting(d: SubRipDraft, t: Seq<char>, i: int, j: int)
    requires
        0 <= i < j <= t.len(),
        t[j - 1] == '\n',
        t[i] != '\n',
        forall|k: int| i <= k < j ==> #[trigger] t[k] != '\r',
        forall|k: int| i <= k < j - 1 ==> !(#[trigger] t[k] == '\n' && t[k + 1] == '\n'),
    ensures
        fed_text(d, t, i) == fed_text(
            SubRipDraft { queue: d.queue + t.subrange(i, j), ..d },
            t,
            j,
        ),
    decreases j - i,
{
    reveal_strlit("\n");
    reveal(fed_line);
    let stop = find_char(t, i, '\n');
    lemma_find_char_bounds(t, i, '\n');
    assert(stop <= j - 1) by {
        if stop > j - 1 {
            assert(t[j - 1] != '\n');
        }
    }
    assert(i < stop);
    assert(t[stop - 1] != '\r');
    let line = t.subrange(i, stop);
    assert(line_bounds(t, i) == (stop, stop + 1));
    let waiting = SubRipDraft { queue: d.queue + line + "\n"@, ..d };
    assert(fed(d, line) == waiting);
    assert(d.queue + line + "\n"@ =~= d.queue + t.subrange(i, stop + 1));
    if stop + 1 < j {
        assert(t[stop + 1] != '\n') by {
            assert(!(t[stop] == '\n' && t[stop + 1] == '\n'));
        }
        lemma_feed_waiting(waiting, t, stop + 1, j);
        assert(waiting.queue + t.subrange(stop + 1, j) =~= d.queue + t.subrange(i, j));
    }
}

/// Waiting lines that hold a canonical event, written after nothing but
/// line feeds and followed by one or two line feeds, are read as that event,
/// and no line waits on.
proof fn lemma_attempt_reads_event(d: SubRipDraft, q: int, e: SubRipEventView)
    requires
        canonical_event(e),
        0 <= q,
        q + event_text(e).len() < d.queue.len() <= q + event_text(e).len() + 2,
        forall|k: int| 0 <= k < q ==> #[trigger] d.queue[k] == '\n',
        d.queue.subrange(q, q + event_text(e).len()) == event_text(e),
        forall|k: int|
            q + event_text(e).len() <= k < d.queue.len() ==> #[trigger] d.queue[k] == '\n',
    ensures
        attempted(d) == (SubRipDraft { queue: Seq::empty(), events: d.events.push(e) }),
{
    let s = d.queue;
    lemma_event_read_back(s, q, e);
    assert(block_at(s, 0) == Some((SubRipBlockView::NewLine(e), s.len() as int)));
    assert(!has_prefix_at(s, s.len() as int, "\n\n"@)) by {
        reveal_strlit("\n\n");
    }
    assert(more_blocks(s, s.len() as int, d.events.push(e)) == (d.events.push(e), s.len() as int));
    assert(s.subrange(s.len() as int, s.len() as int) =~= Seq::<char>::empty());
}

/// Waiting lines that are all empty are read as nothing, and dropped.
proof fn lemma_attempt_reads_nothing(d: SubRipDraft)
    requires
        forall|k: int| 0 <= k < d.queue.len() ==> #[trigger] d.queue[k] == '\n',
    ensures
        attempted(d) == (SubRipDraft { queue: Seq::empty(), ..d }),
{
    let s = d.queue;
    lemma_skip_multispace_run(s, 0, s.len() as int);
    assert(skip_digits(s, s.len() as int) == s.len());
    assert(new_line_at(s, 0) is None);
    assert(block_end(s, 0) == 0);
}

/// The characters of a timestamp for a time that is not negative: digits,
/// colons and a comma.
proof fn lemma_timestamp_chars(ms: int)
    requires
        0 <= ms,
    ensures
        srt_timestamp(ms).len() > 0,
        forall|k: int|
            0 <= k < srt_timestamp(ms).len() ==> {
                let c = #[trigger] srt_timestamp(ms)[k];
                is_digit(c) || c == ':' || c == ','
            },
{
    reveal(clock_text);
    lemma_clock_fields(ms);
    lemma_nat_digits_are_digits(hours_of(ms) as nat);
    lemma_nat_digits_are_digits(minutes_of(ms) as nat);
    lemma_nat_digits_are_digits(seconds_of(ms) as nat);
    lemma_nat_digits_are_digits(millis_of(ms) as nat);
    lemma_zero_padded(nat_digits(hours_of(ms) as nat), 2);
    lemma_zero_padded(nat_digits(minutes_of(ms) as nat), 2);
    lemma_zero_padded(nat_digits(seconds_of(ms) as nat), 2);
    lemma_zero_padded(nat_digits(millis_of(ms) as nat), 3);
}

/// A text whose lines can wait to be read without being read too early: it
/// holds no carriage return and no empty line, and, unless it is empty,
/// neither starts nor ends with a line feed.
spec fn whole_lines(x: Seq<char>) -> bool {
    &&& forall|k: int| 0 <= k < x.len() ==> #[trigger] x[k] != '\r'
    &&& forall|k: int| 0 <= k < x.len() - 1 ==> !(#[trigger] x[k] == '\n' && x[k + 1] == '\n')
    &&& x.len() > 0 ==> x[0] != '\n' && x[x.len() - 1] != '\n'
}

/// Two texts of whole lines, one under the other, are a text of whole
/// lines.
proof fn lemma_join_lines(x: Seq<char>, y: Seq<char>)
    requires
        whole_lines(x),
        whole_lines(y),
        x.len() > 0,
        y.len() > 0,
    ensures
        whole_lines(x + seq!['\n'] + y),
{
    let z = x + seq!['\n'] + y;
    assert forall|k: int| 0 <= k < z.len() - 1 implies !(#[trigger] z[k] == '\n' && z[k + 1]
        == '\n') by {
        if k + 1 < x.len() {
            assert(z[k] == x[k] && z[k + 1] == x[k + 1]);
        } else if k + 1 == x.len() {
            assert(z[k] == x[x.len() - 1]);
        } else if k == x.len() {
            assert(z[k + 1] == y[0]);
        } else {
            assert(z[k] == y[k - x.len() - 1] && z[k + 1] == y[k - x.len()]);
        }
    }
    assert forall|k: int| 0 <= k < z.len() implies #[trigger] z[k] != '\r' by {
        if k < x.len() {
            assert(z[k] == x[k]);
        } else if k > x.len() {
            assert(z[k] == y[k - x.len() - 1]);
        }
    }
    assert(z[0] == x[0]);
    assert(z[z.len() - 1] == y[y.len() - 1]);
}

/// The line of an event that holds its timing is one line, and not empty.
proof fn lemma_timing_chars(e: SubRipEventView)
    requires
        canonical_event(e),
    ensures
        timing_text(e).len() > 0,
        forall|k: int|
            0 <= k < timing_text(e).len() ==> #[trigger] timing_text(e)[k] != '\n'
                && timing_text(e)[k] != '\r',
{
    lemma_event_layout(e);
    lemma_timestamp_chars(e.start@);
    lemma_timestamp_chars(e.end@);
    reveal_strlit(" ");
    let ts1 = srt_timestamp(e.start@);
    let ts2 = srt_timestamp(e.end@);
    let arrow = seq![' ', '-', '-', '>', ' '];
    let co = coordinates_text(e.coordinates);
    let x = ts1 + arrow + ts2 + co;
    assert forall|k: int| 0 <= k < x.len() implies #[trigger] x[k] != '\n' && x[k] != '\r' by {
        if k < ts1.len() {
            assert(x[k] == ts1[k]);
        } else if k < ts1.len() + 5 {
            assert(x[k] == arrow[k - ts1.len()]);
        } else if k < ts1.len() + 5 + ts2.len() {
            assert(x[k] == ts2[k - ts1.len() - 5]);
        } else {
            let j = k - ts1.len() - 5 - ts2.len();
            assert(x[k] == co[j]);
            match e.coordinates {
                Some(c) => {
                    assert(co == " "@ + c);
                    if j > 0 {
                        assert(co[j] == c[j - 1]);
                    }
                },
                None => {},
            }
        }
    }
}

/// The two lines above the text of an event: its number and its timing.
spec fn heading_text(e: SubRipEventView) -> Seq<char> {
    nat_digits(e.line_number) + seq!['\n'] + timing_text(e)
}

/// The heading of a canonical event is a text of whole lines that starts
/// with a digit, and the event as it is written is its heading, a line feed
/// and its text.
proof fn lemma_heading(e: SubRipEventView)
    requires
        canonical_event(e),
    ensures
        whole_lines(heading_text(e)),
        heading_text(e).len() > 0,
        event_text(e) == heading_text(e) + seq!['\n'] + e.text,
{
    lemma_event_layout(e);
    lemma_timing_chars(e);
    lemma_nat_digits_are_digits(e.line_number);
    lemma_join_lines(nat_digits(e.line_number), timing_text(e));
}

/// What a canonical event is written as is a text of whole lines, but for
/// the line feed at its end where the text of the event is empty.
proof fn lemma_written_lines(e: SubRipEventView)
    requires
        canonical_event(e),
    ensures
        event_text(e).len() >= 2,
        e.text.len() > 0 ==> whole_lines(event_text(e)),
        e.text.len() == 0 ==> whole_lines(event_text(e).subrange(0, event_text(e).len() - 1))
            && event_text(e)[event_text(e).len() - 1] == '\n',
{
    lemma_heading(e);
    let heading = heading_text(e);
    let nl = seq!['\n'];
    if e.text.len() > 0 {
        lemma_join_lines(heading, e.text);
    } else {
        assert(event_text(e) =~= heading + nl);
        assert(event_text(e).subrange(0, event_text(e).len() - 1) =~= heading);
    }
}

/// The lines of a canonical event, which stands in `t` at `p` as it is
/// written and with a line feed behind, wait to be read: reading goes on at
/// `stop`, where the first empty line after the event starts, or where the
/// text ends.
proof fn lemma_event_waits(d: SubRipDraft, t: Seq<char>, p: int, e: SubRipEventView, stop: int)
    requires
        canonical_event(e),
        0 <= p,
        p + event_text(e).len() < t.len(),
        t.subrange(p, p + event_text(e).len()) == event_text(e),
        t[p + event_text(e).len()] == '\n',
        stop == if e.text.len() > 0 {
            p + event_text(e).len() + 1
        } else {
            p + event_text(e).len()
        },
    ensures
        fed_text(d, t, p) == fed_text(
            SubRipDraft { queue: d.queue + t.subrange(p, stop), ..d },
            t,
            stop,
        ),
{
    let w = event_text(e);
    let end = p + w.len();
    lemma_written_lines(e);
    assert forall|j: int| 0 <= j < w.len() implies t[p + j] == #[trigger] w[j] by {
        assert(t.subrange(p, end)[j] == t[p + j]);
    }
    let lines = t.subrange(p, stop - 1);
    assert(whole_lines(lines)) by {
        if e.text.len() > 0 {
            assert(lines == w);
        } else {
            assert(lines =~= w.subrange(0, w.len() - 1));
        }
    }
    assert(lines.len() > 0);
    assert forall|j: int| p <= j < stop - 1 implies t[j] == #[trigger] lines[j - p] by {}
    assert(t[p] != '\n') by {
        assert(t[p] == lines[0]);
    }
    assert forall|j: int| p <= j < stop implies #[trigger] t[j] != '\r' by {
        if j < stop - 1 {
            assert(t[j] == lines[j - p]);
        }
    }
    assert forall|j: int| p <= j < stop - 1 implies !(#[trigger] t[j] == '\n' && t[j + 1]
        == '\n') by {
        assert(t[j] == lines[j - p]);
        if j + 1 < stop - 1 {
            assert(t[j + 1] == lines[j + 1 - p]);
        } else {
            assert(t[j] == lines[lines.len() - 1]);
        }
    }
    lemma_feed_waiting(d, t, p, stop);
}

/// Waiting lines that hold a canonical event as it is written, after nothing
/// but line feeds and with one or two line feeds behind, are read as that
/// event, and no line waits on.
proof fn lemma_attempt_reads_event_text(d: SubRipDraft, q: int, e: SubRipEventView)
    requires
        canonical_event(e),
        0 <= q,
        q + event_text(e).len() < d.queue.len() <= q + event_text(e).len() + 2,
        forall|k: int| 0 <= k < q ==> #[trigger] d.queue[k] == '\n',
        d.queue.subrange(q, q + event_text(e).len()) == event_text(e),
        forall|k: int|
            q + event_text(e).len() <= k < d.queue.len() ==> #[trigger] d.queue[k] == '\n',
    ensures
        read_waiting(d) == (SubRipDraft { queue: Seq::empty(), events: d.events.push(e) }),
        read_out(d) == d.events.push(e),
{
    reveal(read_waiting);
    reveal(read_out);
    lemma_attempt_reads_event(d, q, e);
}

/// Waiting lines that are all empty are read as nothing, and dropped.
proof fn lemma_attempt_drops_empty_lines(d: SubRipDraft)
    requires
        forall|k: int| 0 <= k < d.queue.len() ==> #[trigger] d.queue[k] == '\n',
    ensures
        read_waiting(d) == (SubRipDraft { queue: Seq::empty(), ..d }),
        read_out(d) == d.events,
{
    reveal(read_waiting);
    reveal(read_out);
    lemma_attempt_reads_nothing(d);
}

/// The events `events[k..]` as they are written, a line feed after each and
/// an empty line between two.
spec fn events_text_from(events: Seq<SubRipEventView>, k: int) -> Seq<char>
    decreases events.len() - k,
{
    if k < 0 || k >= events.len() {
        Seq::<char>::empty()
    } else if k + 1 == events.len() {
        event_text(events[k]) + seq!['\n']
    } else {
        event_text(events[k]) + seq!['\n'] + seq!['\n'] + events_text_from(events, k + 1)
    }
}

/// What is written of the first `m` events, and then of the others, is what
/// is written of all.
proof fn lemma_text_splits(events: Seq<SubRipEventView>, m: int)
    requires
        0 < m <= events.len(),
    ensures
        events_text_from(events, 0) == if m == events.len() {
            events_text(events, m)
        } else {
            events_text(events, m) + seq!['\n'] + events_text_from(events, m)
        },
    decreases m,
{
    reveal_strlit("\n");
    assert("\n"@ =~= seq!['\n']);
    let nl = seq!['\n'];
    if m == 1 {
        if events.len() > 1 {
            assert(events_text_from(events, 0) =~= event_text(events[0]) + nl + nl
                + events_text_from(events, 1));
        }
    } else {
        lemma_text_splits(events, m - 1);
        let before = events_text(events, m - 1);
        let e = event_text(events[m - 1]);
        assert(events_text(events, m) == before + nl + e + nl);
        if m == events.len() {
            assert(before + nl + (e + nl) =~= before + nl + e + nl);
        } else {
            let after = events_text_from(events, m);
            assert(before + nl + (e + nl + nl + after) =~= before + nl + e + nl + nl + after);
        }
    }
}

/// Whether the events `events[k..]` stand in `t` from `p` to its end as
/// they are written.
spec fn holds_events(t: Seq<char>, p: int, events: Seq<SubRipEventView>, k: int) -> bool
    decreases events.len() - k,
{
    if k < 0 || k >= events.len() {
        false
    } else {
        let end = p + event_text(events[k]).len();
        &&& 0 <= p
        &&& end < t.len()
        &&& t.subrange(p, end) == event_text(events[k])
        &&& t[end] == '\n'
        &&& if k + 1 == events.len() {
            t.len() == end + 1
        } else {
            end + 1 < t.len() && t[end + 1] == '\n' && holds_events(t, end + 2, events, k + 1)
        }
    }
}

/// A text that ends with events as they are written holds them.
proof fn lemma_holds_event_text(t: Seq<char>, p: int, events: Seq<SubRipEventView>, k: int)
    requires
        0 <= p <= t.len(),
        0 <= k < events.len(),
        t.subrange(p, t.len() as int) == events_text_from(events, k),
    ensures
        holds_events(t, p, events, k),
    decreases events.len() - k,
{
    let e = event_text(events[k]);
    let nl = seq!['\n'];
    let end = p + e.len();
    let tail = t.subrange(p, t.len() as int);
    if k + 1 == events.len() {
        lemma_parts(e, nl);
        lemma_part_of_part(t, p, t.len() as int, 0, e.len() as int);
        assert(t[end] == tail[e.len() as int]);
    } else {
        let rest = events_text_from(events, k + 1);
        lemma_parts(e + nl + nl, rest);
        lemma_parts(e + nl, nl);
        lemma_parts(e, nl);
        lemma_part_of_part(t, p, t.len() as int, 0, e.len() as int);
        assert(tail.subrange(0, e.len() as int) =~= e);
        assert(t[end] == tail[e.len() as int]);
        assert(t[end + 1] == tail[end + 1 - p]);
        lemma_part_of_part(t, p, t.len() as int, end + 2 - p, tail.len() as int);
        assert(t.subrange(end + 2, t.len() as int) == rest);
        lemma_holds_event_text(t, end + 2, events, k + 1);
    }
}

/// An empty line has the waiting lines read.
proof fn lemma_feed_empty_line(d: SubRipDraft, t: Seq<char>, j: int)
    requires
        0 <= j < t.len(),
        t[j] == '\n',
    ensures
        fed_text(d, t, j) == fed_text(
            read_waiting(SubRipDraft { queue: d.queue + seq!['\n'], ..d }),
            t,
            j + 1,
        ),
{
    reveal_strlit("\n");
    reveal(fed_line);
    reveal(read_waiting);
    assert("\n"@ =~= seq!['\n']);
    assert(find_char(t, j, '\n') == j);
    assert(line_bounds(t, j) == (j, j + 1));
    let line = t.subrange(j, j);
    assert(line.len() == 0);
    assert(d.queue + line + "\n"@ =~= d.queue + seq!['\n']);
}

/// The events that have been read, with the events that a text holds from
/// `p` on, are what is read when the text is read from `p` to its end.
proof fn lemma_read_from(
    d: SubRipDraft,
    t: Seq<char>,
    p: int,
    events: Seq<SubRipEventView>,
    k: int,
)
    requires
        0 <= k < events.len(),
        holds_events(t, p, events, k),
        forall|j: int| 0 <= j < events.len() ==> canonical_event(#[trigger] events[j]),
        forall|j: int| 0 <= j < d.queue.len() ==> #[trigger] d.queue[j] == '\n',
        d.events == events.take(k),
    ensures
        read_out(fed_text(d, t, p)) == events,
    decreases events.len() - k,
{
    let e = events[k];
    let w = event_text(e);
    let nl = seq!['\n'];
    let end = p + w.len();
    let q = d.queue.len() as int;
    let stop = if e.text.len() > 0 {
        end + 1
    } else {
        end
    };
    assert(events.take(k).push(e) =~= events.take(k + 1));
    lemma_written_lines(e);
    lemma_event_waits(d, t, p, e, stop);
    let waiting = SubRipDraft { queue: d.queue + t.subrange(p, stop), ..d };
    let read = SubRipDraft { queue: Seq::empty(), events: events.take(k + 1) };
    if e.text.len() > 0 && k + 1 == events.len() {
        // the end of the text has the waiting lines read
        assert(fed_text(waiting, t, stop) == waiting);
        assert(waiting.queue.subrange(q, q + w.len()) =~= w);
        lemma_attempt_reads_event_text(waiting, q, e);
        assert(read.events =~= events);
    } else {
        // the empty line after the event has the waiting lines read
        lemma_feed_empty_line(waiting, t, stop);
        let full = SubRipDraft { queue: waiting.queue + nl, ..waiting };
        assert(full.queue.subrange(q, q + w.len()) =~= w);
        lemma_attempt_reads_event_text(full, q, e);
        if e.text.len() > 0 {
            lemma_read_from(read, t, stop + 1, events, k + 1);
        } else if k + 1 == events.len() {
            assert(fed_text(read, t, stop + 1) == read);
            lemma_attempt_drops_empty_lines(read);
            assert(read.events =~= events);
        } else {
            lemma_feed_empty_line(read, t, stop + 1);
            let blank = SubRipDraft { queue: read.queue + nl, ..read };
            lemma_attempt_drops_empty_lines(blank);
            lemma_read_from(read, t, stop + 2, events, k + 1);
        }
    }
}

/// Canonical events that are written and read again are the same events.
pub proof fn lemma_events_round_trip(events: Seq<SubRipEventView>)
    requires
        forall|j: int| 0 <= j < events.len() ==> canonical_event(#[trigger] events[j]),
    ensures
        parsed(subtitle_text(events)) == events,
{
    let t = subtitle_text(events);
    lemma_fed_lines(start_draft(), t, 0);
    assert(parsed(t) == read_out(fed_text(start_draft(), t, 0))) by {
        reveal(read_out);
        reveal(read_waiting);
    }
    if events.len() == 0 {
        lemma_attempt_drops_empty_lines(start_draft());
        assert(start_draft().events =~= events);
    } else {
        lemma_text_splits(events, events.len() as int);
        assert(t.subrange(0, t.len() as int) =~= t);
        assert(forall|j: int| 0 <= j < start_draft().queue.len() ==> start_draft().queue[j] == '\n');
        lemma_holds_event_text(t, 0, events, 0);
        assert(events.take(0) =~= Seq::<SubRipEventView>::empty());
        lemma_read_from(start_draft(), t, 0, events, 0);
    }
}

/// A SubRip text in the spacing in which this library writes it, which is
/// the text written for canonical events, is written back character for
/// character once it has been read.
pub proof fn lemma_text_round_trip(text: Seq<char>, events: Seq<SubRipEventView>)
    requires
        forall|j: int| 0 <= j < events.len() ==> canonical_event(#[trigger] events[j]),
        text == subtitle_text(events),
    ensures
        subtitle_text(parsed(text)) == text,
{
    lemma_events_round_trip(events);
}

/// The number of an event that is read is the number that stands at its
/// start in the text, whatever the numbers of the events around it are.
pub proof fn lemma_line_number_is_read(s: Seq<char>, i: int)
    ensures
        new_line_at(s, i) matches Some((e, _)) ==> uint_at(s, skip_multispace(s, i)) matches Some(
            (n, _),
        ) && e.line_number == n,
{
}

/// Events keep their numbers when they are written and read again, in
/// whatever order the numbers are; only renumbering replaces them by 1, 2, 3
/// and so on.
pub proof fn lemma_line_numbers_kept(events: Seq<SubRipEventView>)
    requires
        forall|j: int| 0 <= j < events.len() ==> canonical_event(#[trigger] events[j]),
    ensures
        parsed(subtitle_text(events)).len() == events.len(),
        forall|j: int|
            0 <= j < events.len() ==> (#[trigger] parsed(subtitle_text(events))[j]).line_number
                == events[j].line_number,
        forall|j: int|
            0 <= j < events.len() ==> (#[trigger] renumbered(
                parsed(subtitle_text(events)),
            )[j]).line_number == j + 1,
{
    lemma_events_round_trip(events);
}

} // verus!
