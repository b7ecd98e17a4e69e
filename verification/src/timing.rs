//! Instants, durations and frame indices.
//!
//! A [`Moment`] is a signed number of milliseconds since the start of the
//! media, a [`TimeDelta`] a signed number of milliseconds between two moments,
//! and a [`Frame`] a signed index of a video frame.

use crate::text::{int_text, push_int, to_string};
use vstd::arithmetic::div_mod::{
    lemma_div_pos_is_pos, lemma_fundamental_div_mod, lemma_fundamental_div_mod_converse,
    lemma_mod_pos_bound,
};
use vstd::prelude::*;

verus! {

/// Moment in time, in milliseconds relative to the start of the media file.
#[derive(Clone, Copy, Debug, PartialEq, Eq, Structural, PartialOrd, Ord, Hash)]
pub struct Moment(pub i64);

/// Difference between two moments in milliseconds.
#[derive(Clone, Copy, Debug, PartialEq, Eq, Structural, PartialOrd, Ord)]
pub struct TimeDelta(pub i64);

/// Frame index of a video.
#[derive(Clone, Copy, Debug, PartialEq, Eq, Structural, PartialOrd, Ord, Hash)]
pub struct Frame(pub i64);

/// Number of frames shown per second, held in millionths of a frame so that
/// rates such as 23.976 can be written exactly. A rate is valid when it is
/// not zero.
#[derive(Clone, Copy, Debug, PartialEq, Eq, Structural)]
pub struct FrameRate {
    /// Frames per million seconds.
    pub micro_fps: u32,
}

impl View for Moment {
    type V = int;

    open spec fn view(&self) -> int {
        self.0 as int
    }
}

impl View for TimeDelta {
    type V = int;

    open spec fn view(&self) -> int {
        self.0 as int
    }
}

impl View for Frame {
    type V = int;

    open spec fn view(&self) -> int {
        self.0 as int
    }
}

/// Whether `n` can be held in an `i64`.
pub open spec fn fits_i64(n: int) -> bool {
    i64::MIN <= n <= i64::MAX
}

/// `a / b` rounded toward zero, for a `b` other than zero.
pub open spec fn trunc_div(a: int, b: int) -> int {
    if a >= 0 {
        a / b
    } else {
        -((-a) / b)
    }
}

/// What is left of `a` after `trunc_div(a, b)`: it has the sign of `a`.
pub open spec fn trunc_rem(a: int, b: int) -> int {
    if a >= 0 {
        a % b
    } else {
        -((-a) % b)
    }
}

/// `n / d` rounded to the nearest integer, halves away from zero, for a
/// positive `d`.
pub open spec fn round_div(n: int, d: int) -> int {
    if n >= 0 {
        (2 * n + d) / (2 * d)
    } else {
        -((-2 * n + d) / (2 * d))
    }
}

/// `n` brought into the range of an `i64`.
pub open spec fn clamp_i64(n: int) -> int {
    if n < i64::MIN {
        i64::MIN as int
    } else if n > i64::MAX {
        i64::MAX as int
    } else {
        n
    }
}

/// Milliseconds written by the fields of a timestamp; `sub` is the
/// sub-second field already in milliseconds.
pub open spec fn timestamp_millis(h: int, m: int, s: int, sub: int) -> int {
    h * 3600000 + m * 60000 + s * 1000 + sub
}

/// The hours field of a timestamp for `ms` milliseconds.
pub open spec fn hours_of(ms: int) -> int {
    trunc_div(ms, 3600000)
}

/// The minutes field of a timestamp for `ms` milliseconds.
pub open spec fn minutes_of(ms: int) -> int {
    trunc_rem(trunc_div(ms, 60000), 60)
}

/// The seconds field of a timestamp for `ms` milliseconds.
pub open spec fn seconds_of(ms: int) -> int {
    trunc_rem(trunc_div(ms, 1000), 60)
}

/// The milliseconds field of a timestamp for `ms` milliseconds.
pub open spec fn millis_of(ms: int) -> int {
    trunc_rem(ms, 1000)
}

/// The centiseconds field of a timestamp for `ms` milliseconds.
pub open spec fn centis_of(ms: int) -> int {
    trunc_rem(trunc_div(ms, 10), 100)
}

/// `HH:MM:SS` followed by `sep` and the sub-second field `sub` in `width`
/// digits; the hours take `hour_width` digits or more.
#[verifier::opaque]
pub open spec fn clock_text(
    ms: int,
    hour_width: int,
    sep: char,
    sub: int,
    width: int,
) -> Seq<char> {
    int_text(hours_of(ms), hour_width) + seq![':'] + int_text(minutes_of(ms), 2) + seq![':']
        + int_text(seconds_of(ms), 2) + seq![sep] + int_text(sub, width)
}

/// WebVTT timestamp: `HH:MM:SS.mmm`.
pub open spec fn vtt_timestamp(ms: int) -> Seq<char> {
    clock_text(ms, 2, '.', millis_of(ms), 3)
}

/// SubRip timestamp: `HH:MM:SS,mmm`.
pub open spec fn srt_timestamp(ms: int) -> Seq<char> {
    clock_text(ms, 2, ',', millis_of(ms), 3)
}

/// SubStation timestamp: `H:MM:SS.cc`.
pub open spec fn substation_timestamp(ms: int) -> Seq<char> {
    clock_text(ms, 1, '.', centis_of(ms), 2)
}

/// The frame shown at `ms` milliseconds when `micro_fps` millionths of a
/// frame pass per second: `round(ms * rate / 1000)`, kept within `i64`.
pub open spec fn frame_at(ms: int, micro_fps: int) -> int {
    clamp_i64(round_div(ms * micro_fps, 1000000000))
}

/// The time in milliseconds at which frame `frame` is shown:
/// `round(frame * 1000 / rate)`, kept within `i64`.
pub open spec fn millis_at(frame: int, micro_fps: int) -> int {
    clamp_i64(round_div(frame * 1000000000, micro_fps))
}

/// The time `ms`, taken at the rate `from`, as it falls at the rate `to`:
/// `round(ms * from / to)`, kept within `i64`.
pub open spec fn rescaled_millis(ms: int, from: int, to: int) -> int {
    clamp_i64(round_div(ms * from, to))
}

/// Whether the time at which frame `frame` is shown can be held without
/// being cut short.
pub open spec fn frame_in_reach(frame: int, micro_fps: int) -> bool {
    fits_i64(round_div(frame * 1000000000, micro_fps))
}

/// Rounding a quotient that is not negative: the quotient lies within half
/// a divisor of the rounded value.
proof fn lemma_round_div_bounds(n: int, d: int)
    requires
        0 <= n,
        0 < d,
    ensures
        0 <= round_div(n, d),
        -d <= 2 * (n - d * round_div(n, d)) < d,
{
    let q = (2 * n + d) / (2 * d);
    lemma_fundamental_div_mod(2 * n + d, 2 * d);
    lemma_mod_pos_bound(2 * n + d, 2 * d);
    lemma_div_pos_is_pos(2 * n + d, 2 * d);
    assert(2 * n + d == 2 * d * q + (2 * n + d) % (2 * d));
    assert(2 * d * q == 2 * (d * q)) by (nonlinear_arith);
}

/// A value that lies within half a divisor of a multiple of the divisor is
/// rounded to that multiple.
proof fn lemma_round_div_is(n: int, d: int, q: int)
    requires
        0 <= n,
        0 < d,
        -d <= 2 * (d * q - n) < d || -d < 2 * (d * q - n) <= d,
        -d < 2 * (d * q - n),
    ensures
        round_div(n, d) == q,
{
    let x = 2 * n + d;
    let r = x - 2 * d * q;
    assert(2 * d * q == 2 * (d * q)) by (nonlinear_arith);
    assert(0 <= r < 2 * d);
    lemma_fundamental_div_mod_converse(x, 2 * d, q, r);
}

/// The frame of the time of a frame that is not negative is that frame, at
/// any rate below a thousand frames per second.
proof fn lemma_frame_round_trip_forward(frame: int, micro_fps: int)
    requires
        0 <= frame,
        0 < micro_fps < 1000000000,
    ensures
        round_div(round_div(frame * 1000000000, micro_fps) * micro_fps, 1000000000) == frame,
        0 <= round_div(frame * 1000000000, micro_fps),
        frame > 0 ==> round_div(frame * 1000000000, micro_fps) > 0,
{
    let g = 1000000000int;
    let n = frame * g;
    let q = round_div(n, micro_fps);
    lemma_round_div_bounds(n, micro_fps);
    assert(0 <= q * micro_fps) by (nonlinear_arith)
        requires
            0 <= q,
            0 < micro_fps,
    ;
    assert(q * micro_fps == micro_fps * q) by (nonlinear_arith);
    assert(g * frame == frame * g) by (nonlinear_arith);
    lemma_round_div_is(q * micro_fps, g, frame);
    if frame > 0 && q <= 0 {
        assert(micro_fps * q == 0) by (nonlinear_arith)
            requires
                q == 0,
        ;
        assert(n >= g) by (nonlinear_arith)
            requires
                n == frame * g,
                frame >= 1,
                g == 1000000000,
        ;
    }
}

/// The time of a frame falls on that very frame, at any rate below a
/// thousand frames per second and for any frame whose time can be held: a
/// frame index is not lost when it is turned into a time and back.
pub proof fn lemma_frame_round_trip(frame: int, micro_fps: int)
    requires
        fits_i64(frame),
        0 < micro_fps < 1000000000,
        frame_in_reach(frame, micro_fps),
    ensures
        frame_at(millis_at(frame, micro_fps), micro_fps) == frame,
{
    let g = 1000000000int;
    if frame >= 0 {
        lemma_frame_round_trip_forward(frame, micro_fps);
        assert(0 <= frame * g) by (nonlinear_arith)
            requires
                0 <= frame,
                g == 1000000000,
        ;
    } else {
        lemma_frame_round_trip_forward(-frame, micro_fps);
        let q = round_div((-frame) * g, micro_fps);
        assert(frame * g < 0) by (nonlinear_arith)
            requires
                frame < 0,
                g == 1000000000,
        ;
        assert(-2 * (frame * g) == 2 * ((-frame) * g)) by (nonlinear_arith);
        assert(round_div(frame * g, micro_fps) == -q);
        assert((-q) * micro_fps < 0) by (nonlinear_arith)
            requires
                q > 0,
                micro_fps > 0,
        ;
        assert(-2 * ((-q) * micro_fps) == 2 * (q * micro_fps)) by (nonlinear_arith);
    }
}

/// `n / d` rounded to the nearest integer and kept within `i64`.
pub fn round_div_clamped(n: i128, d: i128) -> (r: i64)
    requires
        0 < d <= 0x1_0000_0000_0000,
        -0x1000_0000_0000_0000_0000_0000_0000 <= n <= 0x1000_0000_0000_0000_0000_0000_0000,
    ensures
        r == clamp_i64(round_div(n as int, d as int)),
{
    let q: i128 = if n >= 0 {
        (2 * n + d) / (2 * d)
    } else {
        let m: i128 = -n;
        -((2 * m + d) / (2 * d))
    };
    if q < i64::MIN as i128 {
        i64::MIN
    } else if q > i64::MAX as i128 {
        i64::MAX
    } else {
        q as i64
    }
}

impl FrameRate {
    /// Whether the rate can be used to convert between frames and moments.
    pub open spec fn valid(self) -> bool {
        self.micro_fps > 0
    }

    /// The rate of `fps` whole frames per second, if that is a valid rate
    /// that can be held.
    pub fn from_fps(fps: u32) -> (r: Option<FrameRate>)
        ensures
            r == if 0 < fps <= 4294 {
                Some(FrameRate { micro_fps: (fps * 1000000) as u32 })
            } else {
                None::<FrameRate>
            },
    {
        if 0 < fps && fps <= 4294 {
            Some(FrameRate { micro_fps: fps * 1000000 })
        } else {
            None
        }
    }

    /// The rate of `micro_fps` millionths of a frame per second, if it is
    /// not zero.
    pub fn from_micro_fps(micro_fps: u32) -> (r: Option<FrameRate>)
        ensures
            r == if micro_fps > 0 {
                Some(FrameRate { micro_fps })
            } else {
                None::<FrameRate>
            },
    {
        if micro_fps > 0 {
            Some(FrameRate { micro_fps })
        } else {
            None
        }
    }

    /// Twenty-four frames per second, the rate taken where none is given.
    pub fn film() -> (r: FrameRate)
        ensures
            r.micro_fps == 24000000,
            r.valid(),
    {
        FrameRate { micro_fps: 24000000 }
    }
}

/// The frame that is shown at `moment`.
pub fn moment_to_frame(moment: Moment, framerate: FrameRate) -> (frame: Frame)
    ensures
        frame@ == frame_at(moment@, framerate.micro_fps as int),
{
    assert(-0x8000_0000_0000_0000 * 0x1_0000_0000 <= moment.0 * framerate.micro_fps
        <= 0x8000_0000_0000_0000 * 0x1_0000_0000) by (nonlinear_arith)
        requires
            -0x8000_0000_0000_0000 <= moment.0 <= 0x8000_0000_0000_0000,
            0 <= framerate.micro_fps <= 0x1_0000_0000,
    ;
    Frame(round_div_clamped((moment.0 as i128) * (framerate.micro_fps as i128), 1000000000))
}

/// The moment at which `frame` is shown.
pub fn frame_to_moment(frame: Frame, framerate: FrameRate) -> (moment: Moment)
    requires
        framerate.valid(),
    ensures
        moment@ == millis_at(frame@, framerate.micro_fps as int),
{
    Moment(round_div_clamped((frame.0 as i128) * 1000000000, framerate.micro_fps as i128))
}

/// The moment that `moment`, computed at the rate `from`, becomes at the
/// rate `to`.
pub fn rescale_moment(moment: Moment, from: FrameRate, to: FrameRate) -> (r: Moment)
    requires
        to.valid(),
    ensures
        r@ == rescaled_millis(moment@, from.micro_fps as int, to.micro_fps as int),
{
    assert(-0x8000_0000_0000_0000 * 0x1_0000_0000 <= moment.0 * from.micro_fps
        <= 0x8000_0000_0000_0000 * 0x1_0000_0000) by (nonlinear_arith)
        requires
            -0x8000_0000_0000_0000 <= moment.0 <= 0x8000_0000_0000_0000,
            0 <= from.micro_fps <= 0x1_0000_0000,
    ;
    Moment(round_div_clamped((moment.0 as i128) * (from.micro_fps as i128), to.micro_fps as i128))
}

impl Moment {
    /// The moment that a timestamp's fields write, with the sub-second field
    /// given in milliseconds. No field is checked against a range.
    pub fn from_timestamp(h: i64, m: i64, s: i64, ms: i64) -> (r: Moment)
        requires
            fits_i64(timestamp_millis(h as int, m as int, s as int, ms as int)),
        ensures
            r@ == timestamp_millis(h as int, m as int, s as int, ms as int),
    {
        let total: i128 = (h as i128) * 3600000 + (m as i128) * 60000 + (s as i128) * 1000 + (
        ms as i128);
        Moment(total as i64)
    }

    /// As [`Moment::from_timestamp`], with the sub-second field counted in
    /// units of `unit` milliseconds; `None` where the moment cannot be held.
    pub fn checked_from_timestamp(h: i64, m: i64, s: i64, sub: i64, unit: i64) -> (r: Option<
        Moment,
    >)
        requires
            1 <= unit <= 1000,
        ensures
            r == if fits_i64(timestamp_millis(h as int, m as int, s as int, sub * unit)) {
                Some(Moment(timestamp_millis(h as int, m as int, s as int, sub * unit) as i64))
            } else {
                None::<Moment>
            },
    {
        assert(-0x8000_0000_0000_0000 * 1000 <= sub * unit <= 0x8000_0000_0000_0000 * 1000)
            by (nonlinear_arith)
            requires
                -0x8000_0000_0000_0000 <= sub <= 0x8000_0000_0000_0000,
                1 <= unit <= 1000,
        ;
        let total: i128 = (h as i128) * 3600000 + (m as i128) * 60000 + (s as i128) * 1000 + (
        sub as i128) * (unit as i128);
        if total < i64::MIN as i128 || total > i64::MAX as i128 {
            None
        } else {
            Some(Moment(total as i64))
        }
    }

    /// When expressed as a timestamp, the number of hours.
    pub fn hours(&self) -> (r: i64)
        ensures
            r == hours_of(self@),
    {
        self.0 / 1000 / 60 / 60
    }

    /// When expressed as a timestamp, the number of minutes.
    pub fn minutes(&self) -> (r: i64)
        ensures
            r == minutes_of(self@),
    {
        (self.0 / 1000 / 60) % 60
    }

    /// When expressed as a timestamp, the number of seconds.
    pub fn seconds(&self) -> (r: i64)
        ensures
            r == seconds_of(self@),
    {
        (self.0 / 1000) % 60
    }

    /// Number of milliseconds.
    pub fn ms(&self) -> (r: i64)
        ensures
            r == millis_of(self@),
    {
        self.0 % 1000
    }

    /// Number of centiseconds.
    pub fn cs(&self) -> (r: i64)
        ensures
            r == centis_of(self@),
    {
        self.0 / 10 % 100
    }

    /// Appends `HH:MM:SS`, `sep` and the sub-second field to `out`.
    pub fn push_clock(
        &self,
        out: &mut Vec<char>,
        hour_width: usize,
        sep: char,
        sub: i64,
        width: usize,
    )
        requires
            hour_width <= 2,
            width <= 3,
        ensures
            final(out)@ == old(out)@ + clock_text(
                self@,
                hour_width as int,
                sep,
                sub as int,
                width as int,
            ),
    {
        proof {
            reveal(clock_text);
        }
        push_int(out, self.hours(), hour_width);
        out.push(':');
        push_int(out, self.minutes(), 2);
        out.push(':');
        push_int(out, self.seconds(), 2);
        out.push(sep);
        push_int(out, sub, width);
        assert(out@ =~= old(out)@ + clock_text(
            self@,
            hour_width as int,
            sep,
            sub as int,
            width as int,
        ));
    }

    /// Convert to .vtt timestamp format (`HH:MM:SS.mmm`).
    pub fn as_vtt_timestamp(&self) -> (r: String)
        ensures
            r@ == vtt_timestamp(self@),
    {
        let mut out: Vec<char> = Vec::new();
        self.push_clock(&mut out, 2, '.', self.ms(), 3);
        to_string(&out, 0, out.len())
    }

    /// Convert to .srt timestamp format (`HH:MM:SS,mmm`).
    pub fn as_srt_timestamp(&self) -> (r: String)
        ensures
            r@ == srt_timestamp(self@),
    {
        let mut out: Vec<char> = Vec::new();
        self.push_clock(&mut out, 2, ',', self.ms(), 3);
        to_string(&out, 0, out.len())
    }

    /// Convert to .ass timestamp format (`H:MM:SS.cc`).
    pub fn as_substation_timestamp(&self) -> (r: String)
        ensures
            r@ == substation_timestamp(self@),
    {
        let mut out: Vec<char> = Vec::new();
        self.push_clock(&mut out, 1, '.', self.cs(), 2);
        to_string(&out, 0, out.len())
    }
}

impl Frame {
    /// The frame index in decimal.
    pub fn to_string(&self) -> (r: String)
        ensures
            r@ == int_text(self@, 0),
    {
        let mut out: Vec<char> = Vec::new();
        push_int(&mut out, self.0, 0);
        to_string(&out, 0, out.len())
    }
}

impl vstd::std_specs::ops::SubSpecImpl<Moment> for Moment {
    open spec fn obeys_sub_spec() -> bool {
        true
    }

    open spec fn sub_req(self, rhs: Moment) -> bool {
        fits_i64(self.0 - rhs.0)
    }

    open spec fn sub_spec(self, rhs: Moment) -> TimeDelta {
        TimeDelta((self.0 - rhs.0) as i64)
    }
}

/// The time that passes from `rhs` to `self`.
impl core::ops::Sub<Moment> for Moment {
    type Output = TimeDelta;

    fn sub(self, rhs: Moment) -> TimeDelta {
        TimeDelta(self.0 - rhs.0)
    }
}

impl vstd::std_specs::ops::AddSpecImpl<TimeDelta> for Moment {
    open spec fn obeys_add_spec() -> bool {
        true
    }

    open spec fn add_req(self, rhs: TimeDelta) -> bool {
        fits_i64(self.0 + rhs.0)
    }

    open spec fn add_spec(self, rhs: TimeDelta) -> Moment {
        Moment((self.0 + rhs.0) as i64)
    }
}

/// The moment `rhs` after `self`.
impl core::ops::Add<TimeDelta> for Moment {
    type Output = Moment;

    fn add(self, rhs: TimeDelta) -> Moment {
        Moment(self.0 + rhs.0)
    }
}

impl vstd::std_specs::ops::SubSpecImpl<TimeDelta> for Moment {
    open spec fn obeys_sub_spec() -> bool {
        true
    }

    open spec fn sub_req(self, rhs: TimeDelta) -> bool {
        fits_i64(self.0 - rhs.0)
    }

    open spec fn sub_spec(self, rhs: TimeDelta) -> Moment {
        Moment((self.0 - rhs.0) as i64)
    }
}

/// The moment `rhs` before `self`.
impl core::ops::Sub<TimeDelta> for Moment {
    type Output = Moment;

    fn sub(self, rhs: TimeDelta) -> Moment {
        Moment(self.0 - rhs.0)
    }
}

impl vstd::std_specs::ops::MulSpecImpl<i64> for Moment {
    open spec fn obeys_mul_spec() -> bool {
        true
    }

    open spec fn mul_req(self, rhs: i64) -> bool {
        fits_i64(self.0 * rhs)
    }

    open spec fn mul_spec(self, rhs: i64) -> Moment {
        Moment((self.0 * rhs) as i64)
    }
}

/// The moment `rhs` times as far from the start.
impl core::ops::Mul<i64> for Moment {
    type Output = Moment;

    fn mul(self, rhs: i64) -> Moment {
        Moment(self.0 * rhs)
    }
}

impl vstd::std_specs::ops::AddSpecImpl<Moment> for TimeDelta {
    open spec fn obeys_add_spec() -> bool {
        true
    }

    open spec fn add_req(self, rhs: Moment) -> bool {
        fits_i64(self.0 + rhs.0)
    }

    open spec fn add_spec(self, rhs: Moment) -> Moment {
        Moment((self.0 + rhs.0) as i64)
    }
}

/// The moment `self` after `rhs`.
impl core::ops::Add<Moment> for TimeDelta {
    type Output = Moment;

    fn add(self, rhs: Moment) -> Moment {
        Moment(self.0 + rhs.0)
    }
}

impl vstd::std_specs::ops::AddSpecImpl<TimeDelta> for TimeDelta {
    open spec fn obeys_add_spec() -> bool {
        true
    }

    open spec fn add_req(self, rhs: TimeDelta) -> bool {
        fits_i64(self.0 + rhs.0)
    }

    open spec fn add_spec(self, rhs: TimeDelta) -> TimeDelta {
        TimeDelta((self.0 + rhs.0) as i64)
    }
}

/// The sum of two durations.
impl core::ops::Add<TimeDelta> for TimeDelta {
    type Output = TimeDelta;

    fn add(self, rhs: TimeDelta) -> TimeDelta {
        TimeDelta(self.0 + rhs.0)
    }
}

impl vstd::std_specs::ops::SubSpecImpl<TimeDelta> for TimeDelta {
    open spec fn obeys_sub_spec() -> bool {
        true
    }

    open spec fn sub_req(self, rhs: TimeDelta) -> bool {
        fits_i64(self.0 - rhs.0)
    }

    open spec fn sub_spec(self, rhs: TimeDelta) -> TimeDelta {
        TimeDelta((self.0 - rhs.0) as i64)
    }
}

/// The difference of two durations.
impl core::ops::Sub<TimeDelta> for TimeDelta {
    type Output = TimeDelta;

    fn sub(self, rhs: TimeDelta) -> TimeDelta {
        TimeDelta(self.0 - rhs.0)
    }
}

impl vstd::std_specs::ops::MulSpecImpl<i64> for TimeDelta {
    open spec fn obeys_mul_spec() -> bool {
        true
    }

    open spec fn mul_req(self, rhs: i64) -> bool {
        fits_i64(self.0 * rhs)
    }

    open spec fn mul_spec(self, rhs: i64) -> TimeDelta {
        TimeDelta((self.0 * rhs) as i64)
    }
}

/// The duration `rhs` times as long.
impl core::ops::Mul<i64> for TimeDelta {
    type Output = TimeDelta;

    fn mul(self, rhs: i64) -> TimeDelta {
        TimeDelta(self.0 * rhs)
    }
}

impl vstd::std_specs::ops::MulSpecImpl<TimeDelta> for i64 {
    open spec fn obeys_mul_spec() -> bool {
        true
    }

    open spec fn mul_req(self, rhs: TimeDelta) -> bool {
        fits_i64(self * rhs.0)
    }

    open spec fn mul_spec(self, rhs: TimeDelta) -> TimeDelta {
        TimeDelta((self * rhs.0) as i64)
    }
}

/// The duration `self` times as long.
impl core::ops::Mul<TimeDelta> for i64 {
    type Output = TimeDelta;

    fn mul(self, rhs: TimeDelta) -> TimeDelta {
        TimeDelta(self * rhs.0)
    }
}

impl vstd::std_specs::ops::DivSpecImpl<i64> for Moment {
    open spec fn obeys_div_spec() -> bool {
        true
    }

    open spec fn div_req(self, rhs: i64) -> bool {
        rhs != 0 && !(self.0 == i64::MIN && rhs == -1)
    }

    open spec fn div_spec(self, rhs: i64) -> Moment {
        Moment(trunc_div(self.0 as int, rhs as int) as i64)
    }
}

/// The moment a `rhs`-th as far from the start, rounded toward zero.
impl core::ops::Div<i64> for Moment {
    type Output = Moment;

    fn div(self, rhs: i64) -> Moment {
        Moment(self.0 / rhs)
    }
}

impl vstd::std_specs::ops::DivSpecImpl<i64> for TimeDelta {
    open spec fn obeys_div_spec() -> bool {
        true
    }

    open spec fn div_req(self, rhs: i64) -> bool {
        rhs != 0 && !(self.0 == i64::MIN && rhs == -1)
    }

    open spec fn div_spec(self, rhs: i64) -> TimeDelta {
        TimeDelta(trunc_div(self.0 as int, rhs as int) as i64)
    }
}

/// The duration a `rhs`-th as long, rounded toward zero.
impl core::ops::Div<i64> for TimeDelta {
    type Output = TimeDelta;

    fn div(self, rhs: i64) -> TimeDelta {
        TimeDelta(self.0 / rhs)
    }
}

/// Moves the moment later by `rhs`.
impl core::ops::AddAssign<TimeDelta> for Moment {
    fn add_assign(&mut self, rhs: TimeDelta)
        requires
            fits_i64(old(self).0 + rhs.0),
        ensures
            final(self).0 == old(self).0 + rhs.0,
    {
        self.0 = self.0 + rhs.0;
    }
}

/// Moves the moment earlier by `rhs`.
impl core::ops::SubAssign<TimeDelta> for Moment {
    fn sub_assign(&mut self, rhs: TimeDelta)
        requires
            fits_i64(old(self).0 - rhs.0),
        ensures
            final(self).0 == old(self).0 - rhs.0,
    {
        self.0 = self.0 - rhs.0;
    }
}

/// Lengthens the duration by `rhs`.
impl core::ops::AddAssign<TimeDelta> for TimeDelta {
    fn add_assign(&mut self, rhs: TimeDelta)
        requires
            fits_i64(old(self).0 + rhs.0),
        ensures
            final(self).0 == old(self).0 + rhs.0,
    {
        self.0 = self.0 + rhs.0;
    }
}

/// Shortens the duration by `rhs`.
impl core::ops::SubAssign<TimeDelta> for TimeDelta {
    fn sub_assign(&mut self, rhs: TimeDelta)
        requires
            fits_i64(old(self).0 - rhs.0),
        ensures
            final(self).0 == old(self).0 - rhs.0,
    {
        self.0 = self.0 - rhs.0;
    }
}

/// Makes the duration `rhs` times as long.
impl core::ops::MulAssign<i64> for TimeDelta {
    fn mul_assign(&mut self, rhs: i64)
        requires
            fits_i64(old(self).0 * rhs),
        ensures
            final(self).0 == old(self).0 * rhs,
    {
        self.0 = self.0 * rhs;
    }
}

/// Makes the duration a `rhs`-th as long, rounded toward zero.
impl core::ops::DivAssign<i64> for TimeDelta {
    fn div_assign(&mut self, rhs: i64)
        requires
            rhs != 0 && !(old(self).0 == i64::MIN && rhs == -1),
        ensures
            final(self).0 == trunc_div(old(self).0 as int, rhs as int) as i64,
    {
        let current: i64 = self.0;
        self.0 = current / rhs;
    }
}

impl vstd::std_specs::convert::FromSpecImpl<i64> for Moment {
    open spec fn obeys_from_spec() -> bool {
        true
    }

    open spec fn from_spec(v: i64) -> Moment {
        Moment(v)
    }
}

/// The moment of `value` milliseconds.
impl From<i64> for Moment {
    fn from(value: i64) -> Moment {
        Moment(value)
    }
}

impl vstd::std_specs::convert::FromSpecImpl<Moment> for i64 {
    open spec fn obeys_from_spec() -> bool {
        true
    }

    open spec fn from_spec(v: Moment) -> i64 {
        v.0
    }
}

/// The milliseconds of a moment.
impl From<Moment> for i64 {
    fn from(value: Moment) -> i64 {
        value.0
    }
}

impl vstd::std_specs::convert::FromSpecImpl<i64> for TimeDelta {
    open spec fn obeys_from_spec() -> bool {
        true
    }

    open spec fn from_spec(v: i64) -> TimeDelta {
        TimeDelta(v)
    }
}

/// The duration of `value` milliseconds.
impl From<i64> for TimeDelta {
    fn from(value: i64) -> TimeDelta {
        TimeDelta(value)
    }
}

impl vstd::std_specs::convert::FromSpecImpl<TimeDelta> for i64 {
    open spec fn obeys_from_spec() -> bool {
        true
    }

    open spec fn from_spec(v: TimeDelta) -> i64 {
        v.0
    }
}

/// The milliseconds of a duration.
impl From<TimeDelta> for i64 {
    fn from(value: TimeDelta) -> i64 {
        value.0
    }
}

impl vstd::std_specs::convert::FromSpecImpl<i64> for Frame {
    open spec fn obeys_from_spec() -> bool {
        true
    }

    open spec fn from_spec(v: i64) -> Frame {
        Frame(v)
    }
}

/// The frame of index `value`.
impl From<i64> for Frame {
    fn from(value: i64) -> Frame {
        Frame(value)
    }
}

impl vstd::std_specs::convert::FromSpecImpl<Frame> for i64 {
    open spec fn obeys_from_spec() -> bool {
        true
    }

    open spec fn from_spec(v: Frame) -> i64 {
        v.0
    }
}

/// The index of a frame.
impl From<Frame> for i64 {
    fn from(value: Frame) -> i64 {
        value.0
    }
}

} // verus!
