//! The data of a MicroDVD file, with its events timed in frames as the file
//! has them, or in milliseconds at a given frame rate.

use crate::text::{int_text, push_int, push_str, replace, replaced, string_of, to_chars, views};
use crate::timing::{
    fits_i64, frame_at, frame_in_reach, frame_to_moment, lemma_frame_round_trip, millis_at,
    moment_to_frame, rescale_moment, rescaled_millis, Frame, FrameRate, Moment, TimeDelta,
};
use vstd::prelude::*;

verus! {

/// Timed version of MicroDVD (.sub) subtitle, using user-supplied framerate to calculate timings
///
/// When initialised without framerate, the default framerate is 24.
#[derive(Debug)]
pub struct TimedMicroDvdSubtitle {
    events: Vec<TimedMicroDvdEvent>,
    framerate: FrameRate,
}

/// Timed MicroDVD event
#[derive(Debug)]
pub struct TimedMicroDvdEvent {
    /// Start time of event
    pub start: Moment,
    /// End time of event
    pub end: Moment,
    /// Text to display during event
    pub text: String,
}

/// Unmodified MicroDVD subtitle, with events timed in terms of frames.
///
/// This is not well supported, so things like conversion are not implemented for this type.
/// If possible, use of [`TimedMicroDvdSubtitle`], which represents subtitle events using actual
/// timestamps, is better supported.
#[derive(Debug)]
pub struct MicroDvdSubtitle {
    events: Vec<MicroDvdEvent>,
}

/// Unmodified MicroDVD event, timed in terms of frames
#[derive(Debug)]
pub struct MicroDvdEvent {
    /// Frame at which event starts
    pub start: Frame,
    /// Frame at which event ends
    pub end: Frame,
    /// Text to display during event
    pub text: String,
}

/// An event timed in milliseconds, as mathematical values.
pub struct TimedMicroDvdEventView {
    pub start: Moment,
    pub end: Moment,
    pub text: Seq<char>,
}

/// An event timed in frames, as mathematical values.
pub struct MicroDvdEventView {
    pub start: Frame,
    pub end: Frame,
    pub text: Seq<char>,
}

/// A timed subtitle, as mathematical values.
pub struct TimedMicroDvdSubtitleView {
    pub events: Seq<TimedMicroDvdEventView>,
    pub framerate: FrameRate,
}

impl View for TimedMicroDvdEvent {
    type V = TimedMicroDvdEventView;

    open spec fn view(&self) -> TimedMicroDvdEventView {
        TimedMicroDvdEventView { start: self.start, end: self.end, text: self.text@ }
    }
}

impl View for MicroDvdEvent {
    type V = MicroDvdEventView;

    open spec fn view(&self) -> MicroDvdEventView {
        MicroDvdEventView { start: self.start, end: self.end, text: self.text@ }
    }
}

impl View for MicroDvdSubtitle {
    type V = Seq<MicroDvdEventView>;

    open spec fn view(&self) -> Seq<MicroDvdEventView> {
        views(self.spec_events())
    }
}

impl View for TimedMicroDvdSubtitle {
    type V = TimedMicroDvdSubtitleView;

    open spec fn view(&self) -> TimedMicroDvdSubtitleView {
        TimedMicroDvdSubtitleView {
            events: views(self.spec_events()),
            framerate: self.spec_framerate(),
        }
    }
}

/// The text of an event with each `|` turned into a line feed.
pub open spec fn plaintext(text: Seq<char>) -> Seq<char> {
    replaced(text, "|"@, "\n"@)
}

/// An event as it is written: the two frames in braces, and the text.
pub open spec fn event_text(e: MicroDvdEventView) -> Seq<char> {
    "{"@ + int_text(e.start@, 0) + "}{"@ + int_text(e.end@, 0) + "}"@ + e.text
}

/// The events `events[..k]` as they are written, a line ending after each.
pub open spec fn events_text(events: Seq<MicroDvdEventView>, k: int) -> Seq<char>
    decreases k,
{
    if k <= 0 {
        Seq::<char>::empty()
    } else {
        events_text(events, k - 1) + event_text(events[k - 1]) + "\n"@
    }
}

/// A subtitle as it is written to a file.
pub open spec fn subtitle_text(events: Seq<MicroDvdEventView>) -> Seq<char> {
    events_text(events, events.len() as int)
}

/// The event `e`, timed in frames, as it is timed in milliseconds at the
/// rate `rate`.
pub open spec fn timed_event(e: MicroDvdEventView, rate: FrameRate) -> TimedMicroDvdEventView {
    TimedMicroDvdEventView {
        start: Moment(millis_at(e.start@, rate.micro_fps as int) as i64),
        end: Moment(millis_at(e.end@, rate.micro_fps as int) as i64),
        text: e.text,
    }
}

/// The event `e`, timed in milliseconds, as it is timed in frames at the
/// rate `rate`.
pub open spec fn raw_event(e: TimedMicroDvdEventView, rate: FrameRate) -> MicroDvdEventView {
    MicroDvdEventView {
        start: Frame(frame_at(e.start@, rate.micro_fps as int) as i64),
        end: Frame(frame_at(e.end@, rate.micro_fps as int) as i64),
        text: e.text,
    }
}

/// The event `e`, timed at the rate `from`, as it is timed at the rate
/// `to`.
pub open spec fn rescaled_event(
    e: TimedMicroDvdEventView,
    from: FrameRate,
    to: FrameRate,
) -> TimedMicroDvdEventView {
    TimedMicroDvdEventView {
        start: Moment(rescaled_millis(e.start@, from.micro_fps as int, to.micro_fps as int) as i64),
        end: Moment(rescaled_millis(e.end@, from.micro_fps as int, to.micro_fps as int) as i64),
        text: e.text,
    }
}

/// The rate taken where none is given: 24 frames per second.
pub open spec fn default_rate() -> FrameRate {
    FrameRate { micro_fps: 24000000 }
}

/// The rate `framerate`, or the default rate where none is given.
pub open spec fn rate_or_default(framerate: Option<FrameRate>) -> FrameRate {
    match framerate {
        Some(rate) => rate,
        None => default_rate(),
    }
}

/// The timed subtitle that the events `raw`, timed in frames, make at the
/// rate `rate`.
pub open spec fn timed_from_raw(
    raw: Seq<MicroDvdEventView>,
    rate: FrameRate,
) -> TimedMicroDvdSubtitleView {
    TimedMicroDvdSubtitleView {
        events: raw.map_values(|e: MicroDvdEventView| timed_event(e, rate)),
        framerate: rate,
    }
}

/// The events of a timed subtitle, timed in frames.
pub open spec fn raw_from_timed(s: TimedMicroDvdSubtitleView) -> Seq<MicroDvdEventView> {
    s.events.map_values(|e: TimedMicroDvdEventView| raw_event(e, s.framerate))
}

/// Events that are timed at a rate below a thousand frames per second and
/// then turned back into frames at the same rate keep their frames, as long
/// as their times can be held. So a subtitle that is read from a file and
/// written back shows the frames of the file, whatever its frame rate.
pub proof fn lemma_frames_kept(raw: Seq<MicroDvdEventView>, rate: FrameRate)
    requires
        rate.valid(),
        rate.micro_fps < 1000000000,
        forall|k: int|
            0 <= k < raw.len() ==> frame_in_reach((#[trigger] raw[k]).start@, rate.micro_fps as int)
                && frame_in_reach(raw[k].end@, rate.micro_fps as int),
    ensures
        raw_from_timed(timed_from_raw(raw, rate)) == raw,
{
    let back = raw_from_timed(timed_from_raw(raw, rate));
    assert forall|k: int| 0 <= k < raw.len() implies back[k] == raw[k] by {
        lemma_frame_round_trip(raw[k].start@, rate.micro_fps as int);
        lemma_frame_round_trip(raw[k].end@, rate.micro_fps as int);
    }
    assert(back =~= raw);
}

/// An event moved in time by `delta` milliseconds.
pub open spec fn shifted_event(e: TimedMicroDvdEventView, delta: int) -> TimedMicroDvdEventView {
    TimedMicroDvdEventView {
        start: Moment((e.start@ + delta) as i64),
        end: Moment((e.end@ + delta) as i64),
        ..e
    }
}

/// Whether an event can be moved in time by `delta` milliseconds.
pub open spec fn can_shift(e: TimedMicroDvdEventView, delta: int) -> bool {
    fits_i64(e.start@ + delta) && fits_i64(e.end@ + delta)
}

impl MicroDvdEvent {
    /// The event as it is written.
    pub fn to_chars(&self) -> (out: Vec<char>)
        ensures
            out@ == event_text(self@),
    {
        let mut out = to_chars("{");
        push_int(&mut out, self.start.0, 0);
        push_str(&mut out, "}{");
        push_int(&mut out, self.end.0, 0);
        push_str(&mut out, "}");
        push_str(&mut out, self.text.as_str());
        out
    }

    /// Get text content with all formatting tags removed. A MicroDVD text
    /// has none that this library knows, so the text is returned as it is,
    /// its `|` marks included.
    pub fn unformatted_text(&self) -> (r: String)
        ensures
            r@ == self.text@,
    {
        self.text.clone()
    }

    /// Get the text with each `|` replaced by a line feed.
    pub fn as_plaintext(&self) -> (r: String)
        ensures
            r@ == plaintext(self.text@),
    {
        proof {
            reveal_strlit("|");
        }
        replace(self.text.as_str(), "|", "\n")
    }

    /// Remove all formatting tags from event text: the text stays as it is.
    pub fn strip_formatting(&mut self)
        ensures
            final(self)@ == old(self)@,
    {
    }

    /// Text associated with event
    pub fn text(&self) -> (r: String)
        ensures
            r@ == self.text@,
    {
        self.text.clone()
    }

    /// Modify text associated with event
    pub fn set_text(&mut self, text: String)
        ensures
            final(self)@ == (MicroDvdEventView { text: text@, ..old(self)@ }),
    {
        self.text = text;
    }
}

impl TimedMicroDvdEvent {
    /// Get text content with all formatting tags removed. A MicroDVD text
    /// has none that this library knows, so the text is returned as it is,
    /// its `|` marks included.
    pub fn unformatted_text(&self) -> (r: String)
        ensures
            r@ == self.text@,
    {
        self.text.clone()
    }

    /// Get the text with each `|` replaced by a line feed.
    pub fn as_plaintext(&self) -> (r: String)
        ensures
            r@ == plaintext(self.text@),
    {
        proof {
            reveal_strlit("|");
        }
        replace(self.text.as_str(), "|", "\n")
    }

    /// Remove all formatting tags from event text: the text stays as it is.
    pub fn strip_formatting(&mut self)
        ensures
            final(self)@ == old(self)@,
    {
    }

    /// Shift subtitle event by given amount of time in milliseconds.
    ///
    /// Positive numbers will result in the subtitle event appearing later,
    /// while negative numbers will make the event appear earlier.
    pub fn shift(&mut self, delta: TimeDelta)
        requires
            can_shift(old(self)@, delta@),
        ensures
            final(self)@ == shifted_event(old(self)@, delta@),
    {
        self.start = Moment(self.start.0 + delta.0);
        self.end = Moment(self.end.0 + delta.0);
    }

    /// Get duration of event in milliseconds, as a `TimeDelta`
    pub fn duration(&self) -> (r: TimeDelta)
        requires
            fits_i64(self.end@ - self.start@),
        ensures
            r@ == self.end@ - self.start@,
    {
        TimeDelta(self.end.0 - self.start.0)
    }

    /// Text associated with event
    pub fn text(&self) -> (r: String)
        ensures
            r@ == self.text@,
    {
        self.text.clone()
    }

    /// Modify text associated with event
    pub fn set_text(&mut self, text: String)
        ensures
            final(self)@ == (TimedMicroDvdEventView { text: text@, ..old(self)@ }),
    {
        self.text = text;
    }

    /// Start time of event
    pub fn start(&self) -> (r: Moment)
        ensures
            r == self.start,
    {
        self.start
    }

    /// End time of event
    pub fn end(&self) -> (r: Moment)
        ensures
            r == self.end,
    {
        self.end
    }

    /// Modify start time of event
    pub fn set_start(&mut self, moment: Moment)
        ensures
            final(self)@ == (TimedMicroDvdEventView { start: moment, ..old(self)@ }),
    {
        self.start = moment;
    }

    /// Modify end time of event
    pub fn set_end(&mut self, moment: Moment)
        ensures
            final(self)@ == (TimedMicroDvdEventView { end: moment, ..old(self)@ }),
    {
        self.end = moment;
    }
}

impl MicroDvdSubtitle {
    /// The events.
    pub closed spec fn spec_events(&self) -> Seq<MicroDvdEvent> {
        self.events@
    }

    /// Create new instance from already existing list of `MicroDvdEvent`s.
    pub fn from_events(events: Vec<MicroDvdEvent>) -> (r: MicroDvdSubtitle)
        ensures
            r.spec_events() == events@,
    {
        MicroDvdSubtitle { events }
    }

    /// The subtitle of a timed one, with its events timed in frames at the
    /// rate of the timed subtitle.
    pub fn from_timed(value: &TimedMicroDvdSubtitle) -> (r: MicroDvdSubtitle)
        ensures
            r@ == raw_from_timed(value@),
    {
        let mut events: Vec<MicroDvdEvent> = Vec::new();
        let mut k: usize = 0;
        while k < value.events.len()
            invariant
                k <= value.events.len(),
                events@.len() == k,
                forall|j: int|
                    0 <= j < k ==> (#[trigger] events@[j])@ == raw_event(
                        value.events@[j]@,
                        value.framerate,
                    ),
            decreases value.events.len() - k,
        {
            events.push(
                MicroDvdEvent {
                    start: moment_to_frame(value.events[k].start, value.framerate),
                    end: moment_to_frame(value.events[k].end, value.framerate),
                    text: value.events[k].text.clone(),
                },
            );
            k += 1;
        }
        let r = MicroDvdSubtitle { events };
        assert(r@ =~= raw_from_timed(value@));
        r
    }

    /// Get list of events as a slice
    pub fn events(&self) -> (r: &[MicroDvdEvent])
        ensures
            r@ == self.spec_events(),
    {
        self.events.as_slice()
    }

    /// Get list of events as a mutable slice
    pub fn events_mut(&mut self) -> (r: &mut [MicroDvdEvent])
        ensures
            r@ == old(self).spec_events(),
            final(self).spec_events() == final(r)@,
    {
        self.events.as_mut_slice()
    }

    /// Try to get event at given index
    pub fn event(&self, index: usize) -> (r: Option<&MicroDvdEvent>)
        ensures
            r == if index < self.spec_events().len() {
                Some(&self.spec_events()[index as int])
            } else {
                None::<&MicroDvdEvent>
            },
    {
        if index < self.events.len() {
            Some(&self.events[index])
        } else {
            None
        }
    }

    /// Try to get mutable event at given index
    pub fn event_mut(&mut self, index: usize) -> (r: Option<&mut MicroDvdEvent>)
        ensures
            match r {
                Some(e) => index < old(self).spec_events().len() && *e == old(
                    self,
                ).spec_events()[index as int] && final(self).spec_events() == old(
                    self,
                ).spec_events().update(index as int, *final(e)),
                None => index >= old(self).spec_events().len() && final(self).spec_events() == old(
                    self,
                ).spec_events(),
            },
    {
        if index < self.events.len() {
            Some(&mut self.events[index])
        } else {
            None
        }
    }

    /// Remove all styling/formatting information from the text: every text
    /// stays as it is.
    pub fn strip_formatting(&mut self)
        ensures
            final(self)@ == old(self)@,
    {
    }

    /// The subtitle as it is written to a file.
    pub fn to_string(&self) -> (r: String)
        ensures
            r@ == subtitle_text(self@),
    {
        let mut out: Vec<char> = Vec::new();
        let mut k: usize = 0;
        while k < self.events.len()
            invariant
                k <= self.events.len(),
                out@ == events_text(self@, k as int),
            decreases self.events.len() - k,
        {
            crate::text::push_all(&mut out, &self.events[k].to_chars());
            push_str(&mut out, "\n");
            k += 1;
        }
        string_of(&out)
    }
}

impl vstd::std_specs::convert::FromSpecImpl<&TimedMicroDvdSubtitle> for MicroDvdSubtitle {
    open spec fn obeys_from_spec() -> bool {
        false
    }

    open spec fn from_spec(v: &TimedMicroDvdSubtitle) -> MicroDvdSubtitle {
        arbitrary()
    }
}

/// The subtitle of a timed one, with its events timed in frames at the rate
/// of the timed subtitle.
impl From<&TimedMicroDvdSubtitle> for MicroDvdSubtitle {
    fn from(value: &TimedMicroDvdSubtitle) -> (r: MicroDvdSubtitle)
        ensures
            r@ == raw_from_timed(value@),
    {
        MicroDvdSubtitle::from_timed(value)
    }
}

impl TimedMicroDvdSubtitle {
    /// The events.
    pub closed spec fn spec_events(&self) -> Seq<TimedMicroDvdEvent> {
        self.events@
    }

    /// The frame rate.
    pub closed spec fn spec_framerate(&self) -> FrameRate {
        self.framerate
    }

    /// A timed subtitle of the given events, which are taken to be timed at
    /// the rate `framerate`.
    pub fn from_events(
        events: Vec<TimedMicroDvdEvent>,
        framerate: FrameRate,
    ) -> (r: TimedMicroDvdSubtitle)
        ensures
            r.spec_events() == events@,
            r.spec_framerate() == framerate,
    {
        TimedMicroDvdSubtitle { events, framerate }
    }

    /// Convert raw MicroDVD subtitle data to timed MicroDVD data, given the framerate the subtitles
    /// were created for.
    /// If no framerate is given, the default of 24 is used.
    pub fn from_raw(
        raw: &MicroDvdSubtitle,
        framerate: Option<FrameRate>,
    ) -> (r: TimedMicroDvdSubtitle)
        requires
            rate_or_default(framerate).valid(),
        ensures
            r@ == timed_from_raw(raw@, rate_or_default(framerate)),
    {
        let rate = match framerate {
            Some(rate) => rate,
            None => FrameRate::film(),
        };
        let mut events: Vec<TimedMicroDvdEvent> = Vec::new();
        let mut k: usize = 0;
        while k < raw.events.len()
            invariant
                k <= raw.events.len(),
                events@.len() == k,
                rate.valid(),
                forall|j: int|
                    0 <= j < k ==> (#[trigger] events@[j])@ == timed_event(raw.events@[j]@, rate),
            decreases raw.events.len() - k,
        {
            events.push(
                TimedMicroDvdEvent {
                    start: frame_to_moment(raw.events[k].start, rate),
                    end: frame_to_moment(raw.events[k].end, rate),
                    text: raw.events[k].text.clone(),
                },
            );
            k += 1;
        }
        let r = TimedMicroDvdSubtitle { events, framerate: rate };
        assert(r@.events =~= timed_from_raw(raw@, rate).events);
        r
    }

    /// Get framerate used to create timings
    pub fn framerate(&self) -> (r: FrameRate)
        ensures
            r == self.spec_framerate(),
    {
        self.framerate
    }

    /// Modify framerate associated with subtitle.
    /// Does not modify event timings at all.
    pub fn set_framerate(&mut self, framerate: FrameRate)
        ensures
            final(self).spec_framerate() == framerate,
            final(self).spec_events() == old(self).spec_events(),
    {
        self.framerate = framerate;
    }

    /// Modify framerate associated with subtitle
    ///
    /// This will also recalculate and update all event timings to match the new framerate.
    pub fn update_framerate(&mut self, framerate: FrameRate)
        requires
            framerate.valid(),
        ensures
            final(self)@ == (TimedMicroDvdSubtitleView {
                events: old(self)@.events.map_values(
                    |e: TimedMicroDvdEventView| rescaled_event(e, old(self)@.framerate, framerate),
                ),
                framerate,
            }),
    {
        let from = self.framerate;
        let mut k: usize = 0;
        while k < self.events.len()
            invariant
                k <= self.events.len(),
                self.events.len() == old(self).events.len(),
                self.framerate == old(self).framerate,
                from == old(self).framerate,
                framerate.valid(),
                forall|j: int|
                    0 <= j < k ==> (#[trigger] self.events@[j])@ == rescaled_event(
                        old(self).events@[j]@,
                        from,
                        framerate,
                    ),
                forall|j: int|
                    k <= j < self.events.len() ==> #[trigger] self.events@[j] == old(
                        self,
                    ).events@[j],
            decreases self.events.len() - k,
        {
            let start = rescale_moment(self.events[k].start, from, framerate);
            let end = rescale_moment(self.events[k].end, from, framerate);
            self.events[k].start = start;
            self.events[k].end = end;
            k += 1;
        }
        self.framerate = framerate;
        assert(self@.events =~= old(self)@.events.map_values(
            |e: TimedMicroDvdEventView| rescaled_event(e, old(self)@.framerate, framerate),
        ));
    }

    /// Get list of events as a slice
    pub fn events(&self) -> (r: &[TimedMicroDvdEvent])
        ensures
            r@ == self.spec_events(),
    {
        self.events.as_slice()
    }

    /// Get list of events as a mutable slice
    pub fn events_mut(&mut self) -> (r: &mut [TimedMicroDvdEvent])
        ensures
            r@ == old(self).spec_events(),
            final(self).spec_events() == final(r)@,
            final(self).spec_framerate() == old(self).spec_framerate(),
    {
        self.events.as_mut_slice()
    }

    /// Try to get event at given index
    pub fn event(&self, index: usize) -> (r: Option<&TimedMicroDvdEvent>)
        ensures
            r == if index < self.spec_events().len() {
                Some(&self.spec_events()[index as int])
            } else {
                None::<&TimedMicroDvdEvent>
            },
    {
        if index < self.events.len() {
            Some(&self.events[index])
        } else {
            None
        }
    }

    /// Try to get mutable event at given index
    pub fn event_mut(&mut self, index: usize) -> (r: Option<&mut TimedMicroDvdEvent>)
        ensures
            final(self).spec_framerate() == old(self).spec_framerate(),
            match r {
                Some(e) => index < old(self).spec_events().len() && *e == old(
                    self,
                ).spec_events()[index as int] && final(self).spec_events() == old(
                    self,
                ).spec_events().update(index as int, *final(e)),
                None => index >= old(self).spec_events().len() && final(self).spec_events() == old(
                    self,
                ).spec_events(),
            },
    {
        if index < self.events.len() {
            Some(&mut self.events[index])
        } else {
            None
        }
    }

    /// Remove all styling/formatting information from the text: every text
    /// stays as it is.
    pub fn strip_formatting(&mut self)
        ensures
            final(self)@ == old(self)@,
    {
    }

    /// Whether every event can be moved in time by `delta` milliseconds.
    pub open spec fn can_shift(&self, delta: int) -> bool {
        forall|j: int| 0 <= j < self@.events.len() ==> can_shift(#[trigger] self@.events[j], delta)
    }

    /// Shift all events in subtitle by given amount of time, in milliseconds.
    pub fn shift(&mut self, delta: TimeDelta)
        requires
            old(self).can_shift(delta@),
        ensures
            final(self)@ == (TimedMicroDvdSubtitleView {
                events: old(self)@.events.map_values(
                    |e: TimedMicroDvdEventView| shifted_event(e, delta@),
                ),
                ..old(self)@
            }),
    {
        let mut k: usize = 0;
        while k < self.events.len()
            invariant
                k <= self.events.len(),
                self.events.len() == old(self).events.len(),
                self.framerate == old(self).framerate,
                old(self).can_shift(delta@),
                forall|j: int|
                    0 <= j < k ==> (#[trigger] self.events@[j])@ == shifted_event(
                        old(self).events@[j]@,
                        delta@,
                    ),
                forall|j: int|
                    k <= j < self.events.len() ==> #[trigger] self.events@[j] == old(
                        self,
                    ).events@[j],
            decreases self.events.len() - k,
        {
            assert(can_shift(old(self)@.events[k as int], delta@));
            self.events[k].shift(delta);
            k += 1;
        }
        assert(self@.events =~= old(self)@.events.map_values(
            |e: TimedMicroDvdEventView| shifted_event(e, delta@),
        ));
    }

    /// The subtitle as it is written to a file: each event with the frames
    /// that its times fall on at the frame rate.
    pub fn to_string(&self) -> (r: String)
        ensures
            r@ == subtitle_text(raw_from_timed(self@)),
    {
        MicroDvdSubtitle::from_timed(self).to_string()
    }
}

} // verus!
