//! The data of a SubRip file: a list of numbered events.

use crate::markup::converted_or_kept;
use crate::subrip::convert::{strip_srt_formatting_rules, strip_srt_formatting_scheme};
use crate::text::{nat_digits, opt_text, push_all, push_nat, push_str, string_of, to_chars, views};
use crate::timing::{fits_i64, srt_timestamp, Moment, TimeDelta};
use vstd::prelude::*;

verus! {

/// SubRip (.srt) subtitle data, containing only a list of events.
#[derive(Clone, Debug)]
pub struct SubRipSubtitle {
    events: Vec<SubRipEvent>,
}

/// SubRip subtitle event
#[derive(Debug, Clone)]
pub struct SubRipEvent {
    /// Line number for the event. Generally this should be a sequential range of numbers, from 1 to
    /// however many lines there are.
    pub line_number: usize,
    /// Textual content of the event.
    pub text: String,
    /// Start time of event
    pub start: Moment,
    /// End time of event
    pub end: Moment,
    /// Coordinates for positioning of subtitle text
    pub coordinates: Option<String>,
}

/// An event, as mathematical values.
pub struct SubRipEventView {
    pub line_number: nat,
    pub text: Seq<char>,
    pub start: Moment,
    pub end: Moment,
    pub coordinates: Option<Seq<char>>,
}

impl View for SubRipEvent {
    type V = SubRipEventView;

    open spec fn view(&self) -> SubRipEventView {
        SubRipEventView {
            line_number: self.line_number as nat,
            text: self.text@,
            start: self.start,
            end: self.end,
            coordinates: opt_text(self.coordinates),
        }
    }
}

impl View for SubRipSubtitle {
    type V = Seq<SubRipEventView>;

    open spec fn view(&self) -> Seq<SubRipEventView> {
        views(self.spec_events())
    }
}

/// The text of an event without its tags; the text itself where it cannot
/// be scanned to its end.
pub open spec fn unformatted(text: Seq<char>) -> Seq<char> {
    converted_or_kept(text, strip_srt_formatting_rules())
}

/// An event with its text unformatted.
pub open spec fn stripped_event(e: SubRipEventView) -> SubRipEventView {
    SubRipEventView { text: unformatted(e.text), ..e }
}

/// An event moved in time by `delta` milliseconds.
pub open spec fn shifted_event(e: SubRipEventView, delta: int) -> SubRipEventView {
    SubRipEventView {
        start: Moment((e.start@ + delta) as i64),
        end: Moment((e.end@ + delta) as i64),
        ..e
    }
}

/// Whether an event can be moved in time by `delta` milliseconds.
pub open spec fn can_shift(e: SubRipEventView, delta: int) -> bool {
    fits_i64(e.start@ + delta) && fits_i64(e.end@ + delta)
}

/// The coordinates of an event as they are written: after a space, or not
/// at all where the event has none.
pub open spec fn coordinates_text(c: Option<Seq<char>>) -> Seq<char> {
    match c {
        Some(c) => " "@ + c,
        None => Seq::<char>::empty(),
    }
}

/// An event as it is written: its number, its timing and its text, each on
/// a line of its own. No line ending follows the text.
#[verifier::opaque]
pub open spec fn event_text(e: SubRipEventView) -> Seq<char> {
    nat_digits(e.line_number) + "\n"@ + srt_timestamp(e.start@) + " --> "@ + srt_timestamp(e.end@)
        + coordinates_text(e.coordinates) + "\n"@ + e.text
}

/// The events `events[..k]` as they are written: a line ending after each
/// event, and an empty line between two events.
pub open spec fn events_text(events: Seq<SubRipEventView>, k: int) -> Seq<char>
    decreases k,
{
    if k <= 0 {
        Seq::<char>::empty()
    } else if k == 1 {
        event_text(events[0]) + "\n"@
    } else {
        events_text(events, k - 1) + "\n"@ + event_text(events[k - 1]) + "\n"@
    }
}

/// A subtitle as it is written to a file.
pub open spec fn subtitle_text(events: Seq<SubRipEventView>) -> Seq<char> {
    events_text(events, events.len() as int)
}

/// The events with the numbers 1, 2, 3 and so on in place of their own.
pub open spec fn renumbered(events: Seq<SubRipEventView>) -> Seq<SubRipEventView> {
    Seq::new(events.len(), |k: int| SubRipEventView { line_number: (k + 1) as nat, ..events[k] })
}

impl SubRipEvent {
    /// The event as it is written.
    pub fn to_chars(&self) -> (out: Vec<char>)
        ensures
            out@ == event_text(self@),
    {
        proof {
            reveal(event_text);
        }
        let mut out: Vec<char> = Vec::new();
        push_nat(&mut out, self.line_number as u64);
        assert(Seq::<char>::empty() + nat_digits(self.line_number as nat) == nat_digits(
            self.line_number as nat,
        ));
        push_str(&mut out, "\n");
        self.start.push_clock(&mut out, 2, ',', self.start.ms(), 3);
        push_str(&mut out, " --> ");
        self.end.push_clock(&mut out, 2, ',', self.end.ms(), 3);
        let coordinates = match &self.coordinates {
            Some(c) => {
                let mut b = to_chars(" ");
                push_str(&mut b, c.as_str());
                b
            },
            None => Vec::new(),
        };
        push_all(&mut out, &coordinates);
        push_str(&mut out, "\n");
        push_str(&mut out, self.text.as_str());
        out
    }

    /// The event as it is written.
    pub fn to_string(&self) -> (r: String)
        ensures
            r@ == event_text(self@),
    {
        string_of(&self.to_chars())
    }

    /// Get text content with all formatting tags removed
    pub fn unformatted_text(&self) -> (r: String)
        ensures
            r@ == unformatted(self.text@),
    {
        strip_srt_formatting_scheme().convert_or_keep(self.text.as_str())
    }

    /// Get the unformatted text. Line feeds are written as such in a SubRip
    /// file, so nothing more is changed.
    pub fn as_plaintext(&self) -> (r: String)
        ensures
            r@ == unformatted(self.text@),
    {
        self.unformatted_text()
    }

    /// Remove all formatting tags from event text
    pub fn strip_formatting(&mut self)
        ensures
            final(self)@ == stripped_event(old(self)@),
    {
        self.text = self.unformatted_text();
    }

    /// Shift subtitle event by given amount of time in milliseconds.
    ///
    /// Positive numbers will result in the subtitle event appearing later,
    /// while negative numbers will make the event appear earlier.
    pub fn shift(&mut self, delta: TimeDelta)
        requires
            can_shift(old(self)@, delta@),
        ensures
            final(self)@ == shifted_event(old(self)@, delta@),
    {
        self.start = Moment(self.start.0 + delta.0);
        self.end = Moment(self.end.0 + delta.0);
    }

    /// Get duration of event in milliseconds, as a `TimeDelta`
    pub fn duration(&self) -> (r: TimeDelta)
        requires
            fits_i64(self.end@ - self.start@),
        ensures
            r@ == self.end@ - self.start@,
    {
        TimeDelta(self.end.0 - self.start.0)
    }

    /// Text associated with event
    pub fn text(&self) -> (r: String)
        ensures
            r@ == self.text@,
    {
        self.text.clone()
    }

    /// Modify text associated with event
    pub fn set_text(&mut self, text: String)
        ensures
            final(self)@ == (SubRipEventView { text: text@, ..old(self)@ }),
    {
        self.text = text;
    }

    /// Start time of event
    pub fn start(&self) -> (r: Moment)
        ensures
            r == self.start,
    {
        self.start
    }

    /// End time of event
    pub fn end(&self) -> (r: Moment)
        ensures
            r == self.end,
    {
        self.end
    }

    /// Modify start time of event
    pub fn set_start(&mut self, moment: Moment)
        ensures
            final(self)@ == (SubRipEventView { start: moment, ..old(self)@ }),
    {
        self.start = moment;
    }

    /// Modify end time of event
    pub fn set_end(&mut self, moment: Moment)
        ensures
            final(self)@ == (SubRipEventView { end: moment, ..old(self)@ }),
    {
        self.end = moment;
    }
}

impl SubRipSubtitle {
    /// The events.
    pub closed spec fn spec_events(&self) -> Seq<SubRipEvent> {
        self.events@
    }

    /// Creates a new SubRip (.srt) subtitle from an already existing list of `SubRipEvent`s
    pub fn from_events(events: Vec<SubRipEvent>) -> (r: SubRipSubtitle)
        ensures
            r.spec_events() == events@,
    {
        SubRipSubtitle { events }
    }

    /// Renumbers all events according to the order they are stored in.
    ///
    /// This modifies the line number of all events,
    /// starting from 1 for the first event and incrementing by 1 for each subsequent event.
    pub fn renumber(&mut self)
        ensures
            final(self)@ == renumbered(old(self)@),
    {
        let mut k: usize = 0;
        while k < self.events.len()
            invariant
                k <= self.events.len(),
                self.events.len() == old(self).events.len(),
                forall|j: int|
                    0 <= j < k ==> (#[trigger] self.events@[j])@ == (SubRipEventView {
                        line_number: (j + 1) as nat,
                        ..old(self).events@[j]@
                    }),
                forall|j: int|
                    k <= j < self.events.len() ==> #[trigger] self.events@[j] == old(
                        self,
                    ).events@[j],
            decreases self.events.len() - k,
        {
            self.events[k].line_number = k + 1;
            k += 1;
        }
        assert(self@ =~= renumbered(old(self)@));
    }

    /// Get list of events as a slice
    pub fn events(&self) -> (r: &[SubRipEvent])
        ensures
            r@ == self.spec_events(),
    {
        self.events.as_slice()
    }

    /// Get list of events as a mutable slice
    pub fn events_mut(&mut self) -> (r: &mut [SubRipEvent])
        ensures
            r@ == old(self).spec_events(),
            final(self).spec_events() == final(r)@,
    {
        self.events.as_mut_slice()
    }

    /// Try to get event at given index
    pub fn event(&self, index: usize) -> (r: Option<&SubRipEvent>)
        ensures
            r == if index < self.spec_events().len() {
                Some(&self.spec_events()[index as int])
            } else {
                None::<&SubRipEvent>
            },
    {
        if index < self.events.len() {
            Some(&self.events[index])
        } else {
            None
        }
    }

    /// Try to get mutable event at given index
    pub fn event_mut(&mut self, index: usize) -> (r: Option<&mut SubRipEvent>)
        ensures
            match r {
                Some(e) => index < old(self).spec_events().len() && *e == old(
                    self,
                ).spec_events()[index as int] && final(self).spec_events() == old(
                    self,
                ).spec_events().update(index as int, *final(e)),
                None => index >= old(self).spec_events().len() && final(self).spec_events() == old(
                    self,
                ).spec_events(),
            },
    {
        if index < self.events.len() {
            Some(&mut self.events[index])
        } else {
            None
        }
    }

    /// Remove all styling/formatting information from the text
    pub fn strip_formatting(&mut self)
        ensures
            final(self)@ == old(self)@.map_values(|e: SubRipEventView| stripped_event(e)),
    {
        let mut k: usize = 0;
        while k < self.events.len()
            invariant
                k <= self.events.len(),
                self.events.len() == old(self).events.len(),
                forall|j: int|
                    0 <= j < k ==> (#[trigger] self.events@[j])@ == stripped_event(
                        old(self).events@[j]@,
                    ),
                forall|j: int|
                    k <= j < self.events.len() ==> #[trigger] self.events@[j] == old(
                        self,
                    ).events@[j],
            decreases self.events.len() - k,
        {
            self.events[k].strip_formatting();
            k += 1;
        }
        assert(self@ =~= old(self)@.map_values(|e: SubRipEventView| stripped_event(e)));
    }

    /// Whether every event can be moved in time by `delta` milliseconds.
    pub open spec fn can_shift(&self, delta: int) -> bool {
        forall|j: int| 0 <= j < self@.len() ==> can_shift(#[trigger] self@[j], delta)
    }

    /// Shift all events in subtitle by given amount of time, in milliseconds.
    pub fn shift(&mut self, delta: TimeDelta)
        requires
            old(self).can_shift(delta@),
        ensures
            final(self)@ == old(self)@.map_values(|e: SubRipEventView| shifted_event(e, delta@)),
    {
        let mut k: usize = 0;
        while k < self.events.len()
            invariant
                k <= self.events.len(),
                self.events.len() == old(self).events.len(),
                old(self).can_shift(delta@),
                forall|j: int|
                    0 <= j < k ==> (#[trigger] self.events@[j])@ == shifted_event(
                        old(self).events@[j]@,
                        delta@,
                    ),
                forall|j: int|
                    k <= j < self.events.len() ==> #[trigger] self.events@[j] == old(
                        self,
                    ).events@[j],
            decreases self.events.len() - k,
        {
            assert(can_shift(old(self)@[k as int], delta@));
            self.events[k].shift(delta);
            k += 1;
        }
        assert(self@ =~= old(self)@.map_values(|e: SubRipEventView| shifted_event(e, delta@)));
    }

    /// The subtitle as it is written to a file.
    pub fn to_string(&self) -> (r: String)
        ensures
            r@ == subtitle_text(self@),
    {
        let mut out: Vec<char> = Vec::new();
        let mut k: usize = 0;
        while k < self.events.len()
            invariant
                k <= self.events.len(),
                out@ == events_text(self@, k as int),
            decreases self.events.len() - k,
        {
            let row = self.events[k].to_chars();
            if k > 0 {
                push_str(&mut out, "\n");
                push_all(&mut out, &row);
                push_str(&mut out, "\n");
            } else {
                push_all(&mut out, &row);
                assert(Seq::<char>::empty() + row@ == row@);
                push_str(&mut out, "\n");
            }
            k += 1;
        }
        string_of(&out)
    }
}

} // verus!
