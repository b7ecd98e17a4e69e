//! What the subtitles of all formats have in common, and their events.

use crate::microdvd::data::{
    MicroDvdEvent, MicroDvdSubtitle, TimedMicroDvdEvent, TimedMicroDvdSubtitle,
};
use crate::subrip::data::{SubRipEvent, SubRipSubtitle};
use crate::substation::ass::data::{AssEvent, AssSubtitle};
use crate::substation::ssa::data::{SsaEvent, SsaSubtitle};
use crate::timing::{fits_i64, Moment, TimeDelta};
use crate::webvtt::data::{WebVttCue, WebVttSubtitle};
use vstd::prelude::*;

verus! {

/// Whether an event can be moved in time by `delta` milliseconds.
pub open spec fn shiftable<E: TimedEventInterface + ?Sized>(e: &E, delta: int) -> bool {
    fits_i64(e.start_spec()@ + delta) && fits_i64(e.end_spec()@ + delta)
}

/// Whether the event `after` starts and ends `delta` milliseconds after the
/// event `before` does.
pub open spec fn shifted_by<E: TimedEventInterface + ?Sized>(
    after: &E,
    before: &E,
    delta: int,
) -> bool {
    after.start_spec()@ == before.start_spec()@ + delta && after.end_spec()@ == before.end_spec()@
        + delta
}

/// Whether every event of a list can be moved in time by `delta`
/// milliseconds.
pub open spec fn all_shiftable<E: TimedEventInterface>(events: Seq<E>, delta: int) -> bool {
    forall|k: int| 0 <= k < events.len() ==> shiftable(#[trigger] &events[k], delta)
}

/// Base trait for all subtitle implementations.
pub trait Subtitle: Sized {
    /// Event type for the given subtitle format
    type Event;

    /// The events of the subtitle.
    spec fn events_spec(&self) -> Seq<Self::Event>;

    /// Get list of events as a slice
    fn events(&self) -> (r: &[Self::Event])
        ensures
            r@ == self.events_spec(),
    ;

    /// Get list of events as a mutable slice
    fn events_mut(&mut self) -> (r: &mut [Self::Event])
        ensures
            r@ == old(self).events_spec(),
            final(self).events_spec() == final(r)@,
    ;

    /// Try to get event at given index
    fn event(&self, index: usize) -> (r: Option<&Self::Event>)
        ensures
            r == if index < self.events_spec().len() {
                Some(&self.events_spec()[index as int])
            } else {
                None::<&Self::Event>
            },
    {
        let events = self.events();
        if index < events.len() {
            Some(&events[index])
        } else {
            None
        }
    }

    /// Try to get mutable event at given index
    fn event_mut(&mut self, index: usize) -> (r: Option<&mut Self::Event>)
        ensures
            match r {
                Some(e) => index < old(self).events_spec().len() && *e == old(
                    self,
                ).events_spec()[index as int] && final(self).events_spec() == old(
                    self,
                ).events_spec().update(index as int, *final(e)),
                None => index >= old(self).events_spec().len() && final(self).events_spec() == old(
                    self,
                ).events_spec(),
            },
    {
        let events = self.events_mut();
        if index < events.len() {
            Some(&mut events[index])
        } else {
            None
        }
    }
}

/// Trait representing textual subtitle formats
pub trait TextSubtitle: Subtitle where Self::Event: TextEvent {
    /// Remove all styling/formatting information from the text and subtitle metadata
    fn strip_formatting(&mut self)
        ensures
            final(self).events_spec().len() == old(self).events_spec().len(),
            forall|k: int|
                0 <= k < old(self).events_spec().len() ==> (#[trigger] final(self).events_spec()[k])
                    .text_spec() == old(self).events_spec()[k].unformatted_spec(),
    {
        let events = self.events_mut();
        let ghost before = events@;
        let mut k: usize = 0;
        while k < events.len()
            invariant
                k <= events.len(),
                events@.len() == before.len(),
                forall|j: int|
                    0 <= j < k ==> (#[trigger] events@[j]).text_spec()
                        == before[j].unformatted_spec(),
                forall|j: int| k <= j < events@.len() ==> #[trigger] events@[j] == before[j],
            decreases events.len() - k,
        {
            events[k].strip_formatting();
            k += 1;
        }
    }
}

/// Time-based subtitle
pub trait TimedSubtitle: Subtitle where Self::Event: TimedEvent {
    /// Shift all events in subtitle by given amount of time, in milliseconds.
    fn shift(&mut self, delta: TimeDelta)
        requires
            all_shiftable(old(self).events_spec(), delta@),
        ensures
            final(self).events_spec().len() == old(self).events_spec().len(),
            forall|k: int|
                0 <= k < old(self).events_spec().len() ==> shifted_by(
                    #[trigger] &final(self).events_spec()[k],
                    &old(self).events_spec()[k],
                    delta@,
                ),
    {
        let events = self.events_mut();
        let ghost before = events@;
        let mut k: usize = 0;
        while k < events.len()
            invariant
                k <= events.len(),
                events@.len() == before.len(),
                all_shiftable(before, delta@),
                forall|j: int|
                    0 <= j < k ==> shifted_by(#[trigger] &events@[j], &before[j], delta@),
                forall|j: int| k <= j < events@.len() ==> #[trigger] events@[j] == before[j],
            decreases events.len() - k,
        {
            assert(shiftable(&before[k as int], delta@));
            events[k].shift(delta);
            k += 1;
        }
    }
}

/// Trait offering helper functions for textual subtitle events
pub trait TextEvent: TextEventInterface {
    /// The text of the event without its formatting tags.
    spec fn unformatted_spec(&self) -> Seq<char>;

    /// The text of the event without its formatting tags and with the marks
    /// for a line feed replaced by line feeds.
    spec fn plaintext_spec(&self) -> Seq<char>;

    /// Remove all formatting tags from event text
    fn strip_formatting(&mut self)
        ensures
            final(self).text_spec() == old(self).unformatted_spec(),
    {
        let text = self.unformatted_text();
        self.set_text(text);
    }

    /// Get text content with all formatting tags removed
    fn unformatted_text(&self) -> (r: String)
        ensures
            r@ == self.unformatted_spec(),
    ;

    /// Get text content with all formatting tags removed and with line
    /// feeds in place of the marks that stand for them
    fn as_plaintext(&self) -> (r: String)
        ensures
            r@ == self.plaintext_spec(),
    ;
}

/// Interface for getting/modifying textual subtitle event fields.
/// Required for implementation of [`TextEvent`].
///
/// Not recommended to use this trait outside of the implementation of [`TextEvent`],
/// as it will pollute the namespace of subtitle event type properties.
pub trait TextEventInterface {
    /// The text of the event.
    spec fn text_spec(&self) -> Seq<char>;

    /// Text associated with event
    fn text(&self) -> (r: String)
        ensures
            r@ == self.text_spec(),
    ;

    /// Modify text associated with event
    fn set_text(&mut self, text: String)
        ensures
            final(self).text_spec() == text@,
    ;
}

/// Helper methods for time-based subtitle events.
pub trait TimedEvent: TimedEventInterface {
    /// Shift subtitle event by given amount of time in milliseconds.
    ///
    /// Positive numbers will result in the subtitle event appearing later,
    /// while negative numbers will make the event appear earlier.
    fn shift(&mut self, delta: TimeDelta)
        requires
            shiftable(old(self), delta@),
        ensures
            shifted_by(final(self), old(self), delta@),
    {
        let start = self.start();
        self.set_start(Moment(start.0 + delta.0));
        let end = self.end();
        self.set_end(Moment(end.0 + delta.0));
    }

    /// Get duration of event in milliseconds, as a `TimeDelta`
    fn duration(&self) -> (r: TimeDelta)
        requires
            fits_i64(self.end_spec()@ - self.start_spec()@),
        ensures
            r@ == self.end_spec()@ - self.start_spec()@,
    {
        TimeDelta(self.end().0 - self.start().0)
    }
}

/// Interface for interacting with timed events.
/// Required for implementation of [`TimedEvent`].
pub trait TimedEventInterface {
    /// The start time of the event.
    spec fn start_spec(&self) -> Moment;

    /// The end time of the event.
    spec fn end_spec(&self) -> Moment;

    /// Start time of event
    fn start(&self) -> (r: Moment)
        ensures
            r == self.start_spec(),
    ;

    /// End time of event
    fn end(&self) -> (r: Moment)
        ensures
            r == self.end_spec(),
    ;

    /// Modify start time of event
    fn set_start(&mut self, moment: Moment)
        ensures
            final(self).start_spec() == moment,
            final(self).end_spec() == old(self).end_spec(),
    ;

    /// Modify end time of event
    fn set_end(&mut self, moment: Moment)
        ensures
            final(self).end_spec() == moment,
            final(self).start_spec() == old(self).start_spec(),
    ;
}

impl TextEventInterface for AssEvent {
    open spec fn text_spec(&self) -> Seq<char> {
        self.text@
    }

    fn text(&self) -> (r: String) {
        AssEvent::text(self)
    }

    fn set_text(&mut self, text: String) {
        AssEvent::set_text(self, text)
    }
}

impl TextEvent for AssEvent {
    open spec fn unformatted_spec(&self) -> Seq<char> {
        crate::substation::ass::data::unformatted(self.text@)
    }

    open spec fn plaintext_spec(&self) -> Seq<char> {
        crate::substation::ass::data::plaintext(self.text@)
    }

    fn unformatted_text(&self) -> (r: String) {
        AssEvent::unformatted_text(self)
    }

    fn as_plaintext(&self) -> (r: String) {
        AssEvent::as_plaintext(self)
    }
}

impl TimedEventInterface for AssEvent {
    open spec fn start_spec(&self) -> Moment {
        self.start
    }

    open spec fn end_spec(&self) -> Moment {
        self.end
    }

    fn start(&self) -> (r: Moment) {
        AssEvent::start(self)
    }

    fn end(&self) -> (r: Moment) {
        AssEvent::end(self)
    }

    fn set_start(&mut self, moment: Moment) {
        AssEvent::set_start(self, moment)
    }

    fn set_end(&mut self, moment: Moment) {
        AssEvent::set_end(self, moment)
    }
}

impl TimedEvent for AssEvent {
}

impl TextEventInterface for SsaEvent {
    open spec fn text_spec(&self) -> Seq<char> {
        self.text@
    }

    fn text(&self) -> (r: String) {
        SsaEvent::text(self)
    }

    fn set_text(&mut self, text: String) {
        SsaEvent::set_text(self, text)
    }
}

impl TextEvent for SsaEvent {
    open spec fn unformatted_spec(&self) -> Seq<char> {
        crate::substation::ssa::data::unformatted(self.text@)
    }

    open spec fn plaintext_spec(&self) -> Seq<char> {
        crate::substation::ssa::data::plaintext(self.text@)
    }

    fn unformatted_text(&self) -> (r: String) {
        SsaEvent::unformatted_text(self)
    }

    fn as_plaintext(&self) -> (r: String) {
        SsaEvent::as_plaintext(self)
    }
}

impl TimedEventInterface for SsaEvent {
    open spec fn start_spec(&self) -> Moment {
        self.start
    }

    open spec fn end_spec(&self) -> Moment {
        self.end
    }

    fn start(&self) -> (r: Moment) {
        SsaEvent::start(self)
    }

    fn end(&self) -> (r: Moment) {
        SsaEvent::end(self)
    }

    fn set_start(&mut self, moment: Moment) {
        SsaEvent::set_start(self, moment)
    }

    fn set_end(&mut self, moment: Moment) {
        SsaEvent::set_end(self, moment)
    }
}

impl TimedEvent for SsaEvent {
}

impl TextEventInterface for SubRipEvent {
    open spec fn text_spec(&self) -> Seq<char> {
        self.text@
    }

    fn text(&self) -> (r: String) {
        SubRipEvent::text(self)
    }

    fn set_text(&mut self, text: String) {
        SubRipEvent::set_text(self, text)
    }
}

impl TextEvent for SubRipEvent {
    open spec fn unformatted_spec(&self) -> Seq<char> {
        crate::subrip::data::unformatted(self.text@)
    }

    open spec fn plaintext_spec(&self) -> Seq<char> {
        crate::subrip::data::unformatted(self.text@)
    }

    fn unformatted_text(&self) -> (r: String) {
        SubRipEvent::unformatted_text(self)
    }

    fn as_plaintext(&self) -> (r: String) {
        SubRipEvent::as_plaintext(self)
    }
}

impl TimedEventInterface for SubRipEvent {
    open spec fn start_spec(&self) -> Moment {
        self.start
    }

    open spec fn end_spec(&self) -> Moment {
        self.end
    }

    fn start(&self) -> (r: Moment) {
        SubRipEvent::start(self)
    }

    fn end(&self) -> (r: Moment) {
        SubRipEvent::end(self)
    }

    fn set_start(&mut self, moment: Moment) {
        SubRipEvent::set_start(self, moment)
    }

    fn set_end(&mut self, moment: Moment) {
        SubRipEvent::set_end(self, moment)
    }
}

impl TimedEvent for SubRipEvent {
}

impl TextEventInterface for WebVttCue {
    open spec fn text_spec(&self) -> Seq<char> {
        self.text@
    }

    fn text(&self) -> (r: String) {
        WebVttCue::text(self)
    }

    fn set_text(&mut self, text: String) {
        WebVttCue::set_text(self, text)
    }
}

impl TextEvent for WebVttCue {
    open spec fn unformatted_spec(&self) -> Seq<char> {
        crate::webvtt::data::unformatted(self.text@)
    }

    open spec fn plaintext_spec(&self) -> Seq<char> {
        crate::webvtt::data::unformatted(self.text@)
    }

    fn unformatted_text(&self) -> (r: String) {
        WebVttCue::unformatted_text(self)
    }

    fn as_plaintext(&self) -> (r: String) {
        WebVttCue::as_plaintext(self)
    }
}

impl TimedEventInterface for WebVttCue {
    open spec fn start_spec(&self) -> Moment {
        self.start
    }

    open spec fn end_spec(&self) -> Moment {
        self.end
    }

    fn start(&self) -> (r: Moment) {
        WebVttCue::start(self)
    }

    fn end(&self) -> (r: Moment) {
        WebVttCue::end(self)
    }

    fn set_start(&mut self, moment: Moment) {
        WebVttCue::set_start(self, moment)
    }

    fn set_end(&mut self, moment: Moment) {
        WebVttCue::set_end(self, moment)
    }
}

impl TimedEvent for WebVttCue {
}

impl TextEventInterface for TimedMicroDvdEvent {
    open spec fn text_spec(&self) -> Seq<char> {
        self.text@
    }

    fn text(&self) -> (r: String) {
        TimedMicroDvdEvent::text(self)
    }

    fn set_text(&mut self, text: String) {
        TimedMicroDvdEvent::set_text(self, text)
    }
}

impl TextEvent for TimedMicroDvdEvent {
    open spec fn unformatted_spec(&self) -> Seq<char> {
        self.text@
    }

    open spec fn plaintext_spec(&self) -> Seq<char> {
        crate::microdvd::data::plaintext(self.text@)
    }

    fn unformatted_text(&self) -> (r: String) {
        TimedMicroDvdEvent::unformatted_text(self)
    }

    fn as_plaintext(&self) -> (r: String) {
        TimedMicroDvdEvent::as_plaintext(self)
    }
}

impl TimedEventInterface for TimedMicroDvdEvent {
    open spec fn start_spec(&self) -> Moment {
        self.start
    }

    open spec fn end_spec(&self) -> Moment {
        self.end
    }

    fn start(&self) -> (r: Moment) {
        TimedMicroDvdEvent::start(self)
    }

    fn end(&self) -> (r: Moment) {
        TimedMicroDvdEvent::end(self)
    }

    fn set_start(&mut self, moment: Moment) {
        TimedMicroDvdEvent::set_start(self, moment)
    }

    fn set_end(&mut self, moment: Moment) {
        TimedMicroDvdEvent::set_end(self, moment)
    }
}

impl TimedEvent for TimedMicroDvdEvent {
}

impl TextEventInterface for MicroDvdEvent {
    open spec fn text_spec(&self) -> Seq<char> {
        self.text@
    }

    fn text(&self) -> (r: String) {
        MicroDvdEvent::text(self)
    }

    fn set_text(&mut self, text: String) {
        MicroDvdEvent::set_text(self, text)
    }
}

impl TextEvent for MicroDvdEvent {
    open spec fn unformatted_spec(&self) -> Seq<char> {
        self.text@
    }

    open spec fn plaintext_spec(&self) -> Seq<char> {
        crate::microdvd::data::plaintext(self.text@)
    }

    fn unformatted_text(&self) -> (r: String) {
        MicroDvdEvent::unformatted_text(self)
    }

    fn as_plaintext(&self) -> (r: String) {
        MicroDvdEvent::as_plaintext(self)
    }
}

impl Subtitle for AssSubtitle {
    type Event = AssEvent;

    open spec fn events_spec(&self) -> Seq<AssEvent> {
        self.spec_events()
    }

    fn events(&self) -> (r: &[AssEvent]) {
        AssSubtitle::events(self)
    }

    fn events_mut(&mut self) -> (r: &mut [AssEvent]) {
        AssSubtitle::events_mut(self)
    }
}

impl TextSubtitle for AssSubtitle {
    /// Strip formatting tags from the dialogue in addition to deleting
    /// styles
    fn strip_formatting(&mut self) {
        AssSubtitle::strip_formatting(self);
        assert(self@.dialogue.len() == self.events_spec().len());
        assert(old(self)@.dialogue.len() == old(self).events_spec().len());
        assert forall|k: int| 0 <= k < old(self).events_spec().len() implies (
            #[trigger] self.events_spec()[k]
        ).text_spec()
            == old(self).events_spec()[k].unformatted_spec() by {
            assert(
                self@.dialogue[k] == crate::substation::ass::data::stripped_event(
                    old(self)@.dialogue[k]
                )
            );
            assert(self@.dialogue[k] == self.events_spec()[k]@);
            assert(old(self)@.dialogue[k] == old(self).events_spec()[k]@);
        }
    }
}

impl TimedSubtitle for AssSubtitle {
}

impl Subtitle for SsaSubtitle {
    type Event = SsaEvent;

    open spec fn events_spec(&self) -> Seq<SsaEvent> {
        self.spec_events()
    }

    fn events(&self) -> (r: &[SsaEvent]) {
        SsaSubtitle::events(self)
    }

    fn events_mut(&mut self) -> (r: &mut [SsaEvent]) {
        SsaSubtitle::events_mut(self)
    }
}

impl TextSubtitle for SsaSubtitle {
    /// Strip formatting tags from the dialogue in addition to deleting
    /// styles
    fn strip_formatting(&mut self) {
        SsaSubtitle::strip_formatting(self);
        assert(self@.dialogue.len() == self.events_spec().len());
        assert(old(self)@.dialogue.len() == old(self).events_spec().len());
        assert forall|k: int| 0 <= k < old(self).events_spec().len() implies (
            #[trigger] self.events_spec()[k]
        ).text_spec()
            == old(self).events_spec()[k].unformatted_spec() by {
            assert(
                self@.dialogue[k] == crate::substation::ssa::data::stripped_event(
                    old(self)@.dialogue[k]
                )
            );
            assert(self@.dialogue[k] == self.events_spec()[k]@);
            assert(old(self)@.dialogue[k] == old(self).events_spec()[k]@);
        }
    }
}

impl TimedSubtitle for SsaSubtitle {
}

impl Subtitle for SubRipSubtitle {
    type Event = SubRipEvent;

    open spec fn events_spec(&self) -> Seq<SubRipEvent> {
        self.spec_events()
    }

    fn events(&self) -> (r: &[SubRipEvent]) {
        SubRipSubtitle::events(self)
    }

    fn events_mut(&mut self) -> (r: &mut [SubRipEvent]) {
        SubRipSubtitle::events_mut(self)
    }
}

impl TextSubtitle for SubRipSubtitle {
}

impl TimedSubtitle for SubRipSubtitle {
}

impl Subtitle for WebVttSubtitle {
    type Event = WebVttCue;

    open spec fn events_spec(&self) -> Seq<WebVttCue> {
        self.spec_events()
    }

    fn events(&self) -> (r: &[WebVttCue]) {
        WebVttSubtitle::events(self)
    }

    fn events_mut(&mut self) -> (r: &mut [WebVttCue]) {
        WebVttSubtitle::events_mut(self)
    }
}

impl TextSubtitle for WebVttSubtitle {
}

impl TimedSubtitle for WebVttSubtitle {
}

impl Subtitle for TimedMicroDvdSubtitle {
    type Event = TimedMicroDvdEvent;

    open spec fn events_spec(&self) -> Seq<TimedMicroDvdEvent> {
        self.spec_events()
    }

    fn events(&self) -> (r: &[TimedMicroDvdEvent]) {
        TimedMicroDvdSubtitle::events(self)
    }

    fn events_mut(&mut self) -> (r: &mut [TimedMicroDvdEvent]) {
        TimedMicroDvdSubtitle::events_mut(self)
    }
}

impl TextSubtitle for TimedMicroDvdSubtitle {
}

impl TimedSubtitle for TimedMicroDvdSubtitle {
}

impl Subtitle for MicroDvdSubtitle {
    type Event = MicroDvdEvent;

    open spec fn events_spec(&self) -> Seq<MicroDvdEvent> {
        self.spec_events()
    }

    fn events(&self) -> (r: &[MicroDvdEvent]) {
        MicroDvdSubtitle::events(self)
    }

    fn events_mut(&mut self) -> (r: &mut [MicroDvdEvent]) {
        MicroDvdSubtitle::events_mut(self)
    }
}

impl TextSubtitle for MicroDvdSubtitle {
}

} // verus!
