//! Subtitles that hold nothing but text and timing.

use crate::text::views;
use crate::timing::Moment;
use vstd::prelude::*;

verus! {

/// Basic subtitle data containing only the textual content and start/end timing with no style or
/// formatting information
#[derive(Clone, Debug)]
pub struct PlainSubtitle {
    events: Vec<PlainEvent>,
}

/// A basic event, containing only the most essential information: text to display without any
/// formatting, and the start and end time.
#[derive(Clone, Debug)]
pub struct PlainEvent {
    /// Textual content for the event. Should not contain any formatting tags.
    pub text: String,
    /// Start time of the event
    pub start: Moment,
    /// End time of the event
    pub end: Moment,
}

/// An event, as mathematical values.
pub struct PlainEventView {
    pub text: Seq<char>,
    pub start: Moment,
    pub end: Moment,
}

impl View for PlainEvent {
    type V = PlainEventView;

    open spec fn view(&self) -> PlainEventView {
        PlainEventView { text: self.text@, start: self.start, end: self.end }
    }
}

impl View for PlainSubtitle {
    type V = Seq<PlainEventView>;

    open spec fn view(&self) -> Seq<PlainEventView> {
        views(self.spec_events())
    }
}

impl Default for PlainSubtitle {
    fn default() -> (r: PlainSubtitle)
        ensures
            r.spec_events() == Seq::<PlainEvent>::empty(),
    {
        PlainSubtitle::new()
    }
}

impl PlainSubtitle {
    /// The events.
    pub closed spec fn spec_events(&self) -> Seq<PlainEvent> {
        self.events@
    }

    /// Create empty instance of `PlainSubtitle`
    pub fn new() -> (r: PlainSubtitle)
        ensures
            r.spec_events() == Seq::<PlainEvent>::empty(),
    {
        PlainSubtitle { events: Vec::new() }
    }

    /// Create new instance using a list of already defined [`PlainEvent`]s
    pub fn from_events(events: Vec<PlainEvent>) -> (r: PlainSubtitle)
        ensures
            r.spec_events() == events@,
    {
        PlainSubtitle { events }
    }

    /// Get list of events as a slice
    pub fn events(&self) -> (r: &[PlainEvent])
        ensures
            r@ == self.spec_events(),
    {
        self.events.as_slice()
    }

    /// Get list of events as a mutable slice
    pub fn events_mut(&mut self) -> (r: &mut [PlainEvent])
        ensures
            r@ == old(self).spec_events(),
            final(self).spec_events() == final(r)@,
    {
        self.events.as_mut_slice()
    }

    /// Retrieve event at index
    pub fn event(&self, index: usize) -> (r: Option<&PlainEvent>)
        ensures
            r == if index < self.spec_events().len() {
                Some(&self.spec_events()[index as int])
            } else {
                None::<&PlainEvent>
            },
    {
        if index < self.events.len() {
            Some(&self.events[index])
        } else {
            None
        }
    }

    /// Get mutable event at index
    pub fn event_mut(&mut self, index: usize) -> (r: Option<&mut PlainEvent>)
        ensures
            match r {
                Some(e) => index < old(self).spec_events().len() && *e == old(
                    self,
                ).spec_events()[index as int] && final(self).spec_events() == old(
                    self,
                ).spec_events().update(index as int, *final(e)),
                None => index >= old(self).spec_events().len() && final(self).spec_events() == old(
                    self,
                ).spec_events(),
            },
    {
        if index < self.events.len() {
            Some(&mut self.events[index])
        } else {
            None
        }
    }
}

} // verus!
