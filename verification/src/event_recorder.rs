//! The event log: records in the order in which they were appended, handed
//! out whole and emptied in one step when a batch is submitted.

use vstd::prelude::*;
use crate::events::event_views;
use crate::events::EventData;
use crate::events::EventRecord;

verus! {

/// An append-only log of event records. Its view is the sequence of the
/// records' contents, oldest first.
#[derive(Debug)]
pub struct EventRecorder {
    events: Vec<EventRecord>,
}

impl View for EventRecorder {
    type V = Seq<EventData>;

    closed spec fn view(&self) -> Seq<EventData> {
        event_views(self.events@)
    }
}

impl EventRecorder {
    /// An empty log.
    pub fn new() -> (r: EventRecorder)
        ensures
            r@ == Seq::<EventData>::empty(),
    {
        let r = EventRecorder { events: Vec::new() };
        assert(r@ =~= Seq::<EventData>::empty());
        r
    }

    /// Appends one record behind all the others.
    pub fn record(&mut self, event: EventRecord)
        ensures
            final(self)@ == old(self)@.push(event@),
    {
        self.events.push(event);
        assert(self@ =~= old(self)@.push(event@));
    }

    /// Appends `events`, in their order, behind all the others.
    pub fn extend(&mut self, events: Vec<EventRecord>)
        ensures
            final(self)@ == old(self)@ + event_views(events@),
    {
        let mut events = events;
        let ghost added = events@;
        self.events.append(&mut events);
        assert(self@ =~= old(self)@ + event_views(added));
    }

    /// The records queued at present, oldest first.
    pub fn get_events(&self) -> (r: &Vec<EventRecord>)
        ensures
            event_views(r@) == self@,
    {
        &self.events
    }

    /// How many records are queued.
    pub fn len(&self) -> (r: usize)
        ensures
            r == self@.len(),
    {
        self.events.len()
    }

    /// Whether nothing is queued.
    pub fn is_empty(&self) -> (r: bool)
        ensures
            r == (self@.len() == 0),
    {
        self.events.len() == 0
    }

    /// Empties the log.
    pub fn clear(&mut self)
        ensures
            final(self)@ == Seq::<EventData>::empty(),
    {
        self.events.clear();
        assert(self@ =~= Seq::<EventData>::empty());
    }

    /// Takes every queued record out, oldest first, and leaves the log empty:
    /// a record leaves the log in exactly one call.
    pub fn drain(&mut self) -> (r: Vec<EventRecord>)
        ensures
            event_views(r@) == old(self)@,
            final(self)@ == Seq::<EventData>::empty(),
    {
        let mut taken: Vec<EventRecord> = Vec::new();
        std::mem::swap(&mut self.events, &mut taken);
        assert(self@ =~= Seq::<EventData>::empty());
        taken
    }
}

} // verus!
