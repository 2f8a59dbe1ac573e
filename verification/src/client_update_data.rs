//! What the core tells the application: an ordered, append-only list of
//! events that payload handlers fill and the application drains.

use vstd::prelude::*;

verus! {

/// One event for the application.
#[derive(Debug, Clone, PartialEq, Eq)]
pub enum ClientUpdateData {
    /// A change of state that the user should see.
    Message(String),
    /// A handler could not finish its work; the text says why.
    Error(String),
}

/// The events that wait for the application, oldest first.
#[derive(Debug)]
pub struct EventSink {
    events: Vec<ClientUpdateData>,
}

impl View for EventSink {
    type V = Seq<ClientUpdateData>;

    closed spec fn view(&self) -> Seq<ClientUpdateData> {
        self.events@
    }
}

impl EventSink {
    /// A sink with no events.
    pub fn new() -> (sink: EventSink)
        ensures
            sink@ == Seq::<ClientUpdateData>::empty(),
    {
        EventSink { events: Vec::new() }
    }

    /// Appends `event` after the events already there.
    pub fn push(&mut self, event: ClientUpdateData)
        ensures
            final(self)@ == old(self)@.push(event),
    {
        self.events.push(event);
    }

    /// How many events wait.
    pub fn len(&self) -> (n: usize)
        ensures
            n == self@.len(),
    {
        self.events.len()
    }

    /// Whether no event waits.
    pub fn is_empty(&self) -> (empty: bool)
        ensures
            empty == (self@.len() == 0),
    {
        self.events.len() == 0
    }

    /// Hands over every waiting event, oldest first, and leaves the sink
    /// empty.  Only the application calls this.
    pub fn drain(&mut self) -> (events: Vec<ClientUpdateData>)
        ensures
            events@ == old(self)@,
            final(self)@ == Seq::<ClientUpdateData>::empty(),
    {
        let mut taken: Vec<ClientUpdateData> = Vec::new();
        std::mem::swap(&mut self.events, &mut taken);
        taken
    }
}

} // verus!
