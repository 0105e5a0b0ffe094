//! An event that the configuration knows by key.

use vstd::prelude::*;
use vstd::string::*;

verus! {

/// A configured event as a value.
pub struct EventView {
    pub id: Seq<char>,
    pub key: Seq<char>,
}

/// An event that conversions can be tracked for.
#[derive(Debug)]
pub struct Event {
    id: String,
    key: String,
}

impl View for Event {
    type V = EventView;

    closed spec fn view(&self) -> EventView {
        EventView { id: self.id@, key: self.key@ }
    }
}

impl Event {
    /// An event with the given id and key.
    pub fn new(id: &str, key: &str) -> (event: Event)
        ensures
            event@ == (EventView { id: id@, key: key@ }),
    {
        Event { id: id.to_owned(), key: key.to_owned() }
    }

    /// The id of the event.
    pub fn id(&self) -> (id: &str)
        ensures
            id@ == self@.id,
    {
        self.id.as_str()
    }

    /// The key of the event.
    pub fn key(&self) -> (key: &str)
        ensures
            key@ == self@.key,
    {
        self.key.as_str()
    }
}

} // verus!
