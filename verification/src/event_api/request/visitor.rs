//! One reported user of a payload.

use crate::conversion::{Conversion, ConversionView};
use crate::decision::{Decision, DecisionView};
use crate::event_api::request::snapshot::{Snapshot, SnapshotView};
use vstd::prelude::*;
use vstd::string::*;

verus! {

/// A visitor as a value.
#[verifier::ext_equal]
pub struct VisitorView {
    pub visitor_id: Seq<char>,
    pub snapshot: SnapshotView,
}

impl VisitorView {
    /// The visitor with the given id and an empty snapshot.
    pub open spec fn new(visitor_id: Seq<char>) -> VisitorView {
        VisitorView { visitor_id, snapshot: SnapshotView::empty() }
    }

    /// The visitor with one more decision entry.
    pub open spec fn with_decision(self, decision: DecisionView) -> VisitorView {
        VisitorView { snapshot: self.snapshot.with_decision(decision), ..self }
    }

    /// The visitor with one more event.
    pub open spec fn with_event(self, conversion: ConversionView) -> VisitorView {
        VisitorView { snapshot: self.snapshot.with_event(conversion), ..self }
    }
}

/// One reported user: the user's id and exactly one snapshot.
#[derive(Debug)]
pub struct Visitor {
    visitor_id: String,
    snapshot: Snapshot,
}

impl View for Visitor {
    type V = VisitorView;

    closed spec fn view(&self) -> VisitorView {
        VisitorView { visitor_id: self.visitor_id@, snapshot: self.snapshot@ }
    }
}

impl Visitor {
    /// The visitor with the given id and an empty snapshot.
    pub fn new(visitor_id: &str) -> (visitor: Visitor)
        ensures
            visitor@ == VisitorView::new(visitor_id@),
    {
        Visitor { visitor_id: visitor_id.to_owned(), snapshot: Snapshot::new() }
    }

    /// Adds the entry that reports `decision` to the snapshot.
    pub fn add_decision(&mut self, decision: &Decision)
        ensures
            final(self)@ == old(self)@.with_decision(decision@),
    {
        self.snapshot.add_decision(decision);
    }

    /// Adds a new event that reports `conversion` to the snapshot.
    pub fn add_event(&mut self, conversion: &Conversion)
        ensures
            final(self)@ == old(self)@.with_event(conversion@),
    {
        self.snapshot.add_event(conversion);
    }

    /// The id of the visitor.
    pub fn visitor_id(&self) -> (id: &str)
        ensures
            id@ == self@.visitor_id,
    {
        self.visitor_id.as_str()
    }

    /// The snapshot of the visitor.
    pub fn snapshot(&self) -> (snapshot: &Snapshot)
        ensures
            snapshot@ == self@.snapshot,
    {
        &self.snapshot
    }
}

} // verus!
