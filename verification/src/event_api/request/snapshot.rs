//! What one visitor contributes to a payload.

use crate::conversion::{Conversion, ConversionView};
use crate::event_api::request::decision::{Decision, DecisionView};
use crate::event_api::request::event::{Event, EventView};
use vstd::prelude::*;
use vstd::string::*;

verus! {

/// A list of decision entries, each as a value.
pub open spec fn decision_views(decisions: Seq<Decision>) -> Seq<DecisionView> {
    decisions.map_values(|d: Decision| d@)
}

/// A list of events, each as a value.
pub open spec fn event_views(events: Seq<Event>) -> Seq<EventView> {
    events.map_values(|e: Event| e@)
}

/// A snapshot as a value.
#[verifier::ext_equal]
pub struct SnapshotView {
    pub decisions: Seq<DecisionView>,
    pub events: Seq<EventView>,
}

impl SnapshotView {
    /// The snapshot without decisions and events.
    pub open spec fn empty() -> SnapshotView {
        SnapshotView { decisions: Seq::empty(), events: Seq::empty() }
    }

    /// The snapshot with one more decision entry, which reports `decision`.
    pub open spec fn with_decision(self, decision: crate::decision::DecisionView) -> SnapshotView {
        SnapshotView { decisions: self.decisions.push(DecisionView::of(decision)), ..self }
    }

    /// The snapshot with one more event, which reports `conversion`.
    pub open spec fn with_event(self, conversion: ConversionView) -> SnapshotView {
        SnapshotView { events: self.events.push(EventView::of(conversion)), ..self }
    }
}

/// The decisions and the events of one visitor.
#[derive(Debug)]
pub struct Snapshot {
    decisions: Vec<Decision>,
    events: Vec<Event>,
}

impl View for Snapshot {
    type V = SnapshotView;

    closed spec fn view(&self) -> SnapshotView {
        SnapshotView {
            decisions: decision_views(self.decisions@),
            events: event_views(self.events@),
        }
    }
}

impl Snapshot {
    /// The snapshot without decisions and events.
    pub fn new() -> (snapshot: Snapshot)
        ensures
            snapshot@ == SnapshotView::empty(),
    {
        Snapshot { decisions: Vec::new(), events: Vec::new() }
    }

    /// Adds the entry that reports `decision`.
    pub fn add_decision(&mut self, decision: &crate::decision::Decision)
        ensures
            final(self)@ == old(self)@.with_decision(decision@),
    {
        let entry = Decision::new(
            decision.campaign_id().to_owned(),
            decision.experiment_id().to_owned(),
            decision.variation_id().to_owned(),
        );
        self.decisions.push(entry);
    }

    /// Adds a new event that reports `conversion`.
    pub fn add_event(&mut self, conversion: &Conversion)
        ensures
            final(self)@ == old(self)@.with_event(conversion@),
    {
        let event = Event::new(
            conversion.event_id().to_owned(),
            conversion.event_key().to_owned(),
            conversion.properties().clone(),
            conversion.tags().clone(),
        );
        self.events.push(event);
    }

    /// The decision entries of the snapshot.
    pub fn decisions(&self) -> (decisions: &Vec<Decision>)
        ensures
            decision_views(decisions@) == self@.decisions,
    {
        &self.decisions
    }

    /// The events of the snapshot.
    pub fn events(&self) -> (events: &Vec<Event>)
        ensures
            event_views(events@) == self@.events,
    {
        &self.events
    }
}

} // verus!
