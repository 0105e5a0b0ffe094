//! The configuration: flags, experiments, rollouts and their traffic.

use crate::search::{first_index, first_index_from, first_match};
use crate::text::str_eq;
use vstd::prelude::*;
use vstd::string::*;

pub mod event;
pub mod experiment;
pub mod feature_flag;
pub mod rollout;
pub mod traffic_allocation;
pub mod variation;

pub use event::{Event, EventView};
pub use experiment::{Experiment, ExperimentView};
pub use feature_flag::{FeatureFlag, FeatureFlagView};
pub use rollout::{experiment_views, Rollout, RolloutView};
pub use traffic_allocation::{
    TrafficAllocation, TrafficAllocationView, TrafficRange, TrafficRangeView,
};
pub use variation::{Variation, VariationView};

verus! {

/// A list of flags, each as a value.
pub open spec fn flag_views(flags: Seq<FeatureFlag>) -> Seq<FeatureFlagView> {
    flags.map_values(|f: FeatureFlag| f@)
}

/// A list of rollouts, each as a value.
pub open spec fn rollout_views(rollouts: Seq<Rollout>) -> Seq<RolloutView> {
    rollouts.map_values(|r: Rollout| r@)
}

/// A list of configured events, each as a value.
pub open spec fn event_views(events: Seq<Event>) -> Seq<EventView> {
    events.map_values(|e: Event| e@)
}

/// The condition "the flag has this key".
pub open spec fn flag_has_key(key: Seq<char>) -> spec_fn(FeatureFlagView) -> bool {
    |f: FeatureFlagView| f.key == key
}

/// The condition "the experiment has this id".
pub open spec fn experiment_has_id(id: Seq<char>) -> spec_fn(ExperimentView) -> bool {
    |e: ExperimentView| e.id == id
}

/// The condition "the rollout has this id".
pub open spec fn rollout_has_id(id: Seq<char>) -> spec_fn(RolloutView) -> bool {
    |r: RolloutView| r.id == id
}

/// The condition "the event has this key".
pub open spec fn event_has_key(key: Seq<char>) -> spec_fn(EventView) -> bool {
    |e: EventView| e.key == key
}

/// A configuration as a value.
pub struct DatafileView {
    pub account_id: Seq<char>,
    pub flags: Seq<FeatureFlagView>,
    pub experiments: Seq<ExperimentView>,
    pub rollouts: Seq<RolloutView>,
    pub events: Seq<EventView>,
}

impl DatafileView {
    /// The first flag with the given key.
    pub open spec fn flag(self, key: Seq<char>) -> Option<FeatureFlagView> {
        first_match(self.flags, flag_has_key(key))
    }

    /// The first experiment with the given id.
    pub open spec fn experiment(self, id: Seq<char>) -> Option<ExperimentView> {
        first_match(self.experiments, experiment_has_id(id))
    }

    /// The first rollout with the given id.
    pub open spec fn rollout(self, id: Seq<char>) -> Option<RolloutView> {
        first_match(self.rollouts, rollout_has_id(id))
    }

    /// The first event with the given key.
    pub open spec fn event(self, key: Seq<char>) -> Option<EventView> {
        first_match(self.events, event_has_key(key))
    }
}

/// The configuration of one account: its flags, experiments, rollouts and
/// events. It is not changed once it is built.
#[derive(Debug)]
pub struct Datafile {
    account_id: String,
    flags: Vec<FeatureFlag>,
    experiments: Vec<Experiment>,
    rollouts: Vec<Rollout>,
    events: Vec<Event>,
}

impl View for Datafile {
    type V = DatafileView;

    closed spec fn view(&self) -> DatafileView {
        DatafileView {
            account_id: self.account_id@,
            flags: flag_views(self.flags@),
            experiments: experiment_views(self.experiments@),
            rollouts: rollout_views(self.rollouts@),
            events: event_views(self.events@),
        }
    }
}

impl Datafile {
    /// A configuration with the given parts.
    pub fn new(
        account_id: &str,
        flags: Vec<FeatureFlag>,
        experiments: Vec<Experiment>,
        rollouts: Vec<Rollout>,
        events: Vec<Event>,
    ) -> (datafile: Datafile)
        ensures
            datafile@ == (DatafileView {
                account_id: account_id@,
                flags: flag_views(flags@),
                experiments: experiment_views(experiments@),
                rollouts: rollout_views(rollouts@),
                events: event_views(events@),
            }),
    {
        Datafile { account_id: account_id.to_owned(), flags, experiments, rollouts, events }
    }

    /// The id of the account that the configuration belongs to.
    pub fn account_id(&self) -> (id: &str)
        ensures
            id@ == self@.account_id,
    {
        self.account_id.as_str()
    }

    /// The first flag with the given key.
    pub fn flag(&self, flag_key: &str) -> (flag: Option<&FeatureFlag>)
        ensures
            match flag {
                Some(f) => self@.flag(flag_key@) == Some(f@),
                None => self@.flag(flag_key@) is None,
            },
    {
        let ghost views = self@.flags;
        let ghost p = flag_has_key(flag_key@);
        let mut i: usize = 0;
        while i < self.flags.len()
            invariant
                i <= self.flags.len(),
                views == flag_views(self.flags@),
                p == flag_has_key(flag_key@),
                first_index(views, p) == first_index_from(views, p, i as int),
            decreases self.flags.len() - i,
        {
            if str_eq(self.flags[i].key(), flag_key) {
                return Some(&self.flags[i]);
            }
            i += 1;
        }
        None
    }

    /// The first experiment with the given id.
    pub fn experiment(&self, experiment_id: &str) -> (experiment: Option<&Experiment>)
        ensures
            match experiment {
                Some(e) => self@.experiment(experiment_id@) == Some(e@),
                None => self@.experiment(experiment_id@) is None,
            },
    {
        let ghost views = self@.experiments;
        let ghost p = experiment_has_id(experiment_id@);
        let mut i: usize = 0;
        while i < self.experiments.len()
            invariant
                i <= self.experiments.len(),
                views == experiment_views(self.experiments@),
                p == experiment_has_id(experiment_id@),
                first_index(views, p) == first_index_from(views, p, i as int),
            decreases self.experiments.len() - i,
        {
            if str_eq(self.experiments[i].id(), experiment_id) {
                return Some(&self.experiments[i]);
            }
            i += 1;
        }
        None
    }

    /// The first rollout with the given id.
    pub fn rollout(&self, rollout_id: &str) -> (rollout: Option<&Rollout>)
        ensures
            match rollout {
                Some(r) => self@.rollout(rollout_id@) == Some(r@),
                None => self@.rollout(rollout_id@) is None,
            },
    {
        let ghost views = self@.rollouts;
        let ghost p = rollout_has_id(rollout_id@);
        let mut i: usize = 0;
        while i < self.rollouts.len()
            invariant
                i <= self.rollouts.len(),
                views == rollout_views(self.rollouts@),
                p == rollout_has_id(rollout_id@),
                first_index(views, p) == first_index_from(views, p, i as int),
            decreases self.rollouts.len() - i,
        {
            if str_eq(self.rollouts[i].id(), rollout_id) {
                return Some(&self.rollouts[i]);
            }
            i += 1;
        }
        None
    }

    /// The first event with the given key.
    pub fn event(&self, event_key: &str) -> (event: Option<&Event>)
        ensures
            match event {
                Some(e) => self@.event(event_key@) == Some(e@),
                None => self@.event(event_key@) is None,
            },
    {
        let ghost views = self@.events;
        let ghost p = event_has_key(event_key@);
        let mut i: usize = 0;
        while i < self.events.len()
            invariant
                i <= self.events.len(),
                views == event_views(self.events@),
                p == event_has_key(event_key@),
                first_index(views, p) == first_index_from(views, p, i as int),
            decreases self.events.len() - i,
        {
            if str_eq(self.events[i].key(), event_key) {
                return Some(&self.events[i]);
            }
            i += 1;
        }
        None
    }
}

} // verus!
