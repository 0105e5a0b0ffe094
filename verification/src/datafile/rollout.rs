//! A rollout: targeting rules that are tried when no experiment applies.

use crate::datafile::experiment::{Experiment, ExperimentView};
use vstd::prelude::*;
use vstd::string::*;

verus! {

/// A list of experiments, each as a value.
pub open spec fn experiment_views(experiments: Seq<Experiment>) -> Seq<ExperimentView> {
    experiments.map_values(|e: Experiment| e@)
}

/// A rollout as a value.
pub struct RolloutView {
    pub id: Seq<char>,
    pub experiments: Seq<ExperimentView>,
}

/// A rollout: an ordered list of targeting rules, each in the shape of an
/// experiment.
#[derive(Debug)]
pub struct Rollout {
    id: String,
    experiments: Vec<Experiment>,
}

impl View for Rollout {
    type V = RolloutView;

    closed spec fn view(&self) -> RolloutView {
        RolloutView { id: self.id@, experiments: experiment_views(self.experiments@) }
    }
}

impl Rollout {
    /// A rollout with the given id and rules.
    pub fn new(id: &str, experiments: Vec<Experiment>) -> (rollout: Rollout)
        ensures
            rollout@ == (RolloutView { id: id@, experiments: experiment_views(experiments@) }),
    {
        Rollout { id: id.to_owned(), experiments }
    }

    /// The id of the rollout.
    pub fn id(&self) -> (id: &str)
        ensures
            id@ == self@.id,
    {
        self.id.as_str()
    }

    /// The rules of the rollout, in the order in which they are tried.
    pub fn experiments(&self) -> (experiments: &Vec<Experiment>)
        ensures
            experiment_views(experiments@) == self@.experiments,
    {
        &self.experiments
    }
}

} // verus!
