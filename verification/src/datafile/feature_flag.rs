//! A feature flag: the experiments and the rollout that decide it.

use vstd::prelude::*;
use vstd::string::*;

verus! {

/// A list of ids, each as a value.
pub open spec fn id_views(ids: Seq<String>) -> Seq<Seq<char>> {
    ids.map_values(|id: String| id@)
}

/// An id that may be absent, as a value.
pub open spec fn optional_id_view(id: Option<String>) -> Option<Seq<char>> {
    match id {
        Some(id) => Some(id@),
        None => None,
    }
}

/// A feature flag as a value.
pub struct FeatureFlagView {
    pub key: Seq<char>,
    pub rollout_id: Option<Seq<char>>,
    pub experiment_ids: Seq<Seq<char>>,
}

/// A feature flag: a key, the ids of its experiments in the order in which
/// they are tried, and the id of its rollout, if it has one.
#[derive(Debug)]
pub struct FeatureFlag {
    key: String,
    rollout_id: Option<String>,
    experiment_ids: Vec<String>,
}

impl View for FeatureFlag {
    type V = FeatureFlagView;

    closed spec fn view(&self) -> FeatureFlagView {
        FeatureFlagView {
            key: self.key@,
            rollout_id: optional_id_view(self.rollout_id),
            experiment_ids: id_views(self.experiment_ids@),
        }
    }
}

impl FeatureFlag {
    /// A flag with the given key, rollout and experiments.
    pub fn new(
        key: &str,
        rollout_id: Option<String>,
        experiment_ids: Vec<String>,
    ) -> (flag: FeatureFlag)
        ensures
            flag@ == (FeatureFlagView {
                key: key@,
                rollout_id: optional_id_view(rollout_id),
                experiment_ids: id_views(experiment_ids@),
            }),
    {
        FeatureFlag { key: key.to_owned(), rollout_id, experiment_ids }
    }

    /// The key of the flag.
    pub fn key(&self) -> (key: &str)
        ensures
            key@ == self@.key,
    {
        self.key.as_str()
    }

    /// The id of the flag's rollout, if it has one.
    pub fn rollout_id(&self) -> (id: Option<&str>)
        ensures
            match id {
                Some(id) => self@.rollout_id == Some(id@),
                None => self@.rollout_id is None,
            },
    {
        match &self.rollout_id {
            Some(id) => Some(id.as_str()),
            None => None,
        }
    }

    /// The ids of the flag's experiments, in the order in which they are tried.
    pub fn experiments_ids(&self) -> (ids: &Vec<String>)
        ensures
            id_views(ids@) == self@.experiment_ids,
    {
        &self.experiment_ids
    }
}

} // verus!
