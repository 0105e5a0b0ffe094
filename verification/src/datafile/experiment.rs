//! An experiment: variations and the traffic that each of them gets.

use crate::bucketing::{bucket_spec, bucketing_key_spec};
use crate::datafile::traffic_allocation::{TrafficAllocation, TrafficAllocationView};
use crate::datafile::variation::{Variation, VariationView};
use crate::search::{first_index, first_index_from, first_match};
use crate::text::str_eq;
use vstd::prelude::*;
use vstd::string::*;

verus! {

/// The variations of an experiment, each as a value.
pub open spec fn variation_views(variations: Seq<Variation>) -> Seq<VariationView> {
    variations.map_values(|v: Variation| v@)
}

/// The condition "the variation has this id".
pub open spec fn variation_has_id(id: Seq<char>) -> spec_fn(VariationView) -> bool {
    |v: VariationView| v.id == id
}

/// An experiment as a value.
pub struct ExperimentView {
    pub id: Seq<char>,
    pub campaign_id: Seq<char>,
    pub variations: Seq<VariationView>,
    pub traffic_allocation: TrafficAllocationView,
}

impl ExperimentView {
    /// The first variation of the experiment with the given id.
    pub open spec fn variation(self, id: Seq<char>) -> Option<VariationView> {
        first_match(self.variations, variation_has_id(id))
    }

    /// The variation that the user is placed in: the user's bucket value in
    /// this experiment selects a row of the traffic allocation, and the row
    /// names the variation. `None` where no row covers the bucket value or
    /// the experiment has no variation of that id.
    pub open spec fn place(self, user_id: Seq<char>) -> Option<VariationView> {
        match bucket_spec(bucketing_key_spec(user_id, self.id)) {
            Some(bucket_value) => self.variation_for_bucket(bucket_value),
            None => None,
        }
    }

    /// The variation that a bucket value falls to.
    pub open spec fn variation_for_bucket(self, bucket_value: int) -> Option<VariationView> {
        match self.traffic_allocation.variation(bucket_value) {
            Some(id) => self.variation(id),
            None => None,
        }
    }
}

/// An experiment, or one targeting rule of a rollout.
#[derive(Debug)]
pub struct Experiment {
    id: String,
    campaign_id: String,
    variations: Vec<Variation>,
    traffic_allocation: TrafficAllocation,
}

impl View for Experiment {
    type V = ExperimentView;

    closed spec fn view(&self) -> ExperimentView {
        ExperimentView {
            id: self.id@,
            campaign_id: self.campaign_id@,
            variations: variation_views(self.variations@),
            traffic_allocation: self.traffic_allocation@,
        }
    }
}

impl Experiment {
    /// An experiment with the given parts.
    pub fn new(
        id: &str,
        campaign_id: &str,
        variations: Vec<Variation>,
        traffic_allocation: TrafficAllocation,
    ) -> (experiment: Experiment)
        ensures
            experiment@ == (ExperimentView {
                id: id@,
                campaign_id: campaign_id@,
                variations: variation_views(variations@),
                traffic_allocation: traffic_allocation@,
            }),
    {
        Experiment {
            id: id.to_owned(),
            campaign_id: campaign_id.to_owned(),
            variations,
            traffic_allocation,
        }
    }

    /// The id of the experiment.
    pub fn id(&self) -> (id: &str)
        ensures
            id@ == self@.id,
    {
        self.id.as_str()
    }

    /// The id of the campaign that events of this experiment are counted for.
    pub fn campaign_id(&self) -> (id: &str)
        ensures
            id@ == self@.campaign_id,
    {
        self.campaign_id.as_str()
    }

    /// The variations of the experiment.
    pub fn variations(&self) -> (variations: &Vec<Variation>)
        ensures
            variation_views(variations@) == self@.variations,
    {
        &self.variations
    }

    /// The traffic allocation of the experiment.
    pub fn traffic_allocation(&self) -> (allocation: &TrafficAllocation)
        ensures
            allocation@ == self@.traffic_allocation,
    {
        &self.traffic_allocation
    }

    /// The first variation of the experiment with the given id.
    pub fn variation(&self, variation_id: &str) -> (variation: Option<&Variation>)
        ensures
            match variation {
                Some(v) => self@.variation(variation_id@) == Some(v@),
                None => self@.variation(variation_id@) is None,
            },
    {
        let ghost views = self@.variations;
        let ghost p = variation_has_id(variation_id@);
        let mut i: usize = 0;
        while i < self.variations.len()
            invariant
                i <= self.variations.len(),
                views == variation_views(self.variations@),
                p == variation_has_id(variation_id@),
                first_index(views, p) == first_index_from(views, p, i as int),
            decreases self.variations.len() - i,
        {
            if str_eq(self.variations[i].id(), variation_id) {
                return Some(&self.variations[i]);
            }
            i += 1;
        }
        None
    }
}

} // verus!
