//! A decision as the event endpoint takes it.

use vstd::prelude::*;
use vstd::string::*;

verus! {

/// An entry of a snapshot's decisions, as a value.
#[verifier::ext_equal]
pub struct DecisionView {
    pub campaign_id: Seq<char>,
    pub experiment_id: Seq<char>,
    pub variation_id: Seq<char>,
}

impl DecisionView {
    /// The entry that reports a decision.
    pub open spec fn of(decision: crate::decision::DecisionView) -> DecisionView {
        DecisionView {
            campaign_id: decision.campaign_id,
            experiment_id: decision.experiment_id,
            variation_id: decision.variation_id,
        }
    }
}

/// An entry of a snapshot's decisions: the campaign, the experiment and the
/// variation that a user was placed in.
#[derive(Debug)]
pub struct Decision {
    campaign_id: String,
    experiment_id: String,
    variation_id: String,
}

impl View for Decision {
    type V = DecisionView;

    closed spec fn view(&self) -> DecisionView {
        DecisionView {
            campaign_id: self.campaign_id@,
            experiment_id: self.experiment_id@,
            variation_id: self.variation_id@,
        }
    }
}

impl Decision {
    /// An entry with the given ids.
    pub fn new(
        campaign_id: String,
        experiment_id: String,
        variation_id: String,
    ) -> (decision: Decision)
        ensures
            decision@ == (DecisionView {
                campaign_id: campaign_id@,
                experiment_id: experiment_id@,
                variation_id: variation_id@,
            }),
    {
        Decision { campaign_id, experiment_id, variation_id }
    }

    /// The id of the campaign.
    pub fn campaign_id(&self) -> (id: &str)
        ensures
            id@ == self@.campaign_id,
    {
        self.campaign_id.as_str()
    }

    /// The id of the experiment.
    pub fn experiment_id(&self) -> (id: &str)
        ensures
            id@ == self@.experiment_id,
    {
        self.experiment_id.as_str()
    }

    /// The id of the variation.
    pub fn variation_id(&self) -> (id: &str)
        ensures
            id@ == self@.variation_id,
    {
        self.variation_id.as_str()
    }
}

} // verus!
