//! The result of deciding a feature flag for a user.

use vstd::prelude::*;
use vstd::string::*;

pub mod decide_options;
pub mod engine;

pub use decide_options::DecideOptions;

verus! {

/// A decision as a value.
pub struct DecisionView {
    pub flag_key: Seq<char>,
    pub campaign_id: Seq<char>,
    pub experiment_id: Seq<char>,
    pub variation_id: Seq<char>,
    pub variation_key: Seq<char>,
    pub enabled: bool,
}

impl DecisionView {
    /// The decision for a flag that nothing decides: the feature is off, the
    /// variation key is `off` and every id is `-1`.
    pub open spec fn off(flag_key: Seq<char>) -> DecisionView {
        DecisionView {
            flag_key,
            campaign_id: "-1"@,
            experiment_id: "-1"@,
            variation_id: "-1"@,
            variation_key: "off"@,
            enabled: false,
        }
    }
}

/// The decision for one user and one feature flag.
#[derive(Debug)]
pub struct Decision {
    flag_key: String,
    campaign_id: String,
    experiment_id: String,
    variation_id: String,
    variation_key: String,
    enabled: bool,
}

impl View for Decision {
    type V = DecisionView;

    closed spec fn view(&self) -> DecisionView {
        DecisionView {
            flag_key: self.flag_key@,
            campaign_id: self.campaign_id@,
            experiment_id: self.experiment_id@,
            variation_id: self.variation_id@,
            variation_key: self.variation_key@,
            enabled: self.enabled,
        }
    }
}

impl Clone for Decision {
    fn clone(&self) -> (copy: Self)
        ensures
            copy@ == self@,
    {
        Decision {
            flag_key: self.flag_key.clone(),
            campaign_id: self.campaign_id.clone(),
            experiment_id: self.experiment_id.clone(),
            variation_id: self.variation_id.clone(),
            variation_key: self.variation_key.clone(),
            enabled: self.enabled,
        }
    }
}

impl Decision {
    /// A decision with the given fields.
    pub fn new(
        flag_key: &str,
        campaign_id: &str,
        experiment_id: &str,
        variation_id: &str,
        variation_key: &str,
        enabled: bool,
    ) -> (decision: Decision)
        ensures
            decision@ == (DecisionView {
                flag_key: flag_key@,
                campaign_id: campaign_id@,
                experiment_id: experiment_id@,
                variation_id: variation_id@,
                variation_key: variation_key@,
                enabled,
            }),
    {
        Decision {
            flag_key: flag_key.to_owned(),
            campaign_id: campaign_id.to_owned(),
            experiment_id: experiment_id.to_owned(),
            variation_id: variation_id.to_owned(),
            variation_key: variation_key.to_owned(),
            enabled,
        }
    }

    /// The decision for a flag that nothing decides.
    pub fn off(flag_key: &str) -> (decision: Decision)
        ensures
            decision@ == DecisionView::off(flag_key@),
    {
        Decision::new(flag_key, "-1", "-1", "-1", "off", false)
    }

    /// The key of the flag that was decided.
    pub fn flag_key(&self) -> (key: &str)
        ensures
            key@ == self@.flag_key,
    {
        self.flag_key.as_str()
    }

    /// Whether the feature is on for the user.
    pub fn enabled(&self) -> (enabled: bool)
        ensures
            enabled == self@.enabled,
    {
        self.enabled
    }

    /// The key of the variation that the user sees.
    pub fn variation_key(&self) -> (key: &str)
        ensures
            key@ == self@.variation_key,
    {
        self.variation_key.as_str()
    }

    /// The id of the campaign that the decision is counted for.
    pub fn campaign_id(&self) -> (id: &str)
        ensures
            id@ == self@.campaign_id,
    {
        self.campaign_id.as_str()
    }

    /// The id of the experiment that placed the user.
    pub fn experiment_id(&self) -> (id: &str)
        ensures
            id@ == self@.experiment_id,
    {
        self.experiment_id.as_str()
    }

    /// The id of the variation that the user sees.
    pub fn variation_id(&self) -> (id: &str)
        ensures
            id@ == self@.variation_id,
    {
        self.variation_id.as_str()
    }
}

} // verus!
