//! A user, and the decisions and conversions made for that user.

use crate::bucketing::{bucket, bucketing_key};
use crate::client::{Client, ClientView};
use crate::conversion::{Conversion, ConversionView};
use crate::datafile::feature_flag::id_views;
use crate::datafile::rollout::experiment_views;
use crate::datafile::{Experiment, FeatureFlag, Variation};
use crate::decision::engine::{
    decide, is_reported, place_for_flag, place_in, place_in_experiments, placed_by_experiment,
    places, places_by_id, rollout_of, Placement, SourcedPlacement,
};
use crate::decision::{DecideOptions, Decision, DecisionView};
use crate::search::{first_index, first_index_from};
use crate::string_map::StringMap;
use vstd::prelude::*;
use vstd::string::*;

verus! {

/// The attributes of a user, by name.
pub type UserAttributes = StringMap;

/// A user context as a value.
pub struct UserContextView {
    pub client: ClientView,
    pub user_id: Seq<char>,
    pub attributes: Map<Seq<char>, Seq<char>>,
}

/// A user of one client: the user's id and attributes.
///
/// Decisions depend on the configuration, the user id and the flag key alone.
/// The attributes are kept for whoever selects an audience.
#[derive(Debug)]
pub struct UserContext<'a> {
    client: &'a Client,
    user_id: &'a str,
    attributes: UserAttributes,
}

impl<'a> View for UserContext<'a> {
    type V = UserContextView;

    closed spec fn view(&self) -> UserContextView {
        UserContextView {
            client: self.client@,
            user_id: self.user_id@,
            attributes: self.attributes@,
        }
    }
}

impl<'a> UserContext<'a> {
    /// A context for the given user of the given client.
    pub fn new(
        client: &'a Client,
        user_id: &'a str,
        attributes: UserAttributes,
    ) -> (context: UserContext<'a>)
        ensures
            context@ == (UserContextView {
                client: client@,
                user_id: user_id@,
                attributes: attributes@,
            }),
    {
        UserContext { client, user_id, attributes }
    }

    /// Gives the attribute `key` the value `value`.
    pub fn set_attribute(&mut self, key: &str, value: &str)
        ensures
            final(self)@ == (UserContextView {
                attributes: old(self)@.attributes.insert(key@, value@),
                ..old(self)@
            }),
    {
        self.attributes.insert(key.to_owned(), value.to_owned());
    }

    /// The client that the user belongs to.
    pub fn client(&self) -> (client: &Client)
        ensures
            client@ == self@.client,
    {
        self.client
    }

    /// The id of the user.
    pub fn user_id(&self) -> (id: &str)
        ensures
            id@ == self@.user_id,
    {
        self.user_id
    }

    /// The attributes of the user.
    pub fn attributes(&self) -> (attributes: &UserAttributes)
        ensures
            attributes@ == self@.attributes,
    {
        &self.attributes
    }

    /// The conversion to report for an event without properties and tags.
    /// `None` where the configuration does not know the event.
    pub fn track_event(&self, event_key: &str) -> (conversion: Option<Conversion>)
        ensures
            conversion_view(conversion) == conversion_for(
                self@,
                event_key@,
                Map::<Seq<char>, Seq<char>>::empty(),
                Map::<Seq<char>, Seq<char>>::empty(),
            ),
    {
        self.track_event_with_properties_and_tags(event_key, StringMap::new(), StringMap::new())
    }

    /// The conversion to report for an event with properties and without
    /// tags. `None` where the configuration does not know the event.
    pub fn track_event_with_properties(&self, event_key: &str, properties: StringMap) -> (
        conversion: Option<Conversion>
    )
        ensures
            conversion_view(conversion) == conversion_for(
                self@,
                event_key@,
                properties@,
                Map::<Seq<char>, Seq<char>>::empty(),
            ),
    {
        self.track_event_with_properties_and_tags(event_key, properties, StringMap::new())
    }

    /// The conversion to report for an event with properties and tags. `None`
    /// where the configuration does not know the event.
    pub fn track_event_with_properties_and_tags(
        &self,
        event_key: &str,
        properties: StringMap,
        tags: StringMap,
    ) -> (conversion: Option<Conversion>)
        ensures
            conversion_view(conversion) == conversion_for(self@, event_key@, properties@, tags@),
    {
        match self.client.datafile().event(event_key) {
            Some(event) => Some(Conversion::new(event_key, event.id(), properties, tags)),
            None => None,
        }
    }

    /// The decision for a flag, and whether it is to be reported.
    pub fn decide(&self, flag_key: &str) -> (decided: (Decision, bool))
        ensures
            decided.0@ == decide(self@.client.datafile, self@.user_id, flag_key@),
            decided.1 == is_reported(
                self@.client.datafile,
                self@.user_id,
                flag_key@,
                DecideOptions { disable_decision_event: false },
            ),
    {
        let options = DecideOptions::default();
        self.decide_with_options(flag_key, &options)
    }

    /// The decision for a flag, and whether it is to be reported.
    ///
    /// The decision is that of the first experiment of the flag that places
    /// the user, else that of the first rule of the flag's rollout that does,
    /// else "off". It is a function of the configuration, the user id and the
    /// flag key. Only a decision of an experiment is reported, and only if
    /// the options allow it.
    pub fn decide_with_options(&self, flag_key: &str, options: &DecideOptions) -> (decided: (
        Decision,
        bool,
    ))
        ensures
            decided.0@ == decide(self@.client.datafile, self@.user_id, flag_key@),
            decided.1 == is_reported(self@.client.datafile, self@.user_id, flag_key@, *options),
            self@.client.datafile.flag(flag_key@) is None ==> decided.0@ == DecisionView::off(
                flag_key@,
            ) && !decided.1,
            decided.1 ==> !options.disable_decision_event && placed_by_experiment(
                self@.client.datafile,
                self@.client.datafile.flag(flag_key@)->0,
                self@.user_id,
            ),
    {
        let flag = match self.client.datafile().flag(flag_key) {
            Some(flag) => flag,
            None => {
                return (Decision::off(flag_key), false);
            },
        };
        let mut send_decision = !options.disable_decision_event;
        let decision = match self.decide_variation_for_flag(flag, &mut send_decision) {
            Some((experiment, variation)) => Decision::new(
                flag_key,
                experiment.campaign_id(),
                experiment.id(),
                variation.id(),
                variation.key(),
                variation.is_feature_enabled(),
            ),
            None => Decision::off(flag_key),
        };
        (decision, send_decision)
    }

    /// The user's place for a flag: the experiment and the variation.
    ///
    /// `send_decision` stays as it is where an experiment of the flag places
    /// the user, and becomes `false` otherwise.
    pub fn decide_variation_for_flag(&self, flag: &FeatureFlag, send_decision: &mut bool) -> (
        placed: Option<(&'a Experiment, &'a Variation)>
    )
        ensures
            placed_view(placed) == placement_of(
                place_for_flag(self@.client.datafile, flag@, self@.user_id),
            ),
            *final(send_decision) == (*old(send_decision) && placed_by_experiment(
                self@.client.datafile,
                flag@,
                self@.user_id,
            )),
    {
        let client: &'a Client = self.client;
        let datafile = client.datafile();
        let ids = flag.experiments_ids();
        let ghost flag_ids = flag@.experiment_ids;
        let ghost by_id = places_by_id(datafile@, self@.user_id);
        let mut i: usize = 0;
        while i < ids.len()
            invariant
                i <= ids.len(),
                datafile@ == self@.client.datafile,
                flag_ids == flag@.experiment_ids,
                flag_ids == id_views(ids@),
                by_id == places_by_id(datafile@, self@.user_id),
                first_index(flag_ids, by_id) == first_index_from(flag_ids, by_id, i as int),
            decreases ids.len() - i,
        {
            if let Some(experiment) = datafile.experiment(ids[i].as_str()) {
                if let Some(found) = self.decide_variation_for_experiment(experiment) {
                    return Some(found);
                }
            }
            i += 1;
        }
        *send_decision = false;
        let rollout = match flag.rollout_id() {
            Some(id) => match datafile.rollout(id) {
                Some(rollout) => rollout,
                None => {
                    return None;
                },
            },
            None => {
                return None;
            },
        };
        let rules = rollout.experiments();
        let ghost rule_views = rollout@.experiments;
        let ghost placing = places(self@.user_id);
        let mut j: usize = 0;
        while j < rules.len()
            invariant
                j <= rules.len(),
                *send_decision == false,
                place_in_experiments(self@.client.datafile, flag@.experiment_ids, self@.user_id)
                    is None,
                rollout_of(self@.client.datafile, flag@) == Some(rollout@),
                rule_views == rollout@.experiments,
                rule_views == experiment_views(rules@),
                placing == places(self@.user_id),
                first_index(rule_views, placing) == first_index_from(rule_views, placing, j as int),
            decreases rules.len() - j,
        {
            if let Some(found) = self.decide_variation_for_experiment(&rules[j]) {
                return Some(found);
            }
            j += 1;
        }
        None
    }

    /// The user's place in one experiment.
    ///
    /// The user id followed by the experiment id is hashed into a bucket
    /// value. The traffic allocation of the experiment maps the bucket value
    /// to a variation id, and the experiment maps the id to a variation.
    pub fn decide_variation_for_experiment<'b>(&self, experiment: &'b Experiment) -> (
        placed: Option<(&'b Experiment, &'b Variation)>
    )
        ensures
            placed_view(placed) == place_in(experiment@, self@.user_id),
    {
        let key = bucketing_key(self.user_id, experiment.id());
        let bucket_value: u64 = match bucket(key.as_str()) {
            Some(bucket_value) => bucket_value,
            None => {
                return None;
            },
        };
        let variation_id = match experiment.traffic_allocation().variation(bucket_value) {
            Some(variation_id) => variation_id,
            None => {
                return None;
            },
        };
        match experiment.variation(variation_id) {
            Some(variation) => Some((experiment, variation)),
            None => None,
        }
    }
}

/// A conversion that may be absent, as a value.
pub open spec fn conversion_view(conversion: Option<Conversion>) -> Option<ConversionView> {
    match conversion {
        Some(c) => Some(c@),
        None => None,
    }
}

/// An experiment and a variation that may be absent, as a placement.
pub open spec fn placed_view(placed: Option<(&Experiment, &Variation)>) -> Option<Placement> {
    match placed {
        Some(found) => Some(Placement { experiment: found.0@, variation: found.1@ }),
        None => None,
    }
}

/// A placement without its source.
pub open spec fn placement_of(sourced: Option<SourcedPlacement>) -> Option<Placement> {
    match sourced {
        Some(s) => Some(s.placement),
        None => None,
    }
}

/// The conversion that is reported when a user tracks an event: it carries
/// the id that the configuration gives the event. `None` where the
/// configuration does not know the event.
pub open spec fn conversion_for(
    user: UserContextView,
    event_key: Seq<char>,
    properties: Map<Seq<char>, Seq<char>>,
    tags: Map<Seq<char>, Seq<char>>,
) -> Option<ConversionView> {
    match user.client.datafile.event(event_key) {
        Some(event) => Some(ConversionView { event_key, event_id: event.id, properties, tags }),
        None => None,
    }
}

} // verus!
