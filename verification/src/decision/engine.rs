//! The decision procedure as a function of the configuration.
//!
//! A flag is decided by the first of its experiments that places the user. If
//! none does, the rules of the flag's rollout are tried in the same way. If
//! nothing places the user, or the flag is not known, the decision is "off".

use crate::datafile::{DatafileView, ExperimentView, FeatureFlagView, RolloutView, VariationView};
use crate::decision::{DecideOptions, DecisionView};
use crate::search::{first_index, first_match, lemma_first_index_found, lemma_first_index_is};
use vstd::prelude::*;

verus! {

/// Where a placement comes from.
pub enum DecisionSource {
    /// One of the flag's experiments placed the user.
    Experiment,
    /// A rule of the flag's rollout placed the user.
    Rollout,
}

/// A user's place in an experiment: the experiment and the variation.
pub struct Placement {
    pub experiment: ExperimentView,
    pub variation: VariationView,
}

/// A placement together with its source.
pub struct SourcedPlacement {
    pub source: DecisionSource,
    pub placement: Placement,
}

/// The user's place in one experiment, if the experiment places the user.
pub open spec fn place_in(experiment: ExperimentView, user_id: Seq<char>) -> Option<Placement> {
    match experiment.place(user_id) {
        Some(variation) => Some(Placement { experiment, variation }),
        None => None,
    }
}

/// The user's place in the experiment with the given id. `None` where the
/// configuration has no such experiment.
pub open spec fn place_by_id(datafile: DatafileView, experiment_id: Seq<char>, user_id: Seq<char>)
    -> Option<Placement> {
    match datafile.experiment(experiment_id) {
        Some(experiment) => place_in(experiment, user_id),
        None => None,
    }
}

/// The condition "the experiment with this id places the user".
pub open spec fn places_by_id(datafile: DatafileView, user_id: Seq<char>) -> spec_fn(
    Seq<char>,
) -> bool {
    |experiment_id: Seq<char>| place_by_id(datafile, experiment_id, user_id) is Some
}

/// The condition "the experiment places the user".
pub open spec fn places(user_id: Seq<char>) -> spec_fn(ExperimentView) -> bool {
    |experiment: ExperimentView| experiment.place(user_id) is Some
}

/// The user's place in the first of the experiments, given by id, that places
/// the user.
pub open spec fn place_in_experiments(
    datafile: DatafileView,
    experiment_ids: Seq<Seq<char>>,
    user_id: Seq<char>,
) -> Option<Placement> {
    match first_index(experiment_ids, places_by_id(datafile, user_id)) {
        Some(i) => place_by_id(datafile, experiment_ids[i], user_id),
        None => None,
    }
}

/// The user's place in the first of the rules that places the user.
pub open spec fn place_in_rules(rules: Seq<ExperimentView>, user_id: Seq<char>) -> Option<
    Placement,
> {
    match first_match(rules, places(user_id)) {
        Some(rule) => place_in(rule, user_id),
        None => None,
    }
}

/// The rollout of a flag. `None` where the flag names none, or names one that
/// the configuration does not have.
pub open spec fn rollout_of(datafile: DatafileView, flag: FeatureFlagView) -> Option<RolloutView> {
    match flag.rollout_id {
        Some(id) => datafile.rollout(id),
        None => None,
    }
}

/// The user's place in the rollout of a flag.
pub open spec fn place_in_rollout(datafile: DatafileView, flag: FeatureFlagView, user_id: Seq<char>)
    -> Option<Placement> {
    match rollout_of(datafile, flag) {
        Some(rollout) => place_in_rules(rollout.experiments, user_id),
        None => None,
    }
}

/// The user's place for a flag: in the flag's experiments if one of them
/// places the user, else in the flag's rollout.
pub open spec fn place_for_flag(datafile: DatafileView, flag: FeatureFlagView, user_id: Seq<char>)
    -> Option<SourcedPlacement> {
    match place_in_experiments(datafile, flag.experiment_ids, user_id) {
        Some(placement) => Some(SourcedPlacement { source: DecisionSource::Experiment, placement }),
        None => match place_in_rollout(datafile, flag, user_id) {
            Some(placement) => Some(
                SourcedPlacement { source: DecisionSource::Rollout, placement },
            ),
            None => None,
        },
    }
}

/// Whether one of the flag's experiments places the user.
pub open spec fn placed_by_experiment(
    datafile: DatafileView,
    flag: FeatureFlagView,
    user_id: Seq<char>,
) -> bool {
    place_in_experiments(datafile, flag.experiment_ids, user_id) is Some
}

/// The decision that a placement stands for.
pub open spec fn decision_of(flag_key: Seq<char>, placement: Placement) -> DecisionView {
    DecisionView {
        flag_key,
        campaign_id: placement.experiment.campaign_id,
        experiment_id: placement.experiment.id,
        variation_id: placement.variation.id,
        variation_key: placement.variation.key,
        enabled: placement.variation.is_feature_enabled,
    }
}

/// The user's place for the flag with the given key. `None` where the flag is
/// not known or nothing places the user.
pub open spec fn place(datafile: DatafileView, user_id: Seq<char>, flag_key: Seq<char>) -> Option<
    SourcedPlacement,
> {
    match datafile.flag(flag_key) {
        Some(flag) => place_for_flag(datafile, flag, user_id),
        None => None,
    }
}

/// The decision for a user and a flag key.
pub open spec fn decide(datafile: DatafileView, user_id: Seq<char>, flag_key: Seq<char>)
    -> DecisionView {
    match place(datafile, user_id, flag_key) {
        Some(sourced) => decision_of(flag_key, sourced.placement),
        None => DecisionView::off(flag_key),
    }
}

/// Whether the decision for a user and a flag key is to be reported: it comes
/// from an experiment, and the options do not switch reporting off.
pub open spec fn is_reported(
    datafile: DatafileView,
    user_id: Seq<char>,
    flag_key: Seq<char>,
    options: DecideOptions,
) -> bool {
    !options.disable_decision_event && match place(datafile, user_id, flag_key) {
        Some(sourced) => sourced.source is Experiment,
        None => false,
    }
}

/// The first experiment of a flag that places the user decides the flag.
///
/// If the experiments before position `k` in the flag's list do not place
/// the user and the experiment at `k` does, the decision is that of the
/// experiment at `k`, and its source is an experiment: it is reported unless
/// the options switch reporting off.
pub proof fn first_placing_experiment_decides(
    datafile: DatafileView,
    user_id: Seq<char>,
    flag_key: Seq<char>,
    flag: FeatureFlagView,
    k: int,
    options: DecideOptions,
)
    requires
        datafile.flag(flag_key) == Some(flag),
        0 <= k < flag.experiment_ids.len(),
        forall|j: int|
            0 <= j < k ==> place_by_id(datafile, #[trigger] flag.experiment_ids[j], user_id)
                is None,
        place_by_id(datafile, flag.experiment_ids[k], user_id) is Some,
    ensures
        place(datafile, user_id, flag_key) == Some(
            SourcedPlacement {
                source: DecisionSource::Experiment,
                placement: place_by_id(datafile, flag.experiment_ids[k], user_id)->0,
            },
        ),
        decide(datafile, user_id, flag_key) == decision_of(
            flag_key,
            place_by_id(datafile, flag.experiment_ids[k], user_id)->0,
        ),
        is_reported(datafile, user_id, flag_key, options) == !options.disable_decision_event,
{
    let by_id = places_by_id(datafile, user_id);
    lemma_first_index_is(flag.experiment_ids, by_id, k);
}

/// A decision that comes from an experiment does not depend on the rollouts.
///
/// Two configurations with the same flags and experiments give the same
/// decision wherever one of the flag's experiments places the user.
pub proof fn experiment_decision_ignores_rollouts(
    datafile: DatafileView,
    other: DatafileView,
    user_id: Seq<char>,
    flag_key: Seq<char>,
)
    requires
        other.flags == datafile.flags,
        other.experiments == datafile.experiments,
        place(datafile, user_id, flag_key) is Some,
        place(datafile, user_id, flag_key)->0.source is Experiment,
    ensures
        place(other, user_id, flag_key) == place(datafile, user_id, flag_key),
        decide(other, user_id, flag_key) == decide(datafile, user_id, flag_key),
{
    let flag = datafile.flag(flag_key)->0;
    let ids = flag.experiment_ids;
    let here = places_by_id(datafile, user_id);
    let there = places_by_id(other, user_id);
    lemma_first_index_found(ids, here, 0);
    let k = first_index(ids, here)->0;
    lemma_first_index_is(ids, there, k);
}

/// A flag key that the configuration does not know is decided "off": the
/// feature is disabled, the variation key is `off`, every id is `-1`, and
/// the decision is not reported.
pub proof fn unknown_flag_is_off(
    datafile: DatafileView,
    user_id: Seq<char>,
    flag_key: Seq<char>,
    options: DecideOptions,
)
    requires
        datafile.flag(flag_key) is None,
    ensures
        decide(datafile, user_id, flag_key) == DecisionView::off(flag_key),
        decide(datafile, user_id, flag_key).flag_key == flag_key,
        !decide(datafile, user_id, flag_key).enabled,
        decide(datafile, user_id, flag_key).variation_key == "off"@,
        decide(datafile, user_id, flag_key).campaign_id == "-1"@,
        decide(datafile, user_id, flag_key).experiment_id == "-1"@,
        decide(datafile, user_id, flag_key).variation_id == "-1"@,
        !is_reported(datafile, user_id, flag_key, options),
{
}

/// A decision that comes from a rollout is never reported, whatever the
/// options say.
pub proof fn rollout_decision_is_never_reported(
    datafile: DatafileView,
    user_id: Seq<char>,
    flag_key: Seq<char>,
    options: DecideOptions,
)
    requires
        place(datafile, user_id, flag_key) is Some,
        place(datafile, user_id, flag_key)->0.source is Rollout,
    ensures
        !is_reported(datafile, user_id, flag_key, options),
{
}

/// A rollout decides only where no experiment of the flag places the user.
pub proof fn rollout_decides_after_experiments(
    datafile: DatafileView,
    user_id: Seq<char>,
    flag_key: Seq<char>,
)
    requires
        place(datafile, user_id, flag_key) is Some,
        place(datafile, user_id, flag_key)->0.source is Rollout,
    ensures
        datafile.flag(flag_key) is Some,
        forall|j: int|
            0 <= j < datafile.flag(flag_key)->0.experiment_ids.len() ==> place_by_id(
                datafile,
                #[trigger] datafile.flag(flag_key)->0.experiment_ids[j],
                user_id,
            ) is None,
{
    let flag = datafile.flag(flag_key)->0;
    let by_id = places_by_id(datafile, user_id);
    lemma_first_index_found(flag.experiment_ids, by_id, 0);
}

/// A decision that the options switch off is never reported, whatever it
/// comes from.
pub proof fn disabled_decision_is_never_reported(
    datafile: DatafileView,
    user_id: Seq<char>,
    flag_key: Seq<char>,
    options: DecideOptions,
)
    requires
        options.disable_decision_event,
    ensures
        !is_reported(datafile, user_id, flag_key, options),
{
}

} // verus!
