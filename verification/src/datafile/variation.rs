//! One arm of an experiment.

use vstd::prelude::*;
use vstd::string::*;

verus! {

/// A variation as a value: its id, its key, and whether the feature is on.
pub struct VariationView {
    pub id: Seq<char>,
    pub key: Seq<char>,
    pub is_feature_enabled: bool,
}

/// One arm of an experiment.
#[derive(Debug)]
pub struct Variation {
    id: String,
    key: String,
    is_feature_enabled: bool,
}

impl View for Variation {
    type V = VariationView;

    closed spec fn view(&self) -> VariationView {
        VariationView {
            id: self.id@,
            key: self.key@,
            is_feature_enabled: self.is_feature_enabled,
        }
    }
}

impl Clone for Variation {
    fn clone(&self) -> (copy: Self)
        ensures
            copy@ == self@,
    {
        Variation {
            id: self.id.clone(),
            key: self.key.clone(),
            is_feature_enabled: self.is_feature_enabled,
        }
    }
}

impl Variation {
    /// A variation with the given id and key.
    pub fn new(id: &str, key: &str, is_feature_enabled: bool) -> (variation: Variation)
        ensures
            variation@ == (VariationView { id: id@, key: key@, is_feature_enabled }),
    {
        Variation { id: id.to_owned(), key: key.to_owned(), is_feature_enabled }
    }

    /// The id of the variation.
    pub fn id(&self) -> (id: &str)
        ensures
            id@ == self@.id,
    {
        self.id.as_str()
    }

    /// The key of the variation.
    pub fn key(&self) -> (key: &str)
        ensures
            key@ == self@.key,
    {
        self.key.as_str()
    }

    /// Whether the feature is on for a user who sees this variation.
    pub fn is_feature_enabled(&self) -> (enabled: bool)
        ensures
            enabled == self@.is_feature_enabled,
    {
        self.is_feature_enabled
    }
}

} // verus!
