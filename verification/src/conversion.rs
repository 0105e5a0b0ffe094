//! A conversion: an event that the caller tracks for a user.

use crate::string_map::StringMap;
use vstd::prelude::*;
use vstd::string::*;

verus! {

/// A conversion as a value.
pub struct ConversionView {
    pub event_key: Seq<char>,
    pub event_id: Seq<char>,
    pub properties: Map<Seq<char>, Seq<char>>,
    pub tags: Map<Seq<char>, Seq<char>>,
}

/// A conversion event.
#[derive(Debug)]
pub struct Conversion {
    event_key: String,
    event_id: String,
    properties: StringMap,
    tags: StringMap,
}

impl View for Conversion {
    type V = ConversionView;

    closed spec fn view(&self) -> ConversionView {
        ConversionView {
            event_key: self.event_key@,
            event_id: self.event_id@,
            properties: self.properties@,
            tags: self.tags@,
        }
    }
}

impl Clone for Conversion {
    fn clone(&self) -> (copy: Self)
        ensures
            copy@ == self@,
    {
        Conversion {
            event_key: self.event_key.clone(),
            event_id: self.event_id.clone(),
            properties: self.properties.clone(),
            tags: self.tags.clone(),
        }
    }
}

impl Conversion {
    /// A conversion with the given fields.
    pub fn new(event_key: &str, event_id: &str, properties: StringMap, tags: StringMap) -> (
        conversion: Conversion
    )
        ensures
            conversion@ == (ConversionView {
                event_key: event_key@,
                event_id: event_id@,
                properties: properties@,
                tags: tags@,
            }),
    {
        Conversion {
            event_key: event_key.to_owned(),
            event_id: event_id.to_owned(),
            properties,
            tags,
        }
    }

    /// The key of the event.
    pub fn event_key(&self) -> (key: &str)
        ensures
            key@ == self@.event_key,
    {
        self.event_key.as_str()
    }

    /// The id of the event.
    pub fn event_id(&self) -> (id: &str)
        ensures
            id@ == self@.event_id,
    {
        self.event_id.as_str()
    }

    /// The properties of the conversion.
    pub fn properties(&self) -> (properties: &StringMap)
        ensures
            properties@ == self@.properties,
    {
        &self.properties
    }

    /// The tags of the conversion.
    pub fn tags(&self) -> (tags: &StringMap)
        ensures
            tags@ == self@.tags,
    {
        &self.tags
    }
}

} // verus!
