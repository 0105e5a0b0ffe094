//! An event as the event endpoint takes it.

use crate::conversion::ConversionView;
use crate::string_map::StringMap;
use vstd::prelude::*;
use vstd::string::*;

verus! {

/// Whether `c` is one of the digits `0` to `9` and `a` to `f`.
pub open spec fn is_lower_hex_digit(c: char) -> bool {
    ('0' <= c && c <= '9') || ('a' <= c && c <= 'f')
}

/// Whether `position` is where a hyphenated UUID has a hyphen.
pub open spec fn is_hyphen_position(position: int) -> bool {
    position == 8 || position == 13 || position == 18 || position == 23
}

/// Whether `text` has the shape of a random UUID in hyphenated lower-case
/// form: 36 characters, hyphens after 8, 12, 16 and 20 hex digits, and the
/// version digit `4`.
pub open spec fn is_hyphenated_uuid(text: Seq<char>) -> bool {
    &&& text.len() == 36
    &&& forall|i: int|
        0 <= i < 36 ==> if is_hyphen_position(i) {
            #[trigger] text[i] == '-'
        } else {
            is_lower_hex_digit(text[i])
        }
    &&& text[14] == '4'
}

/// Calls `uuid::Uuid::new_v4` and writes the result in hyphenated form.
///
/// Trusted: the text has the shape of a version 4 UUID in lower-case
/// hyphenated form. Which UUID it is differs from call to call. The call
/// panics if the operating system gives no random bytes.
#[verifier::external_body]
fn new_uuid() -> (text: String)
    ensures
        is_hyphenated_uuid(text@),
{
    uuid::Uuid::new_v4().as_hyphenated().to_string()
}

/// The error of `std::time::SystemTime::elapsed`.
#[verifier::external_type_specification]
#[verifier::external_body]
pub struct ExSystemTimeError(std::time::SystemTimeError);

/// Calls `std::time::SystemTime::elapsed` on the Unix epoch: the time since
/// the epoch by the system clock, or an error if the clock stands before it.
///
/// Trusted: nothing is said of the result.
#[verifier::external_body]
fn elapsed_since_unix_epoch() -> (elapsed: Result<
    std::time::Duration,
    std::time::SystemTimeError,
>) {
    std::time::UNIX_EPOCH.elapsed()
}

/// `Duration::as_millis` gives the whole milliseconds of a duration. Nothing
/// is said of the result.
pub assume_specification[ std::time::Duration::as_millis ](duration: &std::time::Duration) -> (
    milliseconds: u128
);

/// The time stamp that a reading of the clock gives: the milliseconds since
/// the Unix epoch that the reading counts, or 0 where the reading failed
/// because the clock stands before the epoch.
pub fn timestamp_of(reading: Result<u128, std::time::SystemTimeError>) -> (milliseconds: u128)
    ensures
        milliseconds == match reading {
            Ok(elapsed) => elapsed,
            Err(_) => 0,
        },
{
    match reading {
        Ok(elapsed) => elapsed,
        Err(_) => 0,
    }
}

/// The time stamp of this moment: the system clock is read once, and the
/// reading gives the time stamp as [`timestamp_of`] says. What the clock
/// shows is not known before it is read, so nothing is said of the result.
fn unix_time_millis() -> (milliseconds: u128) {
    let reading: Result<u128, std::time::SystemTimeError> = match elapsed_since_unix_epoch() {
        Ok(elapsed) => Ok(elapsed.as_millis()),
        Err(error) => Err(error),
    };
    timestamp_of(reading)
}

/// What an event reports: the entity it is counted for, its key, its tags
/// and its properties.
///
/// The identifier and the time that an event gets when it is made are not
/// part of this value: they differ from one run to the next.
#[verifier::ext_equal]
pub struct EventView {
    pub entity_id: Seq<char>,
    pub key: Seq<char>,
    pub tags: Map<Seq<char>, Seq<char>>,
    pub properties: Map<Seq<char>, Seq<char>>,
}

impl EventView {
    /// The event that reports a conversion.
    pub open spec fn of(conversion: ConversionView) -> EventView {
        EventView {
            entity_id: conversion.event_id,
            key: conversion.event_key,
            tags: conversion.tags,
            properties: conversion.properties,
        }
    }
}

/// An entry of a snapshot's events. Its identifier is a random UUID in
/// hyphenated form.
#[derive(Debug)]
pub struct Event {
    uuid: String,
    timestamp: u128,
    entity_id: String,
    key: String,
    tags: StringMap,
    properties: StringMap,
}

impl View for Event {
    type V = EventView;

    closed spec fn view(&self) -> EventView {
        EventView {
            entity_id: self.entity_id@,
            key: self.key@,
            tags: self.tags@,
            properties: self.properties@,
        }
    }
}

impl Event {
    #[verifier::type_invariant]
    spec fn identified(self) -> bool {
        is_hyphenated_uuid(self.uuid@)
    }

    /// The identifier that the event got when it was made.
    pub closed spec fn identifier(&self) -> Seq<char> {
        self.uuid@
    }

    /// The time that the event got when it was made, in milliseconds since
    /// the Unix epoch.
    pub closed spec fn made_at(&self) -> u128 {
        self.timestamp
    }

    /// A new event with an identifier of its own and the current time.
    ///
    /// The identifier is a random UUID. The time is that of the system
    /// clock, or 0 where the clock stands before the Unix epoch.
    pub fn new(
        entity_id: String,
        key: String,
        properties: StringMap,
        tags: StringMap,
    ) -> (event: Event)
        ensures
            event@ == (EventView {
                entity_id: entity_id@,
                key: key@,
                tags: tags@,
                properties: properties@,
            }),
            is_hyphenated_uuid(event.identifier()),
    {
        let uuid: String = new_uuid();
        let timestamp: u128 = unix_time_millis();
        Event { uuid, timestamp, entity_id, key, tags, properties }
    }

    /// The identifier of the event.
    pub fn uuid(&self) -> (uuid: &str)
        ensures
            uuid@ == self.identifier(),
            is_hyphenated_uuid(uuid@),
    {
        proof {
            use_type_invariant(self);
        }
        self.uuid.as_str()
    }

    /// When the event was made, in milliseconds since the Unix epoch.
    pub fn timestamp(&self) -> (milliseconds: u128)
        ensures
            milliseconds == self.made_at(),
    {
        self.timestamp
    }

    /// The id of the entity that the event is counted for.
    pub fn entity_id(&self) -> (id: &str)
        ensures
            id@ == self@.entity_id,
    {
        self.entity_id.as_str()
    }

    /// The key of the event.
    pub fn key(&self) -> (key: &str)
        ensures
            key@ == self@.key,
    {
        self.key.as_str()
    }

    /// The tags of the event.
    pub fn tags(&self) -> (tags: &StringMap)
        ensures
            tags@ == self@.tags,
    {
        &self.tags
    }

    /// The properties of the event.
    pub fn properties(&self) -> (properties: &StringMap)
        ensures
            properties@ == self@.properties,
    {
        &self.properties
    }
}

} // verus!
