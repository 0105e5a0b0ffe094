//! Feature flag decisions and the events that report them.
//!
//! A [`Client`] holds a parsed configuration. For a user and a flag key it
//! decides which variation the user sees, by hashing the user into a bucket
//! and walking the flag's experiments and then its rollout. Decisions and
//! conversions are turned into payloads for the event endpoint, one by one or
//! in batches.

pub mod bucketing;
pub mod client;
pub mod conversion;
pub mod datafile;
pub mod decision;
pub mod event_api;
pub mod search;
pub mod string_map;
pub mod text;

pub use client::Client;
pub use conversion::Conversion;
pub use decision::Decision;
