//! What every dispatcher does.

use crate::client::UserContext;
use crate::conversion::Conversion;
use crate::decision::Decision;
use crate::event_api::request::payload::Payload;
use vstd::prelude::*;

verus! {

/// A policy for handing events to the event endpoint.
///
/// A dispatcher takes one event at a time and answers with the payload that
/// is due for delivery, if one is. It delivers nothing itself: whoever calls
/// it sends the payload.
pub trait EventDispatcher {
    /// Takes a conversion of a user.
    fn send_conversion_event(
        &mut self,
        user_context: &UserContext,
        conversion: Conversion,
    ) -> (due: Option<Payload>);

    /// Takes a decision for a user.
    fn send_decision_event(
        &mut self,
        user_context: &UserContext,
        decision: Decision,
    ) -> (due: Option<Payload>);
}

} // verus!
