//! A dispatcher that makes one payload of every event.

use crate::client::UserContext;
use crate::conversion::Conversion;
use crate::decision::Decision;
use crate::event_api::message::{EventEnum, EventEnumView, EventMessage, EventMessageView};
use crate::event_api::request::payload::{Payload, PayloadView};
use crate::event_api::trait_event_dispatcher::EventDispatcher;
use vstd::prelude::*;

verus! {

/// The payload that reports one message by itself: the account of the
/// message and one visitor.
pub open spec fn single_payload(message: EventMessageView) -> PayloadView {
    PayloadView::new(message.account_id).with_visitor(message.visitor())
}

/// A dispatcher without a buffer: every event is due at once, in a payload
/// of its own.
#[derive(Debug)]
pub struct SimpleEventDispatcher {}

impl Default for SimpleEventDispatcher {
    fn default() -> (dispatcher: SimpleEventDispatcher) {
        SimpleEventDispatcher {  }
    }
}

impl SimpleEventDispatcher {
    /// A new dispatcher.
    pub fn new() -> (dispatcher: SimpleEventDispatcher) {
        SimpleEventDispatcher {  }
    }

    /// The payload that reports the event of one message.
    pub fn send_event(&self, message: EventMessage) -> (payload: Payload)
        ensures
            payload@ == single_payload(message@),
    {
        let mut payload = Payload::new(message.account_id());
        message.add_to(&mut payload);
        payload
    }
}

impl EventDispatcher for SimpleEventDispatcher {
    /// The payload that reports the conversion is due at once.
    fn send_conversion_event(
        &mut self,
        user_context: &UserContext,
        conversion: Conversion,
    ) -> (due: Option<Payload>)
        ensures
            due matches Some(payload) && payload@ == single_payload(
                EventMessageView::of(user_context@, EventEnumView::Conversion(conversion@)),
            ),
    {
        let message = EventMessage::of_user(user_context, EventEnum::Conversion(conversion));
        Some(self.send_event(message))
    }

    /// The payload that reports the decision is due at once.
    fn send_decision_event(
        &mut self,
        user_context: &UserContext,
        decision: Decision,
    ) -> (due: Option<Payload>)
        ensures
            due matches Some(payload) && payload@ == single_payload(
                EventMessageView::of(user_context@, EventEnumView::Decision(decision@)),
            ),
    {
        let message = EventMessage::of_user(user_context, EventEnum::Decision(decision));
        Some(self.send_event(message))
    }
}

} // verus!
