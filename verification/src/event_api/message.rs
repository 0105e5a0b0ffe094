//! What a dispatcher is handed: one event of one user of one account.

use crate::client::{UserContext, UserContextView};
use crate::conversion::{Conversion, ConversionView};
use crate::decision::{Decision, DecisionView};
use crate::event_api::request::payload::{conversion_visitor, decision_visitor, Payload};
use crate::event_api::request::visitor::VisitorView;
use vstd::prelude::*;
use vstd::string::*;

verus! {

/// An event as a value.
pub enum EventEnumView {
    Conversion(ConversionView),
    Decision(DecisionView),
}

/// An event: a conversion or a decision.
#[derive(Debug)]
pub enum EventEnum {
    Conversion(Conversion),
    Decision(Decision),
}

impl View for EventEnum {
    type V = EventEnumView;

    open spec fn view(&self) -> EventEnumView {
        match self {
            EventEnum::Conversion(conversion) => EventEnumView::Conversion(conversion@),
            EventEnum::Decision(decision) => EventEnumView::Decision(decision@),
        }
    }
}

/// A message as a value.
pub struct EventMessageView {
    pub account_id: Seq<char>,
    pub user_id: Seq<char>,
    pub event: EventEnumView,
}

impl EventMessageView {
    /// The message that hands on an event of a user.
    pub open spec fn of(user: UserContextView, event: EventEnumView) -> EventMessageView {
        EventMessageView {
            account_id: user.client.datafile.account_id,
            user_id: user.user_id,
            event,
        }
    }

    /// The visitor that reports the event of the message.
    pub open spec fn visitor(self) -> VisitorView {
        match self.event {
            EventEnumView::Conversion(conversion) => conversion_visitor(self.user_id, conversion),
            EventEnumView::Decision(decision) => decision_visitor(self.user_id, decision),
        }
    }
}

/// One event together with what it takes to count it: the id of the account
/// and the id of the user.
#[derive(Debug)]
pub struct EventMessage {
    account_id: String,
    user_id: String,
    event: EventEnum,
}

impl View for EventMessage {
    type V = EventMessageView;

    closed spec fn view(&self) -> EventMessageView {
        EventMessageView {
            account_id: self.account_id@,
            user_id: self.user_id@,
            event: self.event@,
        }
    }
}

impl EventMessage {
    /// A message with the given parts.
    pub fn new(account_id: &str, user_id: &str, event: EventEnum) -> (message: EventMessage)
        ensures
            message@ == (EventMessageView {
                account_id: account_id@,
                user_id: user_id@,
                event: event@,
            }),
    {
        EventMessage { account_id: account_id.to_owned(), user_id: user_id.to_owned(), event }
    }

    /// The message that hands on an event of a user: it carries the account
    /// id of the user's client and the id of the user.
    pub fn of_user(user_context: &UserContext, event: EventEnum) -> (message: EventMessage)
        ensures
            message@ == EventMessageView::of(user_context@, event@),
    {
        EventMessage::new(
            user_context.client().datafile().account_id(),
            user_context.user_id(),
            event,
        )
    }

    /// The id of the account.
    pub fn account_id(&self) -> (id: &str)
        ensures
            id@ == self@.account_id,
    {
        self.account_id.as_str()
    }

    /// The id of the user.
    pub fn user_id(&self) -> (id: &str)
        ensures
            id@ == self@.user_id,
    {
        self.user_id.as_str()
    }

    /// The event.
    pub fn event(&self) -> (event: &EventEnum)
        ensures
            event@ == self@.event,
    {
        &self.event
    }

    /// Adds the visitor that reports the event of this message to a payload.
    pub fn add_to(&self, payload: &mut Payload)
        ensures
            final(payload)@ == old(payload)@.with_visitor(self@.visitor()),
    {
        match &self.event {
            EventEnum::Conversion(conversion) => {
                payload.add_conversion_event(self.user_id.as_str(), conversion);
            },
            EventEnum::Decision(decision) => {
                payload.add_decision_event(self.user_id.as_str(), decision);
            },
        }
    }
}

} // verus!
