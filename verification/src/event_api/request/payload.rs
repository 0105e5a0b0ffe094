//! The payload of one request to the event endpoint.

use crate::conversion::{Conversion, ConversionView};
use crate::decision::{Decision, DecisionView};
use crate::event_api::request::visitor::{Visitor, VisitorView};
use crate::string_map::StringMap;
use vstd::prelude::*;
use vstd::string::*;

verus! {

/// The name by which this library makes itself known to the endpoint.
pub const CLIENT_NAME: &'static str = "rust-sdk";

/// The version by which this library makes itself known to the endpoint.
pub const CLIENT_VERSION: &'static str = "0.1.0";

/// The key of the event that reports that a user was placed in a campaign.
pub const ACTIVATE_EVENT_KEY: &'static str = "campaign_activated";

/// A list of visitors, each as a value.
pub open spec fn visitor_views(visitors: Seq<Visitor>) -> Seq<VisitorView> {
    visitors.map_values(|v: Visitor| v@)
}

/// The conversion that reports that a user was placed in the campaign of a
/// decision: its key is [`ACTIVATE_EVENT_KEY`], its id is the campaign id,
/// and it has no properties and no tags.
pub open spec fn activation_of(decision: DecisionView) -> ConversionView {
    ConversionView {
        event_key: ACTIVATE_EVENT_KEY@,
        event_id: decision.campaign_id,
        properties: Map::empty(),
        tags: Map::empty(),
    }
}

/// The visitor that reports a conversion of a user: one event.
pub open spec fn conversion_visitor(user_id: Seq<char>, conversion: ConversionView) -> VisitorView {
    VisitorView::new(user_id).with_event(conversion)
}

/// The visitor that reports a decision for a user: one decision entry and
/// one activation event.
pub open spec fn decision_visitor(user_id: Seq<char>, decision: DecisionView) -> VisitorView {
    VisitorView::new(user_id).with_decision(decision).with_event(activation_of(decision))
}

/// A payload as a value.
#[verifier::ext_equal]
pub struct PayloadView {
    pub account_id: Seq<char>,
    pub visitors: Seq<VisitorView>,
    pub enrich_decisions: bool,
    pub anonymize_ip: bool,
    pub client_name: Seq<char>,
    pub client_version: Seq<char>,
}

impl PayloadView {
    /// The payload of an account without visitors. Decisions are enriched
    /// and addresses are made anonymous, always.
    pub open spec fn new(account_id: Seq<char>) -> PayloadView {
        PayloadView {
            account_id,
            visitors: Seq::empty(),
            enrich_decisions: true,
            anonymize_ip: true,
            client_name: CLIENT_NAME@,
            client_version: CLIENT_VERSION@,
        }
    }

    /// The payload with one more visitor at its end.
    pub open spec fn with_visitor(self, visitor: VisitorView) -> PayloadView {
        PayloadView { visitors: self.visitors.push(visitor), ..self }
    }
}

/// The payload of one request: the visitors of one account.
#[derive(Debug)]
pub struct Payload {
    account_id: String,
    visitors: Vec<Visitor>,
    enrich_decisions: bool,
    anonymize_ip: bool,
    client_name: &'static str,
    client_version: &'static str,
}

impl View for Payload {
    type V = PayloadView;

    closed spec fn view(&self) -> PayloadView {
        PayloadView {
            account_id: self.account_id@,
            visitors: visitor_views(self.visitors@),
            enrich_decisions: self.enrich_decisions,
            anonymize_ip: self.anonymize_ip,
            client_name: self.client_name@,
            client_version: self.client_version@,
        }
    }
}

impl Payload {
    /// The payload of an account without visitors.
    pub fn new(account_id: &str) -> (payload: Payload)
        ensures
            payload@ == PayloadView::new(account_id@),
    {
        Payload {
            account_id: account_id.to_owned(),
            visitors: Vec::new(),
            enrich_decisions: true,
            anonymize_ip: true,
            client_name: CLIENT_NAME,
            client_version: CLIENT_VERSION,
        }
    }

    /// The number of visitors.
    pub fn size(&self) -> (n: usize)
        ensures
            n == self@.visitors.len(),
    {
        self.visitors.len()
    }

    /// Adds a visitor that reports a conversion of the user.
    pub fn add_conversion_event(&mut self, user_id: &str, conversion: &Conversion)
        ensures
            final(self)@ == old(self)@.with_visitor(conversion_visitor(user_id@, conversion@)),
    {
        let mut visitor = Visitor::new(user_id);
        visitor.add_event(conversion);
        self.visitors.push(visitor);
    }

    /// Adds a visitor that reports a decision for the user: the decision and
    /// the activation of its campaign.
    pub fn add_decision_event(&mut self, user_id: &str, decision: &Decision)
        ensures
            final(self)@ == old(self)@.with_visitor(decision_visitor(user_id@, decision@)),
    {
        let mut visitor = Visitor::new(user_id);
        visitor.add_decision(decision);
        let conversion = Conversion::new(
            ACTIVATE_EVENT_KEY,
            decision.campaign_id(),
            StringMap::new(),
            StringMap::new(),
        );
        visitor.add_event(&conversion);
        self.visitors.push(visitor);
    }

    /// The id of the account.
    pub fn account_id(&self) -> (id: &str)
        ensures
            id@ == self@.account_id,
    {
        self.account_id.as_str()
    }

    /// The visitors, in the order in which they were added.
    pub fn visitors(&self) -> (visitors: &Vec<Visitor>)
        ensures
            visitor_views(visitors@) == self@.visitors,
    {
        &self.visitors
    }

    /// Whether the endpoint is to enrich the decisions.
    pub fn enrich_decisions(&self) -> (enrich: bool)
        ensures
            enrich == self@.enrich_decisions,
    {
        self.enrich_decisions
    }

    /// Whether the endpoint is to make addresses anonymous.
    pub fn anonymize_ip(&self) -> (anonymize: bool)
        ensures
            anonymize == self@.anonymize_ip,
    {
        self.anonymize_ip
    }

    /// The name of the client that made the payload.
    pub fn client_name(&self) -> (name: &'static str)
        ensures
            name@ == self@.client_name,
    {
        self.client_name
    }

    /// The version of the client that made the payload.
    pub fn client_version(&self) -> (version: &'static str)
        ensures
            version@ == self@.client_version,
    {
        self.client_version
    }
}

} // verus!
