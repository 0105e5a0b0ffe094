//! A dispatcher that collects events into payloads of a fixed size.
//!
//! The dispatcher is the state of one delivery worker. The worker hands it the
//! messages it receives, one by one and in order, and delivers each payload
//! that becomes due. At the end of the stream it closes the dispatcher and
//! delivers what was left in progress.

use crate::client::UserContext;
use crate::conversion::Conversion;
use crate::decision::Decision;
use crate::event_api::message::{EventEnum, EventEnumView, EventMessage, EventMessageView};
use crate::event_api::request::payload::{Payload, PayloadView};
use crate::event_api::request::visitor::VisitorView;
use crate::event_api::trait_event_dispatcher::EventDispatcher;
use vstd::prelude::*;

verus! {

/// The number of visitors at which a payload is due.
pub const DEFAULT_BATCH_THRESHOLD: usize = 10;

/// A payload that may be absent, as a value.
pub open spec fn payload_view(payload: Option<Payload>) -> Option<PayloadView> {
    match payload {
        Some(p) => Some(p@),
        None => None,
    }
}

/// A list of payloads, each as a value.
pub open spec fn payload_views(payloads: Seq<Payload>) -> Seq<PayloadView> {
    payloads.map_values(|p: Payload| p@)
}

/// A list of messages, each as a value.
pub open spec fn message_views(messages: Seq<EventMessage>) -> Seq<EventMessageView> {
    messages.map_values(|m: EventMessage| m@)
}

/// The payload in progress once a message is added: the payload that was in
/// progress, or else a new one for the account of the message, with the
/// visitor of the message at its end.
pub open spec fn grown(pending: Option<PayloadView>, message: EventMessageView) -> PayloadView {
    let payload = match pending {
        Some(payload) => payload,
        None => PayloadView::new(message.account_id),
    };
    payload.with_visitor(message.visitor())
}

/// What is in progress is never empty and never due.
pub open spec fn in_progress(pending: Option<PayloadView>) -> bool {
    match pending {
        Some(payload) => 0 < payload.visitors.len() < DEFAULT_BATCH_THRESHOLD,
        None => true,
    }
}

/// A payload that is added to a list of payloads, if there is one.
pub open spec fn with_due(payloads: Seq<PayloadView>, due: Option<PayloadView>) -> Seq<
    PayloadView,
> {
    match due {
        Some(payload) => payloads.push(payload),
        None => payloads,
    }
}

/// A dispatcher as a value: whether it is closed, and the payload in
/// progress.
pub struct BatchedEventDispatcherView {
    pub closed: bool,
    pub pending: Option<PayloadView>,
}

impl BatchedEventDispatcherView {
    /// The dispatcher at the start: open, with nothing in progress.
    pub open spec fn new() -> BatchedEventDispatcherView {
        BatchedEventDispatcherView { closed: false, pending: None }
    }

    /// What holds of every dispatcher: the payload in progress is neither
    /// empty nor due, and a closed dispatcher has nothing in progress.
    pub open spec fn wf(self) -> bool {
        &&& in_progress(self.pending)
        &&& self.closed ==> self.pending is None
    }

    /// The dispatcher after a message, and the payload that is due.
    ///
    /// An open dispatcher adds the visitor of the message to the payload in
    /// progress. The payload is due as soon as it holds
    /// [`DEFAULT_BATCH_THRESHOLD`] visitors, and then nothing is in progress.
    /// A closed dispatcher drops the message.
    pub open spec fn receive(self, message: EventMessageView) -> (
        BatchedEventDispatcherView,
        Option<PayloadView>,
    ) {
        if self.closed {
            (self, None)
        } else {
            let payload = grown(self.pending, message);
            if payload.visitors.len() >= DEFAULT_BATCH_THRESHOLD {
                (BatchedEventDispatcherView { closed: false, pending: None }, Some(payload))
            } else {
                (BatchedEventDispatcherView { closed: false, pending: Some(payload) }, None)
            }
        }
    }

    /// The dispatcher after a run of messages, and the payloads that became
    /// due, in order.
    pub open spec fn receive_all(self, messages: Seq<EventMessageView>) -> (
        BatchedEventDispatcherView,
        Seq<PayloadView>,
    )
        decreases messages.len(),
    {
        if messages.len() == 0 {
            (self, Seq::empty())
        } else {
            let before = self.receive_all(messages.drop_last());
            let last = before.0.receive(messages.last());
            (last.0, with_due(before.1, last.1))
        }
    }

    /// The dispatcher once it is closed, and the payload that is due: what
    /// was in progress.
    pub open spec fn close(self) -> (BatchedEventDispatcherView, Option<PayloadView>) {
        (BatchedEventDispatcherView { closed: true, pending: None }, self.pending)
    }
}

/// Every payload that a dispatcher hands out in its life, in order: those
/// that become due while the messages arrive, and the one that closing it
/// hands out.
pub open spec fn handed_out(messages: Seq<EventMessageView>) -> Seq<PayloadView> {
    let run = BatchedEventDispatcherView::new().receive_all(messages);
    with_due(run.1, run.0.close().1)
}

/// The visitors that report a run of messages, in order.
pub open spec fn visitors_of(messages: Seq<EventMessageView>) -> Seq<VisitorView> {
    messages.map_values(|m: EventMessageView| m.visitor())
}

/// The payload that reports a run of messages: it belongs to the account of
/// the first message and has one visitor for each message.
pub open spec fn batch_of(messages: Seq<EventMessageView>) -> PayloadView {
    PayloadView { visitors: visitors_of(messages), ..PayloadView::new(messages[0].account_id) }
}

/// The messages that payload `i` of a stream reports: those from position
/// `i * DEFAULT_BATCH_THRESHOLD` on, as many as make a payload due.
pub open spec fn chunk(messages: Seq<EventMessageView>, i: int) -> Seq<EventMessageView> {
    messages.subrange(
        i * DEFAULT_BATCH_THRESHOLD,
        i * DEFAULT_BATCH_THRESHOLD + DEFAULT_BATCH_THRESHOLD,
    )
}

/// The messages of a stream after its last full chunk.
pub open spec fn rest(messages: Seq<EventMessageView>) -> Seq<EventMessageView> {
    messages.subrange(
        messages.len() - messages.len() % (DEFAULT_BATCH_THRESHOLD as nat),
        messages.len() as int,
    )
}

/// The visitors of a list of payloads, one payload after the other.
pub open spec fn all_visitors(payloads: Seq<PayloadView>) -> Seq<VisitorView>
    decreases payloads.len(),
{
    if payloads.len() == 0 {
        Seq::empty()
    } else {
        all_visitors(payloads.drop_last()) + payloads.last().visitors
    }
}

/// The visitors of the payload in progress.
pub open spec fn pending_visitors(pending: Option<PayloadView>) -> Seq<VisitorView> {
    match pending {
        Some(payload) => payload.visitors,
        None => Seq::empty(),
    }
}

/// Receiving and closing keep a dispatcher well formed, and a payload that
/// becomes due on a message holds exactly [`DEFAULT_BATCH_THRESHOLD`]
/// visitors.
pub proof fn dispatcher_stays_well_formed(
    dispatcher: BatchedEventDispatcherView,
    message: EventMessageView,
)
    requires
        dispatcher.wf(),
    ensures
        dispatcher.receive(message).0.wf(),
        dispatcher.receive(message).1 matches Some(payload) ==> payload.visitors.len()
            == DEFAULT_BATCH_THRESHOLD,
        dispatcher.close().0.wf(),
        in_progress(dispatcher.close().1),
{
}

/// Messages that are sent to a new dispatcher come out in payloads of
/// [`DEFAULT_BATCH_THRESHOLD`] visitors, in the order in which they were sent:
/// payload `i` reports chunk `i` of the messages. What is left over is in
/// progress.
pub proof fn messages_leave_in_batches(messages: Seq<EventMessageView>)
    ensures
        BatchedEventDispatcherView::new().receive_all(messages).1.len() == messages.len() / (
        DEFAULT_BATCH_THRESHOLD as nat),
        forall|i: int|
            0 <= i < BatchedEventDispatcherView::new().receive_all(messages).1.len()
                ==> #[trigger] BatchedEventDispatcherView::new().receive_all(messages).1[i]
                == batch_of(chunk(messages, i)),
        BatchedEventDispatcherView::new().receive_all(messages).0 == (BatchedEventDispatcherView {
            closed: false,
            pending: if rest(messages).len() == 0 {
                None
            } else {
                Some(batch_of(rest(messages)))
            },
        }),
    decreases messages.len(),
{
    if messages.len() > 0 {
        let front = messages.drop_last();
        messages_leave_in_batches(front);
        // The payload that the last message joins reports the messages
        // since the last full chunk of `front`, and now the last one too.
        let before = BatchedEventDispatcherView::new().receive_all(front);
        let since: int = front.len() - front.len() % 10;
        assert(grown(before.0.pending, messages.last()) == batch_of(
            messages.subrange(since, messages.len() as int),
        ));
    }
}

/// Exactly [`DEFAULT_BATCH_THRESHOLD`] messages make exactly one payload due,
/// which reports all of them, and leave nothing in progress: closing the
/// dispatcher hands out nothing more.
pub proof fn threshold_messages_make_one_payload(messages: Seq<EventMessageView>)
    requires
        messages.len() == DEFAULT_BATCH_THRESHOLD,
    ensures
        BatchedEventDispatcherView::new().receive_all(messages) == (
            BatchedEventDispatcherView::new(),
            seq![batch_of(messages)],
        ),
        handed_out(messages) == seq![batch_of(messages)],
{
    messages_leave_in_batches(messages);
    assert(chunk(messages, 0) == messages);
}

/// The message after a payload became due starts a new payload, which holds
/// the visitor of that message alone.
pub proof fn message_after_threshold_starts_anew(messages: Seq<EventMessageView>)
    requires
        messages.len() == DEFAULT_BATCH_THRESHOLD + 1,
    ensures
        BatchedEventDispatcherView::new().receive_all(messages).1 == seq![
            batch_of(messages.subrange(0, 10)),
        ],
        BatchedEventDispatcherView::new().receive_all(messages).0.pending == Some(
            PayloadView::new(messages[10].account_id).with_visitor(messages[10].visitor()),
        ),
{
    messages_leave_in_batches(messages);
    assert(chunk(messages, 0) == messages.subrange(0, 10));
    assert(rest(messages) == messages.subrange(10, 11));
}

/// Fewer messages than [`DEFAULT_BATCH_THRESHOLD`], and at least one, make no
/// payload due while they arrive, and closing the dispatcher hands out one
/// payload, which reports all of them.
pub proof fn few_messages_leave_when_closed(messages: Seq<EventMessageView>)
    requires
        0 < messages.len() < DEFAULT_BATCH_THRESHOLD,
    ensures
        BatchedEventDispatcherView::new().receive_all(messages).1 == Seq::<PayloadView>::empty(),
        BatchedEventDispatcherView::new().receive_all(messages).0.close().1 == Some(
            batch_of(messages),
        ),
        handed_out(messages) == seq![batch_of(messages)],
{
    messages_leave_in_batches(messages);
}

/// While messages arrive, the visitors of the payloads that became due and
/// of the payload in progress are the visitors of the messages, in order.
pub proof fn visitors_are_kept(
    dispatcher: BatchedEventDispatcherView,
    messages: Seq<EventMessageView>,
)
    requires
        !dispatcher.closed,
    ensures
        !dispatcher.receive_all(messages).0.closed,
        all_visitors(dispatcher.receive_all(messages).1) + pending_visitors(
            dispatcher.receive_all(messages).0.pending,
        ) == pending_visitors(dispatcher.pending) + visitors_of(messages),
    decreases messages.len(),
{
    if messages.len() > 0 {
        let front = messages.drop_last();
        let visitor = messages.last().visitor();
        visitors_are_kept(dispatcher, front);
        let before = dispatcher.receive_all(front);
        // The visitor of the last message goes to the end, whether the
        // payload it joins becomes due or stays in progress.
        assert((pending_visitors(dispatcher.pending) + visitors_of(front)).push(visitor)
            == pending_visitors(dispatcher.pending) + visitors_of(messages));
        if before.0.receive(messages.last()).1 is Some {
            assert(dispatcher.receive_all(messages).1.drop_last() == before.1);
        }
    }
}

/// Nothing is lost and nothing is sent twice: the payloads that a dispatcher
/// hands out in its life, closing included, report every message once, in
/// the order in which the messages were sent.
pub proof fn every_message_is_handed_out_once(messages: Seq<EventMessageView>)
    ensures
        all_visitors(handed_out(messages)) == visitors_of(messages),
{
    let start = BatchedEventDispatcherView::new();
    visitors_are_kept(start, messages);
    let run = start.receive_all(messages);
    if run.0.pending is Some {
        assert(handed_out(messages).drop_last() == run.1);
    }
}

/// A closed dispatcher hands out nothing: it drops every message, and
/// closing it again hands out no payload.
pub proof fn closed_dispatcher_hands_out_nothing(
    dispatcher: BatchedEventDispatcherView,
    messages: Seq<EventMessageView>,
)
    requires
        dispatcher.wf(),
        dispatcher.closed,
    ensures
        dispatcher.receive_all(messages) == (dispatcher, Seq::<PayloadView>::empty()),
        dispatcher.close().1 is None,
    decreases messages.len(),
{
    if messages.len() > 0 {
        closed_dispatcher_hands_out_nothing(dispatcher, messages.drop_last());
    }
}

/// The state of a delivery worker: the payload in progress, if there is one,
/// and whether the stream has ended.
#[derive(Debug)]
pub struct BatchedEventDispatcher {
    payload_option: Option<Payload>,
    closed: bool,
}

impl View for BatchedEventDispatcher {
    type V = BatchedEventDispatcherView;

    closed spec fn view(&self) -> BatchedEventDispatcherView {
        BatchedEventDispatcherView {
            closed: self.closed,
            pending: payload_view(self.payload_option),
        }
    }
}

impl Default for BatchedEventDispatcher {
    /// An open dispatcher with nothing in progress.
    fn default() -> (dispatcher: BatchedEventDispatcher)
        ensures
            dispatcher@ == BatchedEventDispatcherView::new(),
    {
        BatchedEventDispatcher { payload_option: None, closed: false }
    }
}

impl BatchedEventDispatcher {
    #[verifier::type_invariant]
    spec fn well_formed(self) -> bool {
        self@.wf()
    }

    /// The message that hands on an event of a user to the worker.
    pub fn transmit(user_context: &UserContext, event: EventEnum) -> (message: EventMessage)
        ensures
            message@ == EventMessageView::of(user_context@, event@),
    {
        EventMessage::of_user(user_context, event)
    }

    /// Whether the dispatcher is closed.
    pub fn is_closed(&self) -> (closed: bool)
        ensures
            closed == self@.closed,
            self@.wf(),
    {
        proof {
            use_type_invariant(self);
        }
        self.closed
    }

    /// The number of visitors in progress: fewer than make a payload due.
    pub fn size(&self) -> (n: usize)
        ensures
            n == pending_visitors(self@.pending).len(),
            n < DEFAULT_BATCH_THRESHOLD,
            self@.wf(),
    {
        proof {
            use_type_invariant(self);
        }
        match &self.payload_option {
            Some(payload) => payload.size(),
            None => 0,
        }
    }

    /// Takes one message. The visitor of the message joins the payload in
    /// progress, and the payload is handed out if it is due. A closed
    /// dispatcher drops the message.
    pub fn receive(&mut self, message: &EventMessage) -> (due: Option<Payload>)
        ensures
            final(self)@ == old(self)@.receive(message@).0,
            payload_view(due) == old(self)@.receive(message@).1,
    {
        proof {
            use_type_invariant(&*self);
        }
        if self.closed {
            return None;
        }
        let mut current: Option<Payload> = None;
        core::mem::swap(&mut self.payload_option, &mut current);
        let mut payload = match current {
            Some(payload) => payload,
            None => Payload::new(message.account_id()),
        };
        message.add_to(&mut payload);
        if payload.size() >= DEFAULT_BATCH_THRESHOLD {
            Some(payload)
        } else {
            self.payload_option = Some(payload);
            None
        }
    }

    /// Takes a run of messages, in order, and hands out the payloads that
    /// became due, in order.
    pub fn receive_all(&mut self, messages: &[EventMessage]) -> (due: Vec<Payload>)
        ensures
            final(self)@ == old(self)@.receive_all(message_views(messages@)).0,
            payload_views(due@) == old(self)@.receive_all(message_views(messages@)).1,
    {
        let ghost start = self@;
        let ghost all = message_views(messages@);
        let mut due: Vec<Payload> = Vec::new();
        let mut i: usize = 0;
        while i < messages.len()
            invariant
                i <= messages.len(),
                all == message_views(messages@),
                self@ == start.receive_all(all.subrange(0, i as int)).0,
                payload_views(due@) == start.receive_all(all.subrange(0, i as int)).1,
            decreases messages.len() - i,
        {
            assert(all.subrange(0, i + 1).drop_last() == all.subrange(0, i as int));
            if let Some(payload) = self.receive(&messages[i]) {
                due.push(payload);
            }
            i += 1;
        }
        assert(all.subrange(0, i as int) == all);
        due
    }

    /// Ends the stream: hands out what is in progress, if anything is, and
    /// closes the dispatcher. Nothing is due after that.
    pub fn close(&mut self) -> (due: Option<Payload>)
        ensures
            final(self)@ == old(self)@.close().0,
            payload_view(due) == old(self)@.close().1,
            in_progress(payload_view(due)),
    {
        proof {
            use_type_invariant(&*self);
        }
        let mut current: Option<Payload> = None;
        core::mem::swap(&mut self.payload_option, &mut current);
        self.closed = true;
        current
    }
}

impl EventDispatcher for BatchedEventDispatcher {
    /// The conversion joins the payload in progress.
    fn send_conversion_event(
        &mut self,
        user_context: &UserContext,
        conversion: Conversion,
    ) -> (due: Option<Payload>)
        ensures
            final(self)@ == old(self)@.receive(
                EventMessageView::of(user_context@, EventEnumView::Conversion(conversion@)),
            ).0,
            payload_view(due) == old(self)@.receive(
                EventMessageView::of(user_context@, EventEnumView::Conversion(conversion@)),
            ).1,
    {
        let event = EventEnum::Conversion(conversion);
        let message = BatchedEventDispatcher::transmit(user_context, event);
        self.receive(&message)
    }

    /// The decision joins the payload in progress.
    fn send_decision_event(
        &mut self,
        user_context: &UserContext,
        decision: Decision,
    ) -> (due: Option<Payload>)
        ensures
            final(self)@ == old(self)@.receive(
                EventMessageView::of(user_context@, EventEnumView::Decision(decision@)),
            ).0,
            payload_view(due) == old(self)@.receive(
                EventMessageView::of(user_context@, EventEnumView::Decision(decision@)),
            ).1,
    {
        let event = EventEnum::Decision(decision);
        let message = BatchedEventDispatcher::transmit(user_context, event);
        self.receive(&message)
    }
}

} // verus!
