use optimizely::conversion::Conversion;
use optimizely::datafile::Datafile;
use optimizely::event_api::batched_event_dispatcher::DEFAULT_BATCH_THRESHOLD;
use optimizely::event_api::request::payload::{
    Payload, ACTIVATE_EVENT_KEY, CLIENT_NAME, CLIENT_VERSION,
};
use optimizely::event_api::request::event::timestamp_of;
use optimizely::event_api::request::{Event, Snapshot, Visitor};
use optimizely::event_api::{
    BatchedEventDispatcher, EventDispatcher, EventEnum, EventMessage, SimpleEventDispatcher,
};
use optimizely::string_map::StringMap;
use optimizely::{Client, Decision};

fn pairs(pairs: &[(&str, &str)]) -> StringMap {
    let mut map = StringMap::new();
    for (key, value) in pairs {
        map.insert(key.to_string(), value.to_string());
    }
    map
}

fn decision(n: usize) -> Decision {
    Decision::new(
        "buy_button",
        &format!("campaign{}", n),
        &format!("experiment{}", n),
        &format!("variation{}", n),
        "primary",
        true,
    )
}

fn decision_message(n: usize) -> EventMessage {
    EventMessage::new("21537940595", &format!("user{}", n), EventEnum::Decision(decision(n)))
}

fn check_uuid(uuid: &str) {
    assert_eq!(uuid.len(), 36);
    for (i, c) in uuid.chars().enumerate() {
        if i == 8 || i == 13 || i == 18 || i == 23 {
            assert_eq!(c, '-');
        } else {
            assert!(c.is_ascii_digit() || ('a'..='f').contains(&c), "{} in {}", c, uuid);
        }
    }
    assert_eq!(uuid.as_bytes()[14], b'4');
}

#[test]
fn event_gets_an_id_and_a_time() {
    let event = Event::new(
        "22305150298".to_string(),
        "purchase".to_string(),
        pairs(&[("Category", "games")]),
        pairs(&[("revenue", "4200")]),
    );
    assert_eq!(event.entity_id(), "22305150298");
    assert_eq!(event.key(), "purchase");
    assert_eq!(event.properties().get("Category"), Some("games"));
    assert_eq!(event.properties().len(), 1);
    assert_eq!(event.tags().get("revenue"), Some("4200"));
    assert_eq!(event.tags().len(), 1);
    check_uuid(event.uuid());
    // After 2020-01-01 and before the year 2200, in milliseconds.
    assert!(event.timestamp() > 1_577_836_800_000);
    assert!(event.timestamp() < 7_258_118_400_000);
}

#[test]
fn events_get_ids_of_their_own() {
    let first = Event::new("1".to_string(), "k".to_string(), StringMap::new(), StringMap::new());
    let second = Event::new("1".to_string(), "k".to_string(), StringMap::new(), StringMap::new());
    assert_ne!(first.uuid(), second.uuid());
    assert!(first.timestamp() <= second.timestamp() + 60_000);
}

#[test]
fn snapshot_collects_decisions_and_events() {
    let mut snapshot = Snapshot::new();
    assert!(snapshot.decisions().is_empty());
    assert!(snapshot.events().is_empty());
    snapshot.add_decision(&decision(1));
    assert_eq!(snapshot.decisions().len(), 1);
    assert_eq!(snapshot.decisions()[0].campaign_id(), "campaign1");
    assert_eq!(snapshot.decisions()[0].experiment_id(), "experiment1");
    assert_eq!(snapshot.decisions()[0].variation_id(), "variation1");
    assert!(snapshot.events().is_empty());
    let conversion =
        Conversion::new("purchase", "22305150298", pairs(&[("a", "b")]), pairs(&[("c", "d")]));
    snapshot.add_event(&conversion);
    snapshot.add_decision(&decision(2));
    assert_eq!(snapshot.decisions().len(), 2);
    assert_eq!(snapshot.decisions()[1].campaign_id(), "campaign2");
    assert_eq!(snapshot.events().len(), 1);
    assert_eq!(snapshot.events()[0].entity_id(), "22305150298");
    assert_eq!(snapshot.events()[0].key(), "purchase");
    assert_eq!(snapshot.events()[0].properties().get("a"), Some("b"));
    assert_eq!(snapshot.events()[0].tags().get("c"), Some("d"));
    check_uuid(snapshot.events()[0].uuid());
}

#[test]
fn visitor_has_one_snapshot() {
    let mut visitor = Visitor::new("user0");
    assert_eq!(visitor.visitor_id(), "user0");
    assert!(visitor.snapshot().decisions().is_empty());
    assert!(visitor.snapshot().events().is_empty());
    visitor.add_decision(&decision(3));
    visitor.add_event(&Conversion::new("purchase", "9", StringMap::new(), StringMap::new()));
    assert_eq!(visitor.visitor_id(), "user0");
    assert_eq!(visitor.snapshot().decisions().len(), 1);
    assert_eq!(visitor.snapshot().decisions()[0].variation_id(), "variation3");
    assert_eq!(visitor.snapshot().events().len(), 1);
    assert_eq!(visitor.snapshot().events()[0].entity_id(), "9");
}

#[test]
fn payload_without_visitors_is_well_formed() {
    let payload = Payload::new("21537940595");
    assert_eq!(payload.size(), 0);
    assert!(payload.visitors().is_empty());
    assert_eq!(payload.account_id(), "21537940595");
    assert!(payload.enrich_decisions());
    assert!(payload.anonymize_ip());
    assert_eq!(payload.client_name(), "rust-sdk");
    assert_eq!(payload.client_name(), CLIENT_NAME);
    assert_eq!(payload.client_version(), CLIENT_VERSION);
}

#[test]
fn payload_reports_a_conversion_as_one_visitor_with_one_event() {
    let mut payload = Payload::new("21537940595");
    let conversion = Conversion::new(
        "purchase",
        "22305150298",
        pairs(&[("Category", "games")]),
        pairs(&[("revenue", "4200")]),
    );
    payload.add_conversion_event("user0", &conversion);
    assert_eq!(payload.size(), 1);
    let visitor = &payload.visitors()[0];
    assert_eq!(visitor.visitor_id(), "user0");
    assert!(visitor.snapshot().decisions().is_empty());
    assert_eq!(visitor.snapshot().events().len(), 1);
    let event = &visitor.snapshot().events()[0];
    assert_eq!(event.entity_id(), "22305150298");
    assert_eq!(event.key(), "purchase");
    assert_eq!(event.properties().get("Category"), Some("games"));
    assert_eq!(event.tags().get("revenue"), Some("4200"));
    assert_eq!(payload.account_id(), "21537940595");
    assert!(payload.enrich_decisions());
    assert!(payload.anonymize_ip());
}

#[test]
fn payload_reports_a_decision_with_the_activation_of_its_campaign() {
    let mut payload = Payload::new("21537940595");
    payload.add_decision_event("user7", &decision(7));
    assert_eq!(payload.size(), 1);
    let visitor = &payload.visitors()[0];
    assert_eq!(visitor.visitor_id(), "user7");
    assert_eq!(visitor.snapshot().decisions().len(), 1);
    let entry = &visitor.snapshot().decisions()[0];
    assert_eq!(entry.campaign_id(), "campaign7");
    assert_eq!(entry.experiment_id(), "experiment7");
    assert_eq!(entry.variation_id(), "variation7");
    assert_eq!(visitor.snapshot().events().len(), 1);
    let event = &visitor.snapshot().events()[0];
    assert_eq!(event.entity_id(), "campaign7");
    assert_eq!(event.key(), "campaign_activated");
    assert_eq!(event.key(), ACTIVATE_EVENT_KEY);
    assert!(event.properties().is_empty());
    assert!(event.tags().is_empty());
    check_uuid(event.uuid());
}

#[test]
fn payload_keeps_visitors_in_order() {
    let mut payload = Payload::new("a");
    payload.add_decision_event("user1", &decision(1));
    payload.add_conversion_event(
        "user2",
        &Conversion::new("purchase", "1", StringMap::new(), StringMap::new()),
    );
    payload.add_decision_event("user1", &decision(2));
    assert_eq!(payload.size(), 3);
    let ids: Vec<&str> = payload.visitors().iter().map(|v| v.visitor_id()).collect();
    assert_eq!(ids, vec!["user1", "user2", "user1"]);
}

#[test]
fn message_carries_account_user_and_event() {
    let client = Client::new(Datafile::new("acc", Vec::new(), Vec::new(), Vec::new(), Vec::new()));
    let user = client.create_user_context("user3");
    let message = EventMessage::of_user(&user, EventEnum::Decision(decision(3)));
    assert_eq!(message.account_id(), "acc");
    assert_eq!(message.user_id(), "user3");
    assert!(matches!(message.event(), EventEnum::Decision(d) if d.campaign_id() == "campaign3"));
    let message = BatchedEventDispatcher::transmit(
        &user,
        EventEnum::Conversion(Conversion::new("purchase", "5", StringMap::new(), StringMap::new())),
    );
    assert_eq!(message.account_id(), "acc");
    assert_eq!(message.user_id(), "user3");
    assert!(matches!(message.event(), EventEnum::Conversion(c) if c.event_id() == "5"));
    let mut payload = Payload::new("other");
    message.add_to(&mut payload);
    assert_eq!(payload.size(), 1);
    assert_eq!(payload.account_id(), "other");
    assert_eq!(payload.visitors()[0].visitor_id(), "user3");
    assert_eq!(payload.visitors()[0].snapshot().events()[0].key(), "purchase");
}

#[test]
fn simple_dispatcher_makes_a_payload_of_every_event() {
    let client = Client::new(Datafile::new("acc", Vec::new(), Vec::new(), Vec::new(), Vec::new()));
    let user = client.create_user_context("user3");
    let mut dispatcher = SimpleEventDispatcher::new();
    let payload = dispatcher.send_decision_event(&user, decision(3)).expect("due at once");
    assert_eq!(payload.account_id(), "acc");
    assert_eq!(payload.size(), 1);
    assert_eq!(payload.visitors()[0].visitor_id(), "user3");
    assert_eq!(payload.visitors()[0].snapshot().decisions()[0].campaign_id(), "campaign3");
    assert_eq!(payload.visitors()[0].snapshot().events()[0].key(), "campaign_activated");
    let conversion = Conversion::new("purchase", "5", StringMap::new(), pairs(&[("revenue", "1")]));
    let payload = dispatcher.send_conversion_event(&user, conversion).expect("due at once");
    assert_eq!(payload.account_id(), "acc");
    assert_eq!(payload.size(), 1);
    assert!(payload.visitors()[0].snapshot().decisions().is_empty());
    assert_eq!(payload.visitors()[0].snapshot().events()[0].entity_id(), "5");
    assert_eq!(payload.visitors()[0].snapshot().events()[0].tags().get("revenue"), Some("1"));
    let payload = SimpleEventDispatcher::default().send_event(decision_message(4));
    assert_eq!(payload.account_id(), "21537940595");
    assert_eq!(payload.size(), 1);
    assert_eq!(payload.visitors()[0].visitor_id(), "user4");
}

#[test]
fn batched_dispatcher_hands_out_a_payload_at_the_threshold() {
    assert_eq!(DEFAULT_BATCH_THRESHOLD, 10);
    let mut dispatcher = BatchedEventDispatcher::default();
    assert_eq!(dispatcher.size(), 0);
    for n in 0..9 {
        assert!(dispatcher.receive(&decision_message(n)).is_none());
        assert_eq!(dispatcher.size(), n + 1);
    }
    let payload = dispatcher.receive(&decision_message(9)).expect("the tenth visitor is due");
    assert_eq!(payload.size(), 10);
    assert_eq!(payload.account_id(), "21537940595");
    for (n, visitor) in payload.visitors().iter().enumerate() {
        assert_eq!(visitor.visitor_id(), format!("user{}", n));
        assert_eq!(visitor.snapshot().decisions()[0].campaign_id(), format!("campaign{}", n));
    }
    assert_eq!(dispatcher.size(), 0);
    assert!(dispatcher.receive(&decision_message(10)).is_none());
    assert_eq!(dispatcher.size(), 1);
    let rest = dispatcher.close().expect("one visitor is in progress");
    assert_eq!(rest.size(), 1);
    assert_eq!(rest.visitors()[0].visitor_id(), "user10");
}

#[test]
fn batched_dispatcher_hands_out_every_tenth_message() {
    let mut dispatcher = BatchedEventDispatcher::default();
    let mut delivered: Vec<String> = Vec::new();
    let mut payloads = 0;
    for n in 0..47 {
        if let Some(payload) = dispatcher.receive(&decision_message(n)) {
            assert_eq!((n + 1) % 10, 0);
            assert_eq!(payload.size(), 10);
            payloads += 1;
            delivered.extend(payload.visitors().iter().map(|v| v.visitor_id().to_string()));
        } else {
            assert_ne!((n + 1) % 10, 0);
        }
    }
    assert_eq!(payloads, 4);
    let rest = dispatcher.close().expect("seven visitors are in progress");
    assert_eq!(rest.size(), 7);
    delivered.extend(rest.visitors().iter().map(|v| v.visitor_id().to_string()));
    let sent: Vec<String> = (0..47).map(|n| format!("user{}", n)).collect();
    assert_eq!(delivered, sent);
}

#[test]
fn batched_dispatcher_hands_out_the_rest_when_closed() {
    for count in 1..DEFAULT_BATCH_THRESHOLD {
        let mut dispatcher = BatchedEventDispatcher::default();
        for n in 0..count {
            assert!(dispatcher.receive(&decision_message(n)).is_none());
        }
        assert!(!dispatcher.is_closed());
        let payload = dispatcher.close().expect("something is in progress");
        assert_eq!(payload.size(), count);
        for (n, visitor) in payload.visitors().iter().enumerate() {
            assert_eq!(visitor.visitor_id(), format!("user{}", n));
        }
        assert!(dispatcher.is_closed());
        assert!(dispatcher.close().is_none());
    }
}

#[test]
fn batched_dispatcher_without_messages_has_nothing_to_hand_out() {
    let mut dispatcher = BatchedEventDispatcher::default();
    assert!(dispatcher.close().is_none());
    assert!(dispatcher.is_closed());
    assert!(dispatcher.close().is_none());
}

#[test]
fn batched_dispatcher_drops_messages_once_closed() {
    let mut dispatcher = BatchedEventDispatcher::default();
    assert!(dispatcher.receive(&decision_message(0)).is_none());
    assert!(dispatcher.close().is_some());
    for n in 0..25 {
        assert!(dispatcher.receive(&decision_message(n)).is_none());
        assert_eq!(dispatcher.size(), 0);
    }
    assert!(dispatcher.close().is_none());
}

#[test]
fn batched_dispatcher_counts_a_payload_for_the_account_of_its_first_message() {
    let mut dispatcher = BatchedEventDispatcher::default();
    let conversion = Conversion::new("purchase", "5", StringMap::new(), StringMap::new());
    dispatcher.receive(&EventMessage::new("first", "u1", EventEnum::Conversion(conversion.clone())));
    dispatcher.receive(&EventMessage::new("second", "u2", EventEnum::Conversion(conversion)));
    let payload = dispatcher.close().unwrap();
    assert_eq!(payload.account_id(), "first");
    assert_eq!(payload.size(), 2);
    assert_eq!(payload.visitors()[1].visitor_id(), "u2");
}

#[test]
fn batched_dispatcher_takes_events_of_a_user_context() {
    let client = Client::new(Datafile::new("acc", Vec::new(), Vec::new(), Vec::new(), Vec::new()));
    let user = client.create_user_context("user3");
    let mut dispatcher = BatchedEventDispatcher::default();
    for n in 0..9 {
        let due = if n % 2 == 0 {
            dispatcher.send_decision_event(&user, decision(n))
        } else {
            let conversion = Conversion::new("purchase", "5", StringMap::new(), StringMap::new());
            dispatcher.send_conversion_event(&user, conversion)
        };
        assert!(due.is_none());
    }
    let payload = dispatcher.send_decision_event(&user, decision(9)).expect("due");
    assert_eq!(payload.account_id(), "acc");
    assert_eq!(payload.size(), 10);
    assert_eq!(payload.visitors()[0].snapshot().decisions().len(), 1);
    assert_eq!(payload.visitors()[1].snapshot().decisions().len(), 0);
    assert_eq!(payload.visitors()[1].snapshot().events()[0].key(), "purchase");
    assert_eq!(payload.visitors()[9].visitor_id(), "user3");
}

#[test]
fn batched_dispatcher_takes_a_run_of_messages() {
    let messages: Vec<EventMessage> = (0..23).map(decision_message).collect();
    let mut dispatcher = BatchedEventDispatcher::default();
    let due = dispatcher.receive_all(&messages);
    assert_eq!(due.len(), 2);
    for (i, payload) in due.iter().enumerate() {
        assert_eq!(payload.size(), 10);
        for (j, visitor) in payload.visitors().iter().enumerate() {
            assert_eq!(visitor.visitor_id(), format!("user{}", 10 * i + j));
        }
    }
    assert_eq!(dispatcher.size(), 3);
    assert!(dispatcher.receive_all(&[]).is_empty());
    assert_eq!(dispatcher.size(), 3);
    let more = dispatcher.receive_all(&messages[..7]);
    assert_eq!(more.len(), 1);
    assert_eq!(more[0].visitors()[0].visitor_id(), "user20");
    assert_eq!(more[0].visitors()[3].visitor_id(), "user0");
    assert_eq!(dispatcher.size(), 0);
    assert!(dispatcher.close().is_none());
    assert!(dispatcher.receive_all(&messages).is_empty());
}

#[test]
fn batched_dispatcher_with_exactly_the_threshold_has_nothing_left_to_close() {
    let messages: Vec<EventMessage> = (0..DEFAULT_BATCH_THRESHOLD).map(decision_message).collect();
    let mut dispatcher = BatchedEventDispatcher::default();
    let due = dispatcher.receive_all(&messages);
    assert_eq!(due.len(), 1);
    assert_eq!(due[0].size(), DEFAULT_BATCH_THRESHOLD);
    assert!(dispatcher.close().is_none());
}

#[test]
fn timestamp_is_the_reading_of_the_clock_or_zero() {
    assert_eq!(timestamp_of(Ok(0)), 0);
    assert_eq!(timestamp_of(Ok(1_700_000_000_123)), 1_700_000_000_123);
    assert_eq!(timestamp_of(Ok(u128::MAX)), u128::MAX);
    // The epoch lies before this moment, so the time from now to the epoch is an error.
    let before_epoch = std::time::UNIX_EPOCH.duration_since(std::time::SystemTime::now());
    let error = before_epoch.expect_err("the clock stands after the epoch");
    assert_eq!(timestamp_of(Err(error)), 0);
}
