use std::sync::{Arc, Mutex};

use chrono::Duration;
use mulac::eventing::application::{
    EventDispatchPort, EventEnvelope, EventError, EventMetadata, EventProcessPort, EventStorePort,
    NewEventEnvelope, NewEventMetadata,
};
use mulac::eventing::consumer::{
    EventConsumer, EventConsumerRepository, EventReservePort, ReservableEventSpec,
};
use mulac::eventing::dispatcher::{EventDispatcher, EventSubscriberPort};
use mulac::eventing::domain::{append_error, Criterion, EventStatus, ExtraInfo};
use mulac::eventing::gateway::EventGateway;
use mulac::eventing::recorder::{EventRecorder, EventRecorderRepository};
use mulac::eventing::storage::{
    event_retry_policy, failure_update, reservation_criteria, sweep_criteria_at, EventEntry,
    NewEventEntry,
};
use mulac::eventing::sweep::{EventSweepPort, EventSweeper, StaleEventSpec};
use uuid::Uuid;

fn new_id() -> u128 {
    Uuid::now_v7().as_u128()
}

fn now() -> i64 {
    chrono::Utc::now().timestamp_millis()
}

#[test]
fn event_consumer_new_uses_default_max_attempts() {
    let spec = ReservableEventSpec::new(10);
    assert_eq!(spec.limit, 10);
    assert_eq!(spec.max_attempts, ReservableEventSpec::DEFAULT_MAX_ATTEMPTS);
}

#[test]
fn event_consumer_with_max_attempts_overrides_default() {
    let spec = ReservableEventSpec::new(5).with_max_attempts(3);
    assert_eq!(spec.limit, 5);
    assert_eq!(spec.max_attempts, 3);
}

#[test]
fn event_consumer_criteria_returns_four_entries_in_order() {
    let spec = ReservableEventSpec::new(10);
    let criteria = spec.criteria();
    assert_eq!(criteria.len(), 4);
    assert!(matches!(criteria[0], Criterion::StatusIn(_)));
    assert!(matches!(criteria[1], Criterion::ScheduledBeforeNow));
    assert!(matches!(criteria[2], Criterion::MaxAttempts(6)));
    assert!(matches!(criteria[3], Criterion::OrderByScheduledAtAsc));
}

#[test]
fn event_consumer_criteria_max_attempts_reflects_custom_value() {
    let spec = ReservableEventSpec::new(1).with_max_attempts(3);
    let criteria = spec.criteria();
    assert!(matches!(criteria[2], Criterion::MaxAttempts(3)));
}

#[test]
fn event_consumer_criteria_status_in_includes_received_and_failed() {
    let spec = ReservableEventSpec::new(1);
    let criteria = spec.criteria();
    if let Criterion::StatusIn(statuses) = &criteria[0] {
        assert!(statuses.contains(&EventStatus::Received));
        assert!(statuses.contains(&EventStatus::Failed));
        assert_eq!(statuses.len(), 2);
    } else {
        panic!("first criterion should be StatusIn");
    }
}

#[test]
fn stale_event_sweep_new_uses_default_max_attempts() {
    let spec = StaleEventSpec::new(Duration::minutes(5).num_milliseconds());
    assert_eq!(spec.max_attempts, StaleEventSpec::DEFAULT_MAX_ATTEMPTS);
}

#[test]
fn stale_event_sweep_with_max_attempts_overrides_default() {
    let spec = StaleEventSpec::new(Duration::minutes(5).num_milliseconds()).with_max_attempts(3);
    assert_eq!(spec.max_attempts, 3);
}

#[test]
fn stale_event_sweep_criteria_reserved_before_is_in_the_past() {
    let spec = StaleEventSpec::new(Duration::minutes(5).num_milliseconds());
    let criteria = spec.criteria();
    assert_eq!(criteria.len(), 1);
    if let Criterion::ReservedBefore(cutoff) = &criteria[0] {
        assert!(*cutoff < now());
    } else {
        panic!("first criterion should be ReservedBefore");
    }
}

#[test]
fn append_error_accumulates_errors() {
    let extra_info = append_error(Some(ExtraInfo::with_error("first")), "second");

    assert_eq!(
        extra_info.errors(),
        &["first".to_string(), "second".to_string()]
    );
}

#[test]
fn with_errors_preserves_order() {
    let extra_info = ExtraInfo::with_errors(vec!["first".into(), "second".into()]);

    assert_eq!(
        extra_info.errors(),
        &["first".to_string(), "second".to_string()]
    );
}

#[test]
fn event_status_round_trips_through_i32() {
    for (value, expected) in [
        (0, EventStatus::Received),
        (2, EventStatus::Reserved),
        (4, EventStatus::Failed),
        (5, EventStatus::Completed),
        (7, EventStatus::Dead),
        (8, EventStatus::Archive),
    ] {
        let status = EventStatus::try_from(value).expect("valid status");
        assert_eq!(status, expected);
        assert_eq!(i32::from(status), value);
    }
    assert!(EventStatus::try_from(99).is_err());
    assert!(EventStatus::try_from(-1).is_err());
}

fn metadata(event_id: u128) -> EventMetadata {
    EventMetadata {
        event_id,
        correlation_id: Some(new_id()),
        causation_id: None,
        source: Some("billing".into()),
    }
}

fn reserved(event_type: &str) -> EventEnvelope {
    let id = new_id();
    EventEnvelope {
        id,
        reservation_id: new_id(),
        event_type: event_type.into(),
        payload: "{}".into(),
        attempts: 1,
        metadata: Some(metadata(id)),
    }
}

#[derive(Default)]
struct Store {
    reserved: Mutex<Vec<EventEnvelope>>,
    completed: Mutex<Vec<(u128, u128)>>,
    failed: Mutex<Vec<(u128, u128, i32)>>,
    fail_reports: bool,
}

impl EventReservePort for Store {
    fn reserve(&self, _spec: &ReservableEventSpec) -> Result<Vec<EventEnvelope>, EventError> {
        Ok(std::mem::take(&mut *self.reserved.lock().unwrap()))
    }
}

impl EventProcessPort for Store {
    fn completed(&self, id: u128, reservation_id: u128) -> Result<(), EventError> {
        if self.fail_reports {
            return Err(EventError::MissingReservation { id });
        }
        self.completed.lock().unwrap().push((id, reservation_id));
        Ok(())
    }

    fn failed(&self, id: u128, reservation_id: u128, max_attempts: i32) -> Result<(), EventError> {
        if self.fail_reports {
            return Err(EventError::MissingReservation { id });
        }
        self.failed.lock().unwrap().push((id, reservation_id, max_attempts));
        Ok(())
    }
}

struct Subscriber {
    refuse: &'static str,
    seen: Mutex<Vec<NewEventEnvelope>>,
}

impl EventSubscriberPort for Subscriber {
    fn handle(&self, envelope: &NewEventEnvelope) -> Result<(), EventError> {
        self.seen.lock().unwrap().push(envelope.clone());
        if envelope.event_type == self.refuse {
            Err(EventError::SubscriberExecution("refused".into()))
        } else {
            Ok(())
        }
    }
}

fn consumer(
    store: Arc<Store>,
    refuse: &'static str,
) -> (EventConsumer<Store, Store, Subscriber>, Arc<Subscriber>) {
    let subscriber = Arc::new(Subscriber { refuse, seen: Mutex::new(Vec::new()) });
    let repository = EventConsumerRepository::new(store.clone(), store);
    let dispatcher = Arc::new(EventDispatcher::new(subscriber.clone()));
    (EventConsumer::new(repository, dispatcher), subscriber)
}

#[test]
fn consume_delivers_and_completes_reserved_events() {
    let store = Arc::new(Store::default());
    let event = reserved("UserRegistered");
    let (id, reservation_id) = (event.id, event.reservation_id);
    let expected_meta = event.metadata.clone().unwrap();
    store.reserved.lock().unwrap().push(event);
    let (consumer, subscriber) = consumer(store.clone(), "none");

    consumer.consume(&ReservableEventSpec::new(10)).expect("consume succeeds");

    assert_eq!(*store.completed.lock().unwrap(), vec![(id, reservation_id)]);
    let seen = subscriber.seen.lock().unwrap();
    assert_eq!(seen.len(), 1);
    assert_eq!(seen[0].event_type, "UserRegistered");
    assert_eq!(
        seen[0].metadata,
        Some(NewEventMetadata {
            event_id: expected_meta.event_id,
            correlation_id: expected_meta.correlation_id,
            causation_id: expected_meta.causation_id,
            source: expected_meta.source,
        })
    );
}

#[test]
fn consume_marks_refused_events_failed_and_continues() {
    let store = Arc::new(Store::default());
    let refused = reserved("Refused");
    let accepted = reserved("Accepted");
    let refused_id = (refused.id, refused.reservation_id);
    let accepted_id = (accepted.id, accepted.reservation_id);
    store.reserved.lock().unwrap().extend([refused, accepted]);
    let (consumer, _) = consumer(store.clone(), "Refused");

    let errors = consumer
        .consume(&ReservableEventSpec::new(10).with_max_attempts(4))
        .expect_err("the refused event is reported");

    assert_eq!(errors.len(), 1);
    assert_eq!(errors[0].message(), "subscriber execution error: refused");
    assert_eq!(*store.failed.lock().unwrap(), vec![(refused_id.0, refused_id.1, 4)]);
    assert_eq!(*store.completed.lock().unwrap(), vec![accepted_id]);
}

#[test]
fn consume_reports_recording_failures_before_delivery_failures() {
    let store = Arc::new(Store { fail_reports: true, ..Store::default() });
    let event = reserved("Refused");
    let id = event.id;
    store.reserved.lock().unwrap().push(event);
    let (consumer, _) = consumer(store.clone(), "Refused");

    let errors = consumer.consume(&ReservableEventSpec::new(10)).unwrap_err();

    assert_eq!(errors.len(), 2);
    assert!(matches!(errors[0], EventError::MissingReservation { id: e } if e == id));
    assert!(matches!(errors[1], EventError::SubscriberExecution(_)));
}

#[test]
fn consume_with_nothing_reserved_succeeds() {
    let store = Arc::new(Store::default());
    let (consumer, _) = consumer(store, "none");
    assert!(consumer.consume(&ReservableEventSpec::new(10)).is_ok());
}

#[derive(Default)]
struct Recorded {
    events: Mutex<Vec<NewEventEnvelope>>,
}

impl EventStorePort for Recorded {
    fn record(&self, envelope: &NewEventEnvelope) -> Result<(), EventError> {
        self.events.lock().unwrap().push(envelope.clone());
        Ok(())
    }
}

fn new_event(with_metadata: bool) -> NewEventEnvelope {
    NewEventEnvelope {
        event_type: "UserRegistered".into(),
        payload: "{}".into(),
        metadata: if with_metadata {
            Some(NewEventMetadata { event_id: new_id(), correlation_id: None, causation_id: None, source: None })
        } else {
            None
        },
    }
}

#[test]
fn gateway_refuses_events_without_metadata() {
    let store = Arc::new(Recorded::default());
    let recorder = Arc::new(EventRecorder::new(Arc::new(EventRecorderRepository::new(store.clone()))));
    let gateway: EventGateway<Subscriber, Recorded> = EventGateway::two_phased(recorder);

    let error = gateway.dispatch(new_event(false)).unwrap_err();
    assert_eq!(error.message(), "conversion error: event_id is required: metadata is missing");
    let error = EventDispatchPort::dispatch(&gateway, new_event(false)).unwrap_err();
    assert_eq!(error.message(), "event dispatch error: event_id is required: metadata is missing");
    assert!(store.events.lock().unwrap().is_empty());

    gateway.dispatch(new_event(true)).expect("recorded");
    assert_eq!(store.events.lock().unwrap().len(), 1);
}

#[test]
fn gateway_dispatch_port_wraps_subscriber_failures() {
    let subscriber = Arc::new(Subscriber { refuse: "UserRegistered", seen: Mutex::new(Vec::new()) });
    let gateway: EventGateway<Subscriber, Recorded> =
        EventGateway::direct(Arc::new(EventDispatcher::new(subscriber)));

    let error = EventDispatchPort::dispatch(&gateway, new_event(true)).unwrap_err();
    assert_eq!(error.message(), "event dispatch error: subscriber execution error: refused");
}

#[test]
fn failure_update_caps_the_backoff_and_gives_up_at_the_limit() {
    let at = 1_000_000;
    assert_eq!(failure_update(1, 6, at), (EventStatus::Failed, at + 30_000));
    assert_eq!(failure_update(9, 10, at), (EventStatus::Failed, at + 120_000));
    assert_eq!(failure_update(6, 6, at), (EventStatus::Dead, at + 120_000));
    assert_eq!(failure_update(0, 6, at), (EventStatus::Failed, at + 30_000));
    let policy = event_retry_policy();
    assert!(policy.capped_backoff && policy.reschedule_dead && !policy.sweep_gives_up);
}

#[test]
fn reservation_and_sweep_parameters_follow_the_specs() {
    let criteria = reservation_criteria(&ReservableEventSpec::new(3).with_max_attempts(2));
    assert_eq!(criteria.statuses, vec![0, 4]);
    assert_eq!(criteria.max_attempts, 2);
    let sweep = sweep_criteria_at(&StaleEventSpec::new(60_000), 1_000_000);
    assert_eq!(sweep.cutoff, 940_000);
}

fn entry(reservation_id: Option<u128>) -> EventEntry {
    let id = new_id();
    EventEntry {
        id,
        event_type: "UserRegistered".into(),
        status: 2,
        payload: "{\"a\":1}".into(),
        meta: Some(metadata(id)),
        scheduled_at: 5,
        attempts: 2,
        reservation_id,
        reserved_at: Some(6),
        received_at: 1,
        updated_at: 6,
        processed_at: None,
    }
}

#[test]
fn stored_event_reads_back_only_when_reserved() {
    let reservation_id = new_id();
    let stored = entry(Some(reservation_id));
    let id = stored.id;
    let envelope = EventEnvelope::try_from(stored).expect("reserved entry reads back");
    assert_eq!(envelope.id, id);
    assert_eq!(envelope.reservation_id, reservation_id);
    assert_eq!(envelope.attempts, 2);
    assert_eq!(envelope.payload, "{\"a\":1}");

    let stored = entry(None);
    let id = stored.id;
    let error = EventEnvelope::try_from(stored).unwrap_err();
    assert!(matches!(error, EventError::MissingReservation { id: e } if e == id));
    assert_eq!(
        error.message(),
        format!("missing reservation for entry {}", Uuid::from_u128(id))
    );
}

#[test]
fn new_event_entry_is_identified_by_its_event_id() {
    let event = new_event(true);
    let event_id = event.metadata.as_ref().unwrap().event_id;
    let entry = NewEventEntry::from_envelope_at(&event, 42).expect("event with metadata");
    assert_eq!(entry.id, event_id);
    assert_eq!(entry.scheduled_at, 42);
    assert_eq!(entry.received_at, 42);
    assert_eq!(entry.event_type, "UserRegistered");

    let error = NewEventEntry::try_from(&new_event(false)).unwrap_err();
    assert_eq!(error.message(), "conversion error: event_id is required: metadata is missing");
}

struct Sweep;

impl EventSweepPort for Sweep {
    fn sweep(&self, spec: &StaleEventSpec) -> Result<u64, EventError> {
        Ok(spec.max_attempts as u64)
    }
}

#[test]
fn event_sweeper_returns_the_port_answer() {
    let sweeper = EventSweeper::new(Arc::new(Sweep));
    let spec = StaleEventSpec::new(1_000).with_max_attempts(7);
    assert_eq!(sweeper.sweep(&spec).unwrap(), 7);
}
