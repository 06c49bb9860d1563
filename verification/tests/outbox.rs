use std::sync::{Arc, Mutex};

use chrono::Duration;
use mulac::outbox::application::{
    NewOutboxEnvelope, NewOutboxMetadata, OutboundMessageEnvelope, OutboxEntryEnvelope,
    OutboxError, OutboxProcessPort, OutboxPublisherPort, OutboxReservePort, OutboxStorePort,
    OutboxSweepPort,
};
use mulac::outbox::consumer::{OutboxConsumer, OutboxConsumerRepository, ReservableOutboxSpec};
use mulac::outbox::domain::{NewOutboxEntry, OutboxEntry, OutboxEntryMetadata, OutboxStatus};
use mulac::outbox::publisher::{
    confirmation_result, headers_for, properties_for, AmqpPublishConfig, BrokerConfirmation,
};
use mulac::outbox::recorder::{OutboxRecorder, OutboxRecorderRepository};
use mulac::outbox::storage::{
    failure_update, reservation_not_owned, sweep_cutoff_at, NewOutboxEntryRecord, OutboxEntryRecord,
};
use mulac::outbox::sweep::{ReservationSweeper, StaleReservationSpec};
use uuid::Uuid;

fn new_id() -> u128 {
    Uuid::now_v7().as_u128()
}

fn now() -> i64 {
    chrono::Utc::now().timestamp_millis()
}

#[derive(Default)]
struct FakeReserve {
    entries: Mutex<Vec<OutboxEntryEnvelope>>,
}

impl OutboxReservePort for FakeReserve {
    fn reserve(&self, _spec: &ReservableOutboxSpec) -> Result<Vec<OutboxEntryEnvelope>, OutboxError> {
        Ok(self.entries.lock().unwrap().clone())
    }
}

#[derive(Default)]
struct FakeProcess {
    completed: Mutex<Vec<(u128, u128)>>,
    failed: Mutex<Vec<(u128, u128, i32, Option<String>)>>,
    dead: Mutex<Vec<(u128, u128, Option<String>)>>,
}

impl OutboxProcessPort for FakeProcess {
    fn completed(&self, id: u128, reservation_id: u128) -> Result<(), OutboxError> {
        self.completed.lock().unwrap().push((id, reservation_id));
        Ok(())
    }

    fn failed(
        &self,
        id: u128,
        reservation_id: u128,
        max_attempts: i32,
        reason: Option<String>,
    ) -> Result<(), OutboxError> {
        self.failed
            .lock()
            .unwrap()
            .push((id, reservation_id, max_attempts, reason));
        Ok(())
    }

    fn dead(&self, id: u128, reservation_id: u128, reason: Option<String>) -> Result<(), OutboxError> {
        self.dead.lock().unwrap().push((id, reservation_id, reason));
        Ok(())
    }
}

#[derive(Default)]
struct FakePublisher {
    published: Mutex<Vec<OutboundMessageEnvelope>>,
    persistent_error: Mutex<Option<String>>,
    transient_error: Mutex<Option<String>>,
    transient_failures: Mutex<usize>,
}

impl OutboxPublisherPort for FakePublisher {
    fn publish(&self, envelope: OutboundMessageEnvelope) -> Result<(), OutboxError> {
        let mut transient_failures = self.transient_failures.lock().unwrap();
        if *transient_failures > 0 {
            *transient_failures -= 1;
            let message = self
                .transient_error
                .lock()
                .unwrap()
                .clone()
                .or_else(|| self.persistent_error.lock().unwrap().clone())
                .unwrap_or_else(|| "transient publish failure".into());
            return Err(OutboxError::Transport(message));
        }

        if let Some(message) = self.persistent_error.lock().unwrap().clone() {
            return Err(OutboxError::Transport(message));
        }
        self.published.lock().unwrap().push(envelope);
        Ok(())
    }
}

fn entry_metadata(event_id: u128) -> OutboxEntryMetadata {
    OutboxEntryMetadata {
        event_id,
        message_id: event_id,
        correlation_id: None,
        causation_id: None,
        event_type: "UserRegistered".into(),
        routing_key: "users.registered".into(),
        source: None,
        content_type: Some("application/json".into()),
    }
}

fn entry(id: u128, reservation_id: Option<u128>) -> OutboxEntryEnvelope {
    let now = now();
    let meta = entry_metadata(id);
    OutboxEntryEnvelope {
        message: OutboxEntry {
            id,
            status: OutboxStatus::Reserved,
            payload: "{}".into(),
            meta: meta.clone(),
            scheduled_at: now,
            attempts: 1,
            reservation_id,
            reserved_at: reservation_id.map(|_| now),
            received_at: now,
            updated_at: now,
            processed_at: None,
            last_error: None,
            extra_info: None,
        },
        metadata: meta,
    }
}

fn consumer(
    reserve: Arc<FakeReserve>,
    process: Arc<FakeProcess>,
    publisher: Arc<FakePublisher>,
) -> OutboxConsumer<FakeReserve, FakeProcess, FakePublisher> {
    let repo = OutboxConsumerRepository::new(reserve, process);
    OutboxConsumer::new(repo, publisher)
}

fn new_metadata(event_id: u128, message_id: Option<u128>) -> NewOutboxMetadata {
    NewOutboxMetadata {
        event_id,
        message_id,
        correlation_id: None,
        causation_id: None,
        event_type: "UserRegistered".into(),
        routing_key: "users.registered".into(),
        source: Some("identity-service".into()),
        content_type: Some("application/json".into()),
    }
}

fn envelope(event_id: u128) -> NewOutboxEnvelope {
    let mut metadata = new_metadata(event_id, None);
    metadata.source = None;
    NewOutboxEnvelope {
        payload: "{}".into(),
        metadata,
    }
}

#[derive(Default)]
struct FakeStore {
    entries: Mutex<Vec<NewOutboxEntry>>,
}

impl OutboxStorePort for FakeStore {
    fn record(&self, entry: &NewOutboxEntry) -> Result<(), OutboxError> {
        self.entries.lock().unwrap().push(entry.clone());
        Ok(())
    }
}

#[test]
fn outbox_consumer_new_uses_default_max_attempts() {
    let spec = ReservableOutboxSpec::new(10);
    assert_eq!(spec.limit, 10);
    assert_eq!(spec.max_attempts, ReservableOutboxSpec::DEFAULT_MAX_ATTEMPTS);
    assert_eq!(ReservableOutboxSpec::DEFAULT_MAX_ATTEMPTS, 6);
}

#[test]
fn outbox_consumer_with_max_attempts_overrides_default() {
    let spec = ReservableOutboxSpec::new(5).with_max_attempts(3);
    assert_eq!(spec.limit, 5);
    assert_eq!(spec.max_attempts, 3);
}

#[test]
fn missing_message_id_defaults_to_event_id() {
    let event_id = new_id();
    let converted = OutboxEntryMetadata::from(new_metadata(event_id, None));
    assert_eq!(converted.event_id, event_id);
    assert_eq!(converted.message_id, event_id);
}

#[test]
fn supplied_message_id_is_preserved() {
    let event_id = new_id();
    let message_id = new_id();
    let converted = OutboxEntryMetadata::from(new_metadata(event_id, Some(message_id)));
    assert_eq!(converted.event_id, event_id);
    assert_eq!(converted.message_id, message_id);
}

#[test]
fn publish_batch_publishes_and_completes_reserved_entry() {
    let entry_id = new_id();
    let reservation_id = new_id();
    let reserve = Arc::new(FakeReserve {
        entries: Mutex::new(vec![entry(entry_id, Some(reservation_id))]),
    });
    let process = Arc::new(FakeProcess::default());
    let publisher = Arc::new(FakePublisher::default());
    let consumer = consumer(reserve, process.clone(), publisher.clone());

    consumer
        .publish_batch(&ReservableOutboxSpec::new(10))
        .expect("batch succeeds");

    assert_eq!(publisher.published.lock().unwrap().len(), 1);
    assert_eq!(
        process.completed.lock().unwrap().as_slice(),
        &[(entry_id, reservation_id)]
    );
}

#[test]
fn publish_batch_marks_entry_failed_on_publish_failure() {
    let entry_id = new_id();
    let reservation_id = new_id();
    let reserve = Arc::new(FakeReserve {
        entries: Mutex::new(vec![entry(entry_id, Some(reservation_id))]),
    });
    let process = Arc::new(FakeProcess::default());
    let publisher = Arc::new(FakePublisher {
        published: Mutex::new(vec![]),
        persistent_error: Mutex::new(Some("broker unavailable".into())),
        transient_error: Mutex::new(None),
        transient_failures: Mutex::new(0),
    });
    let consumer = consumer(reserve, process.clone(), publisher);

    let errors = consumer
        .publish_batch(&ReservableOutboxSpec::new(10).with_max_attempts(3))
        .expect_err("batch reports publish error");

    assert_eq!(errors.len(), 1);
    assert_eq!(process.completed.lock().unwrap().len(), 0);
    assert_eq!(
        process.failed.lock().unwrap().as_slice(),
        &[(
            entry_id,
            reservation_id,
            3,
            Some("transport error: broker unavailable".into())
        )]
    );
}

#[test]
fn publish_batch_continues_after_entry_failure() {
    let failed_entry_id = new_id();
    let failed_reservation_id = new_id();
    let completed_entry_id = new_id();
    let completed_reservation_id = new_id();
    let reserve = Arc::new(FakeReserve {
        entries: Mutex::new(vec![
            entry(failed_entry_id, Some(failed_reservation_id)),
            entry(completed_entry_id, Some(completed_reservation_id)),
        ]),
    });
    let process = Arc::new(FakeProcess::default());
    let publisher = Arc::new(FakePublisher {
        published: Mutex::new(vec![]),
        persistent_error: Mutex::new(None),
        transient_error: Mutex::new(Some("broker unavailable".into())),
        transient_failures: Mutex::new(1),
    });
    let consumer = consumer(reserve, process.clone(), publisher.clone());

    let errors = consumer
        .publish_batch(&ReservableOutboxSpec::new(10).with_max_attempts(4))
        .expect_err("batch reports the failed publish");

    assert_eq!(errors.len(), 1);
    assert_eq!(publisher.published.lock().unwrap().len(), 1);
    assert_eq!(
        process.completed.lock().unwrap().as_slice(),
        &[(completed_entry_id, completed_reservation_id)]
    );
    assert_eq!(
        process.failed.lock().unwrap().as_slice(),
        &[(
            failed_entry_id,
            failed_reservation_id,
            4,
            Some("transport error: broker unavailable".into())
        )]
    );
    assert!(process.dead.lock().unwrap().is_empty());
}

#[test]
fn publish_batch_marks_entry_dead_on_conversion_failure() {
    let entry_id = new_id();
    let reservation_id = new_id();
    let reserve = Arc::new(FakeReserve {
        entries: Mutex::new(vec![entry(entry_id, Some(reservation_id))]),
    });
    {
        let mut entries = reserve.entries.lock().unwrap();
        entries[0].metadata.routing_key = "   ".into();
        entries[0].message.meta.routing_key = "   ".into();
    }
    let process = Arc::new(FakeProcess::default());
    let publisher = Arc::new(FakePublisher::default());
    let consumer = consumer(reserve, process.clone(), publisher.clone());

    let errors = consumer
        .publish_batch(&ReservableOutboxSpec::new(10))
        .expect_err("batch reports conversion error");

    assert_eq!(errors.len(), 1);
    assert!(matches!(
        &errors[0],
        OutboxError::Conversion(message) if message == "missing routing_key"
    ));
    assert!(publisher.published.lock().unwrap().is_empty());
    assert!(process.completed.lock().unwrap().is_empty());
    assert!(process.failed.lock().unwrap().is_empty());
    assert_eq!(
        process.dead.lock().unwrap().as_slice(),
        &[(
            entry_id,
            reservation_id,
            Some("conversion error: missing routing_key".into())
        )]
    );
}

#[test]
fn publish_batch_reports_missing_reservation_without_side_effects() {
    let entry_id = new_id();
    let reserve = Arc::new(FakeReserve {
        entries: Mutex::new(vec![entry(entry_id, None)]),
    });
    let process = Arc::new(FakeProcess::default());
    let publisher = Arc::new(FakePublisher::default());
    let consumer = consumer(reserve, process.clone(), publisher.clone());

    let errors = consumer
        .publish_batch(&ReservableOutboxSpec::new(10))
        .expect_err("batch reports missing reservation");

    assert_eq!(errors.len(), 1);
    assert!(matches!(
        &errors[0],
        OutboxError::MissingReservation { id } if *id == entry_id
    ));
    assert!(publisher.published.lock().unwrap().is_empty());
    assert!(process.completed.lock().unwrap().is_empty());
    assert!(process.failed.lock().unwrap().is_empty());
    assert!(process.dead.lock().unwrap().is_empty());
}

#[test]
fn publish_batch_publishes_payload_bytes_and_metadata() {
    let entry_id = new_id();
    let reservation_id = new_id();
    let mut reserved = entry(entry_id, Some(reservation_id));
    reserved.message.payload = "{\"user\":\"é\"}".into();
    let reserve = Arc::new(FakeReserve {
        entries: Mutex::new(vec![reserved.clone()]),
    });
    let process = Arc::new(FakeProcess::default());
    let publisher = Arc::new(FakePublisher::default());
    let consumer = consumer(reserve, process, publisher.clone());

    assert_eq!(
        consumer
            .publish_batch(&ReservableOutboxSpec::new(10))
            .expect("batch succeeds"),
        1
    );
    let published = publisher.published.lock().unwrap();
    assert_eq!(published[0].payload, "{\"user\":\"é\"}".as_bytes().to_vec());
    assert_eq!(published[0].metadata, reserved.metadata);
}

#[test]
fn conversion_uses_event_id_as_entry_id() {
    let event_id = new_id();
    let entry = NewOutboxEntry::from(&envelope(event_id));
    assert_eq!(entry.id, event_id);
}

#[test]
fn record_stores_valid_envelope() {
    let store = Arc::new(FakeStore::default());
    let repo = Arc::new(OutboxRecorderRepository::new(store.clone()));
    let recorder = OutboxRecorder::new(repo);
    let event_id = new_id();

    recorder
        .record(&envelope(event_id))
        .expect("record succeeds");

    let entries = store.entries.lock().unwrap();
    assert_eq!(entries.len(), 1);
    assert_eq!(entries[0].id, event_id);
}

#[test]
fn record_rejects_blank_routing_key_before_storage() {
    let store = Arc::new(FakeStore::default());
    let repo = Arc::new(OutboxRecorderRepository::new(store.clone()));
    let recorder = OutboxRecorder::new(repo);
    let mut envelope = envelope(new_id());
    envelope.metadata.routing_key = "  ".into();

    let err = recorder
        .record(&envelope)
        .expect_err("routing validation fails");

    assert!(matches!(err, OutboxError::Routing(message) if message == "routing_key is required"));
    assert!(store.entries.lock().unwrap().is_empty());
}

#[test]
fn record_rejects_unicode_white_space_routing_key() {
    let store = Arc::new(FakeStore::default());
    let recorder = OutboxRecorder::new(Arc::new(OutboxRecorderRepository::new(store.clone())));
    let mut envelope = envelope(new_id());
    envelope.metadata.routing_key = "\u{3000}\t\u{a0}".into();

    assert!(recorder.record(&envelope).is_err());
    assert!(store.entries.lock().unwrap().is_empty());
}

#[test]
fn record_preserves_event_id_in_stored_entry() {
    let store = Arc::new(FakeStore::default());
    let repo = Arc::new(OutboxRecorderRepository::new(store.clone()));
    let recorder = OutboxRecorder::new(repo);
    let event_id = new_id();
    let mut envelope = envelope(event_id);
    envelope.metadata.message_id = Some(new_id());

    recorder.record(&envelope).expect("record succeeds");

    let entries = store.entries.lock().unwrap();
    assert_eq!(entries[0].id, event_id);
    assert_eq!(entries[0].meta.event_id, event_id);
}

struct NoopReserve;

impl OutboxReservePort for NoopReserve {
    fn reserve(&self, _spec: &ReservableOutboxSpec) -> Result<Vec<OutboxEntryEnvelope>, OutboxError> {
        Ok(vec![])
    }
}

struct NoopSweep;

impl OutboxSweepPort for NoopSweep {
    fn sweep(&self, _spec: &StaleReservationSpec) -> Result<u64, OutboxError> {
        Ok(0)
    }
}

struct NoopPublisher;

impl OutboxPublisherPort for NoopPublisher {
    fn publish(&self, _envelope: OutboundMessageEnvelope) -> Result<(), OutboxError> {
        Ok(())
    }
}

#[test]
fn io_facade_reexports_core_outbox_api() {
    let event_id = new_id();
    let envelope = NewOutboxEnvelope {
        payload: "{}".into(),
        metadata: new_metadata(event_id, None),
    };

    let recorder_repo = Arc::new(OutboxRecorderRepository::new(Arc::new(FakeStore::default())));
    let recorder = OutboxRecorder::new(recorder_repo);
    recorder.record(&envelope).expect("record succeeds");

    let consumer_repo =
        OutboxConsumerRepository::new(Arc::new(NoopReserve), Arc::new(FakeProcess::default()));
    let consumer = OutboxConsumer::new(consumer_repo, Arc::new(NoopPublisher));
    consumer
        .publish_batch(&ReservableOutboxSpec::new(10))
        .expect("empty batch succeeds");

    let sweeper = ReservationSweeper::new(Arc::new(NoopSweep));
    assert_eq!(
        sweeper
            .sweep(&StaleReservationSpec::new(Duration::minutes(5).num_milliseconds()))
            .expect("sweep succeeds"),
        0
    );

    let _status = OutboxStatus::Received;
    let _error = OutboxError::Storage("boom".into());
}

#[test]
fn io_facade_reexports_amqp_scaffold() {
    let config = AmqpPublishConfig::default();

    assert_eq!(config.exchange, "");
    assert!(!config.mandatory);
    assert_eq!(config.default_content_type, "application/json");
}

struct FakeSweepPort {
    result: Mutex<Result<u64, String>>,
    specs: Mutex<Vec<StaleReservationSpec>>,
}

impl OutboxSweepPort for FakeSweepPort {
    fn sweep(&self, spec: &StaleReservationSpec) -> Result<u64, OutboxError> {
        self.specs.lock().unwrap().push(spec.clone());
        match &*self.result.lock().unwrap() {
            Ok(count) => Ok(*count),
            Err(message) => Err(OutboxError::Reservation(message.clone())),
        }
    }
}

#[test]
fn sweep_returns_successful_count() {
    let port = Arc::new(FakeSweepPort {
        result: Mutex::new(Ok(4)),
        specs: Mutex::new(vec![]),
    });
    let sweeper = ReservationSweeper::new(port);

    let swept = sweeper
        .sweep(&StaleReservationSpec::new(Duration::minutes(5).num_milliseconds()))
        .expect("sweep succeeds");

    assert_eq!(swept, 4);
}

#[test]
fn sweep_propagates_port_errors() {
    let port = Arc::new(FakeSweepPort {
        result: Mutex::new(Err("db timeout".into())),
        specs: Mutex::new(vec![]),
    });
    let sweeper = ReservationSweeper::new(port);

    let err = sweeper
        .sweep(&StaleReservationSpec::new(Duration::minutes(5).num_milliseconds()))
        .expect_err("sweep returns the adapter error");

    assert!(matches!(err, OutboxError::Reservation(message) if message == "db timeout"));
}

#[test]
fn sweep_passes_spec_through_to_port() {
    let port = Arc::new(FakeSweepPort {
        result: Mutex::new(Ok(1)),
        specs: Mutex::new(vec![]),
    });
    let sweeper = ReservationSweeper::new(port.clone());
    let spec =
        StaleReservationSpec::new(Duration::minutes(15).num_milliseconds()).with_max_attempts(9);

    sweeper.sweep(&spec).expect("sweep succeeds");

    assert_eq!(port.specs.lock().unwrap().as_slice(), &[spec]);
}

fn outbound(content_type: Option<&str>) -> OutboundMessageEnvelope {
    let event_id = new_id();
    OutboundMessageEnvelope {
        payload: br#"{"user_id":"123"}"#.to_vec(),
        metadata: OutboxEntryMetadata {
            event_id,
            message_id: event_id,
            correlation_id: Some(new_id()),
            causation_id: Some(new_id()),
            event_type: "UserRegistered".into(),
            routing_key: "users.registered".into(),
            source: Some("identity-service".into()),
            content_type: content_type.map(str::to_owned),
        },
    }
}

fn uuid_string(id: u128) -> String {
    Uuid::from_u128(id).to_string()
}

#[test]
fn properties_use_outbox_metadata() {
    let config = AmqpPublishConfig::default();
    let envelope = outbound(Some("application/cloudevents+json"));

    let properties = properties_for(&config, &envelope);

    assert_eq!(properties.message_id, uuid_string(envelope.metadata.message_id));
    assert_eq!(
        properties.correlation_id,
        envelope.metadata.correlation_id.map(uuid_string)
    );
    assert_eq!(properties.content_type, "application/cloudevents+json");
}

#[test]
fn properties_default_content_type_when_missing() {
    let config = AmqpPublishConfig {
        exchange: "events".into(),
        mandatory: true,
        default_content_type: "application/json".into(),
    };
    let envelope = outbound(None);

    let properties = properties_for(&config, &envelope);

    assert_eq!(properties.content_type, "application/json");
}

#[test]
fn headers_include_event_metadata() {
    let envelope = outbound(Some("application/json"));
    let headers = headers_for(&envelope.metadata);
    let map: std::collections::BTreeMap<String, String> = headers.into_iter().collect();

    assert_eq!(
        map.get("event_id").map(String::as_str),
        Some(uuid_string(envelope.metadata.event_id).as_str())
    );
    assert_eq!(map.get("event_type").map(String::as_str), Some("UserRegistered"));
    assert_eq!(
        map.get("causation_id").cloned(),
        envelope.metadata.causation_id.map(uuid_string)
    );
    assert_eq!(map.get("source").map(String::as_str), Some("identity-service"));
}

#[test]
fn headers_leave_out_unknown_causation_and_source() {
    let mut envelope = outbound(None);
    envelope.metadata.causation_id = None;
    envelope.metadata.source = None;
    let headers = headers_for(&envelope.metadata);
    let names: Vec<&str> = headers.iter().map(|(name, _)| name.as_str()).collect();
    assert_eq!(names, vec!["event_id", "event_type"]);
}

#[test]
fn broker_nack_is_a_transport_error() {
    assert!(confirmation_result(BrokerConfirmation::Ack).is_ok());
    assert!(confirmation_result(BrokerConfirmation::NotRequested).is_ok());
    assert!(matches!(
        confirmation_result(BrokerConfirmation::Nack),
        Err(OutboxError::Transport(message)) if message == "broker negatively acknowledged publish"
    ));
}

#[test]
fn new_outbox_entry_converts_to_insertable_record() {
    let event_id = new_id();
    let now = now();
    let entry = NewOutboxEntry {
        id: event_id,
        payload: "{}".into(),
        meta: entry_metadata(event_id),
        scheduled_at: now,
        received_at: now,
    };

    let record = NewOutboxEntryRecord::from(&entry);

    assert_eq!(record.id(), event_id);
    assert_eq!(record.status(), i32::from(OutboxStatus::Received));
    assert_eq!(record.payload(), "{}");
    assert_eq!(record.meta().event_id, event_id);
    assert_eq!(record.attempts(), 0);
    assert_eq!(record.scheduled_at(), now);
    assert_eq!(record.received_at(), now);
    assert_eq!(record.updated_at(), now);
}

#[test]
fn outbox_record_converts_to_entry_envelope() {
    let event_id = new_id();
    let reservation_id = new_id();
    let now = now();
    let record = OutboxEntryRecord::new(
        event_id,
        i32::from(OutboxStatus::Reserved),
        "{}".into(),
        entry_metadata(event_id),
        now,
        2,
        Some(reservation_id),
        Some(now),
        now,
        now,
        None,
        Some("broker unavailable".into()),
    );

    let envelope = OutboxEntryEnvelope::try_from(record).expect("record converts");

    assert_eq!(envelope.message.id, event_id);
    assert_eq!(envelope.message.status, OutboxStatus::Reserved);
    assert_eq!(envelope.message.attempts, 2);
    assert_eq!(envelope.message.reservation_id, Some(reservation_id));
    assert_eq!(
        envelope.message.last_error.as_deref(),
        Some("broker unavailable")
    );
    assert_eq!(envelope.metadata.event_id, event_id);
}

#[test]
fn outbox_record_with_unknown_status_is_a_storage_error() {
    let event_id = new_id();
    let record = OutboxEntryRecord::new(
        event_id,
        3,
        "{}".into(),
        entry_metadata(event_id),
        0,
        0,
        None,
        None,
        0,
        0,
        None,
        None,
    );
    assert!(matches!(
        OutboxEntryEnvelope::try_from(record),
        Err(OutboxError::Storage(message)) if message == "unknown outbox status: 3"
    ));
}

#[test]
fn failure_update_gives_up_at_the_attempt_limit() {
    assert_eq!(failure_update(3, 3, 1_000), (OutboxStatus::Dead, None));
    assert_eq!(
        failure_update(1, 3, 1_000),
        (OutboxStatus::Failed, Some(1_000 + 30_000))
    );
    assert_eq!(
        failure_update(5, 6, 1_000),
        (OutboxStatus::Failed, Some(1_000 + 120_000))
    );
}

#[test]
fn reservation_not_owned_names_entry_and_reservation() {
    let id = 0x0123_4567_89ab_cdef_0123_4567_89ab_cdef;
    let reservation_id = 1;
    assert!(matches!(
        reservation_not_owned(id, reservation_id),
        OutboxError::Reservation(message) if message == "outbox entry 01234567-89ab-cdef-0123-456789abcdef is not reserved by reservation 00000000-0000-0000-0000-000000000001"
    ));
}

#[test]
fn error_messages_match_their_kind() {
    assert_eq!(
        OutboxError::MissingReservation { id: 255 }.message(),
        "missing reservation for entry 00000000-0000-0000-0000-0000000000ff"
    );
    assert_eq!(
        OutboxError::Publish("nope".into()).message(),
        "publish error: nope"
    );
}

#[test]
fn duplicate_publish_after_completion_failure_keeps_message_id_stable() {
    struct RepeatReserve {
        entry: OutboxEntryEnvelope,
    }

    impl OutboxReservePort for RepeatReserve {
        fn reserve(
            &self,
            _spec: &ReservableOutboxSpec,
        ) -> Result<Vec<OutboxEntryEnvelope>, OutboxError> {
            Ok(vec![self.entry.clone()])
        }
    }

    struct FlakyProcess {
        completed_calls: Mutex<usize>,
    }

    impl OutboxProcessPort for FlakyProcess {
        fn completed(&self, _id: u128, _reservation_id: u128) -> Result<(), OutboxError> {
            let mut calls = self.completed_calls.lock().unwrap();
            *calls += 1;
            if *calls == 1 {
                Err(OutboxError::Reservation("completion failed".into()))
            } else {
                Ok(())
            }
        }

        fn failed(
            &self,
            _id: u128,
            _reservation_id: u128,
            _max_attempts: i32,
            _reason: Option<String>,
        ) -> Result<(), OutboxError> {
            Ok(())
        }

        fn dead(
            &self,
            _id: u128,
            _reservation_id: u128,
            _reason: Option<String>,
        ) -> Result<(), OutboxError> {
            Ok(())
        }
    }

    struct RecordingPublisher {
        published_message_ids: Mutex<Vec<u128>>,
    }

    impl OutboxPublisherPort for RecordingPublisher {
        fn publish(&self, envelope: OutboundMessageEnvelope) -> Result<(), OutboxError> {
            self.published_message_ids
                .lock()
                .unwrap()
                .push(envelope.metadata.message_id);
            Ok(())
        }
    }

    let event_id = new_id();
    let reservation_id = new_id();
    let now = now();
    let metadata = OutboxEntryMetadata {
        event_id,
        message_id: event_id,
        correlation_id: None,
        causation_id: None,
        event_type: "UserRegistered".into(),
        routing_key: "users.registered".into(),
        source: Some("identity-service".into()),
        content_type: Some("application/json".into()),
    };
    let entry = OutboxEntryEnvelope {
        message: OutboxEntry {
            id: event_id,
            status: OutboxStatus::Reserved,
            payload: "{}".into(),
            meta: metadata.clone(),
            scheduled_at: now,
            attempts: 1,
            reservation_id: Some(reservation_id),
            reserved_at: Some(now),
            received_at: now,
            updated_at: now,
            processed_at: None,
            last_error: None,
            extra_info: None,
        },
        metadata,
    };
    let publisher = Arc::new(RecordingPublisher {
        published_message_ids: Mutex::new(vec![]),
    });
    let repository = OutboxConsumerRepository::new(
        Arc::new(RepeatReserve { entry }),
        Arc::new(FlakyProcess {
            completed_calls: Mutex::new(0),
        }),
    );
    let consumer = OutboxConsumer::new(repository, publisher.clone());

    assert!(consumer
        .publish_batch(&ReservableOutboxSpec::new(1))
        .is_err());
    consumer
        .publish_batch(&ReservableOutboxSpec::new(1))
        .expect("second completion succeeds");

    assert_eq!(
        publisher.published_message_ids.lock().unwrap().as_slice(),
        &[event_id, event_id]
    );
}

#[test]
fn stale_reservation_sweep_new_uses_default_max_attempts() {
    let spec = StaleReservationSpec::new(Duration::minutes(5).num_milliseconds());

    assert_eq!(spec.timeout_ms, Duration::minutes(5).num_milliseconds());
    assert_eq!(spec.max_attempts, StaleReservationSpec::DEFAULT_MAX_ATTEMPTS);
}

#[test]
fn stale_reservation_sweep_with_max_attempts_overrides_default() {
    let spec = StaleReservationSpec::new(Duration::minutes(5).num_milliseconds()).with_max_attempts(3);

    assert_eq!(spec.timeout_ms, Duration::minutes(5).num_milliseconds());
    assert_eq!(spec.max_attempts, 3);
}

#[test]
fn sweep_cutoff_is_the_timeout_before_now() {
    let spec = StaleReservationSpec::new(30_000);
    assert_eq!(sweep_cutoff_at(&spec, 100_000), 70_000);
    assert_eq!(sweep_cutoff_at(&StaleReservationSpec::new(-5), 0), 5);
}
