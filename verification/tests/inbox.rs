use std::sync::{Arc, Mutex};

use chrono::Duration;
use mulac::commanding::application::{
    CommandError, CommandStorePort, NewCommandEnvelope,
};
use mulac::commanding::dispatcher::ErasedCommandHandler;
use mulac::commanding::gateway::CommandGateway;
use mulac::commanding::recorder::{CommandRecorder, CommandRecorderRepository};
use mulac::eventing::application::{EventDispatchPort, EventError, NewEventEnvelope};
use mulac::inbox::amqp::{AmqpMessage, AmqpMessageMetadata};
use mulac::inbox::application::{
    InboundMessageEnvelope, InboxError, InboxMessageEnvelope, InboxMessageMetadata, InboxProcessPort,
};
use mulac::inbox::consumer::{
    command_envelope, InboxConsumer, InboxConsumerRepository, InboxReservePort, ReservableInboxSpec,
};
use mulac::inbox::domain::{Criterion, InboxMessage, InboxStatus};
use mulac::inbox::publisher::InboxPublisher;
use mulac::inbox::recorder::{
    InboxRecorder, InboxRecorderRepository, InboxStorePort, NewInboxMessageEnvelope,
    NewInboxMessageMetadata,
};
use mulac::inbox::storage::{
    failure_update, inbox_retry_policy, reservation_criteria, sweep_criteria_at, sweep_journal,
    InboxEntry, NewInboxEntry,
};
use mulac::inbox::sweep::{InboxSweepPort, ReservationSweeper, StaleReservationSpec, SweepCriterion};
use mulac::inbox::worker::{step, WorkerAction, WorkerEvent, WorkerState, BACKOFF_SECONDS};
use mulac::support::ExtraInfo;
use uuid::Uuid;

fn new_id() -> u128 {
    Uuid::new_v4().as_u128()
}

#[test]
fn status_round_trips_through_i32() {
    let cases = [
        (0, InboxStatus::Received),
        (2, InboxStatus::Reserved),
        (4, InboxStatus::Failed),
        (5, InboxStatus::Completed),
        (7, InboxStatus::Dead),
        (8, InboxStatus::Archive),
    ];
    for (value, expected) in cases {
        let status = InboxStatus::try_from(value).expect("valid status");
        assert_eq!(status, expected);
        assert_eq!(i32::from(status), value);
    }
}

#[test]
fn reserved_gaps_are_unknown() {
    for value in [1, 3, 6] {
        assert!(
            InboxStatus::try_from(value).is_err(),
            "value {value} should be unknown"
        );
    }
}

#[test]
fn arbitrary_unknown_value_returns_error() {
    assert!(InboxStatus::try_from(99).is_err());
    assert!(InboxStatus::try_from(-1).is_err());
}

#[test]
fn as_str_matches_variant() {
    assert_eq!(InboxStatus::Received.as_str(), "received");
    assert_eq!(InboxStatus::Reserved.as_str(), "reserved");
    assert_eq!(InboxStatus::Failed.as_str(), "failed");
    assert_eq!(InboxStatus::Completed.as_str(), "completed");
    assert_eq!(InboxStatus::Dead.as_str(), "dead");
    assert_eq!(InboxStatus::Archive.as_str(), "archive");
}

#[test]
fn inbox_consumer_new_uses_default_max_attempts() {
    let spec = ReservableInboxSpec::new(10);
    assert_eq!(spec.limit, 10);
    assert_eq!(spec.max_attempts, ReservableInboxSpec::DEFAULT_MAX_ATTEMPTS);
}

#[test]
fn inbox_consumer_with_max_attempts_overrides_default() {
    let spec = ReservableInboxSpec::new(5).with_max_attempts(3);
    assert_eq!(spec.limit, 5);
    assert_eq!(spec.max_attempts, 3);
}

#[test]
fn inbox_consumer_criteria_returns_four_entries_in_order() {
    let spec = ReservableInboxSpec::new(10);
    let criteria = spec.criteria();
    assert_eq!(criteria.len(), 4);
    assert!(matches!(criteria[0], Criterion::StatusIn(_)));
    assert!(matches!(criteria[1], Criterion::ScheduledBeforeNow));
    assert!(matches!(criteria[2], Criterion::MaxAttempts(6)));
    assert!(matches!(criteria[3], Criterion::OrderByScheduledAtAsc));
}

#[test]
fn inbox_consumer_criteria_max_attempts_reflects_custom_value() {
    let spec = ReservableInboxSpec::new(1).with_max_attempts(3);
    let criteria = spec.criteria();
    assert!(matches!(criteria[2], Criterion::MaxAttempts(3)));
}

#[test]
fn inbox_consumer_criteria_status_in_includes_received_and_failed() {
    let spec = ReservableInboxSpec::new(1);
    let criteria = spec.criteria();
    if let Criterion::StatusIn(statuses) = &criteria[0] {
        assert!(statuses.contains(&InboxStatus::Received));
        assert!(statuses.contains(&InboxStatus::Failed));
        assert_eq!(statuses.len(), 2);
    } else {
        panic!("first criterion should be StatusIn");
    }
}

#[test]
fn inbox_stale_sweep_new_uses_default_max_attempts() {
    let spec = StaleReservationSpec::new(Duration::minutes(5).num_milliseconds());
    assert_eq!(spec.max_attempts, StaleReservationSpec::DEFAULT_MAX_ATTEMPTS);
}

#[test]
fn stale_reservation_sweep_criteria_max_attempts_reflects_custom_value() {
    let spec = StaleReservationSpec::new(Duration::minutes(5).num_milliseconds());
    let criteria = spec.criteria();
    assert_eq!(criteria[1], SweepCriterion::MaxAttempts(StaleReservationSpec::DEFAULT_MAX_ATTEMPTS));
    let spec = StaleReservationSpec::new(Duration::minutes(5).num_milliseconds()).with_max_attempts(3);
    assert_eq!(spec.criteria()[1], SweepCriterion::MaxAttempts(3));
}

#[test]
fn stale_reservation_sweep_criteria_reserved_before_is_in_the_past() {
    let spec = StaleReservationSpec::new(Duration::minutes(5).num_milliseconds());
    let criteria = spec.criteria();
    if let SweepCriterion::ReservedBefore(cutoff) = &criteria[0] {
        assert!(*cutoff < chrono::Utc::now().timestamp_millis());
    } else {
        panic!("first criterion should be ReservedBefore");
    }
}

fn inbound(
    payload: &str,
    message_id: Option<u128>,
    correlation_id: Option<u128>,
    source: Option<&str>,
    routing_key: Option<&str>,
) -> InboundMessageEnvelope {
    InboundMessageEnvelope {
        payload: payload.into(),
        message_id,
        correlation_id,
        source: source.map(Into::into),
        routing_key: routing_key.map(Into::into),
    }
}

#[test]
fn preserves_existing_message_id() {
    let id = new_id();
    let envelope = NewInboxMessageEnvelope::from(inbound("hello", Some(id), None, None, None));
    assert_eq!(*envelope.id(), id);
}

#[test]
fn generates_message_id_when_absent() {
    let envelope = NewInboxMessageEnvelope::from(inbound("hello", None, None, None, None));
    assert_ne!(*envelope.id(), Uuid::nil().as_u128());
}

#[test]
fn two_conversions_without_id_produce_distinct_ids() {
    let a = NewInboxMessageEnvelope::from(inbound("x", None, None, None, None));
    let b = NewInboxMessageEnvelope::from(inbound("x", None, None, None, None));
    assert_ne!(a.id(), b.id());
}

#[test]
fn preserves_payload() {
    let envelope = NewInboxMessageEnvelope::from(inbound("my-payload", None, None, None, None));
    assert_eq!(envelope.payload(), "my-payload");
}

#[test]
fn preserves_metadata_fields() {
    let corr = new_id();
    let envelope = NewInboxMessageEnvelope::from(inbound(
        "data",
        None,
        Some(corr),
        Some("payments"),
        Some("user.created"),
    ));
    assert_eq!(envelope.meta.correlation_id, Some(corr));
    assert_eq!(envelope.meta.source.as_deref(), Some("payments"));
    assert_eq!(envelope.meta.routing_key.as_deref(), Some("user.created"));
}

#[test]
fn metadata_conversion_wraps_message_id_in_some() {
    let id = new_id();
    let meta = NewInboxMessageMetadata {
        message_id: id,
        correlation_id: None,
        source: None,
        routing_key: None,
    };
    let converted = InboxMessageMetadata::from(meta);
    assert_eq!(converted.message_id, Some(id));
}

#[test]
fn generated_message_ids_are_time_ordered() {
    let envelope = NewInboxMessageEnvelope::from(InboundMessageEnvelope::default());
    assert_eq!(Uuid::from_u128(*envelope.id()).get_version_num(), 7);
}

const PAYLOAD: &str = r#"{"type":"user.payment.succeeded","payload":{"user_id":"bb2bfc87-6658-46fe-9765-add110647bf4","amount":1000,"currency":"USD","payment_method":"credit_card","payment_id":"56969c17-5e72-45aa-bf96-ca43ecb836b7"}}"#;

#[test]
fn try_from_delivery_extracts_payload_and_metadata() {
    let metadata = AmqpMessageMetadata::from_delivery(
        Some("61033752-4588-4eb1-908c-411f8ab94cef"),
        Some("268f7dc5-7cef-4a6a-ae0a-40253d9acfb5"),
        "payments",
        "user.payment.succeeded",
    );
    let message = AmqpMessage::from_body(PAYLOAD.as_bytes().to_vec(), metadata).unwrap();
    assert_eq!(message.payload, PAYLOAD);
    assert_eq!(
        message.metadata.message_id,
        Some(Uuid::parse_str("61033752-4588-4eb1-908c-411f8ab94cef").unwrap().as_u128())
    );
    assert_eq!(
        message.metadata.correlation_id,
        Some(Uuid::parse_str("268f7dc5-7cef-4a6a-ae0a-40253d9acfb5").unwrap().as_u128())
    );
    assert_eq!(message.metadata.source, Some("payments".to_string()));
    assert_eq!(
        message.metadata.routing_key,
        Some("user.payment.succeeded".to_string())
    );
}

#[test]
fn delivery_drops_empty_names_and_malformed_ids() {
    let metadata = AmqpMessageMetadata::from_delivery(Some("not-a-uuid"), None, "", "");
    assert_eq!(metadata.message_id, None);
    assert_eq!(metadata.correlation_id, None);
    assert_eq!(metadata.source, None);
    assert_eq!(metadata.routing_key, None);
    assert!(AmqpMessage::from_body(vec![0xff, 0xfe], metadata.clone()).is_none());

    let message = AmqpMessage::new("x".into(), metadata);
    let inbound = InboundMessageEnvelope::from(&message);
    assert_eq!(inbound.payload, "x");
    assert_eq!(inbound.routing_key, None);
}

fn stored(reservation_id: Option<u128>, routing_key: Option<&str>) -> InboxMessageEnvelope {
    let message_id = new_id();
    InboxMessageEnvelope {
        msg: InboxMessage {
            id: message_id,
            payload: "{\"amount\":10}".into(),
            status: InboxStatus::Reserved,
            scheduled_at: 0,
            attempts: 1,
            reservation_id,
            reserved_at: Some(1),
        },
        meta: InboxMessageMetadata {
            message_id: Some(message_id),
            correlation_id: Some(7),
            source: Some("payments".into()),
            routing_key: routing_key.map(Into::into),
        },
    }
}

#[test]
fn inbox_message_becomes_a_command_caused_by_it() {
    let message = stored(Some(new_id()), Some("user.created"));
    let message_id = message.msg.id;
    let command = command_envelope(message, 42).expect("routable");
    assert_eq!(command.command.command_type, "user.created");
    assert_eq!(command.command.payload, "{\"amount\":10}");
    let metadata = command.metadata.unwrap();
    assert_eq!(metadata.command_id, 42);
    assert_eq!(metadata.causation_id, Some(message_id));
    assert_eq!(metadata.correlation_id, Some(7));
    assert_eq!(metadata.source.as_deref(), Some("payments"));

    let error = NewCommandEnvelope::try_from(stored(Some(new_id()), None)).unwrap_err();
    assert_eq!(error.message(), "conversion error: missing routing_key");
    let command = NewCommandEnvelope::try_from(stored(Some(new_id()), Some("a"))).unwrap();
    assert_eq!(Uuid::from_u128(command.metadata.unwrap().command_id).get_version_num(), 7);
}

#[derive(Default)]
struct Storage {
    reserved: Mutex<Vec<InboxMessageEnvelope>>,
    completed: Mutex<Vec<(u128, u128)>>,
    failed: Mutex<Vec<(u128, u128, i32)>>,
    commands: Mutex<Vec<NewCommandEnvelope>>,
    refuse_commands: bool,
    stored: Mutex<Vec<NewInboxMessageEnvelope>>,
}

impl InboxReservePort for Storage {
    fn reserve(&self, _spec: &ReservableInboxSpec) -> Result<Vec<InboxMessageEnvelope>, InboxError> {
        Ok(std::mem::take(&mut *self.reserved.lock().unwrap()))
    }
}

impl InboxProcessPort for Storage {
    fn completed(&self, id: u128, reservation_id: u128) -> Result<(), InboxError> {
        self.completed.lock().unwrap().push((id, reservation_id));
        Ok(())
    }

    fn failed(&self, id: u128, reservation_id: u128, max_attempts: i32) -> Result<(), InboxError> {
        self.failed.lock().unwrap().push((id, reservation_id, max_attempts));
        Ok(())
    }
}

impl CommandStorePort for Storage {
    fn record(&self, envelope: &NewCommandEnvelope) -> Result<(), CommandError> {
        if self.refuse_commands {
            return Err(CommandError::Storage("down".into()));
        }
        self.commands.lock().unwrap().push(envelope.clone());
        Ok(())
    }
}

impl InboxStorePort for Storage {
    fn store(&self, msg: NewInboxMessageEnvelope) -> Result<(), InboxError> {
        self.stored.lock().unwrap().push(msg);
        Ok(())
    }
}

struct NoHandler;

impl ErasedCommandHandler for NoHandler {
    fn execute(&self, _envelope: &NewCommandEnvelope) -> Result<Vec<NewEventEnvelope>, CommandError> {
        Ok(Vec::new())
    }
}

struct NoEvents;

impl EventDispatchPort for NoEvents {
    fn dispatch(&self, _event: NewEventEnvelope) -> Result<(), EventError> {
        Ok(())
    }
}

fn inbox_consumer(storage: Arc<Storage>) -> InboxConsumer<Storage, Storage, NoHandler, NoEvents, Storage> {
    let recorder = Arc::new(CommandRecorder::new(Arc::new(CommandRecorderRepository::new(storage.clone()))));
    InboxConsumer::new(
        InboxConsumerRepository::new(storage.clone(), storage),
        CommandGateway::two_phased(recorder),
    )
}

#[test]
fn process_turns_messages_into_commands_and_reports_the_rest() {
    let storage = Arc::new(Storage::default());
    let good = stored(Some(new_id()), Some("user.created"));
    let good_ids = (good.msg.id, good.msg.reservation_id.unwrap());
    let unroutable = stored(Some(new_id()), None);
    let unroutable_ids = (unroutable.msg.id, unroutable.msg.reservation_id.unwrap());
    let unreserved = stored(None, Some("user.created"));
    let unreserved_id = unreserved.msg.id;
    storage.reserved.lock().unwrap().extend([good, unroutable, unreserved]);

    let errors = inbox_consumer(storage.clone())
        .process(&ReservableInboxSpec::new(10).with_max_attempts(5))
        .unwrap_err();

    assert_eq!(errors.len(), 2);
    assert_eq!(errors[0].message(), "conversion error: missing routing_key");
    assert!(matches!(errors[1], InboxError::MissingReservation { id } if id == unreserved_id));
    assert_eq!(*storage.completed.lock().unwrap(), vec![good_ids]);
    assert_eq!(*storage.failed.lock().unwrap(), vec![(unroutable_ids.0, unroutable_ids.1, 5)]);
    let commands = storage.commands.lock().unwrap();
    assert_eq!(commands.len(), 1);
    assert_eq!(commands[0].command.command_type, "user.created");
}

#[test]
fn process_reports_refused_commands_as_publish_failures() {
    let storage = Arc::new(Storage { refuse_commands: true, ..Storage::default() });
    let message = stored(Some(new_id()), Some("user.created"));
    let ids = (message.msg.id, message.msg.reservation_id.unwrap());
    storage.reserved.lock().unwrap().push(message);

    let errors = inbox_consumer(storage.clone()).process(&ReservableInboxSpec::new(10)).unwrap_err();

    assert_eq!(errors.len(), 1);
    assert_eq!(errors[0].message(), "Publish failed: storage error: down");
    assert_eq!(*storage.failed.lock().unwrap(), vec![(ids.0, ids.1, 6)]);
    assert!(storage.completed.lock().unwrap().is_empty());
}

#[test]
fn recorder_stores_the_message() {
    let storage = Arc::new(Storage::default());
    let recorder = InboxRecorder::new(Arc::new(InboxRecorderRepository::new(storage.clone())));
    let id = new_id();
    recorder
        .publish(NewInboxMessageEnvelope::from(inbound("p", Some(id), None, None, None)))
        .expect("stored");
    assert_eq!(*storage.stored.lock().unwrap()[0].id(), id);
}

#[test]
fn inbox_failure_update_is_not_capped() {
    assert_eq!(failure_update(9, 11, 0), (InboxStatus::Failed, 300_000, 10));
    assert_eq!(failure_update(10, 11, 0), (InboxStatus::Dead, 330_000, 11));
    assert_eq!(failure_update(i32::MAX, 11, 0).2, i32::MAX);
    let policy = inbox_retry_policy();
    assert!(!policy.capped_backoff && policy.reschedule_dead && policy.sweep_gives_up);
}

#[test]
fn sweep_journals_the_timeout() {
    let journal = sweep_journal(Some(ExtraInfo::with_error("first")));
    assert_eq!(
        journal.errors(),
        &["first".to_string(), "inbox reservation timed out".to_string()]
    );
    assert_eq!(sweep_journal(None).errors(), &["inbox reservation timed out".to_string()]);
}

#[test]
fn inbox_query_parameters_follow_the_specs() {
    let criteria = reservation_criteria(&ReservableInboxSpec::new(2).with_max_attempts(9));
    assert_eq!(criteria.statuses, vec![0, 4]);
    assert_eq!(criteria.max_attempts, 9);
    let sweep = sweep_criteria_at(&StaleReservationSpec::new(500).with_max_attempts(4), 2_000);
    assert_eq!(sweep.cutoff, 1_500);
    assert_eq!(sweep.max_attempts, 4);
}

#[test]
fn recorded_message_row_reads_back() {
    let id = new_id();
    let message = NewInboxMessageEnvelope::from(inbound("p", Some(id), Some(3), None, Some("k")));
    let row = NewInboxEntry::from_message_at(message, 77);
    assert_eq!(row.id(), id);
    assert_eq!(row.status(), 0);
    assert_eq!(row.attempts(), 0);
    assert_eq!(row.scheduled_at(), 77);
    assert_eq!(row.meta().message_id, Some(id));

    let read = InboxEntry::new(
        row.id(),
        row.payload().to_string(),
        row.meta().clone(),
        row.status(),
        row.scheduled_at(),
        row.attempts(),
        None,
        None,
        row.received_at(),
        row.updated_at(),
        None,
    );
    let envelope = InboxMessageEnvelope::try_from(read).expect("known status");
    assert_eq!(*envelope.id(), id);
    assert_eq!(envelope.payload(), "p");
    assert_eq!(envelope.status(), InboxStatus::Received);
    assert_eq!(envelope.reservation_id(), None);
    assert_eq!(envelope.meta.routing_key.as_deref(), Some("k"));

    let unknown = InboxEntry::new(id, "p".into(), row.meta().clone(), 3, 0, 0, None, None, 0, 0, None);
    let error = InboxMessageEnvelope::try_from(unknown).unwrap_err();
    assert_eq!(error.message(), "storage error: unknown inbox status: 3");
}

struct Sweep;

impl InboxSweepPort for Sweep {
    fn sweep(&self, spec: &StaleReservationSpec) -> Result<usize, InboxError> {
        Ok(spec.timeout_ms as usize)
    }
}

#[test]
fn reservation_sweeper_returns_released_count() {
    let sweeper = ReservationSweeper::new(Arc::new(Sweep));
    assert_eq!(sweeper.sweep(&StaleReservationSpec::new(15)).unwrap(), 15);
}

#[test]
fn worker_acks_recorded_deliveries_and_nacks_the_others() {
    let (state, action) = step(WorkerState::Polling, WorkerEvent::Delivered { recorded: Ok(()) });
    assert!(matches!(state, WorkerState::Acking));
    assert!(matches!(action, WorkerAction::Ack));
    let (state, action) = step(state, WorkerEvent::Acknowledged(Ok(())));
    assert!(matches!(state, WorkerState::Polling));
    assert!(matches!(action, WorkerAction::Poll));

    let (state, action) = step(
        WorkerState::Polling,
        WorkerEvent::Delivered { recorded: Err(InboxError::Storage("down".into())) },
    );
    assert!(matches!(action, WorkerAction::Nack));
    let (state, action) = step(state, WorkerEvent::Acknowledged(Ok(())));
    assert!(matches!(action, WorkerAction::Sleep(s) if s == BACKOFF_SECONDS));
    let (_, action) = step(state, WorkerEvent::BackoffElapsed);
    assert!(matches!(action, WorkerAction::Poll));
}

#[test]
fn worker_stops_on_closed_stream_after_backoff_on_failures_and_on_cancel() {
    let (_, action) = step(WorkerState::Polling, WorkerEvent::StreamClosed);
    match action {
        WorkerAction::Finish(Err(e)) => assert_eq!(e.message(), "transport error: consumer stream closed"),
        other => panic!("unexpected {other:?}"),
    }
    let (state, action) = step(
        WorkerState::Polling,
        WorkerEvent::TransportFailed(InboxError::Transport("gone".into())),
    );
    assert!(matches!(action, WorkerAction::Sleep(10)));
    assert!(state.expects(&WorkerEvent::Cancelled));
    assert!(!state.expects(&WorkerEvent::StreamClosed));
    let (_, action) = step(state, WorkerEvent::BackoffElapsed);
    assert!(matches!(action, WorkerAction::Finish(Err(InboxError::Transport(_)))));
    let (_, action) = step(WorkerState::Polling, WorkerEvent::Cancelled);
    assert!(matches!(action, WorkerAction::Finish(Ok(()))));
}

#[test]
fn inbox_publisher_accepts_every_message() {
    let publisher = InboxPublisher {};
    let message = stored(None, None).msg;
    assert!(publisher.publish(message).is_ok());
}
