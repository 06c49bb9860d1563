use std::sync::{Arc, Mutex};

use chrono::Duration;
use mulac::commanding::application::{
    Command, CommandEnvelope, CommandError, CommandMetadata, CommandProcessPort, CommandStorePort,
    NewCommand, NewCommandEnvelope, NewCommandMetadata,
};
use mulac::commanding::consumer::{
    CommandConsumer, CommandConsumerRepository, CommandReservePort, ReservableCommandSpec,
};
use mulac::commanding::dispatcher::{
    caused_events, event_metadata, CommandDispatcher, ErasedCommandHandler,
};
use mulac::commanding::domain::{CommandStatus, Criterion};
use mulac::commanding::gateway::CommandGateway;
use mulac::commanding::recorder::{CommandRecorder, CommandRecorderRepository};
use mulac::commanding::storage::{failure_update, CommandEntry, NewCommandEntry};
use mulac::commanding::sweep::{CommandSweepPort, CommandSweeper, StaleCommandSpec};
use mulac::eventing::application::{EventDispatchPort, EventError, NewEventEnvelope};
use uuid::Uuid;

fn new_id() -> u128 {
    Uuid::now_v7().as_u128()
}

fn now() -> i64 {
    chrono::Utc::now().timestamp_millis()
}

#[test]
fn command_consumer_new_uses_default_max_attempts() {
    let spec = ReservableCommandSpec::new(10);
    assert_eq!(spec.limit, 10);
    assert_eq!(spec.max_attempts, ReservableCommandSpec::DEFAULT_MAX_ATTEMPTS);
}

#[test]
fn command_consumer_with_max_attempts_overrides_default() {
    let spec = ReservableCommandSpec::new(5).with_max_attempts(3);
    assert_eq!(spec.limit, 5);
    assert_eq!(spec.max_attempts, 3);
}

#[test]
fn command_consumer_criteria_returns_four_entries_in_order() {
    let spec = ReservableCommandSpec::new(10);
    let criteria = spec.criteria();
    assert_eq!(criteria.len(), 4);
    assert!(matches!(criteria[0], Criterion::StatusIn(_)));
    assert!(matches!(criteria[1], Criterion::ScheduledBeforeNow));
    assert!(matches!(criteria[2], Criterion::MaxAttempts(6)));
    assert!(matches!(criteria[3], Criterion::OrderByScheduledAtAsc));
}

#[test]
fn command_consumer_criteria_max_attempts_reflects_custom_value() {
    let spec = ReservableCommandSpec::new(1).with_max_attempts(3);
    let criteria = spec.criteria();
    assert!(matches!(criteria[2], Criterion::MaxAttempts(3)));
}

#[test]
fn command_consumer_criteria_status_in_includes_received_and_failed() {
    let spec = ReservableCommandSpec::new(1);
    let criteria = spec.criteria();
    if let Criterion::StatusIn(statuses) = &criteria[0] {
        assert!(statuses.contains(&CommandStatus::Received));
        assert!(statuses.contains(&CommandStatus::Failed));
        assert_eq!(statuses.len(), 2);
    } else {
        panic!("first criterion should be StatusIn");
    }
}

#[test]
fn stale_command_sweep_new_uses_default_max_attempts() {
    let spec = StaleCommandSpec::new(Duration::minutes(5).num_milliseconds());
    assert_eq!(spec.max_attempts, StaleCommandSpec::DEFAULT_MAX_ATTEMPTS);
}

#[test]
fn stale_command_sweep_with_max_attempts_overrides_default() {
    let spec = StaleCommandSpec::new(Duration::minutes(5).num_milliseconds()).with_max_attempts(3);
    assert_eq!(spec.max_attempts, 3);
}

#[test]
fn stale_command_sweep_criteria_reserved_before_is_in_the_past() {
    let spec = StaleCommandSpec::new(Duration::minutes(5).num_milliseconds());
    let criteria = spec.criteria();
    assert_eq!(criteria.len(), 1);
    if let Criterion::ReservedBefore(cutoff) = &criteria[0] {
        assert!(*cutoff < now());
    } else {
        panic!("first criterion should be ReservedBefore");
    }
}

fn command_metadata(command_id: u128, correlation_id: Option<u128>) -> NewCommandMetadata {
    NewCommandMetadata { command_id, correlation_id, causation_id: None, source: Some("api".into()) }
}

fn new_command(command_type: &str, metadata: Option<NewCommandMetadata>) -> NewCommandEnvelope {
    NewCommandEnvelope {
        command: NewCommand { command_type: command_type.into(), payload: "{}".into() },
        metadata,
    }
}

#[test]
fn events_are_caused_by_the_command() {
    let command_id = new_id();
    let metadata = Some(command_metadata(command_id, None));
    let events = caused_events(
        &metadata,
        vec![("A".to_string(), "1".to_string()), ("B".to_string(), "2".to_string())],
    );
    assert_eq!(events.len(), 2);
    assert_eq!(events[0].event_type, "A");
    assert_eq!(events[1].payload, "2");
    let first = events[0].metadata.clone().unwrap();
    let second = events[1].metadata.clone().unwrap();
    assert_eq!(first.causation_id, Some(command_id));
    assert_eq!(first.correlation_id, Some(command_id));
    assert_eq!(first.source, None);
    assert_ne!(first.event_id, second.event_id);
    assert_eq!(Uuid::from_u128(first.event_id).get_version_num(), 7);
}

#[test]
fn events_keep_the_command_correlation() {
    let correlation = new_id();
    let metadata = Some(command_metadata(new_id(), Some(correlation)));
    let meta = event_metadata(&metadata, 7);
    assert_eq!(meta.event_id, 7);
    assert_eq!(meta.correlation_id, Some(correlation));
    let meta = event_metadata(&None, 7);
    assert_eq!(meta.causation_id, None);
    assert_eq!(meta.correlation_id, None);
}

struct Handler {
    fail: bool,
    seen: Mutex<Vec<NewCommandEnvelope>>,
}

impl ErasedCommandHandler for Handler {
    fn execute(&self, envelope: &NewCommandEnvelope) -> Result<Vec<NewEventEnvelope>, CommandError> {
        self.seen.lock().unwrap().push(envelope.clone());
        if self.fail {
            return Err(CommandError::HandlerExecution("boom".into()));
        }
        Ok(caused_events(
            &envelope.metadata,
            vec![("Done".to_string(), "{}".to_string()), ("Also".to_string(), "{}".to_string())],
        ))
    }
}

#[derive(Default)]
struct Events {
    refuse: bool,
    seen: Mutex<Vec<NewEventEnvelope>>,
}

impl EventDispatchPort for Events {
    fn dispatch(&self, event: NewEventEnvelope) -> Result<(), EventError> {
        self.seen.lock().unwrap().push(event);
        if self.refuse {
            Err(EventError::EventDispatch("full".into()))
        } else {
            Ok(())
        }
    }
}

fn handler(fail: bool) -> Arc<Handler> {
    Arc::new(Handler { fail, seen: Mutex::new(Vec::new()) })
}

#[test]
fn dispatcher_dispatches_every_produced_event_in_order() {
    let events = Arc::new(Events::default());
    let dispatcher = CommandDispatcher::new(handler(false), events.clone());
    dispatcher
        .dispatch(&new_command("Register", Some(command_metadata(new_id(), None))))
        .expect("dispatch succeeds");
    let seen = events.seen.lock().unwrap();
    assert_eq!(seen.len(), 2);
    assert_eq!(seen[0].event_type, "Done");
    assert_eq!(seen[1].event_type, "Also");
}

#[test]
fn dispatcher_stops_at_the_first_event_failure() {
    let events = Arc::new(Events { refuse: true, ..Events::default() });
    let dispatcher = CommandDispatcher::new(handler(false), events.clone());
    let error = dispatcher
        .dispatch(&new_command("Register", Some(command_metadata(new_id(), None))))
        .unwrap_err();
    assert_eq!(error.message(), "eventing error: event dispatch error: full");
    assert_eq!(events.seen.lock().unwrap().len(), 1);
}

#[derive(Default)]
struct Store {
    recorded: Mutex<Vec<NewCommandEnvelope>>,
    reserved: Mutex<Vec<CommandEnvelope>>,
    completed: Mutex<Vec<(u128, u128)>>,
    failed: Mutex<Vec<(u128, u128, i32, Option<String>)>>,
}

impl CommandStorePort for Store {
    fn record(&self, envelope: &NewCommandEnvelope) -> Result<(), CommandError> {
        self.recorded.lock().unwrap().push(envelope.clone());
        Ok(())
    }
}

impl CommandReservePort for Store {
    fn reserve(&self, _spec: &ReservableCommandSpec) -> Result<Vec<CommandEnvelope>, CommandError> {
        Ok(std::mem::take(&mut *self.reserved.lock().unwrap()))
    }
}

impl CommandProcessPort for Store {
    fn completed(&self, id: u128, reservation_id: u128) -> Result<(), CommandError> {
        self.completed.lock().unwrap().push((id, reservation_id));
        Ok(())
    }

    fn failed(
        &self,
        id: u128,
        reservation_id: u128,
        max_attempts: i32,
        reason: Option<String>,
    ) -> Result<(), CommandError> {
        self.failed.lock().unwrap().push((id, reservation_id, max_attempts, reason));
        Ok(())
    }
}

#[test]
fn gateway_refuses_commands_without_metadata() {
    let store = Arc::new(Store::default());
    let recorder = Arc::new(CommandRecorder::new(Arc::new(CommandRecorderRepository::new(store.clone()))));
    let gateway: CommandGateway<Handler, Events, Store> = CommandGateway::two_phased(recorder);

    let error = gateway.dispatch(new_command("Register", None)).unwrap_err();
    assert_eq!(error.message(), "conversion error: command_id is required: metadata is missing");
    assert!(store.recorded.lock().unwrap().is_empty());

    gateway
        .dispatch(new_command("Register", Some(command_metadata(new_id(), None))))
        .expect("recorded");
    assert_eq!(store.recorded.lock().unwrap().len(), 1);
}

fn reserved_command(command_type: &str) -> CommandEnvelope {
    let id = new_id();
    CommandEnvelope {
        command: Command {
            id,
            reservation_id: new_id(),
            command_type: command_type.into(),
            payload: "{}".into(),
            attempts: 1,
            extra_info: None,
        },
        metadata: Some(CommandMetadata { command_id: id, correlation_id: None, causation_id: None, source: None }),
    }
}

#[test]
fn consumer_completes_handled_commands_and_fails_the_others() {
    let store = Arc::new(Store::default());
    let ok = reserved_command("Register");
    let ok_ids = (ok.command.id, ok.command.reservation_id);
    store.reserved.lock().unwrap().push(ok);
    let repository = CommandConsumerRepository::new(store.clone(), store.clone());
    let consumer = CommandConsumer::new(
        repository,
        Arc::new(CommandDispatcher::new(handler(false), Arc::new(Events::default()))),
    );
    consumer.consume(&ReservableCommandSpec::new(10)).expect("handled");
    assert_eq!(*store.completed.lock().unwrap(), vec![ok_ids]);

    let bad = reserved_command("Register");
    let bad_ids = (bad.command.id, bad.command.reservation_id);
    store.reserved.lock().unwrap().push(bad);
    let repository = CommandConsumerRepository::new(store.clone(), store.clone());
    let failing = handler(true);
    let consumer = CommandConsumer::new(
        repository,
        Arc::new(CommandDispatcher::new(failing.clone(), Arc::new(Events::default()))),
    );
    let errors = consumer.consume(&ReservableCommandSpec::new(10).with_max_attempts(2)).unwrap_err();
    assert_eq!(errors.len(), 1);
    assert_eq!(errors[0].message(), "handler execution error: boom");
    assert_eq!(
        *store.failed.lock().unwrap(),
        vec![(bad_ids.0, bad_ids.1, 2, Some("handler execution error: boom".to_string()))]
    );
    assert_eq!(failing.seen.lock().unwrap()[0].command.command_type, "Register");
}

#[test]
fn command_failure_update_caps_the_backoff() {
    assert_eq!(failure_update(3, 6, 0), (CommandStatus::Failed, 90_000));
    assert_eq!(failure_update(8, 6, 0), (CommandStatus::Dead, 120_000));
}

#[test]
fn stored_command_reads_back_with_its_metadata() {
    let id = new_id();
    let reservation_id = new_id();
    let entry = CommandEntry {
        id,
        command_type: "Register".into(),
        status: 2,
        payload: "{}".into(),
        meta: Some(CommandMetadata { command_id: id, correlation_id: None, causation_id: None, source: None }),
        scheduled_at: 0,
        attempts: 3,
        reservation_id: Some(reservation_id),
        reserved_at: Some(1),
        received_at: 0,
        updated_at: 1,
        processed_at: None,
    };
    let envelope = CommandEnvelope::try_from(entry).expect("reserved");
    assert_eq!(envelope.command.id, id);
    assert_eq!(envelope.command.reservation_id, reservation_id);
    assert_eq!(envelope.command.attempts, 3);
    assert_eq!(envelope.metadata.unwrap().command_id, id);
}

#[test]
fn new_command_entry_needs_a_command_id() {
    let command_id = new_id();
    let entry = NewCommandEntry::from_envelope_at(&new_command("Register", Some(command_metadata(command_id, None))), 9)
        .expect("identified");
    assert_eq!(entry.id, command_id);
    assert_eq!(entry.command_type, "Register");
    assert_eq!(entry.scheduled_at, 9);
    let error = NewCommandEntry::from_envelope_at(&new_command("Register", None), 9).unwrap_err();
    assert_eq!(error.message(), "conversion error: command_id is required: metadata is missing");
}

struct Sweep;

impl CommandSweepPort for Sweep {
    fn sweep(&self, _spec: &StaleCommandSpec) -> Result<u64, CommandError> {
        Err(CommandError::Storage("db timeout".into()))
    }
}

#[test]
fn command_sweeper_propagates_port_errors() {
    let sweeper = CommandSweeper::new(Arc::new(Sweep));
    let error = sweeper.sweep(&StaleCommandSpec::new(1_000)).unwrap_err();
    assert_eq!(error.message(), "storage error: db timeout");
}
