//! Turning reserved inbox messages into commands and recording each outcome.

use std::sync::Arc;
use vstd::prelude::*;
use vstd::std_specs::convert::TryFromSpecImpl;

use crate::commanding::application::{CommandError, CommandStorePort, NewCommand, NewCommandEnvelope, NewCommandMetadata};
use crate::commanding::dispatcher::ErasedCommandHandler;
use crate::commanding::gateway::CommandGateway;
use crate::eventing::application::EventDispatchPort;
use crate::inbox::application::{InboxError, InboxMessageEnvelope, InboxProcessPort};
use crate::inbox::domain::{Criterion, InboxStatus};
use crate::support::{joined_errors, lemma_joined_errors_push, new_uuid_v7, owned, recorded_errors, reports_errors, uuid_version};

verus! {

/// Which inbox messages to claim for processing.
#[derive(Debug, Clone, PartialEq, Eq)]
pub struct ReservableInboxSpec {
    /// Largest number of messages claimed at once.
    pub limit: usize,
    /// Messages with `attempts >= max_attempts` are not claimed.
    pub max_attempts: i32,
}

impl ReservableInboxSpec {
    /// Attempt limit used unless another is given.
    pub const DEFAULT_MAX_ATTEMPTS: i32 = 6;

    /// A spec with the given limit and the default attempt limit.
    pub fn new(limit: usize) -> (r: Self)
        ensures
            r.limit == limit,
            r.max_attempts == Self::DEFAULT_MAX_ATTEMPTS,
    {
        Self { limit, max_attempts: Self::DEFAULT_MAX_ATTEMPTS }
    }

    /// The same spec with another attempt limit.
    pub fn with_max_attempts(self, max_attempts: i32) -> (r: Self)
        ensures
            r.limit == self.limit,
            r.max_attempts == max_attempts,
    {
        Self { max_attempts, ..self }
    }

    /// The storage query for this spec, in order: received or failed messages, due now,
    /// under the attempt limit, oldest schedule first.
    pub fn criteria(&self) -> (c: Vec<Criterion>)
        ensures
            c@.len() == 4,
            c@[0] matches Criterion::StatusIn(s) && s@ == seq![InboxStatus::Received, InboxStatus::Failed],
            c@[1] == Criterion::ScheduledBeforeNow,
            c@[2] == Criterion::MaxAttempts(self.max_attempts),
            c@[3] == Criterion::OrderByScheduledAtAsc,
    {
        let mut statuses = Vec::new();
        statuses.push(InboxStatus::Received);
        statuses.push(InboxStatus::Failed);
        let mut c = Vec::new();
        c.push(Criterion::StatusIn(statuses));
        c.push(Criterion::ScheduledBeforeNow);
        c.push(Criterion::MaxAttempts(self.max_attempts));
        c.push(Criterion::OrderByScheduledAtAsc);
        assert(c@[0] matches Criterion::StatusIn(s) && s@ =~= seq![InboxStatus::Received, InboxStatus::Failed]);
        c
    }
}

/// Claims inbox messages that are due for processing.
pub trait InboxReservePort: Send + Sync {
    /// `r` is an answer this port may give to `reserve(spec)`. The port decides its answers
    /// (mostly through storage); unless an implementation says more, any answer may come.
    closed spec fn reserve_returns(&self, spec: ReservableInboxSpec, r: Result<Vec<InboxMessageEnvelope>, InboxError>) -> bool {
        true
    }

    fn reserve(&self, spec: &ReservableInboxSpec) -> (r: Result<Vec<InboxMessageEnvelope>, InboxError>)
        ensures
            self.reserve_returns(*spec, r),
    ;
}

/// The reservation and outcome ports used by the consumer.
pub struct InboxConsumerRepository<
    R: InboxReservePort + ?Sized = dyn InboxReservePort,
    P: InboxProcessPort + ?Sized = dyn InboxProcessPort,
> {
    reserve: Arc<R>,
    process: Arc<P>,
}

impl<R: InboxReservePort + ?Sized, P: InboxProcessPort + ?Sized> Clone for InboxConsumerRepository<R, P> {
    fn clone(&self) -> (r: Self)
        ensures
            r == *self,
    {
        Self { reserve: Arc::clone(&self.reserve), process: Arc::clone(&self.process) }
    }
}

impl<R: InboxReservePort + ?Sized, P: InboxProcessPort + ?Sized> InboxConsumerRepository<R, P> {
    pub closed spec fn spec_reserve(&self) -> Arc<R> {
        self.reserve
    }

    pub closed spec fn spec_process(&self) -> Arc<P> {
        self.process
    }

    pub fn new(reserve: Arc<R>, process: Arc<P>) -> (r: Self)
        ensures
            r.spec_reserve() == reserve,
            r.spec_process() == process,
    {
        Self { reserve, process }
    }

    /// Claims the messages that `spec` selects.
    pub fn reserve(&self, spec: &ReservableInboxSpec) -> (r: Result<Vec<InboxMessageEnvelope>, InboxError>)
        ensures
            self.spec_reserve().reserve_returns(*spec, r),
    {
        self.reserve.reserve(spec)
    }

    /// Marks a reserved message as processed; the store refuses a reservation it does not
    /// hold, which prevents a double completion.
    pub fn completed(&self, id: u128, reservation_id: u128) -> (r: Result<(), InboxError>)
        ensures
            self.spec_process().completed_returns(id, reservation_id, r),
    {
        self.process.completed(id, reservation_id)
    }

    /// Marks a reserved message as failed and releases the reservation.
    pub fn failed(&self, id: u128, reservation_id: u128, max_attempts: i32) -> (r: Result<(), InboxError>)
        ensures
            self.spec_process().failed_returns(id, reservation_id, max_attempts, r),
    {
        self.process.failed(id, reservation_id, max_attempts)
    }
}

/// The command made from an inbox message, given the new command's id: the routing key
/// names the command type, the message id becomes the causation id.
pub open spec fn command_of(message: InboxMessageEnvelope, command_id: u128) -> NewCommandEnvelope {
    NewCommandEnvelope {
        command: NewCommand {
            command_type: message.meta.routing_key->0,
            payload: message.msg.payload,
        },
        metadata: Some(NewCommandMetadata {
            command_id,
            correlation_id: message.meta.correlation_id,
            causation_id: message.meta.message_id,
            source: message.meta.source,
        }),
    }
}

/// The error for a message that names no command type.
pub open spec fn unroutable(e: InboxError) -> bool {
    e matches InboxError::Conversion(m) && m@ == "missing routing_key"@
}

/// The command made from `message` with id `command_id`; a message without routing key
/// names no command type and is refused.
pub fn command_envelope(message: InboxMessageEnvelope, command_id: u128) -> (r: Result<NewCommandEnvelope, InboxError>)
    ensures
        message.meta.routing_key is None <==> r is Err,
        r matches Err(e) ==> unroutable(e),
        r matches Ok(envelope) ==> envelope == command_of(message, command_id),
{
    let payload = message.msg.payload;
    let command_type = match message.meta.routing_key {
        Some(key) => key,
        None => return Err(InboxError::Conversion(owned("missing routing_key"))),
    };
    let metadata = NewCommandMetadata {
        command_id,
        correlation_id: message.meta.correlation_id,
        causation_id: message.meta.message_id,
        source: message.meta.source,
    };
    Ok(NewCommandEnvelope { command: NewCommand { command_type, payload }, metadata: Some(metadata) })
}

impl TryFrom<InboxMessageEnvelope> for NewCommandEnvelope {
    type Error = InboxError;

    /// The command for a message, with a fresh time-ordered command id.
    fn try_from(value: InboxMessageEnvelope) -> (r: Result<Self, Self::Error>)
        ensures
            value.meta.routing_key is None <==> r is Err,
            r matches Err(e) ==> unroutable(e),
            r matches Ok(envelope) ==> envelope.metadata matches Some(m)
                && envelope == command_of(value, m.command_id) && uuid_version(m.command_id) == 7,
    {
        let command_id = new_uuid_v7();
        command_envelope(value, command_id)
    }
}

impl TryFromSpecImpl<InboxMessageEnvelope> for NewCommandEnvelope {
    /// The command id is generated, so the result is not a function of the input.
    open spec fn obeys_try_from_spec() -> bool {
        false
    }

    open spec fn try_from_spec(v: InboxMessageEnvelope) -> Result<Self, Self::Error> {
        arbitrary()
    }
}

/// A message can be turned into a command when it holds a reservation and a routing key.
pub open spec fn deliverable(message: InboxMessageEnvelope) -> bool {
    message.msg.reservation_id is Some && message.meta.routing_key is Some
}

/// The error reported for a message that cannot become a command.
pub open spec fn reports(error: InboxError, message: InboxMessageEnvelope) -> bool {
    match message.msg.reservation_id {
        None => error == InboxError::MissingReservation { id: message.msg.id },
        Some(_) => unroutable(error),
    }
}

/// `errors` holds the error reported for `message`.
pub open spec fn reported(errors: Seq<InboxError>, message: InboxMessageEnvelope) -> bool {
    exists|k: int| 0 <= k < errors.len() && #[trigger] reports(errors[k], message)
}

proof fn lemma_reported_grows(a: Seq<InboxError>, b: Seq<InboxError>, message: InboxMessageEnvelope)
    requires
        a.len() <= b.len(),
        b.subrange(0, a.len() as int) == a,
        reported(a, message),
    ensures
        reported(b, message),
{
    let k = choose|k: int| 0 <= k < a.len() && #[trigger] reports(a[k], message);
    assert(b[k] == b.subrange(0, a.len() as int)[k]);
    assert(reports(b[k], message));
}

/// What the consumer does with one reserved message.
pub enum MessagePlan {
    /// The message holds no reservation: report it and touch nothing.
    Skip(InboxError),
    /// The message names no command: mark it failed and report the error.
    Reject { id: u128, reservation_id: u128, error: InboxError },
    /// Hand the command on, then record the outcome.
    Dispatch { id: u128, reservation_id: u128, envelope: NewCommandEnvelope },
}

/// Decides what to do with one reserved message; `command_id` is the id its command gets.
pub fn plan_message(message: InboxMessageEnvelope, command_id: u128) -> (p: MessagePlan)
    ensures
        (message.msg.reservation_id is None) == (p is Skip),
        (p is Dispatch) == deliverable(message),
        (p matches MessagePlan::Skip(e) ==> e == (InboxError::MissingReservation { id: message.msg.id })),
        (p matches MessagePlan::Reject { id, reservation_id, error } ==> id == message.msg.id
            && message.msg.reservation_id == Some(reservation_id) && reports(error, message)),
        (p matches MessagePlan::Dispatch { id, reservation_id, envelope } ==> id == message.msg.id
            && message.msg.reservation_id == Some(reservation_id)
            && envelope == command_of(message, command_id)),
{
    let id = message.msg.id;
    match message.msg.reservation_id {
        None => MessagePlan::Skip(InboxError::MissingReservation { id }),
        Some(reservation_id) => match command_envelope(message, command_id) {
            Ok(envelope) => MessagePlan::Dispatch { id, reservation_id, envelope },
            Err(error) => MessagePlan::Reject { id, reservation_id, error },
        },
    }
}

/// Turns reserved inbox messages into commands handed to a command gateway.
pub struct InboxConsumer<
    R: InboxReservePort + ?Sized = dyn InboxReservePort,
    P: InboxProcessPort + ?Sized = dyn InboxProcessPort,
    H: ErasedCommandHandler + ?Sized = dyn ErasedCommandHandler,
    D: EventDispatchPort + ?Sized = dyn EventDispatchPort,
    S: CommandStorePort + ?Sized = dyn CommandStorePort,
> {
    repository: InboxConsumerRepository<R, P>,
    next: CommandGateway<H, D, S>,
}

impl<
    R: InboxReservePort + ?Sized,
    P: InboxProcessPort + ?Sized,
    H: ErasedCommandHandler + ?Sized,
    D: EventDispatchPort + ?Sized,
    S: CommandStorePort + ?Sized,
> InboxConsumer<R, P, H, D, S> {
    pub closed spec fn spec_repository(&self) -> InboxConsumerRepository<R, P> {
        self.repository
    }

    pub closed spec fn spec_next(&self) -> CommandGateway<H, D, S> {
        self.next
    }

    pub fn new(repository: InboxConsumerRepository<R, P>, next: CommandGateway<H, D, S>) -> (r: Self)
        ensures
            r.spec_repository() == repository,
            r.spec_next() == next,
    {
        Self { repository, next }
    }

    /// Handing the reserved `message` on may leave `errors` behind. A message without
    /// reservation leaves its report alone. One without routing key is marked failed and
    /// leaves the recording's error, if any, then its conversion error. Any other becomes a
    /// command with a fresh time-ordered id, handed to the gateway: when that succeeds the
    /// message is marked completed and leaves the recording's error, if any; else it is marked
    /// failed and leaves the recording's error, if any, then a publish error with the
    /// gateway's text.
    pub open spec fn message_returns(&self, spec: ReservableInboxSpec, message: InboxMessageEnvelope, errors: Seq<InboxError>) -> bool {
        let id = message.msg.id;
        match message.msg.reservation_id {
            None => errors == seq![InboxError::MissingReservation { id }],
            Some(reservation_id) => if message.meta.routing_key is None {
                exists|recorded: Result<(), InboxError>|
                    #[trigger] self.spec_repository().spec_process().failed_returns(id, reservation_id, spec.max_attempts, recorded)
                        && errors == recorded_errors(recorded).push(errors.last()) && unroutable(errors.last())
            } else {
                exists|command_id: u128, dispatched: Result<(), CommandError>|
                    uuid_version(command_id) == 7
                        && #[trigger] self.spec_next().forward_returns(command_of(message, command_id), dispatched)
                        && exists|recorded: Result<(), InboxError>|
                            #![trigger recorded_errors(recorded)]
                            match dispatched {
                                Ok(_) => self.spec_repository().spec_process().completed_returns(id, reservation_id, recorded)
                                    && errors == recorded_errors(recorded),
                                Err(e) => self.spec_repository().spec_process().failed_returns(id, reservation_id, spec.max_attempts, recorded)
                                    && errors == recorded_errors(recorded).push(errors.last())
                                    && (errors.last() matches InboxError::PublishFailed(m) && m@ == e.text()),
                            }
            },
        }
    }

    /// Handing `messages` on one after another may end in `r`: some outcome of each message,
    /// and `r` reports all errors these outcomes leave, in order.
    pub open spec fn messages_returns(&self, spec: ReservableInboxSpec, messages: Seq<InboxMessageEnvelope>, r: Result<(), Vec<InboxError>>) -> bool {
        exists|parts: Seq<Seq<InboxError>>|
            #![trigger joined_errors(parts)]
            parts.len() == messages.len()
            && (forall|i: int| 0 <= i < messages.len() ==> #[trigger] self.message_returns(spec, messages[i], parts[i]))
            && reports_errors(joined_errors(parts), r)
    }

    /// Processing with `spec` may end in `r`: the reservation's failure alone, or the outcome
    /// of handing the reserved messages on.
    pub open spec fn process_returns(&self, spec: ReservableInboxSpec, r: Result<(), Vec<InboxError>>) -> bool {
        exists|reserved: Result<Vec<InboxMessageEnvelope>, InboxError>|
            #[trigger] self.spec_repository().spec_reserve().reserve_returns(spec, reserved) && match reserved {
                Err(e) => r matches Err(v) && v@ == seq![e],
                Ok(messages) => self.messages_returns(spec, messages@, r),
            }
    }

    /// Claims the messages `spec` selects and hands each on as a command.
    pub fn process(&self, spec: &ReservableInboxSpec) -> (r: Result<(), Vec<InboxError>>)
        ensures
            r matches Err(errors) ==> errors.len() >= 1,
            self.process_returns(*spec, r),
    {
        let reserved = self.repository.reserve(spec);
        assert(self.spec_repository().spec_reserve().reserve_returns(*spec, reserved));
        let messages = match reserved {
            Ok(messages) => messages,
            Err(e) => {
                let r = vec![e];
                assert(r@ =~= seq![e]);
                return Err(r);
            },
        };
        self.process_messages(spec, messages)
    }

    /// Hands already claimed messages on one after another, collecting per-message errors.
    ///
    /// A message without reservation is reported and left alone; one without routing key is
    /// marked failed and reported; every other message is dispatched as a command and then
    /// marked completed, or failed with a publish error when the dispatch fails.
    pub fn process_messages(
        &self,
        spec: &ReservableInboxSpec,
        messages: Vec<InboxMessageEnvelope>,
    ) -> (r: Result<(), Vec<InboxError>>)
        ensures
            r is Ok ==> forall|j: int| 0 <= j < messages.len() ==> #[trigger] deliverable(messages@[j]),
            r matches Err(errors) ==> 1 <= errors.len() <= 2 * messages.len(),
            r matches Err(errors) ==> forall|j: int|
                0 <= j < messages.len() && !#[trigger] deliverable(messages@[j]) ==> reported(
                    errors@,
                    messages@[j],
                ),
            self.messages_returns(*spec, messages@, r),
    {
        let ghost input = messages@;
        let mut errors: Vec<InboxError> = Vec::new();
        let ghost mut parts: Seq<Seq<InboxError>> = Seq::empty();
        for message in it: messages.into_iter()
            invariant
                it.seq() == input,
                errors.len() <= 2 * it.index(),
                forall|j: int| 0 <= j < it.index() && !#[trigger] deliverable(input[j]) ==> reported(errors@, input[j]),
                (exists|j: int| 0 <= j < it.index() && !#[trigger] deliverable(input[j])) ==> errors.len() > 0,
                parts.len() == it.index(),
                errors@ == joined_errors(parts),
                forall|j: int| 0 <= j < it.index() ==> #[trigger] self.message_returns(*spec, input[j], parts[j]),
        {
            let ghost before = errors@;
            let ghost current = message;
            let command_id = new_uuid_v7();
            match plan_message(message, command_id) {
                MessagePlan::Skip(error) => {
                    errors.push(error);
                    proof {
                        let added = errors@.subrange(before.len() as int, errors.len() as int);
                        assert(added =~= seq![error]);
                        assert(self.message_returns(*spec, current, added));
                    }
                },
                MessagePlan::Reject { id, reservation_id, error } => {
                    let recorded = self.failed(id, reservation_id, spec.max_attempts);
                    proof {
                        assert(self.spec_repository().spec_process().failed_returns(id, reservation_id, spec.max_attempts, recorded));
                    }
                    match recorded {
                        Ok(_) => {},
                        Err(err) => errors.push(err),
                    }
                    errors.push(error);
                    proof {
                        let added = errors@.subrange(before.len() as int, errors.len() as int);
                        assert(added =~= recorded_errors(recorded).push(error));
                        assert(current.msg.reservation_id->0 == reservation_id);
                        assert(self.message_returns(*spec, current, added));
                    }
                },
                MessagePlan::Dispatch { id, reservation_id, envelope } => {
                    let dispatched = self.next.dispatch(envelope);
                    proof {
                        assert(self.spec_next().forward_returns(command_of(current, command_id), dispatched));
                    }
                    match dispatched {
                        Ok(_) => {
                            let recorded = self.completed(id, reservation_id);
                            proof {
                                assert(self.spec_repository().spec_process().completed_returns(id, reservation_id, recorded));
                            }
                            match recorded {
                                Ok(_) => {},
                                Err(err) => errors.push(err),
                            }
                            proof {
                                let added = errors@.subrange(before.len() as int, errors.len() as int);
                                assert(added =~= recorded_errors(recorded));
                                assert(current.msg.reservation_id->0 == reservation_id);
                                assert(self.message_returns(*spec, current, added));
                            }
                        },
                        Err(e) => {
                            let recorded = self.failed(id, reservation_id, spec.max_attempts);
                            proof {
                                assert(self.spec_repository().spec_process().failed_returns(id, reservation_id, spec.max_attempts, recorded));
                            }
                            match recorded {
                                Ok(_) => {},
                                Err(err) => errors.push(err),
                            }
                            let failure = InboxError::PublishFailed(e.message());
                            errors.push(failure);
                            proof {
                                let added = errors@.subrange(before.len() as int, errors.len() as int);
                                assert(added =~= recorded_errors(recorded).push(failure));
                                assert(current.msg.reservation_id->0 == reservation_id);
                                assert(self.message_returns(*spec, current, added));
                            }
                        },
                    }
                },
            }
            proof {
                let added = errors@.subrange(before.len() as int, errors.len() as int);
                assert(errors@ =~= before + added);
                assert(self.message_returns(*spec, current, added));
                lemma_joined_errors_push(parts, added);
                parts = parts.push(added);
            }
            proof {
                assert(errors@.subrange(0, before.len() as int) =~= before);
                assert forall|j: int| 0 <= j < it.index() + 1 && !#[trigger] deliverable(input[j]) implies reported(errors@, input[j]) by {
                    if j < it.index() {
                        lemma_reported_grows(before, errors@, input[j]);
                    } else {
                        assert(reports(errors@[errors.len() - 1], input[j]));
                    }
                }
            }
        }
        let r = if errors.len() == 0 {
            Ok(())
        } else {
            Err(errors)
        };
        assert(reports_errors(joined_errors(parts), r));
        r
    }

    /// Marks a reserved message as processed.
    pub fn completed(&self, id: u128, reservation_id: u128) -> (r: Result<(), InboxError>)
        ensures
            self.spec_repository().spec_process().completed_returns(id, reservation_id, r),
    {
        self.repository.completed(id, reservation_id)
    }

    /// Marks a reserved message as failed.
    pub fn failed(&self, id: u128, reservation_id: u128, max_attempts: i32) -> (r: Result<(), InboxError>)
        ensures
            self.spec_repository().spec_process().failed_returns(id, reservation_id, max_attempts, r),
    {
        self.repository.failed(id, reservation_id, max_attempts)
    }
}

} // verus!
