//! Handling reserved commands and recording each outcome.

use std::sync::Arc;
use vstd::prelude::*;
use vstd::std_specs::convert::FromSpecImpl;

use crate::commanding::application::{
    CommandEnvelope, CommandError, CommandMetadata, CommandProcessPort, NewCommand,
    NewCommandEnvelope, NewCommandMetadata,
};
use crate::commanding::dispatcher::{caused_metadata, CommandDispatcher, ErasedCommandHandler};
use crate::commanding::domain::{CommandStatus, Criterion};
use crate::eventing::application::EventDispatchPort;
use crate::support::{
    collect_outcome, copy_text, lemma_outcomes_errors_push, outcome_errors, outcomes_errors, reason_text, reports_errors,
};

verus! {

/// Which commands to claim for handling.
#[derive(Debug, Clone, PartialEq, Eq)]
pub struct ReservableCommandSpec {
    /// Largest number of commands claimed at once.
    pub limit: usize,
    /// Commands with `attempts >= max_attempts` are not claimed.
    pub max_attempts: i32,
}

impl ReservableCommandSpec {
    /// Attempt limit used unless another is given.
    pub const DEFAULT_MAX_ATTEMPTS: i32 = 6;

    /// A spec with the given limit and the default attempt limit.
    pub fn new(limit: usize) -> (r: Self)
        ensures
            r.limit == limit,
            r.max_attempts == Self::DEFAULT_MAX_ATTEMPTS,
    {
        Self { limit, max_attempts: Self::DEFAULT_MAX_ATTEMPTS }
    }

    /// The same spec with another attempt limit.
    pub fn with_max_attempts(self, max_attempts: i32) -> (r: Self)
        ensures
            r.limit == self.limit,
            r.max_attempts == max_attempts,
    {
        Self { max_attempts, ..self }
    }

    /// The storage query for this spec: received or failed commands, due now, under the
    /// attempt limit, oldest schedule first.
    pub fn criteria(&self) -> (c: Vec<Criterion>)
        ensures
            c@.len() == 4,
            c@[0] matches Criterion::StatusIn(s) && s@ == seq![CommandStatus::Received, CommandStatus::Failed],
            c@[1] == Criterion::ScheduledBeforeNow,
            c@[2] == Criterion::MaxAttempts(self.max_attempts),
            c@[3] == Criterion::OrderByScheduledAtAsc,
    {
        let mut statuses = Vec::new();
        statuses.push(CommandStatus::Received);
        statuses.push(CommandStatus::Failed);
        let mut c = Vec::new();
        c.push(Criterion::StatusIn(statuses));
        c.push(Criterion::ScheduledBeforeNow);
        c.push(Criterion::MaxAttempts(self.max_attempts));
        c.push(Criterion::OrderByScheduledAtAsc);
        assert(c@[0] matches Criterion::StatusIn(s) && s@ =~= seq![CommandStatus::Received, CommandStatus::Failed]);
        c
    }
}

/// Claims commands that are due for handling.
pub trait CommandReservePort: Send + Sync {
    /// `r` is an answer of this port to `reserve(spec)`. The port's storage decides which
    /// answers it gives; the library promises nothing of them.
    closed spec fn reserve_returns(&self, spec: ReservableCommandSpec, r: Result<Vec<CommandEnvelope>, CommandError>) -> bool {
        true
    }

    fn reserve(&self, spec: &ReservableCommandSpec) -> (r: Result<Vec<CommandEnvelope>, CommandError>)
        ensures
            self.reserve_returns(*spec, r),
    ;
}

/// The reservation and outcome ports used by the consumer.
pub struct CommandConsumerRepository<
    R: CommandReservePort + ?Sized = dyn CommandReservePort,
    P: CommandProcessPort + ?Sized = dyn CommandProcessPort,
> {
    reserve: Arc<R>,
    process: Arc<P>,
}

impl<R: CommandReservePort + ?Sized, P: CommandProcessPort + ?Sized> Clone for CommandConsumerRepository<R, P> {
    fn clone(&self) -> (r: Self)
        ensures
            r == *self,
    {
        Self { reserve: Arc::clone(&self.reserve), process: Arc::clone(&self.process) }
    }
}

impl<R: CommandReservePort + ?Sized, P: CommandProcessPort + ?Sized> CommandConsumerRepository<R, P> {
    pub closed spec fn spec_reserve(&self) -> Arc<R> {
        self.reserve
    }

    pub closed spec fn spec_process(&self) -> Arc<P> {
        self.process
    }

    pub fn new(reserve: Arc<R>, process: Arc<P>) -> (r: Self)
        ensures
            r.spec_reserve() == reserve,
            r.spec_process() == process,
    {
        Self { reserve, process }
    }

    /// Claims the commands that `spec` selects.
    pub fn reserve(&self, spec: &ReservableCommandSpec) -> (r: Result<Vec<CommandEnvelope>, CommandError>)
        ensures
            self.spec_reserve().reserve_returns(*spec, r),
    {
        self.reserve.reserve(spec)
    }

    /// Marks a reserved command as handled.
    pub fn completed(&self, id: u128, reservation_id: u128) -> (r: Result<(), CommandError>)
        ensures
            self.spec_process().completed_returns(id, reservation_id, r),
    {
        self.process.completed(id, reservation_id)
    }

    /// Marks a reserved command as failed, to be retried while attempts remain.
    pub fn failed(
        &self,
        id: u128,
        reservation_id: u128,
        max_attempts: i32,
        reason: Option<String>,
    ) -> (r: Result<(), CommandError>)
        ensures
            self.spec_process().failed_returns(id, reservation_id, max_attempts, reason_text(reason), r),
    {
        self.process.failed(id, reservation_id, max_attempts, reason)
    }
}

/// The new-command metadata carried over from stored metadata.
pub open spec fn carried_metadata(meta: CommandMetadata) -> NewCommandMetadata {
    NewCommandMetadata {
        command_id: meta.command_id,
        correlation_id: meta.correlation_id,
        causation_id: meta.causation_id,
        source: meta.source,
    }
}

/// The envelope handled for a reserved command: its type, payload and metadata.
pub open spec fn handled(envelope: CommandEnvelope) -> NewCommandEnvelope {
    NewCommandEnvelope {
        command: NewCommand {
            command_type: envelope.command.command_type,
            payload: envelope.command.payload,
        },
        metadata: match envelope.metadata {
            Some(m) => Some(carried_metadata(m)),
            None => None,
        },
    }
}

/// The command handed to the dispatcher for a reserved command is the stored one: the same
/// type and payload, and its stored metadata field by field (command id, correlation id,
/// causation id, source); a command stored without metadata is handed on without. So the
/// events its handler produces are correlated by the stored correlation id (by the command
/// id when there is none) and caused by the command.
pub proof fn law_handled_command_keeps_its_metadata(e: CommandEnvelope, event_id: u128)
    ensures
        handled(e).command.command_type == e.command.command_type,
        handled(e).command.payload == e.command.payload,
        handled(e).metadata is Some <==> e.metadata is Some,
        e.metadata matches Some(m) ==> ({
            &&& handled(e).metadata->0.command_id == m.command_id
            &&& handled(e).metadata->0.correlation_id == m.correlation_id
            &&& handled(e).metadata->0.causation_id == m.causation_id
            &&& handled(e).metadata->0.source == m.source
            &&& caused_metadata(handled(e).metadata, event_id).correlation_id == Some(match m.correlation_id {
                Some(c) => c,
                None => m.command_id,
            })
            &&& caused_metadata(handled(e).metadata, event_id).causation_id == Some(m.command_id)
        }),
{
}

impl<'a> From<&'a CommandMetadata> for NewCommandMetadata {
    fn from(meta: &'a CommandMetadata) -> (r: NewCommandMetadata)
        ensures
            r.command_id == meta.command_id,
            r.correlation_id == meta.correlation_id,
            r.causation_id == meta.causation_id,
            r.source == meta.source,
    {
        NewCommandMetadata {
            command_id: meta.command_id,
            correlation_id: meta.correlation_id,
            causation_id: meta.causation_id,
            source: copy_text(&meta.source),
        }
    }
}

impl<'a> FromSpecImpl<&'a CommandMetadata> for NewCommandMetadata {
    open spec fn obeys_from_spec() -> bool {
        true
    }

    open spec fn from_spec(v: &'a CommandMetadata) -> NewCommandMetadata {
        carried_metadata(*v)
    }
}

impl<'a> From<&'a CommandEnvelope> for NewCommandEnvelope {
    fn from(envelope: &'a CommandEnvelope) -> (r: NewCommandEnvelope)
        ensures
            r.command.command_type == envelope.command.command_type,
            r.command.payload == envelope.command.payload,
            r.metadata is Some <==> envelope.metadata is Some,
            envelope.metadata matches Some(m) ==> ({
                &&& r.metadata->0.command_id == m.command_id
                &&& r.metadata->0.correlation_id == m.correlation_id
                &&& r.metadata->0.causation_id == m.causation_id
                &&& r.metadata->0.source == m.source
            }),
    {
        let metadata = match &envelope.metadata {
            Some(m) => Some(NewCommandMetadata::from(m)),
            None => None,
        };
        NewCommandEnvelope {
            command: NewCommand {
                command_type: envelope.command.command_type.clone(),
                payload: envelope.command.payload.clone(),
            },
            metadata,
        }
    }
}

impl<'a> FromSpecImpl<&'a CommandEnvelope> for NewCommandEnvelope {
    open spec fn obeys_from_spec() -> bool {
        true
    }

    open spec fn from_spec(v: &'a CommandEnvelope) -> NewCommandEnvelope {
        handled(*v)
    }
}

/// The failure reason recorded for a command whose handling failed: the failure's text.
fn failure_reason(handled: &Result<(), CommandError>) -> (r: Option<String>)
    ensures
        handled matches Err(e) ==> r matches Some(t) && t@ == e.text(),
        handled is Ok ==> r is None,
{
    match handled {
        Ok(()) => None,
        Err(e) => Some(e.message()),
    }
}

/// Handles reserved commands through a dispatcher.
pub struct CommandConsumer<
    R: CommandReservePort + ?Sized = dyn CommandReservePort,
    P: CommandProcessPort + ?Sized = dyn CommandProcessPort,
    H: ErasedCommandHandler + ?Sized = dyn ErasedCommandHandler,
    D: EventDispatchPort + ?Sized = dyn EventDispatchPort,
> {
    repository: CommandConsumerRepository<R, P>,
    dispatcher: Arc<CommandDispatcher<H, D>>,
}

impl<
    R: CommandReservePort + ?Sized,
    P: CommandProcessPort + ?Sized,
    H: ErasedCommandHandler + ?Sized,
    D: EventDispatchPort + ?Sized,
> CommandConsumer<R, P, H, D> {
    pub closed spec fn spec_repository(&self) -> CommandConsumerRepository<R, P> {
        self.repository
    }

    pub closed spec fn spec_dispatcher(&self) -> Arc<CommandDispatcher<H, D>> {
        self.dispatcher
    }

    pub fn new(repository: CommandConsumerRepository<R, P>, dispatcher: Arc<CommandDispatcher<H, D>>) -> (r: Self)
        ensures
            r.spec_repository() == repository,
            r.spec_dispatcher() == dispatcher,
    {
        Self { repository, dispatcher }
    }

    /// Handling the reserved `entry` may have given `answer`, and recording the outcome
    /// `recorded`: a handled command is marked completed, any other failed with the
    /// failure's text as reason.
    pub open spec fn entry_returns(
        &self,
        spec: ReservableCommandSpec,
        entry: CommandEnvelope,
        answer: Result<(), CommandError>,
        recorded: Result<(), CommandError>,
    ) -> bool {
        &&& self.spec_dispatcher().dispatch_returns(handled(entry), answer)
        &&& match answer {
            Ok(_) => self.spec_repository().spec_process().completed_returns(
                entry.command.id,
                entry.command.reservation_id,
                recorded,
            ),
            Err(e) => self.spec_repository().spec_process().failed_returns(
                entry.command.id,
                entry.command.reservation_id,
                spec.max_attempts,
                Some(e.text()),
                recorded,
            ),
        }
    }

    /// Handling `entries` one after another may end in `r`: some outcome of each entry, and
    /// `r` reports all errors these outcomes leave, in order.
    pub open spec fn entries_returns(&self, spec: ReservableCommandSpec, entries: Seq<CommandEnvelope>, r: Result<(), Vec<CommandError>>) -> bool {
        exists|outcomes: Seq<(Result<(), CommandError>, Result<(), CommandError>)>|
            #![trigger outcomes_errors(outcomes)]
            outcomes.len() == entries.len()
            && (forall|i: int| 0 <= i < entries.len() ==> #[trigger] self.entry_returns(spec, entries[i], outcomes[i].0, outcomes[i].1))
            && reports_errors(outcomes_errors(outcomes), r)
    }

    /// Consuming with `spec` may end in `r`: the reservation's failure alone, or the outcome
    /// of handling the reserved commands.
    pub open spec fn consume_returns(&self, spec: ReservableCommandSpec, r: Result<(), Vec<CommandError>>) -> bool {
        exists|reserved: Result<Vec<CommandEnvelope>, CommandError>|
            #[trigger] self.spec_repository().spec_reserve().reserve_returns(spec, reserved) && match reserved {
                Err(e) => r matches Err(v) && v@ == seq![e],
                Ok(entries) => self.entries_returns(spec, entries@, r),
            }
    }

    /// Claims the commands `spec` selects and handles each of them.
    pub fn consume(&self, spec: &ReservableCommandSpec) -> (r: Result<(), Vec<CommandError>>)
        ensures
            r matches Err(errors) ==> errors.len() >= 1,
            self.consume_returns(*spec, r),
    {
        let reserved = self.repository.reserve(spec);
        assert(self.spec_repository().spec_reserve().reserve_returns(*spec, reserved));
        let entries = match reserved {
            Ok(entries) => entries,
            Err(e) => {
                let r = vec![e];
                assert(r@ =~= seq![e]);
                return Err(r);
            },
        };
        self.consume_entries(spec, &entries)
    }

    /// Handles already claimed commands one after another, collecting the errors.
    ///
    /// A handled command is marked `completed`; a command whose handling fails is marked
    /// `failed` with the failure's text and the failure is reported. At most two errors come
    /// from one command.
    pub fn consume_entries(&self, spec: &ReservableCommandSpec, entries: &Vec<CommandEnvelope>) -> (r: Result<(), Vec<CommandError>>)
        ensures
            r matches Err(errors) ==> 1 <= errors.len() <= 2 * entries.len(),
            entries.len() == 0 ==> r is Ok,
            self.entries_returns(*spec, entries@, r),
    {
        let mut errors: Vec<CommandError> = Vec::new();
        let ghost mut outcomes: Seq<(Result<(), CommandError>, Result<(), CommandError>)> = Seq::empty();
        let mut i: usize = 0;
        while i < entries.len()
            invariant
                i <= entries.len(),
                errors.len() <= 2 * i,
                outcomes.len() == i,
                errors@ == outcomes_errors(outcomes),
                forall|j: int| 0 <= j < i ==> #[trigger] self.entry_returns(*spec, entries@[j], outcomes[j].0, outcomes[j].1),
            decreases entries.len() - i,
        {
            let outcome = self.process_entry(&entries[i], spec, &mut errors);
            proof {
                lemma_outcomes_errors_push(outcomes, outcome@);
                outcomes = outcomes.push(outcome@);
            }
            i = i + 1;
        }
        let r = if errors.len() == 0 {
            Ok(())
        } else {
            Err(errors)
        };
        assert(reports_errors(outcomes_errors(outcomes), r));
        r
    }

    /// Handles one reserved command and records the outcome: the errors it leaves are those
    /// of some handling result and some recording result.
    fn process_entry(&self, entry: &CommandEnvelope, spec: &ReservableCommandSpec, errors: &mut Vec<CommandError>) -> (outcome: Ghost<(Result<(), CommandError>, Result<(), CommandError>)>)
        ensures
            self.entry_returns(*spec, *entry, outcome@.0, outcome@.1),
            final(errors)@ == old(errors)@ + outcome_errors(outcome@.0, outcome@.1),
            old(errors)@.len() <= final(errors)@.len() <= old(errors)@.len() + 2,
    {
        let id = entry.command.id;
        let reservation_id = entry.command.reservation_id;
        let envelope = NewCommandEnvelope::from(entry);
        let handled = self.dispatcher.dispatch(&envelope);
        let recorded = match &handled {
            Ok(()) => self.repository.completed(id, reservation_id),
            Err(_) => {
                let reason = failure_reason(&handled);
                self.repository.failed(id, reservation_id, spec.max_attempts, reason)
            },
        };
        let ghost h = handled;
        let ghost rec = recorded;
        collect_outcome(errors, handled, recorded);
        assert(errors@ == old(errors)@ + outcome_errors(h, rec));
        Ghost((h, rec))
    }
}

} // verus!
