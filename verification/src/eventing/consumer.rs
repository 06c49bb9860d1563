//! Delivering reserved events and recording each outcome.

use std::sync::Arc;
use vstd::prelude::*;
use vstd::std_specs::convert::FromSpecImpl;

use crate::eventing::application::{
    EventEnvelope, EventError, EventMetadata, EventProcessPort, NewEventEnvelope, NewEventMetadata,
};
use crate::eventing::dispatcher::{EventDispatcher, EventSubscriberPort};
use crate::eventing::domain::{Criterion, EventStatus};
use crate::support::{collect_outcome, lemma_outcomes_errors_push, outcome_errors, outcomes_errors, reports_errors};

verus! {

/// Which events to claim for delivery.
#[derive(Debug, Clone, PartialEq, Eq)]
pub struct ReservableEventSpec {
    /// Largest number of events claimed at once.
    pub limit: usize,
    /// Events with `attempts >= max_attempts` are not claimed.
    pub max_attempts: i32,
}

impl ReservableEventSpec {
    /// Attempt limit used unless another is given.
    pub const DEFAULT_MAX_ATTEMPTS: i32 = 6;

    /// A spec with the given limit and the default attempt limit.
    pub fn new(limit: usize) -> (r: Self)
        ensures
            r.limit == limit,
            r.max_attempts == Self::DEFAULT_MAX_ATTEMPTS,
    {
        Self { limit, max_attempts: Self::DEFAULT_MAX_ATTEMPTS }
    }

    /// The same spec with another attempt limit.
    pub fn with_max_attempts(self, max_attempts: i32) -> (r: Self)
        ensures
            r.limit == self.limit,
            r.max_attempts == max_attempts,
    {
        Self { max_attempts, ..self }
    }

    /// The storage query for this spec: received or failed events, due now, under the attempt
    /// limit, oldest schedule first.
    pub fn criteria(&self) -> (c: Vec<Criterion>)
        ensures
            c@.len() == 4,
            c@[0] matches Criterion::StatusIn(s) && s@ == seq![EventStatus::Received, EventStatus::Failed],
            c@[1] == Criterion::ScheduledBeforeNow,
            c@[2] == Criterion::MaxAttempts(self.max_attempts),
            c@[3] == Criterion::OrderByScheduledAtAsc,
    {
        let mut statuses = Vec::new();
        statuses.push(EventStatus::Received);
        statuses.push(EventStatus::Failed);
        let mut c = Vec::new();
        c.push(Criterion::StatusIn(statuses));
        c.push(Criterion::ScheduledBeforeNow);
        c.push(Criterion::MaxAttempts(self.max_attempts));
        c.push(Criterion::OrderByScheduledAtAsc);
        assert(c@[0] matches Criterion::StatusIn(s) && s@ =~= seq![EventStatus::Received, EventStatus::Failed]);
        c
    }
}

/// Claims events that are due for delivery.
pub trait EventReservePort: Send + Sync {
    /// `r` is an answer this port may give to `reserve(spec)`. The port decides its answers
    /// (mostly through storage); unless an implementation says more, any answer may come.
    closed spec fn reserve_returns(&self, spec: ReservableEventSpec, r: Result<Vec<EventEnvelope>, EventError>) -> bool {
        true
    }

    fn reserve(&self, spec: &ReservableEventSpec) -> (r: Result<Vec<EventEnvelope>, EventError>)
        ensures
            self.reserve_returns(*spec, r),
    ;
}

/// The reservation and outcome ports used by the consumer.
pub struct EventConsumerRepository<
    R: EventReservePort + ?Sized = dyn EventReservePort,
    P: EventProcessPort + ?Sized = dyn EventProcessPort,
> {
    reserve: Arc<R>,
    process: Arc<P>,
}

impl<R: EventReservePort + ?Sized, P: EventProcessPort + ?Sized> Clone for EventConsumerRepository<R, P> {
    fn clone(&self) -> (r: Self)
        ensures
            r == *self,
    {
        Self { reserve: Arc::clone(&self.reserve), process: Arc::clone(&self.process) }
    }
}

impl<R: EventReservePort + ?Sized, P: EventProcessPort + ?Sized> EventConsumerRepository<R, P> {
    pub closed spec fn spec_reserve(&self) -> Arc<R> {
        self.reserve
    }

    pub closed spec fn spec_process(&self) -> Arc<P> {
        self.process
    }

    pub fn new(reserve: Arc<R>, process: Arc<P>) -> (r: Self)
        ensures
            r.spec_reserve() == reserve,
            r.spec_process() == process,
    {
        Self { reserve, process }
    }

    pub fn reserve(&self, spec: &ReservableEventSpec) -> (r: Result<Vec<EventEnvelope>, EventError>)
        ensures
            self.spec_reserve().reserve_returns(*spec, r),
    {
        self.reserve.reserve(spec)
    }

    pub fn completed(&self, id: u128, reservation_id: u128) -> (r: Result<(), EventError>)
        ensures
            self.spec_process().completed_returns(id, reservation_id, r),
    {
        self.process.completed(id, reservation_id)
    }

    pub fn failed(&self, id: u128, reservation_id: u128, max_attempts: i32) -> (r: Result<(), EventError>)
        ensures
            self.spec_process().failed_returns(id, reservation_id, max_attempts, r),
    {
        self.process.failed(id, reservation_id, max_attempts)
    }
}

/// The new-event metadata carried over from stored metadata.
pub open spec fn carried_metadata(meta: EventMetadata) -> NewEventMetadata {
    NewEventMetadata {
        event_id: meta.event_id,
        correlation_id: meta.correlation_id,
        causation_id: meta.causation_id,
        source: meta.source,
    }
}

/// The envelope delivered for a reserved event: its type, payload and metadata.
pub open spec fn delivered(envelope: EventEnvelope) -> NewEventEnvelope {
    NewEventEnvelope {
        event_type: envelope.event_type,
        payload: envelope.payload,
        metadata: match envelope.metadata {
            Some(m) => Some(carried_metadata(m)),
            None => None,
        },
    }
}

/// The event delivered to the subscriber for a reserved event is the stored one: the same
/// type and payload, and its stored metadata field by field (event id, correlation id,
/// causation id, source); an event stored without metadata is delivered without.
pub proof fn law_delivered_event_keeps_its_metadata(e: EventEnvelope)
    ensures
        delivered(e).event_type == e.event_type,
        delivered(e).payload == e.payload,
        delivered(e).metadata is Some <==> e.metadata is Some,
        e.metadata matches Some(m) ==> ({
            &&& delivered(e).metadata->0.event_id == m.event_id
            &&& delivered(e).metadata->0.correlation_id == m.correlation_id
            &&& delivered(e).metadata->0.causation_id == m.causation_id
            &&& delivered(e).metadata->0.source == m.source
        }),
{
}

impl<'a> From<&'a EventMetadata> for NewEventMetadata {
    fn from(meta: &'a EventMetadata) -> (r: NewEventMetadata)
        ensures
            r.event_id == meta.event_id,
            r.correlation_id == meta.correlation_id,
            r.causation_id == meta.causation_id,
            r.source == meta.source,
    {
        NewEventMetadata {
            event_id: meta.event_id,
            correlation_id: meta.correlation_id,
            causation_id: meta.causation_id,
            source: crate::support::copy_text(&meta.source),
        }
    }
}

impl<'a> FromSpecImpl<&'a EventMetadata> for NewEventMetadata {
    open spec fn obeys_from_spec() -> bool {
        true
    }

    open spec fn from_spec(v: &'a EventMetadata) -> NewEventMetadata {
        carried_metadata(*v)
    }
}

impl<'a> From<&'a EventEnvelope> for NewEventEnvelope {
    fn from(envelope: &'a EventEnvelope) -> (r: NewEventEnvelope)
        ensures
            r.event_type == envelope.event_type,
            r.payload == envelope.payload,
            r.metadata is Some <==> envelope.metadata is Some,
            envelope.metadata matches Some(m) ==> ({
                &&& r.metadata->0.event_id == m.event_id
                &&& r.metadata->0.correlation_id == m.correlation_id
                &&& r.metadata->0.causation_id == m.causation_id
                &&& r.metadata->0.source == m.source
            }),
    {
        let metadata = match &envelope.metadata {
            Some(m) => Some(NewEventMetadata::from(m)),
            None => None,
        };
        NewEventEnvelope {
            event_type: envelope.event_type.clone(),
            payload: envelope.payload.clone(),
            metadata,
        }
    }
}

impl<'a> FromSpecImpl<&'a EventEnvelope> for NewEventEnvelope {
    open spec fn obeys_from_spec() -> bool {
        true
    }

    open spec fn from_spec(v: &'a EventEnvelope) -> NewEventEnvelope {
        delivered(*v)
    }
}

/// Delivers reserved events to a subscriber.
pub struct EventConsumer<
    R: EventReservePort + ?Sized = dyn EventReservePort,
    P: EventProcessPort + ?Sized = dyn EventProcessPort,
    S: EventSubscriberPort + ?Sized = dyn EventSubscriberPort,
> {
    repository: EventConsumerRepository<R, P>,
    dispatcher: Arc<EventDispatcher<S>>,
}

impl<R: EventReservePort + ?Sized, P: EventProcessPort + ?Sized, S: EventSubscriberPort + ?Sized> EventConsumer<R, P, S> {
    pub closed spec fn spec_repository(&self) -> EventConsumerRepository<R, P> {
        self.repository
    }

    pub closed spec fn spec_dispatcher(&self) -> Arc<EventDispatcher<S>> {
        self.dispatcher
    }

    pub fn new(repository: EventConsumerRepository<R, P>, dispatcher: Arc<EventDispatcher<S>>) -> (r: Self)
        ensures
            r.spec_repository() == repository,
            r.spec_dispatcher() == dispatcher,
    {
        Self { repository, dispatcher }
    }

    /// Delivering the reserved `entry` may have given `delivered`, and recording the outcome
    /// `recorded`: a delivered event is marked completed, any other failed.
    pub open spec fn entry_returns(
        &self,
        spec: ReservableEventSpec,
        entry: EventEnvelope,
        answer: Result<(), EventError>,
        recorded: Result<(), EventError>,
    ) -> bool {
        &&& self.spec_dispatcher().spec_subscriber().handle_returns(delivered(entry), answer)
        &&& if answer is Ok {
            self.spec_repository().spec_process().completed_returns(entry.id, entry.reservation_id, recorded)
        } else {
            self.spec_repository().spec_process().failed_returns(entry.id, entry.reservation_id, spec.max_attempts, recorded)
        }
    }

    /// Delivering `entries` one after another may end in `r`: some outcome of each entry,
    /// and `r` reports all errors these outcomes leave, in order.
    pub open spec fn entries_returns(&self, spec: ReservableEventSpec, entries: Seq<EventEnvelope>, r: Result<(), Vec<EventError>>) -> bool {
        exists|outcomes: Seq<(Result<(), EventError>, Result<(), EventError>)>|
            #![trigger outcomes_errors(outcomes)]
            outcomes.len() == entries.len()
            && (forall|i: int| 0 <= i < entries.len() ==> #[trigger] self.entry_returns(spec, entries[i], outcomes[i].0, outcomes[i].1))
            && reports_errors(outcomes_errors(outcomes), r)
    }

    /// Consuming with `spec` may end in `r`: the reservation's failure alone, or the outcome
    /// of delivering the reserved events.
    pub open spec fn consume_returns(&self, spec: ReservableEventSpec, r: Result<(), Vec<EventError>>) -> bool {
        exists|reserved: Result<Vec<EventEnvelope>, EventError>|
            #[trigger] self.spec_repository().spec_reserve().reserve_returns(spec, reserved) && match reserved {
                Err(e) => r matches Err(v) && v@ == seq![e],
                Ok(entries) => self.entries_returns(spec, entries@, r),
            }
    }

    /// Claims the events `spec` selects and delivers each of them.
    pub fn consume(&self, spec: &ReservableEventSpec) -> (r: Result<(), Vec<EventError>>)
        ensures
            r matches Err(errors) ==> errors.len() >= 1,
            self.consume_returns(*spec, r),
    {
        let reserved = self.repository.reserve(spec);
        assert(self.spec_repository().spec_reserve().reserve_returns(*spec, reserved));
        let entries = match reserved {
            Ok(entries) => entries,
            Err(e) => {
                let r = vec![e];
                assert(r@ =~= seq![e]);
                return Err(r);
            },
        };
        self.consume_entries(spec, &entries)
    }

    /// Delivers already claimed events one after another, collecting the errors.
    ///
    /// A delivered event is marked `completed`; an event whose delivery fails is marked
    /// `failed` and its delivery error is reported. At most two errors come from one event.
    pub fn consume_entries(&self, spec: &ReservableEventSpec, entries: &Vec<EventEnvelope>) -> (r: Result<(), Vec<EventError>>)
        ensures
            r matches Err(errors) ==> 1 <= errors.len() <= 2 * entries.len(),
            entries.len() == 0 ==> r is Ok,
            self.entries_returns(*spec, entries@, r),
    {
        let mut errors: Vec<EventError> = Vec::new();
        let ghost mut outcomes: Seq<(Result<(), EventError>, Result<(), EventError>)> = Seq::empty();
        let mut i: usize = 0;
        while i < entries.len()
            invariant
                i <= entries.len(),
                errors.len() <= 2 * i,
                outcomes.len() == i,
                errors@ == outcomes_errors(outcomes),
                forall|j: int| 0 <= j < i ==> #[trigger] self.entry_returns(*spec, entries@[j], outcomes[j].0, outcomes[j].1),
            decreases entries.len() - i,
        {
            let outcome = self.process_entry(&entries[i], spec, &mut errors);
            proof {
                lemma_outcomes_errors_push(outcomes, outcome@);
                outcomes = outcomes.push(outcome@);
            }
            i = i + 1;
        }
        let r = if errors.len() == 0 {
            Ok(())
        } else {
            Err(errors)
        };
        assert(reports_errors(outcomes_errors(outcomes), r));
        r
    }

    /// Delivers one reserved event and records the outcome: the errors it leaves are those of
    /// some delivery result and some recording result.
    fn process_entry(&self, entry: &EventEnvelope, spec: &ReservableEventSpec, errors: &mut Vec<EventError>) -> (outcome: Ghost<(Result<(), EventError>, Result<(), EventError>)>)
        ensures
            self.entry_returns(*spec, *entry, outcome@.0, outcome@.1),
            final(errors)@ == old(errors)@ + outcome_errors(outcome@.0, outcome@.1),
            old(errors)@.len() <= final(errors)@.len() <= old(errors)@.len() + 2,
    {
        let id = entry.id;
        let reservation_id = entry.reservation_id;
        let envelope = NewEventEnvelope::from(entry);
        let delivered = self.dispatcher.dispatch(&envelope);
        let recorded = match &delivered {
            Ok(()) => self.repository.completed(id, reservation_id),
            Err(_) => self.repository.failed(id, reservation_id, spec.max_attempts),
        };
        let ghost d = delivered;
        let ghost rec = recorded;
        collect_outcome(errors, delivered, recorded);
        assert(errors@ == old(errors)@ + outcome_errors(d, rec));
        Ghost((d, rec))
    }
}

} // verus!
