//! What the event store computes: the rows it writes and reads, its query parameters and
//! its retry policy.

use vstd::prelude::*;
use vstd::std_specs::convert::{FromSpecImpl, TryFromSpecImpl};

use crate::eventing::application::{EventEnvelope, EventError, EventMetadata, NewEventEnvelope, NewEventMetadata};
use crate::eventing::consumer::ReservableEventSpec;
use crate::eventing::domain::{Criterion, EventStatus};
use crate::eventing::sweep::StaleEventSpec;
use crate::lifecycle::{backoff_seconds, clock_ok, retry_delay_seconds, RetryPolicy};
use crate::support::{copy_text, CLOCK_LIMIT};

verus! {

/// The event retry policy: a capped backoff; entries out of attempts are given up but
/// rescheduled all the same; the sweep releases every stale entry as failed.
pub fn event_retry_policy() -> (p: RetryPolicy)
    ensures
        p == (RetryPolicy { capped_backoff: true, reschedule_dead: true, sweep_gives_up: false, failure_counts_attempt: false }),
{
    RetryPolicy { capped_backoff: true, reschedule_dead: true, sweep_gives_up: false, failure_counts_attempt: false }
}

/// How a failure report updates an event reserved `attempts` times: its new status and
/// its new schedule.
pub fn failure_update(attempts: i32, max_attempts: i32, now: i64) -> (u: (EventStatus, i64))
    requires
        clock_ok(now),
    ensures
        (u.0 == EventStatus::Dead) == (attempts >= max_attempts),
        (u.0 == EventStatus::Failed) == (attempts < max_attempts),
        u.1 == now + 1000 * backoff_seconds(attempts as int, true),
{
    let status = if attempts >= max_attempts {
        EventStatus::Dead
    } else {
        EventStatus::Failed
    };
    (status, now + 1000 * retry_delay_seconds(attempts, true))
}

/// The parameters bound into the reservation query.
#[derive(Debug, Clone, PartialEq, Eq)]
pub struct ReservationCriteria {
    /// Codes of the statuses that may be reserved.
    pub statuses: Vec<i32>,
    pub max_attempts: i32,
}

/// The status codes of `statuses`, in order.
pub open spec fn codes(statuses: Seq<EventStatus>) -> Seq<i32> {
    Seq::new(statuses.len(), |i: int| statuses[i].spec_code())
}

fn status_codes(statuses: &Vec<EventStatus>) -> (c: Vec<i32>)
    ensures
        c@ == codes(statuses@),
{
    let mut c = Vec::new();
    let mut i: usize = 0;
    while i < statuses.len()
        invariant
            i <= statuses.len(),
            c@ == codes(statuses@.subrange(0, i as int)),
        decreases statuses.len() - i,
    {
        c.push(statuses[i].code());
        i = i + 1;
        assert(c@ =~= codes(statuses@.subrange(0, i as int)));
    }
    assert(statuses@.subrange(0, statuses.len() as int) =~= statuses@);
    c
}

/// The reservation query parameters of `spec`.
pub fn reservation_criteria(spec: &ReservableEventSpec) -> (r: ReservationCriteria)
    ensures
        r.statuses@ == seq![EventStatus::Received.spec_code(), EventStatus::Failed.spec_code()],
        r.max_attempts == spec.max_attempts,
{
    let criteria = spec.criteria();
    let mut out = ReservationCriteria { statuses: Vec::new(), max_attempts: spec.max_attempts };
    let mut i: usize = 0;
    while i < criteria.len()
        invariant
            criteria@.len() == 4,
            criteria@[0] matches Criterion::StatusIn(s) && s@ == seq![EventStatus::Received, EventStatus::Failed],
            criteria@[1] == Criterion::ScheduledBeforeNow,
            criteria@[2] == Criterion::MaxAttempts(spec.max_attempts),
            criteria@[3] == Criterion::OrderByScheduledAtAsc,
            i <= 4,
            i >= 1 ==> out.statuses@ == seq![0i32, 4i32],
            out.max_attempts == spec.max_attempts,
        decreases criteria.len() - i,
    {
        match &criteria[i] {
            Criterion::StatusIn(statuses) => {
                out.statuses = status_codes(statuses);
                assert(codes(seq![EventStatus::Received, EventStatus::Failed]) =~= seq![0i32, 4i32]);
            },
            Criterion::MaxAttempts(max) => {
                out.max_attempts = *max;
            },
            _ => {},
        }
        i = i + 1;
    }
    out
}

/// The cutoff bound into the sweep query: reservations taken before it are released.
#[derive(Debug, Clone, Copy, PartialEq, Eq)]
pub struct SweepCriteria {
    pub cutoff: i64,
}

/// The sweep query parameters of `spec` at time `now`: the cutoff `now - timeout`.
pub fn sweep_criteria_at(spec: &StaleEventSpec, now: i64) -> (r: SweepCriteria)
    requires
        -CLOCK_LIMIT < now < CLOCK_LIMIT,
        -0x4000_0000_0000_0000 <= spec.timeout_ms <= 0x4000_0000_0000_0000,
    ensures
        r.cutoff == now - spec.timeout_ms,
{
    let criteria = spec.criteria_at(now);
    let mut out = SweepCriteria { cutoff: i64::MIN };
    let mut i: usize = 0;
    while i < criteria.len()
        invariant
            criteria@ == seq![Criterion::ReservedBefore((now - spec.timeout_ms) as i64)],
            -CLOCK_LIMIT < now < CLOCK_LIMIT,
            -0x4000_0000_0000_0000 <= spec.timeout_ms <= 0x4000_0000_0000_0000,
            i <= 1,
            i == 1 ==> out.cutoff == now - spec.timeout_ms,
        decreases criteria.len() - i,
    {
        match &criteria[i] {
            Criterion::ReservedBefore(cutoff) => {
                out.cutoff = *cutoff;
            },
            _ => {},
        }
        i = i + 1;
    }
    out
}

/// A stored event as it is read back, with its metadata already decoded.
#[derive(Debug)]
pub struct EventEntry {
    pub id: u128,
    pub event_type: String,
    pub status: i32,
    pub payload: String,
    pub meta: Option<EventMetadata>,
    pub scheduled_at: i64,
    pub attempts: i32,
    pub reservation_id: Option<u128>,
    pub reserved_at: Option<i64>,
    pub received_at: i64,
    pub updated_at: i64,
    pub processed_at: Option<i64>,
}

/// The envelope read from a stored event; only reserved events can be read.
pub open spec fn envelope_of(entry: EventEntry) -> Result<EventEnvelope, EventError> {
    match entry.reservation_id {
        Some(reservation_id) => Ok(EventEnvelope {
            id: entry.id,
            reservation_id,
            event_type: entry.event_type,
            payload: entry.payload,
            attempts: entry.attempts,
            metadata: entry.meta,
        }),
        None => Err(EventError::MissingReservation { id: entry.id }),
    }
}

impl TryFrom<EventEntry> for EventEnvelope {
    type Error = EventError;

    fn try_from(entry: EventEntry) -> (r: Result<Self, Self::Error>) {
        match entry.reservation_id {
            Some(reservation_id) => Ok(EventEnvelope {
                id: entry.id,
                reservation_id,
                event_type: entry.event_type,
                payload: entry.payload,
                attempts: entry.attempts,
                metadata: entry.meta,
            }),
            None => Err(EventError::MissingReservation { id: entry.id }),
        }
    }
}

impl TryFromSpecImpl<EventEntry> for EventEnvelope {
    open spec fn obeys_try_from_spec() -> bool {
        true
    }

    open spec fn try_from_spec(v: EventEntry) -> Result<Self, Self::Error> {
        envelope_of(v)
    }
}

/// An event about to be stored.
#[derive(Debug, Clone, PartialEq, Eq)]
pub struct NewEventEntry {
    pub id: u128,
    pub event_type: String,
    pub payload: String,
    pub meta: Option<NewEventMetadata>,
    pub scheduled_at: i64,
    pub received_at: i64,
}

impl NewEventEntry {
    /// The entry stored for `envelope` received at `now`, identified by its event id;
    /// an event without metadata is refused.
    pub fn from_envelope_at(envelope: &NewEventEnvelope, now: i64) -> (r: Result<NewEventEntry, EventError>)
        ensures
            envelope.metadata is None <==> r is Err,
            r matches Err(e) ==> (e matches EventError::Conversion(m) && m@ == "event_id is required: metadata is missing"@),
            r matches Ok(entry) ==> entry == (NewEventEntry {
                id: envelope.metadata->0.event_id,
                event_type: envelope.event_type,
                payload: envelope.payload,
                meta: envelope.metadata,
                scheduled_at: now,
                received_at: now,
            }),
    {
        match &envelope.metadata {
            None => Err(crate::eventing::application::missing_event_id(false)),
            Some(m) => Ok(NewEventEntry {
                id: m.event_id,
                event_type: envelope.event_type.clone(),
                payload: envelope.payload.clone(),
                meta: Some(NewEventMetadata {
                    event_id: m.event_id,
                    correlation_id: m.correlation_id,
                    causation_id: m.causation_id,
                    source: copy_text(&m.source),
                }),
                scheduled_at: now,
                received_at: now,
            }),
        }
    }
}

impl<'a> TryFrom<&'a NewEventEnvelope> for NewEventEntry {
    type Error = EventError;

    /// The entry stored for `envelope`, stamped with the current time.
    fn try_from(envelope: &'a NewEventEnvelope) -> (r: Result<Self, Self::Error>)
        ensures
            envelope.metadata is None <==> r is Err,
            r matches Err(e) ==> (e matches EventError::Conversion(m) && m@ == "event_id is required: metadata is missing"@),
            r matches Ok(entry) ==> -crate::support::CLOCK_LIMIT < entry.scheduled_at < crate::support::CLOCK_LIMIT
                && entry == (NewEventEntry {
                    id: envelope.metadata->0.event_id,
                    event_type: envelope.event_type,
                    payload: envelope.payload,
                    meta: envelope.metadata,
                    scheduled_at: entry.scheduled_at,
                    received_at: entry.scheduled_at,
                }),
    {
        NewEventEntry::from_envelope_at(envelope, crate::support::now_millis())
    }
}

impl<'a> TryFromSpecImpl<&'a NewEventEnvelope> for NewEventEntry {
    /// The result depends on the clock; `from_envelope_at` states it for a given time.
    open spec fn obeys_try_from_spec() -> bool {
        false
    }

    open spec fn try_from_spec(v: &'a NewEventEnvelope) -> Result<Self, Self::Error> {
        Err(arbitrary())
    }
}

impl From<EventMetadata> for NewEventMetadata {
    /// The metadata read back from storage, carried over unchanged.
    fn from(meta: EventMetadata) -> (r: NewEventMetadata) {
        NewEventMetadata {
            event_id: meta.event_id,
            correlation_id: meta.correlation_id,
            causation_id: meta.causation_id,
            source: meta.source,
        }
    }
}

impl FromSpecImpl<EventMetadata> for NewEventMetadata {
    open spec fn obeys_from_spec() -> bool {
        true
    }

    open spec fn from_spec(v: EventMetadata) -> NewEventMetadata {
        crate::eventing::consumer::carried_metadata(v)
    }
}

} // verus!
