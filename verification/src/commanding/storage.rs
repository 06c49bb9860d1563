//! What the command store computes: the rows it writes and reads, its query parameters and
//! its retry policy.

use vstd::prelude::*;
use vstd::std_specs::convert::{FromSpecImpl, TryFromSpecImpl};

use crate::commanding::application::{
    missing_command_id, Command, CommandEnvelope, CommandError, CommandMetadata, NewCommandEnvelope,
    NewCommandMetadata,
};
use crate::commanding::consumer::ReservableCommandSpec;
use crate::commanding::domain::{CommandStatus, Criterion};
use crate::commanding::sweep::StaleCommandSpec;
use crate::lifecycle::{backoff_seconds, clock_ok, retry_delay_seconds, RetryPolicy};
use crate::support::{copy_text, CLOCK_LIMIT};

verus! {

/// The command retry policy: a capped backoff; commands out of attempts are given up but
/// rescheduled all the same; the sweep releases every stale command as failed.
pub fn command_retry_policy() -> (p: RetryPolicy)
    ensures
        p == (RetryPolicy { capped_backoff: true, reschedule_dead: true, sweep_gives_up: false, failure_counts_attempt: false }),
{
    RetryPolicy { capped_backoff: true, reschedule_dead: true, sweep_gives_up: false, failure_counts_attempt: false }
}

/// How a failure report updates a command reserved `attempts` times: its new status and
/// its new schedule.
pub fn failure_update(attempts: i32, max_attempts: i32, now: i64) -> (u: (CommandStatus, i64))
    requires
        clock_ok(now),
    ensures
        (u.0 == CommandStatus::Dead) == (attempts >= max_attempts),
        (u.0 == CommandStatus::Failed) == (attempts < max_attempts),
        u.1 == now + 1000 * backoff_seconds(attempts as int, true),
{
    let status = if attempts >= max_attempts {
        CommandStatus::Dead
    } else {
        CommandStatus::Failed
    };
    (status, now + 1000 * retry_delay_seconds(attempts, true))
}

/// The parameters bound into the reservation query.
#[derive(Debug, Clone, PartialEq, Eq)]
pub struct ReservationCriteria {
    /// Codes of the statuses that may be reserved.
    pub statuses: Vec<i32>,
    pub max_attempts: i32,
}

/// The status codes of `statuses`, in order.
pub open spec fn codes(statuses: Seq<CommandStatus>) -> Seq<i32> {
    Seq::new(statuses.len(), |i: int| statuses[i].spec_code())
}

fn status_codes(statuses: &Vec<CommandStatus>) -> (c: Vec<i32>)
    ensures
        c@ == codes(statuses@),
{
    let mut c = Vec::new();
    let mut i: usize = 0;
    while i < statuses.len()
        invariant
            i <= statuses.len(),
            c@ == codes(statuses@.subrange(0, i as int)),
        decreases statuses.len() - i,
    {
        c.push(statuses[i].code());
        i = i + 1;
        assert(c@ =~= codes(statuses@.subrange(0, i as int)));
    }
    assert(statuses@.subrange(0, statuses.len() as int) =~= statuses@);
    c
}

/// The reservation query parameters of `spec`.
pub fn reservation_criteria(spec: &ReservableCommandSpec) -> (r: ReservationCriteria)
    ensures
        r.statuses@ == seq![CommandStatus::Received.spec_code(), CommandStatus::Failed.spec_code()],
        r.max_attempts == spec.max_attempts,
{
    let criteria = spec.criteria();
    let mut out = ReservationCriteria { statuses: Vec::new(), max_attempts: spec.max_attempts };
    let mut i: usize = 0;
    while i < criteria.len()
        invariant
            criteria@.len() == 4,
            criteria@[0] matches Criterion::StatusIn(s) && s@ == seq![CommandStatus::Received, CommandStatus::Failed],
            criteria@[1] == Criterion::ScheduledBeforeNow,
            criteria@[2] == Criterion::MaxAttempts(spec.max_attempts),
            criteria@[3] == Criterion::OrderByScheduledAtAsc,
            i <= 4,
            i >= 1 ==> out.statuses@ == seq![0i32, 4i32],
            out.max_attempts == spec.max_attempts,
        decreases criteria.len() - i,
    {
        match &criteria[i] {
            Criterion::StatusIn(statuses) => {
                out.statuses = status_codes(statuses);
                assert(codes(seq![CommandStatus::Received, CommandStatus::Failed]) =~= seq![0i32, 4i32]);
            },
            Criterion::MaxAttempts(max) => {
                out.max_attempts = *max;
            },
            _ => {},
        }
        i = i + 1;
    }
    out
}

/// The cutoff bound into the sweep query: reservations taken before it are released.
#[derive(Debug, Clone, Copy, PartialEq, Eq)]
pub struct SweepCriteria {
    pub cutoff: i64,
}

/// The sweep query parameters of `spec` at time `now`: the cutoff `now - timeout`.
pub fn sweep_criteria_at(spec: &StaleCommandSpec, now: i64) -> (r: SweepCriteria)
    requires
        -CLOCK_LIMIT < now < CLOCK_LIMIT,
        -0x4000_0000_0000_0000 <= spec.timeout_ms <= 0x4000_0000_0000_0000,
    ensures
        r.cutoff == now - spec.timeout_ms,
{
    let criteria = spec.criteria_at(now);
    let mut out = SweepCriteria { cutoff: i64::MIN };
    let mut i: usize = 0;
    while i < criteria.len()
        invariant
            criteria@ == seq![Criterion::ReservedBefore((now - spec.timeout_ms) as i64)],
            -CLOCK_LIMIT < now < CLOCK_LIMIT,
            -0x4000_0000_0000_0000 <= spec.timeout_ms <= 0x4000_0000_0000_0000,
            i <= 1,
            i == 1 ==> out.cutoff == now - spec.timeout_ms,
        decreases criteria.len() - i,
    {
        match &criteria[i] {
            Criterion::ReservedBefore(cutoff) => {
                out.cutoff = *cutoff;
            },
            _ => {},
        }
        i = i + 1;
    }
    out
}

/// A stored command as it is read back, with its metadata already decoded.
#[derive(Debug)]
pub struct CommandEntry {
    pub id: u128,
    pub command_type: String,
    pub status: i32,
    pub payload: String,
    pub meta: Option<CommandMetadata>,
    pub scheduled_at: i64,
    pub attempts: i32,
    pub reservation_id: Option<u128>,
    pub reserved_at: Option<i64>,
    pub received_at: i64,
    pub updated_at: i64,
    pub processed_at: Option<i64>,
}

/// The envelope read from a stored command; only reserved commands can be read.
pub open spec fn envelope_of(entry: CommandEntry) -> Result<CommandEnvelope, CommandError> {
    match entry.reservation_id {
        Some(reservation_id) => Ok(CommandEnvelope {
            command: Command {
                id: entry.id,
                reservation_id,
                command_type: entry.command_type,
                payload: entry.payload,
                attempts: entry.attempts,
                extra_info: None,
            },
            metadata: entry.meta,
        }),
        None => Err(CommandError::MissingReservation { id: entry.id }),
    }
}

impl TryFrom<CommandEntry> for CommandEnvelope {
    type Error = CommandError;

    fn try_from(entry: CommandEntry) -> (r: Result<Self, Self::Error>) {
        match entry.reservation_id {
            Some(reservation_id) => Ok(CommandEnvelope {
                command: Command {
                    id: entry.id,
                    reservation_id,
                    command_type: entry.command_type,
                    payload: entry.payload,
                    attempts: entry.attempts,
                    extra_info: None,
                },
                metadata: entry.meta,
            }),
            None => Err(CommandError::MissingReservation { id: entry.id }),
        }
    }
}

impl TryFromSpecImpl<CommandEntry> for CommandEnvelope {
    open spec fn obeys_try_from_spec() -> bool {
        true
    }

    open spec fn try_from_spec(v: CommandEntry) -> Result<Self, Self::Error> {
        envelope_of(v)
    }
}

/// A command about to be stored.
#[derive(Debug, Clone, PartialEq, Eq)]
pub struct NewCommandEntry {
    pub id: u128,
    pub command_type: String,
    pub payload: String,
    pub meta: Option<NewCommandMetadata>,
    pub scheduled_at: i64,
    pub received_at: i64,
}

impl NewCommandEntry {
    /// The entry stored for `envelope` received at `now`, identified by its event id;
    /// a command without metadata is refused.
    pub fn from_envelope_at(envelope: &NewCommandEnvelope, now: i64) -> (r: Result<NewCommandEntry, CommandError>)
        ensures
            envelope.metadata is None <==> r is Err,
            r matches Err(e) ==> (e matches CommandError::Conversion(m) && m@ == "command_id is required: metadata is missing"@),
            r matches Ok(entry) ==> entry == (NewCommandEntry {
                id: envelope.metadata->0.command_id,
                command_type: envelope.command.command_type,
                payload: envelope.command.payload,
                meta: envelope.metadata,
                scheduled_at: now,
                received_at: now,
            }),
    {
        match &envelope.metadata {
            None => Err(missing_command_id()),
            Some(m) => Ok(NewCommandEntry {
                id: m.command_id,
                command_type: envelope.command.command_type.clone(),
                payload: envelope.command.payload.clone(),
                meta: Some(NewCommandMetadata {
                    command_id: m.command_id,
                    correlation_id: m.correlation_id,
                    causation_id: m.causation_id,
                    source: copy_text(&m.source),
                }),
                scheduled_at: now,
                received_at: now,
            }),
        }
    }
}

impl<'a> TryFrom<&'a NewCommandEnvelope> for NewCommandEntry {
    type Error = CommandError;

    /// The entry stored for `envelope`, stamped with the current time.
    fn try_from(envelope: &'a NewCommandEnvelope) -> (r: Result<Self, Self::Error>)
        ensures
            envelope.metadata is None <==> r is Err,
            r matches Err(e) ==> (e matches CommandError::Conversion(m) && m@ == "command_id is required: metadata is missing"@),
            r matches Ok(entry) ==> -crate::support::CLOCK_LIMIT < entry.scheduled_at < crate::support::CLOCK_LIMIT
                && entry == (NewCommandEntry {
                    id: envelope.metadata->0.command_id,
                    command_type: envelope.command.command_type,
                    payload: envelope.command.payload,
                    meta: envelope.metadata,
                    scheduled_at: entry.scheduled_at,
                    received_at: entry.scheduled_at,
                }),
    {
        NewCommandEntry::from_envelope_at(envelope, crate::support::now_millis())
    }
}

impl<'a> TryFromSpecImpl<&'a NewCommandEnvelope> for NewCommandEntry {
    /// The result depends on the clock; `from_envelope_at` states it for a given time.
    open spec fn obeys_try_from_spec() -> bool {
        false
    }

    open spec fn try_from_spec(v: &'a NewCommandEnvelope) -> Result<Self, Self::Error> {
        Err(arbitrary())
    }
}

impl From<CommandMetadata> for NewCommandMetadata {
    /// The metadata read back from storage, carried over unchanged.
    fn from(meta: CommandMetadata) -> (r: NewCommandMetadata) {
        NewCommandMetadata {
            command_id: meta.command_id,
            correlation_id: meta.correlation_id,
            causation_id: meta.causation_id,
            source: meta.source,
        }
    }
}

impl FromSpecImpl<CommandMetadata> for NewCommandMetadata {
    open spec fn obeys_from_spec() -> bool {
        true
    }

    open spec fn from_spec(v: CommandMetadata) -> NewCommandMetadata {
        crate::commanding::consumer::carried_metadata(v)
    }
}

} // verus!
