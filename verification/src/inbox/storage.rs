//! What the inbox store computes: the rows it writes and reads, its query parameters, its
//! retry policy and the journal entry a sweep leaves.

use vstd::prelude::*;
use vstd::std_specs::convert::{FromSpecImpl, TryFromSpecImpl};

use crate::inbox::application::{InboxError, InboxMessageEnvelope, InboxMessageMetadata};
use crate::inbox::consumer::ReservableInboxSpec;
use crate::inbox::domain::{append_error, Criterion, ExtraInfo, InboxMessage, InboxStatus};
use crate::inbox::recorder::{stored_metadata, NewInboxMessageEnvelope};
use crate::inbox::sweep::{StaleReservationSpec, SweepCriterion};
use crate::lifecycle::{backoff_seconds, clock_ok, count_attempt, retry_delay_seconds, RetryPolicy};
use crate::support::{decimal, i32_text, joined, now_millis, CLOCK_LIMIT};

verus! {

/// The inbox retry policy: an uncapped backoff; a failure report counts one more attempt;
/// messages out of attempts are given up but rescheduled all the same; the sweep treats a
/// stale reservation as a failure report.
pub fn inbox_retry_policy() -> (p: RetryPolicy)
    ensures
        p == (RetryPolicy { capped_backoff: false, reschedule_dead: true, sweep_gives_up: true, failure_counts_attempt: true }),
{
    RetryPolicy { capped_backoff: false, reschedule_dead: true, sweep_gives_up: true, failure_counts_attempt: true }
}

/// How a failure report updates a message whose attempt count is `attempts`: the report
/// counts one more attempt (held at the largest `i32`); the message is given up once the
/// new count reaches `max_attempts`, else failed; either way it is rescheduled after the
/// backoff for the new count. Returns the new status, schedule and attempt count.
pub fn failure_update(attempts: i32, max_attempts: i32, now: i64) -> (u: (InboxStatus, i64, i32))
    requires
        clock_ok(now),
    ensures
        u.2 == (if attempts < i32::MAX { attempts + 1 } else { attempts as int }),
        (u.0 == InboxStatus::Dead) == (u.2 >= max_attempts),
        (u.0 == InboxStatus::Failed) == (u.2 < max_attempts),
        u.1 == now + 1000 * backoff_seconds(u.2 as int, false),
{
    let counted = count_attempt(attempts, inbox_retry_policy());
    let status = if counted >= max_attempts {
        InboxStatus::Dead
    } else {
        InboxStatus::Failed
    };
    (status, now + 1000 * retry_delay_seconds(counted, false), counted)
}

/// The journal of a message after a sweep released it: the sweep leaves the same message
/// on every message it releases.
pub fn sweep_journal(extra_info: Option<ExtraInfo>) -> (r: ExtraInfo)
    ensures
        r.messages() == match extra_info {
            Some(info) => info.messages(),
            None => Seq::<Seq<char>>::empty(),
        }.push("inbox reservation timed out"@),
{
    proof {
        reveal_strlit("inbox reservation timed out");
    }
    append_error(extra_info, "inbox reservation timed out")
}

/// The parameters bound into the reservation query.
#[derive(Debug, Clone, PartialEq, Eq)]
pub struct ReservationCriteria {
    /// Codes of the statuses that may be reserved.
    pub statuses: Vec<i32>,
    pub max_attempts: i32,
}

/// The reservation query parameters of `spec`.
pub fn reservation_criteria(spec: &ReservableInboxSpec) -> (r: ReservationCriteria)
    ensures
        r.statuses@ == seq![InboxStatus::Received.spec_code(), InboxStatus::Failed.spec_code()],
        r.max_attempts == spec.max_attempts,
{
    let criteria = spec.criteria();
    let mut out = ReservationCriteria { statuses: Vec::new(), max_attempts: spec.max_attempts };
    let mut i: usize = 0;
    while i < criteria.len()
        invariant
            criteria@.len() == 4,
            criteria@[0] matches Criterion::StatusIn(s) && s@ == seq![InboxStatus::Received, InboxStatus::Failed],
            criteria@[1] == Criterion::ScheduledBeforeNow,
            criteria@[2] == Criterion::MaxAttempts(spec.max_attempts),
            criteria@[3] == Criterion::OrderByScheduledAtAsc,
            i <= 4,
            i >= 1 ==> out.statuses@ == seq![0i32, 4i32],
            out.max_attempts == spec.max_attempts,
        decreases criteria.len() - i,
    {
        match &criteria[i] {
            Criterion::StatusIn(statuses) => {
                let mut codes: Vec<i32> = Vec::new();
                let mut k: usize = 0;
                while k < statuses.len()
                    invariant
                        k <= statuses.len(),
                        codes@.len() == k,
                        forall|j: int| 0 <= j < k ==> codes@[j] == statuses@[j].spec_code(),
                    decreases statuses.len() - k,
                {
                    codes.push(statuses[k].code());
                    k = k + 1;
                }
                assert(codes@ =~= seq![0i32, 4i32]);
                out.statuses = codes;
            },
            Criterion::MaxAttempts(max) => {
                out.max_attempts = *max;
            },
            _ => {},
        }
        i = i + 1;
    }
    out
}

/// The parameters bound into the sweep query: reservations taken before `cutoff` are
/// released, and messages with `max_attempts` attempts or more are given up.
#[derive(Debug, Clone, Copy, PartialEq, Eq)]
pub struct SweepCriteria {
    pub cutoff: i64,
    pub max_attempts: i32,
}

/// The sweep query parameters of `spec` at time `now`: the cutoff `now - timeout` and the
/// attempt limit.
pub fn sweep_criteria_at(spec: &StaleReservationSpec, now: i64) -> (r: SweepCriteria)
    requires
        -CLOCK_LIMIT < now < CLOCK_LIMIT,
        -0x4000_0000_0000_0000 <= spec.timeout_ms <= 0x4000_0000_0000_0000,
    ensures
        r.cutoff == now - spec.timeout_ms,
        r.max_attempts == spec.max_attempts,
{
    let criteria = spec.criteria_at(now);
    let mut out = SweepCriteria { cutoff: i64::MIN, max_attempts: spec.max_attempts };
    let mut i: usize = 0;
    while i < criteria.len()
        invariant
            criteria@ == seq![
                SweepCriterion::ReservedBefore((now - spec.timeout_ms) as i64),
                SweepCriterion::MaxAttempts(spec.max_attempts),
            ],
            -CLOCK_LIMIT < now < CLOCK_LIMIT,
            -0x4000_0000_0000_0000 <= spec.timeout_ms <= 0x4000_0000_0000_0000,
            i <= 2,
            i >= 1 ==> out.cutoff == now - spec.timeout_ms,
            out.max_attempts == spec.max_attempts,
        decreases criteria.len() - i,
    {
        match criteria[i] {
            SweepCriterion::ReservedBefore(cutoff) => {
                out.cutoff = cutoff;
            },
            SweepCriterion::MaxAttempts(max) => {
                out.max_attempts = max;
            },
        }
        i = i + 1;
    }
    out
}

/// The row written for a new inbox message.
#[derive(Debug, PartialEq, Eq)]
pub struct NewInboxEntry {
    id: u128,
    payload: String,
    meta: InboxMessageMetadata,
    status: i32,
    scheduled_at: i64,
    attempts: i32,
    received_at: i64,
    updated_at: i64,
}

impl NewInboxEntry {
    #[allow(clippy::too_many_arguments)]
    pub fn new(
        id: u128,
        payload: String,
        meta: InboxMessageMetadata,
        status: i32,
        scheduled_at: i64,
        attempts: i32,
        received_at: i64,
        updated_at: i64,
    ) -> (r: Self)
        ensures
            r.spec_id() == id,
            r.spec_payload() == payload,
            r.spec_meta() == meta,
            r.spec_status() == status,
            r.spec_scheduled_at() == scheduled_at,
            r.spec_attempts() == attempts,
            r.spec_received_at() == received_at,
            r.spec_updated_at() == updated_at,
    {
        Self { id, payload, meta, status, scheduled_at, attempts, received_at, updated_at }
    }

    pub closed spec fn spec_id(&self) -> u128 { self.id }
    pub closed spec fn spec_payload(&self) -> String { self.payload }
    pub closed spec fn spec_meta(&self) -> InboxMessageMetadata { self.meta }
    pub closed spec fn spec_status(&self) -> i32 { self.status }
    pub closed spec fn spec_scheduled_at(&self) -> i64 { self.scheduled_at }
    pub closed spec fn spec_attempts(&self) -> i32 { self.attempts }
    pub closed spec fn spec_received_at(&self) -> i64 { self.received_at }
    pub closed spec fn spec_updated_at(&self) -> i64 { self.updated_at }

    /// The row stored for `message` received at `now` (see `lemma_written`).
    pub closed spec fn written(message: NewInboxMessageEnvelope, now: i64) -> NewInboxEntry {
        NewInboxEntry {
            id: message.meta.message_id,
            payload: message.msg.payload,
            meta: stored_metadata(message.meta),
            status: InboxStatus::Received.spec_code(),
            scheduled_at: now,
            attempts: 0,
            received_at: now,
            updated_at: now,
        }
    }

    /// The row stored for `message` received at `now`: received, never attempted, due now;
    /// it keeps the message id, payload and metadata.
    pub proof fn lemma_written(message: NewInboxMessageEnvelope, now: i64)
        ensures
            Self::written(message, now).spec_id() == message.meta.message_id,
            Self::written(message, now).spec_payload() == message.msg.payload,
            Self::written(message, now).spec_meta() == stored_metadata(message.meta),
            Self::written(message, now).spec_status() == InboxStatus::Received.spec_code(),
            Self::written(message, now).spec_scheduled_at() == now,
            Self::written(message, now).spec_attempts() == 0,
            Self::written(message, now).spec_received_at() == now,
            Self::written(message, now).spec_updated_at() == now,
    {
    }

    /// The row stored for `message` received at `now`.
    pub fn from_message_at(message: NewInboxMessageEnvelope, now: i64) -> (r: NewInboxEntry)
        ensures
            r == Self::written(message, now),
    {
        let id = *message.id();
        NewInboxEntry::new(
            id,
            message.msg.payload,
            InboxMessageMetadata::from(message.meta),
            InboxStatus::Received.code(),
            now,
            0,
            now,
            now,
        )
    }

    pub fn id(&self) -> (r: u128) ensures r == self.spec_id() { self.id }
    pub fn payload(&self) -> (r: &str) ensures r@ == self.spec_payload()@ { self.payload.as_str() }
    pub fn meta(&self) -> (r: &InboxMessageMetadata) ensures *r == self.spec_meta() { &self.meta }
    pub fn status(&self) -> (r: i32) ensures r == self.spec_status() { self.status }
    pub fn scheduled_at(&self) -> (r: i64) ensures r == self.spec_scheduled_at() { self.scheduled_at }
    pub fn attempts(&self) -> (r: i32) ensures r == self.spec_attempts() { self.attempts }
    pub fn received_at(&self) -> (r: i64) ensures r == self.spec_received_at() { self.received_at }
    pub fn updated_at(&self) -> (r: i64) ensures r == self.spec_updated_at() { self.updated_at }
}

impl From<NewInboxMessageEnvelope> for NewInboxEntry {
    /// The row stored for `message`, stamped with the current time.
    fn from(message: NewInboxMessageEnvelope) -> (r: NewInboxEntry)
        ensures
            exists|now: i64| r == NewInboxEntry::written(message, now),
    {
        NewInboxEntry::from_message_at(message, now_millis())
    }
}

impl FromSpecImpl<NewInboxMessageEnvelope> for NewInboxEntry {
    /// The row depends on the clock; `from_message_at` states it for a given time.
    open spec fn obeys_from_spec() -> bool {
        false
    }

    open spec fn from_spec(v: NewInboxMessageEnvelope) -> NewInboxEntry {
        arbitrary()
    }
}

/// A stored inbox row as it is read back.
#[derive(Debug, PartialEq, Eq)]
pub struct InboxEntry {
    id: u128,
    payload: String,
    meta: InboxMessageMetadata,
    status: i32,
    scheduled_at: i64,
    attempts: i32,
    reservation_id: Option<u128>,
    reserved_at: Option<i64>,
    received_at: i64,
    updated_at: i64,
    processed_at: Option<i64>,
}

impl InboxEntry {
    #[allow(clippy::too_many_arguments)]
    pub fn new(
        id: u128,
        payload: String,
        meta: InboxMessageMetadata,
        status: i32,
        scheduled_at: i64,
        attempts: i32,
        reservation_id: Option<u128>,
        reserved_at: Option<i64>,
        received_at: i64,
        updated_at: i64,
        processed_at: Option<i64>,
    ) -> (r: Self)
        ensures
            r.spec_id() == id,
            r.spec_payload() == payload,
            r.spec_meta() == meta,
            r.spec_status() == status,
            r.spec_scheduled_at() == scheduled_at,
            r.spec_attempts() == attempts,
            r.spec_reservation_id() == reservation_id,
            r.spec_reserved_at() == reserved_at,
            r.spec_received_at() == received_at,
            r.spec_updated_at() == updated_at,
            r.spec_processed_at() == processed_at,
    {
        Self {
            id,
            payload,
            meta,
            status,
            scheduled_at,
            attempts,
            reservation_id,
            reserved_at,
            received_at,
            updated_at,
            processed_at,
        }
    }

    pub closed spec fn spec_id(&self) -> u128 { self.id }
    pub closed spec fn spec_payload(&self) -> String { self.payload }
    pub closed spec fn spec_meta(&self) -> InboxMessageMetadata { self.meta }
    pub closed spec fn spec_status(&self) -> i32 { self.status }
    pub closed spec fn spec_scheduled_at(&self) -> i64 { self.scheduled_at }
    pub closed spec fn spec_attempts(&self) -> i32 { self.attempts }
    pub closed spec fn spec_reservation_id(&self) -> Option<u128> { self.reservation_id }
    pub closed spec fn spec_reserved_at(&self) -> Option<i64> { self.reserved_at }
    pub closed spec fn spec_received_at(&self) -> i64 { self.received_at }
    pub closed spec fn spec_updated_at(&self) -> i64 { self.updated_at }
    pub closed spec fn spec_processed_at(&self) -> Option<i64> { self.processed_at }

    pub fn id(&self) -> (r: u128) ensures r == self.spec_id() { self.id }
    pub fn payload(&self) -> (r: &str) ensures r@ == self.spec_payload()@ { self.payload.as_str() }
    pub fn meta(&self) -> (r: &InboxMessageMetadata) ensures *r == self.spec_meta() { &self.meta }
    pub fn status(&self) -> (r: i32) ensures r == self.spec_status() { self.status }
    pub fn scheduled_at(&self) -> (r: i64) ensures r == self.spec_scheduled_at() { self.scheduled_at }
    pub fn attempts(&self) -> (r: i32) ensures r == self.spec_attempts() { self.attempts }
    pub fn reservation_id(&self) -> (r: Option<u128>) ensures r == self.spec_reservation_id() { self.reservation_id }
    pub fn reserved_at(&self) -> (r: Option<i64>) ensures r == self.spec_reserved_at() { self.reserved_at }
    pub fn received_at(&self) -> (r: i64) ensures r == self.spec_received_at() { self.received_at }
    pub fn updated_at(&self) -> (r: i64) ensures r == self.spec_updated_at() { self.updated_at }
    pub fn processed_at(&self) -> (r: Option<i64>) ensures r == self.spec_processed_at() { self.processed_at }

    /// The message read from this row, when its status code names a status.
    pub open spec fn read(self) -> Option<InboxMessageEnvelope> {
        match InboxStatus::from_code(self.spec_status()) {
            Ok(status) => Some(InboxMessageEnvelope {
                msg: InboxMessage {
                    id: self.spec_id(),
                    payload: self.spec_payload(),
                    status,
                    scheduled_at: self.spec_scheduled_at(),
                    attempts: self.spec_attempts(),
                    reservation_id: self.spec_reservation_id(),
                    reserved_at: self.spec_reserved_at(),
                },
                meta: self.spec_meta(),
            }),
            Err(_) => None,
        }
    }
}

impl TryFrom<InboxEntry> for InboxMessageEnvelope {
    type Error = InboxError;

    /// The message read from a row; an unknown status code is a storage error.
    fn try_from(entry: InboxEntry) -> (r: Result<Self, Self::Error>)
        ensures
            r is Ok <==> InboxStatus::from_code(entry.spec_status()) is Ok,
            r matches Ok(envelope) ==> entry.read() == Some(envelope),
            r matches Err(e) ==> e matches InboxError::Storage(m)
                && m@ == "unknown inbox status: "@ + decimal(entry.spec_status() as int),
    {
        let status = match InboxStatus::try_from(entry.status) {
            Ok(status) => status,
            Err(_) => {
                return Err(InboxError::Storage(joined("unknown inbox status: ", i32_text(entry.status).as_str())));
            },
        };
        Ok(InboxMessageEnvelope {
            msg: InboxMessage {
                id: entry.id,
                payload: entry.payload,
                status,
                scheduled_at: entry.scheduled_at,
                attempts: entry.attempts,
                reservation_id: entry.reservation_id,
                reserved_at: entry.reserved_at,
            },
            meta: entry.meta,
        })
    }
}

impl TryFromSpecImpl<InboxEntry> for InboxMessageEnvelope {
    /// `try_from` states the result.
    open spec fn obeys_try_from_spec() -> bool {
        false
    }

    open spec fn try_from_spec(v: InboxEntry) -> Result<Self, Self::Error> {
        match v.read() {
            Some(envelope) => Ok(envelope),
            None => Err(arbitrary()),
        }
    }
}

/// A row that holds the columns written for `message` at `now`, and no reservation, reads
/// back as that message: received, never attempted, due at `now`, with the stored metadata.
pub proof fn law_recorded_message_reads_back(message: NewInboxMessageEnvelope, now: i64, row: InboxEntry)
    requires
        row.spec_id() == NewInboxEntry::written(message, now).spec_id(),
        row.spec_payload() == NewInboxEntry::written(message, now).spec_payload(),
        row.spec_meta() == NewInboxEntry::written(message, now).spec_meta(),
        row.spec_status() == NewInboxEntry::written(message, now).spec_status(),
        row.spec_scheduled_at() == NewInboxEntry::written(message, now).spec_scheduled_at(),
        row.spec_attempts() == NewInboxEntry::written(message, now).spec_attempts(),
        row.spec_reservation_id() is None,
    ensures
        row.read() == Some(InboxMessageEnvelope {
            msg: InboxMessage {
                id: message.meta.message_id,
                payload: message.msg.payload,
                status: InboxStatus::Received,
                scheduled_at: now,
                attempts: 0,
                reservation_id: None,
                reserved_at: row.spec_reserved_at(),
            },
            meta: stored_metadata(message.meta),
        }),
{
    NewInboxEntry::lemma_written(message, now);
    crate::inbox::status::lemma_inbox_status_code_round_trip(InboxStatus::Received, 0);
}

} // verus!
