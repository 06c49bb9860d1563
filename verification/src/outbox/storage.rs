//! What the outbox store computes: the rows it writes and reads, and its retry policy.

use vstd::prelude::*;
use vstd::std_specs::convert::{FromSpecImpl, TryFromSpecImpl};

use crate::lifecycle::{backoff_seconds, clock_ok, retry_delay_seconds, RetryPolicy, Stage};
use crate::outbox::application::{OutboxEntryEnvelope, OutboxError};
use crate::outbox::domain::{NewOutboxEntry, OutboxEntry, OutboxEntryMetadata, OutboxStatus, UnknownOutboxStatus};
use crate::outbox::sweep::StaleReservationSpec;
use crate::support::{cutoff_before, decimal, hyphenated, i32_text, joined, uuid_text, CLOCK_LIMIT};

verus! {

/// The outbox retry policy: a capped backoff; entries out of attempts are given up and
/// keep their schedule; the sweep gives up stale entries out of attempts.
pub fn outbox_retry_policy() -> (p: RetryPolicy)
    ensures
        p == (RetryPolicy { capped_backoff: true, reschedule_dead: false, sweep_gives_up: true, failure_counts_attempt: false }),
{
    RetryPolicy { capped_backoff: true, reschedule_dead: false, sweep_gives_up: true, failure_counts_attempt: false }
}

/// The outbox status of a lifecycle stage.
pub open spec fn status_of(stage: Stage) -> OutboxStatus {
    match stage {
        Stage::Received => OutboxStatus::Received,
        Stage::Reserved => OutboxStatus::Reserved,
        Stage::Failed => OutboxStatus::Failed,
        Stage::Completed => OutboxStatus::Completed,
        Stage::Dead => OutboxStatus::Dead,
        Stage::Archive => OutboxStatus::Archive,
    }
}

/// The cutoff bound into the sweep query at time `now`: reservations taken before
/// `now - timeout` are released.
pub fn sweep_cutoff_at(spec: &StaleReservationSpec, now: i64) -> (cutoff: i64)
    requires
        -CLOCK_LIMIT < now < CLOCK_LIMIT,
        -0x4000_0000_0000_0000 <= spec.timeout_ms <= 0x4000_0000_0000_0000,
    ensures
        cutoff == now - spec.timeout_ms,
{
    cutoff_before(now, spec.timeout_ms)
}

/// The outbox status of a lifecycle stage.
pub fn status_for(stage: Stage) -> (s: OutboxStatus)
    ensures
        s == status_of(stage),
{
    match stage {
        Stage::Received => OutboxStatus::Received,
        Stage::Reserved => OutboxStatus::Reserved,
        Stage::Failed => OutboxStatus::Failed,
        Stage::Completed => OutboxStatus::Completed,
        Stage::Dead => OutboxStatus::Dead,
        Stage::Archive => OutboxStatus::Archive,
    }
}

/// How a failure report updates an outbox entry reserved `attempts` times: its new status,
/// and its new schedule unless it keeps the old one.
pub fn failure_update(attempts: i32, max_attempts: i32, now: i64) -> (u: (OutboxStatus, Option<i64>))
    requires
        clock_ok(now),
    ensures
        (u.0 == OutboxStatus::Dead) == (attempts >= max_attempts),
        (u.0 == OutboxStatus::Failed) == (attempts < max_attempts),
        attempts >= max_attempts ==> u.1 is None,
        attempts < max_attempts ==> u.1 == Some((now + 1000 * backoff_seconds(attempts as int, true)) as i64),
{
    if attempts >= max_attempts {
        (OutboxStatus::Dead, None)
    } else {
        (OutboxStatus::Failed, Some(now + 1000 * retry_delay_seconds(attempts, true)))
    }
}

/// The error for an update asked of an entry that the reservation does not hold.
pub fn reservation_not_owned(id: u128, reservation_id: u128) -> (e: OutboxError)
    ensures
        e matches OutboxError::Reservation(m) && m@ == "outbox entry "@ + hyphenated(id)
            + " is not reserved by reservation "@ + hyphenated(reservation_id),
{
    let head = joined("outbox entry ", uuid_text(id).as_str());
    let middle = joined(head.as_str(), " is not reserved by reservation ");
    OutboxError::Reservation(joined(middle.as_str(), uuid_text(reservation_id).as_str()))
}

/// The row written for a new outbox entry.
#[derive(Debug, PartialEq)]
pub struct NewOutboxEntryRecord {
    id: u128,
    status: i32,
    payload: String,
    meta: OutboxEntryMetadata,
    scheduled_at: i64,
    attempts: i32,
    received_at: i64,
    updated_at: i64,
}

impl NewOutboxEntryRecord {
    pub fn new(
        id: u128,
        payload: String,
        meta: OutboxEntryMetadata,
        status: i32,
        scheduled_at: i64,
        attempts: i32,
        received_at: i64,
        updated_at: i64,
    ) -> (r: Self)
        ensures
            r.spec_id() == id,
            r.spec_status() == status,
            r.spec_payload() == payload,
            r.spec_meta() == meta,
            r.spec_scheduled_at() == scheduled_at,
            r.spec_attempts() == attempts,
            r.spec_received_at() == received_at,
            r.spec_updated_at() == updated_at,
    {
        Self { id, status, payload, meta, scheduled_at, attempts, received_at, updated_at }
    }

    pub closed spec fn spec_id(&self) -> u128 { self.id }
    pub closed spec fn spec_status(&self) -> i32 { self.status }
    pub closed spec fn spec_payload(&self) -> String { self.payload }
    pub closed spec fn spec_meta(&self) -> OutboxEntryMetadata { self.meta }
    pub closed spec fn spec_scheduled_at(&self) -> i64 { self.scheduled_at }
    pub closed spec fn spec_attempts(&self) -> i32 { self.attempts }
    pub closed spec fn spec_received_at(&self) -> i64 { self.received_at }
    pub closed spec fn spec_updated_at(&self) -> i64 { self.updated_at }

    pub fn id(&self) -> (r: u128) ensures r == self.spec_id() { self.id }
    pub fn status(&self) -> (r: i32) ensures r == self.spec_status() { self.status }
    pub fn payload(&self) -> (r: &str) ensures r@ == self.spec_payload()@ { self.payload.as_str() }
    pub fn meta(&self) -> (r: &OutboxEntryMetadata) ensures *r == self.spec_meta() { &self.meta }
    pub fn scheduled_at(&self) -> (r: i64) ensures r == self.spec_scheduled_at() { self.scheduled_at }
    pub fn attempts(&self) -> (r: i32) ensures r == self.spec_attempts() { self.attempts }
    pub fn received_at(&self) -> (r: i64) ensures r == self.spec_received_at() { self.received_at }
    pub fn updated_at(&self) -> (r: i64) ensures r == self.spec_updated_at() { self.updated_at }
}

/// The row for a new entry (see `lemma_new_record_of`).
pub closed spec fn new_record_of(entry: NewOutboxEntry) -> NewOutboxEntryRecord {
    NewOutboxEntryRecord {
        id: entry.id,
        status: OutboxStatus::Received.spec_code(),
        payload: entry.payload,
        meta: entry.meta,
        scheduled_at: entry.scheduled_at,
        attempts: 0,
        received_at: entry.received_at,
        updated_at: entry.received_at,
    }
}

/// The row for a new entry is received, never attempted, and last updated when received;
/// it keeps the entry's identifier, payload, metadata and times.
pub proof fn lemma_new_record_of(entry: NewOutboxEntry)
    ensures
        new_record_of(entry).spec_id() == entry.id,
        new_record_of(entry).spec_status() == OutboxStatus::Received.spec_code(),
        new_record_of(entry).spec_payload() == entry.payload,
        new_record_of(entry).spec_meta() == entry.meta,
        new_record_of(entry).spec_scheduled_at() == entry.scheduled_at,
        new_record_of(entry).spec_attempts() == 0,
        new_record_of(entry).spec_received_at() == entry.received_at,
        new_record_of(entry).spec_updated_at() == entry.received_at,
{
}

impl<'a> From<&'a NewOutboxEntry> for NewOutboxEntryRecord {
    fn from(entry: &'a NewOutboxEntry) -> (r: Self) {
        NewOutboxEntryRecord::new(
            entry.id,
            entry.payload.clone(),
            entry.meta.clone(),
            OutboxStatus::Received.code(),
            entry.scheduled_at,
            0,
            entry.received_at,
            entry.received_at,
        )
    }
}

impl<'a> FromSpecImpl<&'a NewOutboxEntry> for NewOutboxEntryRecord {
    open spec fn obeys_from_spec() -> bool {
        true
    }

    open spec fn from_spec(v: &'a NewOutboxEntry) -> NewOutboxEntryRecord {
        new_record_of(*v)
    }
}

/// A stored outbox row as it is read back.
#[derive(Debug)]
pub struct OutboxEntryRecord {
    id: u128,
    status: i32,
    payload: String,
    meta: OutboxEntryMetadata,
    scheduled_at: i64,
    attempts: i32,
    reservation_id: Option<u128>,
    reserved_at: Option<i64>,
    received_at: i64,
    updated_at: i64,
    processed_at: Option<i64>,
    last_error: Option<String>,
}

impl OutboxEntryRecord {
    #[allow(clippy::too_many_arguments)]
    pub fn new(
        id: u128,
        status: i32,
        payload: String,
        meta: OutboxEntryMetadata,
        scheduled_at: i64,
        attempts: i32,
        reservation_id: Option<u128>,
        reserved_at: Option<i64>,
        received_at: i64,
        updated_at: i64,
        processed_at: Option<i64>,
        last_error: Option<String>,
    ) -> (r: Self)
        ensures
            r.spec_id() == id,
            r.spec_status() == status,
            r.spec_payload() == payload,
            r.spec_meta() == meta,
            r.spec_scheduled_at() == scheduled_at,
            r.spec_attempts() == attempts,
            r.spec_reservation_id() == reservation_id,
            r.spec_reserved_at() == reserved_at,
            r.spec_received_at() == received_at,
            r.spec_updated_at() == updated_at,
            r.spec_processed_at() == processed_at,
            r.spec_last_error() == last_error,
    {
        Self {
            id,
            status,
            payload,
            meta,
            scheduled_at,
            attempts,
            reservation_id,
            reserved_at,
            received_at,
            updated_at,
            processed_at,
            last_error,
        }
    }

    pub closed spec fn spec_id(&self) -> u128 { self.id }
    pub closed spec fn spec_status(&self) -> i32 { self.status }
    pub closed spec fn spec_payload(&self) -> String { self.payload }
    pub closed spec fn spec_meta(&self) -> OutboxEntryMetadata { self.meta }
    pub closed spec fn spec_scheduled_at(&self) -> i64 { self.scheduled_at }
    pub closed spec fn spec_attempts(&self) -> i32 { self.attempts }
    pub closed spec fn spec_reservation_id(&self) -> Option<u128> { self.reservation_id }
    pub closed spec fn spec_reserved_at(&self) -> Option<i64> { self.reserved_at }
    pub closed spec fn spec_received_at(&self) -> i64 { self.received_at }
    pub closed spec fn spec_updated_at(&self) -> i64 { self.updated_at }
    pub closed spec fn spec_processed_at(&self) -> Option<i64> { self.processed_at }
    pub closed spec fn spec_last_error(&self) -> Option<String> { self.last_error }

    pub fn id(&self) -> (r: u128) ensures r == self.spec_id() { self.id }
    pub fn status(&self) -> (r: i32) ensures r == self.spec_status() { self.status }
    pub fn payload(&self) -> (r: &str) ensures r@ == self.spec_payload()@ { self.payload.as_str() }
    pub fn meta(&self) -> (r: &OutboxEntryMetadata) ensures *r == self.spec_meta() { &self.meta }
    pub fn scheduled_at(&self) -> (r: i64) ensures r == self.spec_scheduled_at() { self.scheduled_at }
    pub fn attempts(&self) -> (r: i32) ensures r == self.spec_attempts() { self.attempts }
    pub fn reservation_id(&self) -> (r: Option<u128>) ensures r == self.spec_reservation_id() { self.reservation_id }
    pub fn reserved_at(&self) -> (r: Option<i64>) ensures r == self.spec_reserved_at() { self.reserved_at }
    pub fn received_at(&self) -> (r: i64) ensures r == self.spec_received_at() { self.received_at }
    pub fn updated_at(&self) -> (r: i64) ensures r == self.spec_updated_at() { self.updated_at }
    pub fn processed_at(&self) -> (r: Option<i64>) ensures r == self.spec_processed_at() { self.processed_at }
    pub fn last_error(&self) -> (r: Option<&str>)
        ensures
            r is Some == self.spec_last_error() is Some,
            r matches Some(t) ==> t@ == self.spec_last_error()->0@,
    {
        match &self.last_error {
            Some(e) => Some(e.as_str()),
            None => None,
        }
    }

    /// The entry read from this row, or a storage error naming an unknown status code.
    pub fn into_envelope(self) -> (r: Result<OutboxEntryEnvelope, OutboxError>)
        ensures
            OutboxStatus::from_code(self.spec_status()) is Ok <==> r is Ok,
            r matches Err(e) ==> e matches OutboxError::Storage(m) && m@ == "unknown outbox status: "@ + decimal(self.spec_status() as int),
            r matches Ok(env) ==> env.message == (OutboxEntry {
                id: self.spec_id(),
                status: OutboxStatus::from_code(self.spec_status())->Ok_0,
                payload: self.spec_payload(),
                meta: self.spec_meta(),
                scheduled_at: self.spec_scheduled_at(),
                attempts: self.spec_attempts(),
                reservation_id: self.spec_reservation_id(),
                reserved_at: self.spec_reserved_at(),
                received_at: self.spec_received_at(),
                updated_at: self.spec_updated_at(),
                processed_at: self.spec_processed_at(),
                last_error: self.spec_last_error(),
                extra_info: None,
            }) && env.metadata == self.spec_meta(),
    {
        let status = match OutboxStatus::try_from(self.status) {
            Ok(status) => status,
            Err(_) => {
                return Err(OutboxError::Storage(joined("unknown outbox status: ", i32_text(self.status).as_str())));
            },
        };
        let metadata = self.meta.clone();
        Ok(OutboxEntryEnvelope {
            message: OutboxEntry {
                id: self.id,
                status,
                payload: self.payload,
                meta: self.meta,
                scheduled_at: self.scheduled_at,
                attempts: self.attempts,
                reservation_id: self.reservation_id,
                reserved_at: self.reserved_at,
                received_at: self.received_at,
                updated_at: self.updated_at,
                processed_at: self.processed_at,
                last_error: self.last_error,
                extra_info: None,
            },
            metadata,
        })
    }
}

impl TryFrom<OutboxEntryRecord> for OutboxEntryEnvelope {
    type Error = OutboxError;

    fn try_from(record: OutboxEntryRecord) -> (r: Result<Self, Self::Error>)
        ensures
            OutboxStatus::from_code(record.spec_status()) is Ok <==> r is Ok,
            r matches Err(e) ==> e matches OutboxError::Storage(m) && m@ == "unknown outbox status: "@ + decimal(record.spec_status() as int),
            r matches Ok(env) ==> env.message == (OutboxEntry {
                id: record.spec_id(),
                status: OutboxStatus::from_code(record.spec_status())->Ok_0,
                payload: record.spec_payload(),
                meta: record.spec_meta(),
                scheduled_at: record.spec_scheduled_at(),
                attempts: record.spec_attempts(),
                reservation_id: record.spec_reservation_id(),
                reserved_at: record.spec_reserved_at(),
                received_at: record.spec_received_at(),
                updated_at: record.spec_updated_at(),
                processed_at: record.spec_processed_at(),
                last_error: record.spec_last_error(),
                extra_info: None,
            }) && env.metadata == record.spec_meta(),
    {
        record.into_envelope()
    }
}

impl TryFromSpecImpl<OutboxEntryRecord> for OutboxEntryEnvelope {
    /// `OutboxEntryRecord::into_envelope` states the result.
    open spec fn obeys_try_from_spec() -> bool {
        false
    }

    open spec fn try_from_spec(v: OutboxEntryRecord) -> Result<Self, Self::Error> {
        Err(arbitrary())
    }
}

/// A row read back with the columns written for `entry` names a known status, received,
/// and gives back the entry's identifier, payload, metadata and schedule, never attempted;
/// `OutboxEntryRecord::into_envelope` therefore reads it as that entry.
pub proof fn law_recorded_entry_reads_back(entry: NewOutboxEntry, row: OutboxEntryRecord)
    requires
        row.spec_id() == new_record_of(entry).spec_id(),
        row.spec_status() == new_record_of(entry).spec_status(),
        row.spec_payload() == new_record_of(entry).spec_payload(),
        row.spec_meta() == new_record_of(entry).spec_meta(),
        row.spec_scheduled_at() == new_record_of(entry).spec_scheduled_at(),
        row.spec_attempts() == new_record_of(entry).spec_attempts(),
    ensures
        OutboxStatus::from_code(row.spec_status()) == Ok::<OutboxStatus, UnknownOutboxStatus>(OutboxStatus::Received),
        row.spec_id() == entry.id,
        row.spec_payload() == entry.payload,
        row.spec_meta() == entry.meta,
        row.spec_scheduled_at() == entry.scheduled_at,
        row.spec_attempts() == 0,
{
    lemma_new_record_of(entry);
}

} // verus!
