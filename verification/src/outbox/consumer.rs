//! Publishing reserved outbox entries and recording each outcome.

use std::sync::Arc;
use vstd::prelude::*;

use crate::outbox::application::{
    routable, OutboundMessageEnvelope, OutboxEntryEnvelope, OutboxError, OutboxProcessPort,
    OutboxPublisherPort, OutboxReservePort,
};
use crate::support::{joined_errors, lemma_joined_errors_push, owned, reason_text, recorded_errors};

verus! {

/// Which entries to claim for publication.
#[derive(Clone, Debug, Eq, PartialEq)]
pub struct ReservableOutboxSpec {
    /// Largest number of entries claimed at once.
    pub limit: usize,
    /// Entries with `attempts >= max_attempts` are not claimed.
    pub max_attempts: i32,
}

impl ReservableOutboxSpec {
    /// Attempt limit used unless another is given.
    pub const DEFAULT_MAX_ATTEMPTS: i32 = 6;

    /// A spec with the given limit and the default attempt limit.
    pub fn new(limit: usize) -> (r: Self)
        ensures
            r.limit == limit,
            r.max_attempts == Self::DEFAULT_MAX_ATTEMPTS,
    {
        Self { limit, max_attempts: Self::DEFAULT_MAX_ATTEMPTS }
    }

    /// The same spec with another attempt limit.
    pub fn with_max_attempts(self, max_attempts: i32) -> (r: Self)
        ensures
            r.limit == self.limit,
            r.max_attempts == max_attempts,
    {
        Self { max_attempts, ..self }
    }
}

/// The reservation and outcome ports used by the consumer.
pub struct OutboxConsumerRepository<
    R: OutboxReservePort + ?Sized = dyn OutboxReservePort,
    P: OutboxProcessPort + ?Sized = dyn OutboxProcessPort,
> {
    reserve: Arc<R>,
    process: Arc<P>,
}

impl<R: OutboxReservePort + ?Sized, P: OutboxProcessPort + ?Sized> Clone for OutboxConsumerRepository<R, P> {
    fn clone(&self) -> (r: Self)
        ensures
            r == *self,
    {
        Self { reserve: Arc::clone(&self.reserve), process: Arc::clone(&self.process) }
    }
}

impl<R: OutboxReservePort + ?Sized, P: OutboxProcessPort + ?Sized> OutboxConsumerRepository<R, P> {
    pub closed spec fn spec_reserve(&self) -> Arc<R> {
        self.reserve
    }

    pub closed spec fn spec_process(&self) -> Arc<P> {
        self.process
    }

    pub fn new(reserve: Arc<R>, process: Arc<P>) -> (r: Self)
        ensures
            r.spec_reserve() == reserve,
            r.spec_process() == process,
    {
        Self { reserve, process }
    }

    /// Claims the entries that `spec` selects.
    pub fn reserve(&self, spec: &ReservableOutboxSpec) -> (r: Result<Vec<OutboxEntryEnvelope>, OutboxError>)
        ensures
            self.spec_reserve().reserve_returns(*spec, r),
    {
        self.reserve.reserve(spec)
    }

    /// Marks a reserved entry as published.
    pub fn completed(&self, id: u128, reservation_id: u128) -> (r: Result<(), OutboxError>)
        ensures
            self.spec_process().completed_returns(id, reservation_id, r),
    {
        self.process.completed(id, reservation_id)
    }

    /// Marks a reserved entry as failed, to be retried while attempts remain.
    pub fn failed(
        &self,
        id: u128,
        reservation_id: u128,
        max_attempts: i32,
        reason: Option<String>,
    ) -> (r: Result<(), OutboxError>)
        ensures
            self.spec_process().failed_returns(id, reservation_id, max_attempts, reason_text(reason), r),
    {
        self.process.failed(id, reservation_id, max_attempts, reason)
    }

    /// Gives a reserved entry up.
    pub fn dead(&self, id: u128, reservation_id: u128, reason: Option<String>) -> (r: Result<(), OutboxError>)
        ensures
            self.spec_process().dead_returns(id, reservation_id, reason_text(reason), r),
    {
        self.process.dead(id, reservation_id, reason)
    }
}

/// An entry can be published when it holds a reservation and a routing key.
pub open spec fn deliverable(entry: OutboxEntryEnvelope) -> bool {
    entry.message.reservation_id is Some && routable(entry.metadata)
}

/// The error reported for an entry that cannot be published.
pub open spec fn reports(error: OutboxError, entry: OutboxEntryEnvelope) -> bool {
    match entry.message.reservation_id {
        None => error == OutboxError::MissingReservation { id: entry.message.id },
        Some(_) => error matches OutboxError::Conversion(m) && m@ == "missing routing_key"@,
    }
}

/// `errors` holds the error reported for `entry`.
pub open spec fn reported(errors: Seq<OutboxError>, entry: OutboxEntryEnvelope) -> bool {
    exists|k: int| 0 <= k < errors.len() && #[trigger] reports(errors[k], entry)
}

proof fn lemma_reported_grows(a: Seq<OutboxError>, b: Seq<OutboxError>, entry: OutboxEntryEnvelope)
    requires
        a.len() <= b.len(),
        b.subrange(0, a.len() as int) == a,
        reported(a, entry),
    ensures
        reported(b, entry),
{
    let k = choose|k: int| 0 <= k < a.len() && #[trigger] reports(a[k], entry);
    assert(b[k] == b.subrange(0, a.len() as int)[k]);
    assert(reports(b[k], entry));
}

/// What the consumer does with one reserved entry.
pub enum EntryPlan {
    /// The entry holds no reservation: report it and touch nothing.
    Skip(OutboxError),
    /// The entry cannot become a broker message: give it up with the error's text as reason.
    Reject { id: u128, reservation_id: u128, error: OutboxError },
    /// Publish the message, then record the outcome.
    Publish { id: u128, reservation_id: u128, outbound: OutboundMessageEnvelope },
}

/// Decides what to do with one reserved entry.
pub fn plan_entry(entry: &OutboxEntryEnvelope) -> (p: EntryPlan)
    ensures
        (entry.message.reservation_id is None) == (p is Skip),
        (p is Publish) == deliverable(*entry),
        (p matches EntryPlan::Skip(e) ==> e == (OutboxError::MissingReservation { id: entry.message.id })),
        (p matches EntryPlan::Reject { id, reservation_id, error } ==> id == entry.message.id
            && entry.message.reservation_id == Some(reservation_id) && reports(error, *entry)),
        (p matches EntryPlan::Publish { id, reservation_id, outbound } ==> id == entry.message.id
            && entry.message.reservation_id == Some(reservation_id)
            && outbound.payload@ == vstd::utf8::encode_utf8(entry.message.payload@)
            && outbound.metadata == entry.metadata),
{
    let id = entry.message.id;
    match entry.message.reservation_id {
        None => EntryPlan::Skip(OutboxError::MissingReservation { id }),
        Some(reservation_id) => match OutboundMessageEnvelope::from_entry(entry) {
            Ok(outbound) => EntryPlan::Publish { id, reservation_id, outbound },
            Err(error) => EntryPlan::Reject { id, reservation_id, error },
        },
    }
}

/// `r` reports a batch of `count` entries that left `errors`: the count when there are none,
/// else all of them.
pub open spec fn reports_batch(count: nat, errors: Seq<OutboxError>, r: Result<usize, Vec<OutboxError>>) -> bool {
    match r {
        Ok(n) => errors.len() == 0 && n == count,
        Err(v) => errors.len() > 0 && v@ == errors,
    }
}

/// The batch result: the entry count when nothing went wrong, else every error.
fn finish_batch(count: usize, errors: Vec<OutboxError>) -> (r: Result<usize, Vec<OutboxError>>)
    ensures
        errors.len() == 0 ==> r == Ok::<usize, Vec<OutboxError>>(count),
        errors.len() > 0 ==> r == Err::<usize, Vec<OutboxError>>(errors),
        reports_batch(count as nat, errors@, r),
{
    if errors.len() == 0 {
        Ok(count)
    } else {
        Err(errors)
    }
}

/// Publishes reserved outbox entries through a publisher port.
pub struct OutboxConsumer<
    R: OutboxReservePort + ?Sized = dyn OutboxReservePort,
    P: OutboxProcessPort + ?Sized = dyn OutboxProcessPort,
    B: OutboxPublisherPort + ?Sized = dyn OutboxPublisherPort,
> {
    repository: OutboxConsumerRepository<R, P>,
    publisher: Arc<B>,
}

impl<R: OutboxReservePort + ?Sized, P: OutboxProcessPort + ?Sized, B: OutboxPublisherPort + ?Sized> OutboxConsumer<R, P, B> {
    pub closed spec fn spec_repository(&self) -> OutboxConsumerRepository<R, P> {
        self.repository
    }

    pub closed spec fn spec_publisher(&self) -> Arc<B> {
        self.publisher
    }

    pub fn new(repository: OutboxConsumerRepository<R, P>, publisher: Arc<B>) -> (r: Self)
        ensures
            r.spec_repository() == repository,
            r.spec_publisher() == publisher,
    {
        Self { repository, publisher }
    }

    /// Publishing the reserved `entry` may leave `errors` behind. An entry without
    /// reservation leaves its report alone. One without routing key is given up with its
    /// conversion error's text as reason, and leaves the recording's error, if any, then the
    /// conversion error. Any other is handed to the publisher as a broker message (its
    /// payload's UTF-8 bytes and its metadata): when that succeeds the entry is marked
    /// completed and leaves the recording's error, if any; else it is marked failed with the
    /// publisher's error text as reason, and leaves the recording's error, if any, then the
    /// publisher's error.
    pub open spec fn entry_returns(&self, spec: ReservableOutboxSpec, entry: OutboxEntryEnvelope, errors: Seq<OutboxError>) -> bool {
        let id = entry.message.id;
        match entry.message.reservation_id {
            None => errors == seq![OutboxError::MissingReservation { id }],
            Some(reservation_id) => if !routable(entry.metadata) {
                exists|recorded: Result<(), OutboxError>|
                    #[trigger] self.spec_repository().spec_process().dead_returns(
                        id,
                        reservation_id,
                        Some(errors.last().text()),
                        recorded,
                    ) && errors == recorded_errors(recorded).push(errors.last()) && reports(errors.last(), entry)
            } else {
                exists|outbound: OutboundMessageEnvelope, published: Result<(), OutboxError>|
                    outbound.payload@ == vstd::utf8::encode_utf8(entry.message.payload@)
                        && outbound.metadata == entry.metadata
                        && #[trigger] self.spec_publisher().publish_returns(outbound, published)
                        && exists|recorded: Result<(), OutboxError>|
                            #![trigger recorded_errors(recorded)]
                            match published {
                                Ok(_) => self.spec_repository().spec_process().completed_returns(id, reservation_id, recorded)
                                    && errors == recorded_errors(recorded),
                                Err(e) => self.spec_repository().spec_process().failed_returns(
                                    id,
                                    reservation_id,
                                    spec.max_attempts,
                                    Some(e.text()),
                                    recorded,
                                ) && errors == recorded_errors(recorded).push(e),
                            }
            },
        }
    }

    /// Publishing `entries` one after another may end in `r`: some outcome of each entry,
    /// and `r` reports the entry count, or all errors these outcomes leave, in order.
    pub open spec fn entries_returns(&self, spec: ReservableOutboxSpec, entries: Seq<OutboxEntryEnvelope>, r: Result<usize, Vec<OutboxError>>) -> bool {
        exists|parts: Seq<Seq<OutboxError>>|
            #![trigger joined_errors(parts)]
            parts.len() == entries.len()
            && (forall|i: int| 0 <= i < entries.len() ==> #[trigger] self.entry_returns(spec, entries[i], parts[i]))
            && reports_batch(entries.len(), joined_errors(parts), r)
    }

    /// Publishing with `spec` may end in `r`: the reservation's failure alone, or the outcome
    /// of publishing the reserved entries.
    pub open spec fn batch_returns(&self, spec: ReservableOutboxSpec, r: Result<usize, Vec<OutboxError>>) -> bool {
        exists|reserved: Result<Vec<OutboxEntryEnvelope>, OutboxError>|
            #[trigger] self.spec_repository().spec_reserve().reserve_returns(spec, reserved) && match reserved {
                Err(e) => r matches Err(v) && v@ == seq![e],
                Ok(entries) => self.entries_returns(spec, entries@, r),
            }
    }

    /// Claims the entries `spec` selects and publishes each of them.
    ///
    /// Returns the number of claimed entries when every step succeeded, else all errors.
    pub fn publish_batch(&self, spec: &ReservableOutboxSpec) -> (r: Result<usize, Vec<OutboxError>>)
        ensures
            r matches Err(errors) ==> errors.len() >= 1,
            self.batch_returns(*spec, r),
    {
        let reserved = self.repository.reserve(spec);
        assert(self.spec_repository().spec_reserve().reserve_returns(*spec, reserved));
        let entries = match reserved {
            Ok(entries) => entries,
            Err(e) => {
                let r = vec![e];
                assert(r@ =~= seq![e]);
                return Err(r);
            },
        };
        self.publish_entries(spec, entries)
    }

    /// Publishes already claimed entries, one after another, collecting per-entry errors.
    ///
    /// An entry without reservation is reported and left alone; one without routing key is
    /// given up (`dead`); every other entry is published and then marked `completed`, or
    /// `failed` with the publisher's error text when publication fails.
    pub fn publish_entries(
        &self,
        spec: &ReservableOutboxSpec,
        entries: Vec<OutboxEntryEnvelope>,
    ) -> (r: Result<usize, Vec<OutboxError>>)
        ensures
            r matches Ok(n) ==> n == entries.len() && forall|j: int|
                0 <= j < entries.len() ==> #[trigger] deliverable(entries@[j]),
            r matches Err(errors) ==> 1 <= errors.len() <= 2 * entries.len(),
            r matches Err(errors) ==> forall|j: int|
                0 <= j < entries.len() && !#[trigger] deliverable(entries@[j]) ==> reported(
                    errors@,
                    entries@[j],
                ),
            self.entries_returns(*spec, entries@, r),
    {
        let count = entries.len();
        let mut errors: Vec<OutboxError> = Vec::new();
        let ghost mut parts: Seq<Seq<OutboxError>> = Seq::empty();
        let mut i: usize = 0;
        while i < count
            invariant
                count == entries.len(),
                i <= count,
                errors.len() <= 2 * i,
                forall|j: int| 0 <= j < i && !#[trigger] deliverable(entries@[j]) ==> reported(errors@, entries@[j]),
                (exists|j: int| 0 <= j < i && !#[trigger] deliverable(entries@[j])) ==> errors.len() > 0,
                parts.len() == i,
                errors@ == joined_errors(parts),
                forall|j: int| 0 <= j < i ==> #[trigger] self.entry_returns(*spec, entries@[j], parts[j]),
            decreases count - i,
        {
            let ghost before = errors@;
            let entry = &entries[i];
            let plan = plan_entry(entry);
            match plan {
                EntryPlan::Skip(error) => {
                    errors.push(error);
                    proof {
                        let added = errors@.subrange(before.len() as int, errors.len() as int);
                        assert(added =~= seq![error]);
                        assert(self.entry_returns(*spec, *entry, added));
                    }
                },
                EntryPlan::Reject { id, reservation_id, error } => {
                    let reason = error.message();
                    let recorded = self.repository.dead(id, reservation_id, Some(reason));
                    match recorded {
                        Ok(_) => {},
                        Err(err) => errors.push(err),
                    }
                    errors.push(error);
                    proof {
                        let added = errors@.subrange(before.len() as int, errors.len() as int);
                        assert(added =~= recorded_errors(recorded).push(error));
                        assert(entry.message.reservation_id->0 == reservation_id);
                        assert(self.spec_repository().spec_process().dead_returns(id, reservation_id, Some(added.last().text()), recorded));
                        assert(self.entry_returns(*spec, *entry, added));
                    }
                },
                EntryPlan::Publish { id, reservation_id, outbound } => {
                    let ghost sent = outbound;
                    let published = self.publisher.publish(outbound);
                    proof {
                        assert(self.spec_publisher().publish_returns(sent, published));
                    }
                    match published {
                        Ok(_) => {
                            let recorded = self.repository.completed(id, reservation_id);
                            match recorded {
                                Ok(_) => {},
                                Err(err) => errors.push(err),
                            }
                            proof {
                                let added = errors@.subrange(before.len() as int, errors.len() as int);
                                assert(added =~= recorded_errors(recorded));
                                assert(entry.message.reservation_id->0 == reservation_id);
                                assert(self.entry_returns(*spec, *entry, added));
                            }
                        },
                        Err(error) => {
                            let reason = error.message();
                            let recorded = self.repository.failed(id, reservation_id, spec.max_attempts, Some(reason));
                            match recorded {
                                Ok(_) => {},
                                Err(err) => errors.push(err),
                            }
                            errors.push(error);
                            proof {
                                let added = errors@.subrange(before.len() as int, errors.len() as int);
                                assert(added =~= recorded_errors(recorded).push(error));
                                assert(entry.message.reservation_id->0 == reservation_id);
                                assert(self.entry_returns(*spec, *entry, added));
                            }
                        },
                    }
                },
            }
            proof {
                let added = errors@.subrange(before.len() as int, errors.len() as int);
                assert(errors@ =~= before + added);
                assert(self.entry_returns(*spec, entries@[i as int], added));
                lemma_joined_errors_push(parts, added);
                parts = parts.push(added);
            }
            proof {
                assert(errors@.subrange(0, before.len() as int) =~= before);
                assert forall|j: int| 0 <= j < i + 1 && !#[trigger] deliverable(entries@[j]) implies reported(errors@, entries@[j]) by {
                    if j < i {
                        lemma_reported_grows(before, errors@, entries@[j]);
                    } else {
                        assert(reports(errors@[errors.len() - 1], entries@[j]));
                    }
                }
            }
            i = i + 1;
        }
        finish_batch(count, errors)
    }
}

} // verus!
