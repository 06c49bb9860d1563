//! Recording events in the outbox.

use std::sync::Arc;
use vstd::prelude::*;

use crate::outbox::application::{entry_for, routable, NewOutboxEnvelope, OutboxError, OutboxStorePort};
use crate::outbox::domain::NewOutboxEntry;
use crate::support::{blank, is_blank, owned, CLOCK_LIMIT};

verus! {

/// The store port used by the recorder.
pub struct OutboxRecorderRepository<S: OutboxStorePort + ?Sized = dyn OutboxStorePort> {
    store: Arc<S>,
}

impl<S: OutboxStorePort + ?Sized> OutboxRecorderRepository<S> {
    pub closed spec fn spec_store(&self) -> Arc<S> {
        self.store
    }

    pub fn new(store: Arc<S>) -> (r: Self)
        ensures
            r.spec_store() == store,
    {
        Self { store }
    }

    /// Stores `entry` through the port.
    pub(crate) fn insert(&self, entry: &NewOutboxEntry) -> (r: Result<(), OutboxError>)
        requires
            routable(entry.meta),
            entry.id == entry.meta.event_id,
        ensures
            self.spec_store().record_returns(*entry, r),
    {
        self.store.record(entry)
    }
}

/// Checks that an envelope names a routing key.
fn validate_routing_key(envelope: &NewOutboxEnvelope) -> (r: Result<(), OutboxError>)
    ensures
        r is Ok <==> !blank(envelope.metadata.routing_key@),
        r matches Err(e) ==> e matches OutboxError::Routing(m) && m@ == "routing_key is required"@,
{
    if is_blank(envelope.metadata.routing_key.as_str()) {
        return Err(OutboxError::Routing(owned("routing_key is required")));
    }
    Ok(())
}

/// Records new events for later publication.
pub struct OutboxRecorder<S: OutboxStorePort + ?Sized = dyn OutboxStorePort> {
    repo: Arc<OutboxRecorderRepository<S>>,
}

impl<S: OutboxStorePort + ?Sized> OutboxRecorder<S> {
    pub closed spec fn spec_repo(&self) -> Arc<OutboxRecorderRepository<S>> {
        self.repo
    }

    pub fn new(repo: Arc<OutboxRecorderRepository<S>>) -> (r: Self)
        ensures
            r.spec_repo() == repo,
    {
        Self { repo }
    }

    /// Stores the entry for `envelope`, stamped with the current time.
    ///
    /// An envelope with a blank routing key is refused before anything is stored; any
    /// other is handed to the store (with its event id as entry id) and the store's answer
    /// is returned.
    pub fn record(&self, envelope: &NewOutboxEnvelope) -> (r: Result<(), OutboxError>)
        ensures
            blank(envelope.metadata.routing_key@) ==> (r matches Err(e) && e matches OutboxError::Routing(m)
                && m@ == "routing_key is required"@),
            !blank(envelope.metadata.routing_key@) ==> exists|now: i64|
                -CLOCK_LIMIT < now < CLOCK_LIMIT
                    && #[trigger] self.spec_repo().spec_store().record_returns(entry_for(*envelope, now), r),
    {
        validate_routing_key(envelope)?;
        let now = crate::support::now_millis();
        let entry = NewOutboxEntry::from_envelope_at(envelope, now);
        let r = self.repo.insert(&entry);
        assert(self.spec_repo().spec_store().record_returns(entry_for(*envelope, now), r));
        r
    }
}

} // verus!
