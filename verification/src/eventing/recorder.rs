//! Recording events for later delivery.

use std::sync::Arc;
use vstd::prelude::*;

use crate::eventing::application::{EventError, EventStorePort, NewEventEnvelope};

verus! {

/// The store port used by the recorder.
pub struct EventRecorderRepository<S: EventStorePort + ?Sized = dyn EventStorePort> {
    store: Arc<S>,
}

impl<S: EventStorePort + ?Sized> EventRecorderRepository<S> {
    pub closed spec fn spec_store(&self) -> Arc<S> {
        self.store
    }

    pub fn new(store: Arc<S>) -> (r: Self)
        ensures
            r.spec_store() == store,
    {
        Self { store }
    }

    pub(crate) fn insert(&self, envelope: &NewEventEnvelope) -> (r: Result<(), EventError>)
        ensures
            self.spec_store().record_returns(*envelope, r),
    {
        self.store.record(envelope)
    }
}

/// Records new events.
pub struct EventRecorder<S: EventStorePort + ?Sized = dyn EventStorePort> {
    repo: Arc<EventRecorderRepository<S>>,
}

impl<S: EventStorePort + ?Sized> EventRecorder<S> {
    pub closed spec fn spec_repo(&self) -> Arc<EventRecorderRepository<S>> {
        self.repo
    }

    pub fn new(repo: Arc<EventRecorderRepository<S>>) -> (r: Self)
        ensures
            r.spec_repo() == repo,
    {
        Self { repo }
    }

    /// Hands `envelope` to the store and returns its answer.
    pub fn record(&self, envelope: &NewEventEnvelope) -> (r: Result<(), EventError>)
        ensures
            self.spec_repo().spec_store().record_returns(*envelope, r),
    {
        self.repo.insert(envelope)
    }
}

} // verus!
