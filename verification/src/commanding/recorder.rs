//! Recording commands for later handling.

use std::sync::Arc;
use vstd::prelude::*;

use crate::commanding::application::{CommandError, CommandStorePort, NewCommandEnvelope};

verus! {

/// The store port used by the recorder.
pub struct CommandRecorderRepository<S: CommandStorePort + ?Sized = dyn CommandStorePort> {
    store: Arc<S>,
}

impl<S: CommandStorePort + ?Sized> CommandRecorderRepository<S> {
    pub closed spec fn spec_store(&self) -> Arc<S> {
        self.store
    }

    pub fn new(store: Arc<S>) -> (r: Self)
        ensures
            r.spec_store() == store,
    {
        Self { store }
    }

    pub(crate) fn insert(&self, envelope: &NewCommandEnvelope) -> (r: Result<(), CommandError>)
        ensures
            self.spec_store().record_returns(*envelope, r),
    {
        self.store.record(envelope)
    }
}

/// Records new commands.
pub struct CommandRecorder<S: CommandStorePort + ?Sized = dyn CommandStorePort> {
    repo: Arc<CommandRecorderRepository<S>>,
}

impl<S: CommandStorePort + ?Sized> CommandRecorder<S> {
    pub closed spec fn spec_repo(&self) -> Arc<CommandRecorderRepository<S>> {
        self.repo
    }

    pub fn new(repo: Arc<CommandRecorderRepository<S>>) -> (r: Self)
        ensures
            r.spec_repo() == repo,
    {
        Self { repo }
    }

    /// Hands `envelope` to the store and returns its answer.
    pub fn record(&self, envelope: &NewCommandEnvelope) -> (r: Result<(), CommandError>)
        ensures
            self.spec_repo().spec_store().record_returns(*envelope, r),
    {
        self.repo.insert(envelope)
    }
}

} // verus!
