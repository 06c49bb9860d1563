//! Recording inbound messages in the inbox.

use std::sync::Arc;
use vstd::prelude::*;
use vstd::std_specs::convert::FromSpecImpl;

use crate::inbox::application::{InboundMessageEnvelope, InboxError, InboxMessageMetadata};
use crate::support::{new_uuid_v7, uuid_version};

verus! {

/// Raw payload of a new inbound message before it is stored.
#[derive(Debug, Clone, PartialEq, Eq)]
pub struct NewInboxMessage {
    pub payload: String,
}

/// A new message and its routing metadata, ready to be stored.
///
/// Made from an inbound envelope; when the transport supplied no `message_id`, a
/// time-ordered UUID v7 is generated so that inserts stay idempotent.
#[derive(Debug, Clone, PartialEq, Eq)]
pub struct NewInboxMessageEnvelope {
    pub msg: NewInboxMessage,
    pub meta: NewInboxMessageMetadata,
}

/// Metadata of a new inbound message; `message_id` is always present.
#[derive(Debug, Clone, PartialEq, Eq)]
pub struct NewInboxMessageMetadata {
    pub message_id: u128,
    pub correlation_id: Option<u128>,
    pub source: Option<String>,
    pub routing_key: Option<String>,
}

/// The id an inbound envelope is recorded under: its own message id, else `generated`.
pub open spec fn recorded_id(inbound: InboundMessageEnvelope, generated: u128) -> u128 {
    match inbound.message_id {
        Some(id) => id,
        None => generated,
    }
}

impl NewInboxMessageEnvelope {
    pub fn id(&self) -> (r: &u128)
        ensures
            *r == self.meta.message_id,
    {
        &self.meta.message_id
    }

    pub fn payload(&self) -> (r: &str)
        ensures
            r@ == self.msg.payload@,
    {
        self.msg.payload.as_str()
    }

    /// The envelope recorded for `inbound`, identified by `message_id`.
    pub open spec fn recorded(inbound: InboundMessageEnvelope, message_id: u128) -> NewInboxMessageEnvelope {
        NewInboxMessageEnvelope {
            msg: NewInboxMessage { payload: inbound.payload },
            meta: NewInboxMessageMetadata {
                message_id,
                correlation_id: inbound.correlation_id,
                source: inbound.source,
                routing_key: inbound.routing_key,
            },
        }
    }

    /// The envelope recorded for `inbound`: its own message id, else `generated`.
    pub fn from_inbound(inbound: InboundMessageEnvelope, generated: u128) -> (r: NewInboxMessageEnvelope)
        ensures
            r == Self::recorded(inbound, recorded_id(inbound, generated)),
    {
        let message_id = match inbound.message_id {
            Some(id) => id,
            None => generated,
        };
        NewInboxMessageEnvelope {
            msg: NewInboxMessage { payload: inbound.payload },
            meta: NewInboxMessageMetadata {
                message_id,
                correlation_id: inbound.correlation_id,
                source: inbound.source,
                routing_key: inbound.routing_key,
            },
        }
    }
}

/// The stored metadata of new metadata: the message id becomes optional.
pub open spec fn stored_metadata(m: NewInboxMessageMetadata) -> InboxMessageMetadata {
    InboxMessageMetadata {
        message_id: Some(m.message_id),
        correlation_id: m.correlation_id,
        source: m.source,
        routing_key: m.routing_key,
    }
}

impl From<NewInboxMessageMetadata> for InboxMessageMetadata {
    fn from(message: NewInboxMessageMetadata) -> (r: InboxMessageMetadata) {
        InboxMessageMetadata {
            message_id: Some(message.message_id),
            correlation_id: message.correlation_id,
            source: message.source,
            routing_key: message.routing_key,
        }
    }
}

impl FromSpecImpl<NewInboxMessageMetadata> for InboxMessageMetadata {
    open spec fn obeys_from_spec() -> bool {
        true
    }

    open spec fn from_spec(v: NewInboxMessageMetadata) -> InboxMessageMetadata {
        stored_metadata(v)
    }
}

impl From<InboundMessageEnvelope> for NewInboxMessageEnvelope {
    /// Keeps the transport's message id, or generates a time-ordered one when it supplied
    /// none; every other field passes through unchanged.
    fn from(msg: InboundMessageEnvelope) -> (r: NewInboxMessageEnvelope)
        ensures
            msg.message_id matches Some(id) ==> r == NewInboxMessageEnvelope::recorded(msg, id),
            msg.message_id is None ==> r == NewInboxMessageEnvelope::recorded(msg, r.meta.message_id)
                && uuid_version(r.meta.message_id) == 7,
    {
        let generated = match msg.message_id {
            Some(id) => id,
            None => new_uuid_v7(),
        };
        NewInboxMessageEnvelope::from_inbound(msg, generated)
    }
}

impl FromSpecImpl<InboundMessageEnvelope> for NewInboxMessageEnvelope {
    /// A missing message id is generated, so the result is not a function of the input.
    open spec fn obeys_from_spec() -> bool {
        false
    }

    open spec fn from_spec(v: InboundMessageEnvelope) -> NewInboxMessageEnvelope {
        arbitrary()
    }
}

/// Stores new inbox messages.
pub trait InboxStorePort: Send + Sync {
    /// `r` is an answer this port may give to `store(msg)`. The port decides its answers
    /// (mostly through storage); unless an implementation says more, any answer may come.
    closed spec fn store_returns(&self, msg: NewInboxMessageEnvelope, r: Result<(), InboxError>) -> bool {
        true
    }

    fn store(&self, msg: NewInboxMessageEnvelope) -> (r: Result<(), InboxError>)
        ensures
            self.store_returns(msg, r),
    ;
}

/// The store port used by the recorder.
pub struct InboxRecorderRepository<S: InboxStorePort + ?Sized = dyn InboxStorePort> {
    store: Arc<S>,
}

impl<S: InboxStorePort + ?Sized> Clone for InboxRecorderRepository<S> {
    fn clone(&self) -> (r: Self)
        ensures
            r == *self,
    {
        Self { store: Arc::clone(&self.store) }
    }
}

impl<S: InboxStorePort + ?Sized> InboxRecorderRepository<S> {
    pub closed spec fn spec_store(&self) -> Arc<S> {
        self.store
    }

    pub fn new(store: Arc<S>) -> (r: Self)
        ensures
            r.spec_store() == store,
    {
        Self { store }
    }

    /// Hands `msg` to the store and returns its answer.
    pub fn insert(&self, msg: NewInboxMessageEnvelope) -> (r: Result<(), InboxError>)
        ensures
            self.spec_store().store_returns(msg, r),
    {
        self.store.store(msg)
    }
}

/// Records inbound messages.
pub struct InboxRecorder<S: InboxStorePort + ?Sized = dyn InboxStorePort> {
    repo: Arc<InboxRecorderRepository<S>>,
}

impl<S: InboxStorePort + ?Sized> Clone for InboxRecorder<S> {
    fn clone(&self) -> (r: Self)
        ensures
            r == *self,
    {
        Self { repo: Arc::clone(&self.repo) }
    }
}

impl<S: InboxStorePort + ?Sized> InboxRecorder<S> {
    pub closed spec fn spec_repo(&self) -> Arc<InboxRecorderRepository<S>> {
        self.repo
    }

    pub fn new(repo: Arc<InboxRecorderRepository<S>>) -> (r: Self)
        ensures
            r.spec_repo() == repo,
    {
        Self { repo }
    }

    /// Stores `msg` and returns the store's answer.
    pub fn publish(&self, msg: NewInboxMessageEnvelope) -> (r: Result<(), InboxError>)
        ensures
            self.spec_repo().spec_store().store_returns(msg, r),
    {
        match self.repo.insert(msg) {
            Ok(stored) => Ok(stored),
            Err(e) => Err(e),
        }
    }
}

} // verus!
