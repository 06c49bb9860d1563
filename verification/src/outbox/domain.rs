//! Outbox entries as they are stored.

use vstd::prelude::*;

pub use crate::outbox::status::{OutboxStatus, UnknownOutboxStatus};
pub use crate::support::{append_error, ExtraInfo};

verus! {

/// Routing and identity metadata carried with every outbox entry.
///
/// Identifiers are the 128-bit values of UUIDs; text fields are kept as given.
#[derive(Debug, PartialEq, Eq)]
pub struct OutboxEntryMetadata {
    pub event_id: u128,
    pub message_id: u128,
    pub correlation_id: Option<u128>,
    pub causation_id: Option<u128>,
    pub event_type: String,
    pub routing_key: String,
    pub source: Option<String>,
    pub content_type: Option<String>,
}

impl Clone for OutboxEntryMetadata {
    fn clone(&self) -> (r: Self)
        ensures
            r == *self,
    {
        OutboxEntryMetadata {
            event_id: self.event_id,
            message_id: self.message_id,
            correlation_id: self.correlation_id,
            causation_id: self.causation_id,
            event_type: self.event_type.clone(),
            routing_key: self.routing_key.clone(),
            source: crate::support::copy_text(&self.source),
            content_type: crate::support::copy_text(&self.content_type),
        }
    }
}

/// A stored outbox entry with its full lifecycle state.
///
/// Times are milliseconds since the Unix epoch.
#[derive(Debug, Clone, PartialEq)]
pub struct OutboxEntry {
    pub id: u128,
    pub status: OutboxStatus,
    pub payload: String,
    pub meta: OutboxEntryMetadata,
    pub scheduled_at: i64,
    pub attempts: i32,
    pub reservation_id: Option<u128>,
    pub reserved_at: Option<i64>,
    pub received_at: i64,
    pub updated_at: i64,
    pub processed_at: Option<i64>,
    pub last_error: Option<String>,
    pub extra_info: Option<ExtraInfo>,
}

/// An outbox entry about to be stored.
#[derive(Debug, PartialEq)]
pub struct NewOutboxEntry {
    pub id: u128,
    pub payload: String,
    pub meta: OutboxEntryMetadata,
    pub scheduled_at: i64,
    pub received_at: i64,
}

impl Clone for NewOutboxEntry {
    fn clone(&self) -> (r: Self)
        ensures
            r == *self,
    {
        NewOutboxEntry {
            id: self.id,
            payload: self.payload.clone(),
            meta: self.meta.clone(),
            scheduled_at: self.scheduled_at,
            received_at: self.received_at,
        }
    }
}

} // verus!
