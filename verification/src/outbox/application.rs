//! Outbox envelopes, errors, conversions and ports.

use vstd::prelude::*;
use vstd::std_specs::convert::{FromSpecImpl, TryFromSpecImpl};

use crate::outbox::consumer::ReservableOutboxSpec;
use crate::outbox::domain::{NewOutboxEntry, OutboxEntry, OutboxEntryMetadata};
use crate::outbox::sweep::StaleReservationSpec;
use crate::support::{blank, hyphenated, is_blank, owned, reason_text, uuid_text};

verus! {

/// An event handed to the outbox for later publication.
#[derive(Debug, Clone, PartialEq, Eq)]
pub struct NewOutboxEnvelope {
    pub payload: String,
    pub metadata: NewOutboxMetadata,
}

/// Metadata supplied with a new outbox event; `message_id` defaults to `event_id`.
#[derive(Debug, Clone, PartialEq, Eq)]
pub struct NewOutboxMetadata {
    pub event_id: u128,
    pub message_id: Option<u128>,
    pub correlation_id: Option<u128>,
    pub causation_id: Option<u128>,
    pub event_type: String,
    pub routing_key: String,
    pub source: Option<String>,
    pub content_type: Option<String>,
}

/// A message ready for the broker: payload bytes plus routing metadata.
#[derive(Debug, Clone, PartialEq, Eq)]
pub struct OutboundMessageEnvelope {
    pub payload: Vec<u8>,
    pub metadata: OutboxEntryMetadata,
}

/// A reserved entry handed to the consumer.
#[derive(Debug, Clone, PartialEq)]
pub struct OutboxEntryEnvelope {
    pub message: OutboxEntry,
    pub metadata: OutboxEntryMetadata,
}

/// Failures of outbox operations.
#[derive(Debug)]
pub enum OutboxError {
    Storage(String),
    Routing(String),
    Serialization(String),
    Transport(String),
    Reservation(String),
    Publish(String),
    MissingReservation { id: u128 },
    Conversion(String),
}

impl OutboxError {
    /// The human-readable text of an error.
    pub open spec fn text(self) -> Seq<char> {
        match self {
            OutboxError::Storage(m) => "storage error: "@ + m@,
            OutboxError::Routing(m) => "routing error: "@ + m@,
            OutboxError::Serialization(m) => "serialization error: "@ + m@,
            OutboxError::Transport(m) => "transport error: "@ + m@,
            OutboxError::Reservation(m) => "reservation error: "@ + m@,
            OutboxError::Publish(m) => "publish error: "@ + m@,
            OutboxError::MissingReservation { id } => "missing reservation for entry "@
                + hyphenated(id),
            OutboxError::Conversion(m) => "conversion error: "@ + m@,
        }
    }

    /// The human-readable text of this error.
    pub fn message(&self) -> (r: String)
        ensures
            r@ == self.text(),
    {
        let (prefix, detail) = match self {
            OutboxError::Storage(m) => ("storage error: ", m.clone()),
            OutboxError::Routing(m) => ("routing error: ", m.clone()),
            OutboxError::Serialization(m) => ("serialization error: ", m.clone()),
            OutboxError::Transport(m) => ("transport error: ", m.clone()),
            OutboxError::Reservation(m) => ("reservation error: ", m.clone()),
            OutboxError::Publish(m) => ("publish error: ", m.clone()),
            OutboxError::MissingReservation { id } => (
                "missing reservation for entry ",
                uuid_text(*id),
            ),
            OutboxError::Conversion(m) => ("conversion error: ", m.clone()),
        };
        crate::support::joined(prefix, detail.as_str())
    }
}

/// The stored metadata for new metadata: a missing `message_id` becomes the `event_id`.
pub open spec fn stored_metadata(m: NewOutboxMetadata) -> OutboxEntryMetadata {
    OutboxEntryMetadata {
        event_id: m.event_id,
        message_id: match m.message_id {
            Some(id) => id,
            None => m.event_id,
        },
        correlation_id: m.correlation_id,
        causation_id: m.causation_id,
        event_type: m.event_type,
        routing_key: m.routing_key,
        source: m.source,
        content_type: m.content_type,
    }
}

/// Storing metadata keeps every id in its own place: the event id, the correlation id
/// and the causation id are the given ones, and the message id is the given one or, when
/// none is given, the event id; the event type, routing key, source and content type are
/// kept as given.
pub proof fn law_stored_metadata_keeps_its_ids(m: NewOutboxMetadata)
    ensures
        stored_metadata(m).event_id == m.event_id,
        stored_metadata(m).correlation_id == m.correlation_id,
        stored_metadata(m).causation_id == m.causation_id,
        m.message_id matches Some(id) ==> stored_metadata(m).message_id == id,
        m.message_id is None ==> stored_metadata(m).message_id == m.event_id,
        stored_metadata(m).event_type == m.event_type,
        stored_metadata(m).routing_key == m.routing_key,
        stored_metadata(m).source == m.source,
        stored_metadata(m).content_type == m.content_type,
{
}

impl From<NewOutboxMetadata> for OutboxEntryMetadata {
    fn from(metadata: NewOutboxMetadata) -> (r: OutboxEntryMetadata)
        ensures
            r.event_id == metadata.event_id,
            r.correlation_id == metadata.correlation_id,
            r.causation_id == metadata.causation_id,
            metadata.message_id matches Some(id) ==> r.message_id == id,
            metadata.message_id is None ==> r.message_id == metadata.event_id,
            r.event_type == metadata.event_type,
            r.routing_key == metadata.routing_key,
            r.source == metadata.source,
            r.content_type == metadata.content_type,
    {
        let message_id = match metadata.message_id {
            Some(id) => id,
            None => metadata.event_id,
        };
        OutboxEntryMetadata {
            event_id: metadata.event_id,
            message_id,
            correlation_id: metadata.correlation_id,
            causation_id: metadata.causation_id,
            event_type: metadata.event_type,
            routing_key: metadata.routing_key,
            source: metadata.source,
            content_type: metadata.content_type,
        }
    }
}

impl FromSpecImpl<NewOutboxMetadata> for OutboxEntryMetadata {
    open spec fn obeys_from_spec() -> bool {
        true
    }

    open spec fn from_spec(v: NewOutboxMetadata) -> OutboxEntryMetadata {
        stored_metadata(v)
    }
}

impl NewOutboxMetadata {
    /// A copy of this metadata.
    pub fn duplicate(&self) -> (r: Self)
        ensures
            r == *self,
    {
        NewOutboxMetadata {
            event_id: self.event_id,
            message_id: self.message_id,
            correlation_id: self.correlation_id,
            causation_id: self.causation_id,
            event_type: self.event_type.clone(),
            routing_key: self.routing_key.clone(),
            source: crate::support::copy_text(&self.source),
            content_type: crate::support::copy_text(&self.content_type),
        }
    }
}

/// The entry stored for an envelope received at time `now`: identified by the event id,
/// scheduled and received at `now`.
pub open spec fn entry_for(envelope: NewOutboxEnvelope, now: i64) -> NewOutboxEntry {
    NewOutboxEntry {
        id: envelope.metadata.event_id,
        payload: envelope.payload,
        meta: stored_metadata(envelope.metadata),
        scheduled_at: now,
        received_at: now,
    }
}

impl NewOutboxEntry {
    /// The entry stored for `envelope` when it is received at time `now`.
    pub fn from_envelope_at(envelope: &NewOutboxEnvelope, now: i64) -> (r: NewOutboxEntry)
        ensures
            r == entry_for(*envelope, now),
    {
        let meta = OutboxEntryMetadata::from(envelope.metadata.duplicate());
        NewOutboxEntry {
            id: meta.event_id,
            payload: envelope.payload.clone(),
            meta,
            scheduled_at: now,
            received_at: now,
        }
    }
}

impl<'a> From<&'a NewOutboxEnvelope> for NewOutboxEntry {
    /// The entry stored for `envelope`, stamped with the current time.
    fn from(envelope: &'a NewOutboxEnvelope) -> (r: NewOutboxEntry) {
        let now = crate::support::now_millis();
        NewOutboxEntry::from_envelope_at(envelope, now)
    }
}

impl<'a> FromSpecImpl<&'a NewOutboxEnvelope> for NewOutboxEntry {
    /// The result depends on the clock; `from_envelope_at` states it for a given time.
    open spec fn obeys_from_spec() -> bool {
        false
    }

    open spec fn from_spec(v: &'a NewOutboxEnvelope) -> NewOutboxEntry {
        entry_for(*v, 0)
    }
}

/// Whether metadata names a routing key, so that its entry can become a broker message.
pub open spec fn routable(metadata: OutboxEntryMetadata) -> bool {
    !blank(metadata.routing_key@)
}

impl OutboundMessageEnvelope {
    /// The broker message for a reserved entry: the payload's UTF-8 bytes and the entry
    /// metadata, or a conversion error when the routing key is blank.
    pub fn from_entry(entry: &OutboxEntryEnvelope) -> (r: Result<OutboundMessageEnvelope, OutboxError>)
        ensures
            routable(entry.metadata) <==> r is Ok,
            r matches Ok(out) ==> out.payload@ == vstd::utf8::encode_utf8(entry.message.payload@)
                && out.metadata == entry.metadata,
            r matches Err(e) ==> e matches OutboxError::Conversion(m) && m@ == "missing routing_key"@,
    {
        if is_blank(entry.metadata.routing_key.as_str()) {
            return Err(OutboxError::Conversion(owned("missing routing_key")));
        }
        Ok(OutboundMessageEnvelope {
            payload: vstd::slice::slice_to_vec(entry.message.payload.as_str().as_bytes()),
            metadata: entry.metadata.clone(),
        })
    }
}

impl<'a> TryFrom<&'a OutboxEntryEnvelope> for OutboundMessageEnvelope {
    type Error = OutboxError;

    fn try_from(entry: &'a OutboxEntryEnvelope) -> (r: Result<Self, Self::Error>)
        ensures
            routable(entry.metadata) <==> r is Ok,
            r matches Ok(out) ==> out.payload@ == vstd::utf8::encode_utf8(entry.message.payload@)
                && out.metadata == entry.metadata,
            r matches Err(e) ==> e matches OutboxError::Conversion(m) && m@ == "missing routing_key"@,
    {
        OutboundMessageEnvelope::from_entry(entry)
    }
}

impl<'a> TryFromSpecImpl<&'a OutboxEntryEnvelope> for OutboundMessageEnvelope {
    /// The payload bytes have no spec value; `from_entry` states the result.
    open spec fn obeys_try_from_spec() -> bool {
        false
    }

    open spec fn try_from_spec(v: &'a OutboxEntryEnvelope) -> Result<Self, Self::Error> {
        Err(arbitrary())
    }
}

/// Stores new outbox entries.
pub trait OutboxStorePort: Send + Sync {
    /// Stores `entry`; the outbox hands over only entries with a routing key, identified by
    /// their event id.
    /// `r` is an answer this port may give to `record(entry)`. The port decides its answers
    /// (mostly through storage); unless an implementation says more, any answer may come.
    closed spec fn record_returns(&self, entry: NewOutboxEntry, r: Result<(), OutboxError>) -> bool {
        true
    }

    fn record(&self, entry: &NewOutboxEntry) -> (r: Result<(), OutboxError>)
        requires
            routable(entry.meta),
            entry.id == entry.meta.event_id,
        ensures
            self.record_returns(*entry, r),
    ;
}

/// Claims entries that are due for publication.
pub trait OutboxReservePort: Send + Sync {
    /// `r` is an answer this port may give to `reserve(spec)`. The port decides its answers
    /// (mostly through storage); unless an implementation says more, any answer may come.
    closed spec fn reserve_returns(&self, spec: ReservableOutboxSpec, r: Result<Vec<OutboxEntryEnvelope>, OutboxError>) -> bool {
        true
    }

    fn reserve(&self, spec: &ReservableOutboxSpec) -> (r: Result<Vec<OutboxEntryEnvelope>, OutboxError>)
        ensures
            self.reserve_returns(*spec, r),
    ;
}

/// Sends broker messages.
pub trait OutboxPublisherPort: Send + Sync {
    /// Publishes `envelope`; the outbox hands over only messages with a routing key.
    /// `r` is an answer this port may give to `publish(envelope)`. The port decides its answers
    /// (mostly through storage); unless an implementation says more, any answer may come.
    closed spec fn publish_returns(&self, envelope: OutboundMessageEnvelope, r: Result<(), OutboxError>) -> bool {
        true
    }

    fn publish(&self, envelope: OutboundMessageEnvelope) -> (r: Result<(), OutboxError>)
        requires
            routable(envelope.metadata),
        ensures
            self.publish_returns(envelope, r),
    ;
}

/// Releases reservations that were held too long.
pub trait OutboxSweepPort: Send + Sync {
    /// `r` is an answer this port may give to `sweep(spec)`. The port decides its answers
    /// (mostly through storage); unless an implementation says more, any answer may come.
    closed spec fn sweep_returns(&self, spec: StaleReservationSpec, r: Result<u64, OutboxError>) -> bool {
        true
    }

    fn sweep(&self, spec: &StaleReservationSpec) -> (r: Result<u64, OutboxError>)
        ensures
            self.sweep_returns(*spec, r),
    ;
}

/// Records the outcome of a publication attempt.
pub trait OutboxProcessPort: Send + Sync {
    /// `r` is an answer this port may give to `completed(id, reservation_id)`. The port decides its answers
    /// (mostly through storage); unless an implementation says more, any answer may come.
    closed spec fn completed_returns(&self, id: u128, reservation_id: u128, r: Result<(), OutboxError>) -> bool {
        true
    }

    /// `r` is an answer this port may give to `failed(id, reservation_id, max_attempts, reason)`. The port decides its answers
    /// (mostly through storage); unless an implementation says more, any answer may come.
    closed spec fn failed_returns(
        &self,
        id: u128,
        reservation_id: u128,
        max_attempts: i32,
        reason: Option<Seq<char>>,
        r: Result<(), OutboxError>,
    ) -> bool {
        true
    }

    /// `r` is an answer this port may give to `dead(id, reservation_id, reason)`. The port decides its answers
    /// (mostly through storage); unless an implementation says more, any answer may come.
    closed spec fn dead_returns(&self, id: u128, reservation_id: u128, reason: Option<Seq<char>>, r: Result<(), OutboxError>) -> bool {
        true
    }

    fn completed(&self, id: u128, reservation_id: u128) -> (r: Result<(), OutboxError>)
        ensures
            self.completed_returns(id, reservation_id, r),
    ;

    fn failed(
        &self,
        id: u128,
        reservation_id: u128,
        max_attempts: i32,
        reason: Option<String>,
    ) -> (r: Result<(), OutboxError>)
        ensures
            self.failed_returns(id, reservation_id, max_attempts, reason_text(reason), r),
    ;

    fn dead(&self, id: u128, reservation_id: u128, reason: Option<String>) -> (r: Result<(), OutboxError>)
        ensures
            self.dead_returns(id, reservation_id, reason_text(reason), r),
    ;
}

} // verus!
