//! Inbox envelopes, errors and ports.

use vstd::prelude::*;

use crate::inbox::domain::{InboxMessage, InboxStatus};
use crate::support::{hyphenated, joined, uuid_text};

verus! {

/// A message as a transport adapter hands it in.
#[derive(Debug, Clone, PartialEq, Eq)]
pub struct InboundMessageEnvelope {
    pub payload: String,
    pub message_id: Option<u128>,
    pub correlation_id: Option<u128>,
    pub source: Option<String>,
    pub routing_key: Option<String>,
}

impl Default for InboundMessageEnvelope {
    fn default() -> (r: Self)
        ensures
            r.payload@ == Seq::<char>::empty(),
            r.message_id is None,
            r.correlation_id is None,
            r.source is None,
            r.routing_key is None,
    {
        InboundMessageEnvelope {
            payload: String::new(),
            message_id: None,
            correlation_id: None,
            source: None,
            routing_key: None,
        }
    }
}

/// Routing metadata stored with an inbox message.
#[derive(Debug, Clone, PartialEq, Eq)]
pub struct InboxMessageMetadata {
    pub message_id: Option<u128>,
    pub correlation_id: Option<u128>,
    pub source: Option<String>,
    pub routing_key: Option<String>,
}

/// A stored message with its metadata.
#[derive(Debug)]
pub struct InboxMessageEnvelope {
    pub msg: InboxMessage,
    pub meta: InboxMessageMetadata,
}

impl InboxMessageEnvelope {
    pub fn id(&self) -> (r: &u128)
        ensures
            *r == self.msg.id,
    {
        &self.msg.id
    }

    pub fn payload(&self) -> (r: &str)
        ensures
            r@ == self.msg.payload@,
    {
        self.msg.payload.as_str()
    }

    pub fn status(&self) -> (r: InboxStatus)
        ensures
            r == self.msg.status,
    {
        self.msg.status
    }

    pub fn reservation_id(&self) -> (r: Option<u128>)
        ensures
            r == self.msg.reservation_id,
    {
        self.msg.reservation_id
    }
}

/// Failures of inbox operations.
#[derive(Debug)]
pub enum InboxError {
    Storage(String),
    Transport(String),
    Acknowledgement(String),
    Recording(String),
    ReservationNotOwned { id: u128, reservation_id: u128 },
    PublishFailed(String),
    MissingReservation { id: u128 },
    Conversion(String),
}

impl InboxError {
    /// The human-readable text of an error.
    pub open spec fn text(self) -> Seq<char> {
        match self {
            InboxError::Storage(m) => "storage error: "@ + m@,
            InboxError::Transport(m) => "transport error: "@ + m@,
            InboxError::Acknowledgement(m) => "acknowledgement error: "@ + m@,
            InboxError::Recording(m) => "recording error: "@ + m@,
            InboxError::ReservationNotOwned { id, reservation_id } => "inbox entry "@ + hyphenated(id)
                + " is not reserved by reservation "@ + hyphenated(reservation_id),
            InboxError::PublishFailed(m) => "Publish failed: "@ + m@,
            InboxError::MissingReservation { id } => "Missing reservation for message "@ + hyphenated(id),
            InboxError::Conversion(m) => "conversion error: "@ + m@,
        }
    }

    /// The human-readable text of this error.
    pub fn message(&self) -> (r: String)
        ensures
            r@ == self.text(),
    {
        match self {
            InboxError::Storage(m) => joined("storage error: ", m.as_str()),
            InboxError::Transport(m) => joined("transport error: ", m.as_str()),
            InboxError::Acknowledgement(m) => joined("acknowledgement error: ", m.as_str()),
            InboxError::Recording(m) => joined("recording error: ", m.as_str()),
            InboxError::ReservationNotOwned { id, reservation_id } => {
                let head = joined("inbox entry ", uuid_text(*id).as_str());
                let middle = joined(head.as_str(), " is not reserved by reservation ");
                joined(middle.as_str(), uuid_text(*reservation_id).as_str())
            },
            InboxError::PublishFailed(m) => joined("Publish failed: ", m.as_str()),
            InboxError::MissingReservation { id } => joined("Missing reservation for message ", uuid_text(*id).as_str()),
            InboxError::Conversion(m) => joined("conversion error: ", m.as_str()),
        }
    }
}

/// Records the outcome of a processing attempt.
pub trait InboxProcessPort: Send + Sync {
    /// `r` is an answer this port may give to `completed(id, reservation_id)`. The port decides its answers
    /// (mostly through storage); unless an implementation says more, any answer may come.
    closed spec fn completed_returns(&self, id: u128, reservation_id: u128, r: Result<(), InboxError>) -> bool {
        true
    }

    /// `r` is an answer this port may give to `failed(id, reservation_id, max_attempts)`. The port decides its answers
    /// (mostly through storage); unless an implementation says more, any answer may come.
    closed spec fn failed_returns(&self, id: u128, reservation_id: u128, max_attempts: i32, r: Result<(), InboxError>) -> bool {
        true
    }

    fn completed(&self, id: u128, reservation_id: u128) -> (r: Result<(), InboxError>)
        ensures
            self.completed_returns(id, reservation_id, r),
    ;

    fn failed(&self, id: u128, reservation_id: u128, max_attempts: i32) -> (r: Result<(), InboxError>)
        ensures
            self.failed_returns(id, reservation_id, max_attempts, r),
    ;
}

} // verus!
