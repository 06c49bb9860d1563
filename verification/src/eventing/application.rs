//! Event envelopes, errors and ports.

use vstd::prelude::*;

use crate::support::{hyphenated, joined, owned, uuid_text};

verus! {

/// An event produced by a command handler, before it is stored or delivered.
#[derive(Debug, Clone)]
pub struct NewEventEnvelope {
    pub event_type: String,
    pub payload: String,
    pub metadata: Option<NewEventMetadata>,
}

/// Identity and provenance of a new event.
#[derive(Debug, Clone, PartialEq, Eq)]
pub struct NewEventMetadata {
    pub event_id: u128,
    pub correlation_id: Option<u128>,
    pub causation_id: Option<u128>,
    pub source: Option<String>,
}

/// A reserved event handed to the consumer.
#[derive(Debug)]
pub struct EventEnvelope {
    pub id: u128,
    pub reservation_id: u128,
    pub event_type: String,
    pub payload: String,
    pub attempts: i32,
    pub metadata: Option<EventMetadata>,
}

/// Identity and provenance of a stored event.
#[derive(Debug, Clone, PartialEq, Eq)]
pub struct EventMetadata {
    pub event_id: u128,
    pub correlation_id: Option<u128>,
    pub causation_id: Option<u128>,
    pub source: Option<String>,
}

/// Failures of event operations.
#[derive(Debug)]
pub enum EventError {
    Storage(String),
    Reservation(String),
    SubscriberNotFound(String),
    SubscriberExecution(String),
    MissingReservation { id: u128 },
    Conversion(String),
    EventDispatch(String),
}

impl EventError {
    /// The human-readable text of an error.
    pub open spec fn text(self) -> Seq<char> {
        match self {
            EventError::Storage(m) => "storage error: "@ + m@,
            EventError::Reservation(m) => "reservation error: "@ + m@,
            EventError::SubscriberNotFound(m) => "no subscriber registered for event type '"@ + m@ + "'"@,
            EventError::SubscriberExecution(m) => "subscriber execution error: "@ + m@,
            EventError::MissingReservation { id } => "missing reservation for entry "@ + hyphenated(id),
            EventError::Conversion(m) => "conversion error: "@ + m@,
            EventError::EventDispatch(m) => "event dispatch error: "@ + m@,
        }
    }

    /// The human-readable text of this error.
    pub fn message(&self) -> (r: String)
        ensures
            r@ == self.text(),
    {
        match self {
            EventError::Storage(m) => joined("storage error: ", m.as_str()),
            EventError::Reservation(m) => joined("reservation error: ", m.as_str()),
            EventError::SubscriberNotFound(m) => {
                let head = joined("no subscriber registered for event type '", m.as_str());
                joined(head.as_str(), "'")
            },
            EventError::SubscriberExecution(m) => joined("subscriber execution error: ", m.as_str()),
            EventError::MissingReservation { id } => joined("missing reservation for entry ", uuid_text(*id).as_str()),
            EventError::Conversion(m) => joined("conversion error: ", m.as_str()),
            EventError::EventDispatch(m) => joined("event dispatch error: ", m.as_str()),
        }
    }
}

/// The error for an event that carries no metadata, and so no event id.
pub fn missing_event_id(dispatch: bool) -> (e: EventError)
    ensures
        dispatch ==> (e matches EventError::EventDispatch(m) && m@ == "event_id is required: metadata is missing"@),
        !dispatch ==> (e matches EventError::Conversion(m) && m@ == "event_id is required: metadata is missing"@),
{
    let m = owned("event_id is required: metadata is missing");
    if dispatch {
        EventError::EventDispatch(m)
    } else {
        EventError::Conversion(m)
    }
}

/// Hands events produced by command handlers on to eventing.
pub trait EventDispatchPort: Send + Sync {
    /// `r` is an answer this port may give to `dispatch(event)`. The port decides its answers
    /// (mostly through storage); unless an implementation says more, any answer may come.
    closed spec fn dispatch_returns(&self, event: NewEventEnvelope, r: Result<(), EventError>) -> bool {
        true
    }

    fn dispatch(&self, event: NewEventEnvelope) -> (r: Result<(), EventError>)
        ensures
            self.dispatch_returns(event, r),
    ;
}

/// Stores new events.
pub trait EventStorePort: Send + Sync {
    /// `r` is an answer this port may give to `record(envelope)`. The port decides its answers
    /// (mostly through storage); unless an implementation says more, any answer may come.
    closed spec fn record_returns(&self, envelope: NewEventEnvelope, r: Result<(), EventError>) -> bool {
        true
    }

    fn record(&self, envelope: &NewEventEnvelope) -> (r: Result<(), EventError>)
        ensures
            self.record_returns(*envelope, r),
    ;
}

/// Records the outcome of a delivery attempt.
pub trait EventProcessPort: Send + Sync {
    /// `r` is an answer this port may give to `completed(id, reservation_id)`. The port decides its answers
    /// (mostly through storage); unless an implementation says more, any answer may come.
    closed spec fn completed_returns(&self, id: u128, reservation_id: u128, r: Result<(), EventError>) -> bool {
        true
    }

    /// `r` is an answer this port may give to `failed(id, reservation_id, max_attempts)`. The port decides its answers
    /// (mostly through storage); unless an implementation says more, any answer may come.
    closed spec fn failed_returns(&self, id: u128, reservation_id: u128, max_attempts: i32, r: Result<(), EventError>) -> bool {
        true
    }

    fn completed(&self, id: u128, reservation_id: u128) -> (r: Result<(), EventError>)
        ensures
            self.completed_returns(id, reservation_id, r),
    ;

    fn failed(&self, id: u128, reservation_id: u128, max_attempts: i32) -> (r: Result<(), EventError>)
        ensures
            self.failed_returns(id, reservation_id, max_attempts, r),
    ;
}

} // verus!
