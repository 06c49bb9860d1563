//! Command envelopes, errors and ports.

use vstd::prelude::*;
use vstd::std_specs::convert::FromSpecImpl;

use crate::eventing::application::EventError;
use crate::support::{hyphenated, joined, owned, reason_text, uuid_text, ExtraInfo};

verus! {

/// A command as the caller hands it in.
#[derive(Debug, Clone, PartialEq, Eq)]
pub struct NewCommand {
    pub command_type: String,
    pub payload: String,
}

/// Gateway input envelope. The caller must supply `command_id`; no id is generated
/// inside the system boundary.
#[derive(Debug, Clone, PartialEq, Eq)]
pub struct NewCommandEnvelope {
    pub command: NewCommand,
    pub metadata: Option<NewCommandMetadata>,
}

/// Identity and provenance of a new command.
#[derive(Debug, Clone, PartialEq, Eq)]
pub struct NewCommandMetadata {
    pub command_id: u128,
    pub correlation_id: Option<u128>,
    pub causation_id: Option<u128>,
    pub source: Option<String>,
}

/// A reserved command.
#[derive(Debug)]
pub struct Command {
    pub id: u128,
    pub reservation_id: u128,
    pub command_type: String,
    pub payload: String,
    pub attempts: i32,
    pub extra_info: Option<ExtraInfo>,
}

/// Read-side envelope handed to the consumer after reservation.
#[derive(Debug)]
pub struct CommandEnvelope {
    pub command: Command,
    pub metadata: Option<CommandMetadata>,
}

/// Identity and provenance of a stored command.
#[derive(Debug, Clone, PartialEq, Eq)]
pub struct CommandMetadata {
    pub command_id: u128,
    pub correlation_id: Option<u128>,
    pub causation_id: Option<u128>,
    pub source: Option<String>,
}

/// Failures of command operations.
#[derive(Debug)]
pub enum CommandError {
    Storage(String),
    Reservation(String),
    HandlerNotFound(String),
    HandlerExecution(String),
    MissingReservation { id: u128 },
    Conversion(String),
    Eventing(EventError),
    Domain(String),
}

impl CommandError {
    /// The human-readable text of an error.
    pub open spec fn text(self) -> Seq<char> {
        match self {
            CommandError::Storage(m) => "storage error: "@ + m@,
            CommandError::Reservation(m) => "reservation error: "@ + m@,
            CommandError::HandlerNotFound(m) => "no handler registered for command type '"@ + m@ + "'"@,
            CommandError::HandlerExecution(m) => "handler execution error: "@ + m@,
            CommandError::MissingReservation { id } => "missing reservation for entry "@ + hyphenated(id),
            CommandError::Conversion(m) => "conversion error: "@ + m@,
            CommandError::Eventing(e) => "eventing error: "@ + e.text(),
            CommandError::Domain(m) => "Domain error: "@ + m@,
        }
    }

    /// The human-readable text of this error.
    pub fn message(&self) -> (r: String)
        ensures
            r@ == self.text(),
    {
        match self {
            CommandError::Storage(m) => joined("storage error: ", m.as_str()),
            CommandError::Reservation(m) => joined("reservation error: ", m.as_str()),
            CommandError::HandlerNotFound(m) => {
                let head = joined("no handler registered for command type '", m.as_str());
                joined(head.as_str(), "'")
            },
            CommandError::HandlerExecution(m) => joined("handler execution error: ", m.as_str()),
            CommandError::MissingReservation { id } => joined("missing reservation for entry ", uuid_text(*id).as_str()),
            CommandError::Conversion(m) => joined("conversion error: ", m.as_str()),
            CommandError::Eventing(e) => joined("eventing error: ", e.message().as_str()),
            CommandError::Domain(m) => joined("Domain error: ", m.as_str()),
        }
    }
}

impl From<EventError> for CommandError {
    /// An eventing failure seen from commanding.
    fn from(e: EventError) -> (r: CommandError) {
        CommandError::Eventing(e)
    }
}

impl FromSpecImpl<EventError> for CommandError {
    open spec fn obeys_from_spec() -> bool {
        true
    }

    open spec fn from_spec(v: EventError) -> CommandError {
        CommandError::Eventing(v)
    }
}

/// The error for a command that carries no metadata, and so no command id.
pub fn missing_command_id() -> (e: CommandError)
    ensures
        e matches CommandError::Conversion(m) && m@ == "command_id is required: metadata is missing"@,
{
    CommandError::Conversion(owned("command_id is required: metadata is missing"))
}

/// Stores new commands.
pub trait CommandStorePort: Send + Sync {
    /// `r` is an answer this port may give to `record(envelope)`. The port decides its answers
    /// (mostly through storage); unless an implementation says more, any answer may come.
    closed spec fn record_returns(&self, envelope: NewCommandEnvelope, r: Result<(), CommandError>) -> bool {
        true
    }

    fn record(&self, envelope: &NewCommandEnvelope) -> (r: Result<(), CommandError>)
        ensures
            self.record_returns(*envelope, r),
    ;
}

/// Records the outcome of a handling attempt.
pub trait CommandProcessPort: Send + Sync {
    /// `r` is an answer this port may give to `completed(id, reservation_id)`. The port decides its answers
    /// (mostly through storage); unless an implementation says more, any answer may come.
    closed spec fn completed_returns(&self, id: u128, reservation_id: u128, r: Result<(), CommandError>) -> bool {
        true
    }

    /// `r` is an answer this port may give to `failed(id, reservation_id, max_attempts, reason)`. The port decides its answers
    /// (mostly through storage); unless an implementation says more, any answer may come.
    closed spec fn failed_returns(
        &self,
        id: u128,
        reservation_id: u128,
        max_attempts: i32,
        reason: Option<Seq<char>>,
        r: Result<(), CommandError>,
    ) -> bool {
        true
    }

    fn completed(&self, id: u128, reservation_id: u128) -> (r: Result<(), CommandError>)
        ensures
            self.completed_returns(id, reservation_id, r),
    ;

    fn failed(
        &self,
        id: u128,
        reservation_id: u128,
        max_attempts: i32,
        reason: Option<String>,
    ) -> (r: Result<(), CommandError>)
        ensures
            self.failed_returns(id, reservation_id, max_attempts, reason_text(reason), r),
    ;
}

} // verus!
