//! Stored status codes.

use vstd::prelude::*;
use vstd::std_specs::convert::{FromSpecImpl, TryFromSpecImpl};

verus! {

/// Persistent outbox status codes.
///
/// Codes are stored as integers and must remain stable. The codes `1`, `3` and `6`
/// are held back for existing data and are never produced.
#[derive(Debug, Clone, Copy, PartialEq, Eq, Structural)]
pub enum OutboxStatus {
    /// Stored and awaiting a consumer.
    Received,
    /// Claimed by a consumer; blocked from re-reservation until released.
    Reserved,
    /// Publication attempt failed; scheduled for retry.
    Failed,
    /// Broker accepted the outbound message.
    Completed,
    /// Retry limit exhausted; no automatic retry follows.
    Dead,
    /// Archived.
    Archive,
}

/// An integer that is no outbox status code.
#[derive(Debug, Clone, Copy, PartialEq, Eq)]
pub struct UnknownOutboxStatus(pub i32);

impl OutboxStatus {
    /// The stored code of a status.
    pub open spec fn spec_code(self) -> i32 {
        match self {
            OutboxStatus::Received => 0,
            OutboxStatus::Reserved => 2,
            OutboxStatus::Failed => 4,
            OutboxStatus::Completed => 5,
            OutboxStatus::Dead => 7,
            OutboxStatus::Archive => 8,
        }
    }

    /// The status stored under `code`, if any.
    pub open spec fn from_code(code: i32) -> Result<OutboxStatus, UnknownOutboxStatus> {
        if code == 0 {
            Ok(OutboxStatus::Received)
        } else if code == 2 {
            Ok(OutboxStatus::Reserved)
        } else if code == 4 {
            Ok(OutboxStatus::Failed)
        } else if code == 5 {
            Ok(OutboxStatus::Completed)
        } else if code == 7 {
            Ok(OutboxStatus::Dead)
        } else if code == 8 {
            Ok(OutboxStatus::Archive)
        } else {
            Err(UnknownOutboxStatus(code))
        }
    }

    /// The lowercase name of a status.
    pub open spec fn name(self) -> Seq<char> {
        match self {
            OutboxStatus::Received => "received"@,
            OutboxStatus::Reserved => "reserved"@,
            OutboxStatus::Failed => "failed"@,
            OutboxStatus::Completed => "completed"@,
            OutboxStatus::Dead => "dead"@,
            OutboxStatus::Archive => "archive"@,
        }
    }

    /// The stored code of this status.
    pub fn code(&self) -> (c: i32)
        ensures
            c == self.spec_code(),
    {
        match self {
            OutboxStatus::Received => 0,
            OutboxStatus::Reserved => 2,
            OutboxStatus::Failed => 4,
            OutboxStatus::Completed => 5,
            OutboxStatus::Dead => 7,
            OutboxStatus::Archive => 8,
        }
    }

    /// The lowercase name of this status.
    pub fn as_str(&self) -> (s: &'static str)
        ensures
            s@ == self.name(),
    {
        match self {
            OutboxStatus::Received => "received",
            OutboxStatus::Reserved => "reserved",
            OutboxStatus::Failed => "failed",
            OutboxStatus::Completed => "completed",
            OutboxStatus::Dead => "dead",
            OutboxStatus::Archive => "archive",
        }
    }
}

impl TryFrom<i32> for OutboxStatus {
    type Error = UnknownOutboxStatus;

    fn try_from(value: i32) -> (r: Result<Self, Self::Error>) {
        match value {
            0 => Ok(OutboxStatus::Received),
            2 => Ok(OutboxStatus::Reserved),
            4 => Ok(OutboxStatus::Failed),
            5 => Ok(OutboxStatus::Completed),
            7 => Ok(OutboxStatus::Dead),
            8 => Ok(OutboxStatus::Archive),
            _ => Err(UnknownOutboxStatus(value)),
        }
    }
}

impl TryFromSpecImpl<i32> for OutboxStatus {
    open spec fn obeys_try_from_spec() -> bool {
        true
    }

    open spec fn try_from_spec(v: i32) -> Result<Self, Self::Error> {
        OutboxStatus::from_code(v)
    }
}

impl From<OutboxStatus> for i32 {
    fn from(status: OutboxStatus) -> (c: i32) {
        status.code()
    }
}

impl FromSpecImpl<OutboxStatus> for i32 {
    open spec fn obeys_from_spec() -> bool {
        true
    }

    open spec fn from_spec(v: OutboxStatus) -> i32 {
        v.spec_code()
    }
}

/// Every status reads back from its own code, and only the six codes name a status.
pub proof fn lemma_outbox_status_code_round_trip(status: OutboxStatus, code: i32)
    ensures
        OutboxStatus::from_code(status.spec_code()) == Ok::<OutboxStatus, UnknownOutboxStatus>(status),
        OutboxStatus::from_code(code) is Ok <==> (code == 0 || code == 2 || code == 4 || code == 5
            || code == 7 || code == 8),
        OutboxStatus::from_code(code) matches Ok(s) ==> s.spec_code() == code,
{
}

} // verus!
