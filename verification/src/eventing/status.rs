//! Stored status codes.

use vstd::prelude::*;
use vstd::std_specs::convert::{FromSpecImpl, TryFromSpecImpl};

verus! {

/// Persistent event status codes.
///
/// Codes are stored as integers and must remain stable. The codes `1`, `3` and `6`
/// are held back for existing data and are never produced.
#[derive(Debug, Clone, Copy, PartialEq, Eq, Structural)]
pub enum EventStatus {
    /// Stored and awaiting a consumer.
    Received,
    /// Claimed by a consumer; blocked from re-reservation until released.
    Reserved,
    /// Delivery attempt failed; scheduled for retry.
    Failed,
    /// Delivered successfully to the subscriber port.
    Completed,
    /// Retry limit exhausted; no automatic retry follows.
    Dead,
    /// Archived.
    Archive,
}

/// An integer that is no event status code.
#[derive(Debug, Clone, Copy, PartialEq, Eq)]
pub struct UnknownEventStatus(pub i32);

impl EventStatus {
    /// The stored code of a status.
    pub open spec fn spec_code(self) -> i32 {
        match self {
            EventStatus::Received => 0,
            EventStatus::Reserved => 2,
            EventStatus::Failed => 4,
            EventStatus::Completed => 5,
            EventStatus::Dead => 7,
            EventStatus::Archive => 8,
        }
    }

    /// The status stored under `code`, if any.
    pub open spec fn from_code(code: i32) -> Result<EventStatus, UnknownEventStatus> {
        if code == 0 {
            Ok(EventStatus::Received)
        } else if code == 2 {
            Ok(EventStatus::Reserved)
        } else if code == 4 {
            Ok(EventStatus::Failed)
        } else if code == 5 {
            Ok(EventStatus::Completed)
        } else if code == 7 {
            Ok(EventStatus::Dead)
        } else if code == 8 {
            Ok(EventStatus::Archive)
        } else {
            Err(UnknownEventStatus(code))
        }
    }

    /// The lowercase name of a status.
    pub open spec fn name(self) -> Seq<char> {
        match self {
            EventStatus::Received => "received"@,
            EventStatus::Reserved => "reserved"@,
            EventStatus::Failed => "failed"@,
            EventStatus::Completed => "completed"@,
            EventStatus::Dead => "dead"@,
            EventStatus::Archive => "archive"@,
        }
    }

    /// The stored code of this status.
    pub fn code(&self) -> (c: i32)
        ensures
            c == self.spec_code(),
    {
        match self {
            EventStatus::Received => 0,
            EventStatus::Reserved => 2,
            EventStatus::Failed => 4,
            EventStatus::Completed => 5,
            EventStatus::Dead => 7,
            EventStatus::Archive => 8,
        }
    }

    /// The lowercase name of this status.
    pub fn as_str(&self) -> (s: &'static str)
        ensures
            s@ == self.name(),
    {
        match self {
            EventStatus::Received => "received",
            EventStatus::Reserved => "reserved",
            EventStatus::Failed => "failed",
            EventStatus::Completed => "completed",
            EventStatus::Dead => "dead",
            EventStatus::Archive => "archive",
        }
    }
}

impl TryFrom<i32> for EventStatus {
    type Error = UnknownEventStatus;

    fn try_from(value: i32) -> (r: Result<Self, Self::Error>) {
        match value {
            0 => Ok(EventStatus::Received),
            2 => Ok(EventStatus::Reserved),
            4 => Ok(EventStatus::Failed),
            5 => Ok(EventStatus::Completed),
            7 => Ok(EventStatus::Dead),
            8 => Ok(EventStatus::Archive),
            _ => Err(UnknownEventStatus(value)),
        }
    }
}

impl TryFromSpecImpl<i32> for EventStatus {
    open spec fn obeys_try_from_spec() -> bool {
        true
    }

    open spec fn try_from_spec(v: i32) -> Result<Self, Self::Error> {
        EventStatus::from_code(v)
    }
}

impl From<EventStatus> for i32 {
    fn from(status: EventStatus) -> (c: i32) {
        status.code()
    }
}

impl FromSpecImpl<EventStatus> for i32 {
    open spec fn obeys_from_spec() -> bool {
        true
    }

    open spec fn from_spec(v: EventStatus) -> i32 {
        v.spec_code()
    }
}

/// Every status reads back from its own code, and only the six codes name a status.
pub proof fn lemma_event_status_code_round_trip(status: EventStatus, code: i32)
    ensures
        EventStatus::from_code(status.spec_code()) == Ok::<EventStatus, UnknownEventStatus>(status),
        EventStatus::from_code(code) is Ok <==> (code == 0 || code == 2 || code == 4 || code == 5
            || code == 7 || code == 8),
        EventStatus::from_code(code) matches Ok(s) ==> s.spec_code() == code,
{
}

} // verus!
