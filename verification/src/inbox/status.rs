//! Stored status codes.

use vstd::prelude::*;
use vstd::std_specs::convert::{FromSpecImpl, TryFromSpecImpl};

verus! {

/// Persistent inbox status codes.
///
/// Codes are stored as integers and must remain stable. The codes `1`, `3` and `6`
/// are held back for existing data and are never produced.
#[derive(Debug, Clone, Copy, PartialEq, Eq, Structural)]
pub enum InboxStatus {
    /// Stored and awaiting a consumer.
    Received,
    /// Claimed by a consumer; blocked from re-reservation until released.
    Reserved,
    /// Processing attempt failed; scheduled for retry.
    Failed,
    /// Processed successfully.
    Completed,
    /// Retry limit exhausted; no automatic retry follows.
    Dead,
    /// Archived.
    Archive,
}

/// An integer that is no inbox status code.
#[derive(Debug, Clone, Copy, PartialEq, Eq)]
pub struct UnknownInboxStatus(pub i32);

impl InboxStatus {
    /// The stored code of a status.
    pub open spec fn spec_code(self) -> i32 {
        match self {
            InboxStatus::Received => 0,
            InboxStatus::Reserved => 2,
            InboxStatus::Failed => 4,
            InboxStatus::Completed => 5,
            InboxStatus::Dead => 7,
            InboxStatus::Archive => 8,
        }
    }

    /// The status stored under `code`, if any.
    pub open spec fn from_code(code: i32) -> Result<InboxStatus, UnknownInboxStatus> {
        if code == 0 {
            Ok(InboxStatus::Received)
        } else if code == 2 {
            Ok(InboxStatus::Reserved)
        } else if code == 4 {
            Ok(InboxStatus::Failed)
        } else if code == 5 {
            Ok(InboxStatus::Completed)
        } else if code == 7 {
            Ok(InboxStatus::Dead)
        } else if code == 8 {
            Ok(InboxStatus::Archive)
        } else {
            Err(UnknownInboxStatus(code))
        }
    }

    /// The lowercase name of a status.
    pub open spec fn name(self) -> Seq<char> {
        match self {
            InboxStatus::Received => "received"@,
            InboxStatus::Reserved => "reserved"@,
            InboxStatus::Failed => "failed"@,
            InboxStatus::Completed => "completed"@,
            InboxStatus::Dead => "dead"@,
            InboxStatus::Archive => "archive"@,
        }
    }

    /// The stored code of this status.
    pub fn code(&self) -> (c: i32)
        ensures
            c == self.spec_code(),
    {
        match self {
            InboxStatus::Received => 0,
            InboxStatus::Reserved => 2,
            InboxStatus::Failed => 4,
            InboxStatus::Completed => 5,
            InboxStatus::Dead => 7,
            InboxStatus::Archive => 8,
        }
    }

    /// The lowercase name of this status.
    pub fn as_str(&self) -> (s: &'static str)
        ensures
            s@ == self.name(),
    {
        match self {
            InboxStatus::Received => "received",
            InboxStatus::Reserved => "reserved",
            InboxStatus::Failed => "failed",
            InboxStatus::Completed => "completed",
            InboxStatus::Dead => "dead",
            InboxStatus::Archive => "archive",
        }
    }
}

impl TryFrom<i32> for InboxStatus {
    type Error = UnknownInboxStatus;

    fn try_from(value: i32) -> (r: Result<Self, Self::Error>) {
        match value {
            0 => Ok(InboxStatus::Received),
            2 => Ok(InboxStatus::Reserved),
            4 => Ok(InboxStatus::Failed),
            5 => Ok(InboxStatus::Completed),
            7 => Ok(InboxStatus::Dead),
            8 => Ok(InboxStatus::Archive),
            _ => Err(UnknownInboxStatus(value)),
        }
    }
}

impl TryFromSpecImpl<i32> for InboxStatus {
    open spec fn obeys_try_from_spec() -> bool {
        true
    }

    open spec fn try_from_spec(v: i32) -> Result<Self, Self::Error> {
        InboxStatus::from_code(v)
    }
}

impl From<InboxStatus> for i32 {
    fn from(status: InboxStatus) -> (c: i32) {
        status.code()
    }
}

impl FromSpecImpl<InboxStatus> for i32 {
    open spec fn obeys_from_spec() -> bool {
        true
    }

    open spec fn from_spec(v: InboxStatus) -> i32 {
        v.spec_code()
    }
}

/// Every status reads back from its own code, and only the six codes name a status.
pub proof fn lemma_inbox_status_code_round_trip(status: InboxStatus, code: i32)
    ensures
        InboxStatus::from_code(status.spec_code()) == Ok::<InboxStatus, UnknownInboxStatus>(status),
        InboxStatus::from_code(code) is Ok <==> (code == 0 || code == 2 || code == 4 || code == 5
            || code == 7 || code == 8),
        InboxStatus::from_code(code) matches Ok(s) ==> s.spec_code() == code,
{
}

} // verus!
