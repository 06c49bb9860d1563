//! Stored status codes.

use vstd::prelude::*;
use vstd::std_specs::convert::{FromSpecImpl, TryFromSpecImpl};

verus! {

/// Persistent command status codes.
///
/// Codes are stored as integers and must remain stable. The codes `1`, `3` and `6`
/// are held back for existing data and are never produced.
#[derive(Debug, Clone, Copy, PartialEq, Eq, Structural)]
pub enum CommandStatus {
    /// Stored and awaiting a consumer.
    Received,
    /// Claimed by a consumer; blocked from re-reservation until released.
    Reserved,
    /// Handling attempt failed; scheduled for retry.
    Failed,
    /// Handled successfully.
    Completed,
    /// Retry limit exhausted; no automatic retry follows.
    Dead,
    /// Archived.
    Archive,
}

/// An integer that is no command status code.
#[derive(Debug, Clone, Copy, PartialEq, Eq)]
pub struct UnknownCommandStatus(pub i32);

impl CommandStatus {
    /// The stored code of a status.
    pub open spec fn spec_code(self) -> i32 {
        match self {
            CommandStatus::Received => 0,
            CommandStatus::Reserved => 2,
            CommandStatus::Failed => 4,
            CommandStatus::Completed => 5,
            CommandStatus::Dead => 7,
            CommandStatus::Archive => 8,
        }
    }

    /// The status stored under `code`, if any.
    pub open spec fn from_code(code: i32) -> Result<CommandStatus, UnknownCommandStatus> {
        if code == 0 {
            Ok(CommandStatus::Received)
        } else if code == 2 {
            Ok(CommandStatus::Reserved)
        } else if code == 4 {
            Ok(CommandStatus::Failed)
        } else if code == 5 {
            Ok(CommandStatus::Completed)
        } else if code == 7 {
            Ok(CommandStatus::Dead)
        } else if code == 8 {
            Ok(CommandStatus::Archive)
        } else {
            Err(UnknownCommandStatus(code))
        }
    }

    /// The lowercase name of a status.
    pub open spec fn name(self) -> Seq<char> {
        match self {
            CommandStatus::Received => "received"@,
            CommandStatus::Reserved => "reserved"@,
            CommandStatus::Failed => "failed"@,
            CommandStatus::Completed => "completed"@,
            CommandStatus::Dead => "dead"@,
            CommandStatus::Archive => "archive"@,
        }
    }

    /// The stored code of this status.
    pub fn code(&self) -> (c: i32)
        ensures
            c == self.spec_code(),
    {
        match self {
            CommandStatus::Received => 0,
            CommandStatus::Reserved => 2,
            CommandStatus::Failed => 4,
            CommandStatus::Completed => 5,
            CommandStatus::Dead => 7,
            CommandStatus::Archive => 8,
        }
    }

    /// The lowercase name of this status.
    pub fn as_str(&self) -> (s: &'static str)
        ensures
            s@ == self.name(),
    {
        match self {
            CommandStatus::Received => "received",
            CommandStatus::Reserved => "reserved",
            CommandStatus::Failed => "failed",
            CommandStatus::Completed => "completed",
            CommandStatus::Dead => "dead",
            CommandStatus::Archive => "archive",
        }
    }
}

impl TryFrom<i32> for CommandStatus {
    type Error = UnknownCommandStatus;

    fn try_from(value: i32) -> (r: Result<Self, Self::Error>) {
        match value {
            0 => Ok(CommandStatus::Received),
            2 => Ok(CommandStatus::Reserved),
            4 => Ok(CommandStatus::Failed),
            5 => Ok(CommandStatus::Completed),
            7 => Ok(CommandStatus::Dead),
            8 => Ok(CommandStatus::Archive),
            _ => Err(UnknownCommandStatus(value)),
        }
    }
}

impl TryFromSpecImpl<i32> for CommandStatus {
    open spec fn obeys_try_from_spec() -> bool {
        true
    }

    open spec fn try_from_spec(v: i32) -> Result<Self, Self::Error> {
        CommandStatus::from_code(v)
    }
}

impl From<CommandStatus> for i32 {
    fn from(status: CommandStatus) -> (c: i32) {
        status.code()
    }
}

impl FromSpecImpl<CommandStatus> for i32 {
    open spec fn obeys_from_spec() -> bool {
        true
    }

    open spec fn from_spec(v: CommandStatus) -> i32 {
        v.spec_code()
    }
}

/// Every status reads back from its own code, and only the six codes name a status.
pub proof fn lemma_command_status_code_round_trip(status: CommandStatus, code: i32)
    ensures
        CommandStatus::from_code(status.spec_code()) == Ok::<CommandStatus, UnknownCommandStatus>(status),
        CommandStatus::from_code(code) is Ok <==> (code == 0 || code == 2 || code == 4 || code == 5
            || code == 7 || code == 8),
        CommandStatus::from_code(code) matches Ok(s) ==> s.spec_code() == code,
{
}

} // verus!
