//! Command storage vocabulary.

use vstd::prelude::*;

pub use crate::commanding::status::{CommandStatus, UnknownCommandStatus};
pub use crate::support::{append_error, ExtraInfo};

verus! {

/// One condition or ordering of a storage query over commands.
#[derive(Debug, Clone, PartialEq, Eq)]
pub enum Criterion {
    StatusIn(Vec<CommandStatus>),
    ScheduledBeforeNow,
    MaxAttempts(i32),
    /// Reserved before this time (milliseconds since the Unix epoch).
    ReservedBefore(i64),
    OrderByScheduledAtAsc,
}

} // verus!
