//! Event storage vocabulary.

use vstd::prelude::*;

pub use crate::eventing::status::{EventStatus, UnknownEventStatus};
pub use crate::support::{append_error, ExtraInfo};

verus! {

/// One condition or ordering of a storage query over events.
#[derive(Debug, Clone, PartialEq, Eq)]
pub enum Criterion {
    StatusIn(Vec<EventStatus>),
    ScheduledBeforeNow,
    MaxAttempts(i32),
    /// Reserved before this time (milliseconds since the Unix epoch).
    ReservedBefore(i64),
    OrderByScheduledAtAsc,
}

} // verus!
