//! Stored inbox messages and the inbox storage vocabulary.

use vstd::prelude::*;

pub use crate::inbox::status::{InboxStatus, UnknownInboxStatus};
pub use crate::support::{append_error, ExtraInfo};

verus! {

/// A stored inbox message with its whole lifecycle state: status, retry counter and
/// reservation ownership.
#[derive(Debug, Clone, PartialEq, Eq)]
pub struct InboxMessage {
    pub id: u128,
    pub payload: String,
    pub status: InboxStatus,
    /// Next time (milliseconds since the Unix epoch) the message may be reserved.
    pub scheduled_at: i64,
    /// Number of times the message has been reserved, whether or not the holder reported.
    pub attempts: i32,
    /// The current reservation holder; `None` when not reserved.
    pub reservation_id: Option<u128>,
    pub reserved_at: Option<i64>,
}

/// One condition or ordering of the reservation query over inbox messages.
#[derive(Debug, Clone, PartialEq, Eq)]
pub enum Criterion {
    StatusIn(Vec<InboxStatus>),
    ScheduledBeforeNow,
    MaxAttempts(i32),
    OrderByScheduledAtAsc,
}

} // verus!
